use data_encoding::{BASE64URL_NOPAD, HEXUPPER};
use jwa::{
    aes_gcm_decrypt, aes_gcm_encrypt, rng, AesGcm, AlgorithmParameters, ContentEncryptionAlgorithm,
    Jwk, KeyManagementAlgorithm, Secret, SignatureAlgorithm,
};
use ring::rand::SecureRandom;

fn random_key(len: usize) -> Vec<u8> {
    let mut key: Vec<u8> = vec![0; len];
    rng().fill(&mut key).unwrap();
    key
}

fn octet_jwk(value: Vec<u8>) -> Jwk {
    Jwk {
        params: AlgorithmParameters::OctetKey(value),
        public_key_use: None,
        algorithm: None,
    }
}

#[test]
fn sign_and_verify_none() {
    let expected_signature: Vec<u8> = vec![];
    let actual_signature = SignatureAlgorithm::NoSignature
        .sign("payload".to_string().as_bytes(), &Secret::NoSecret)
        .unwrap();
    assert_eq!(expected_signature, actual_signature);

    let valid = SignatureAlgorithm::NoSignature
        .verify(vec![].as_slice(), "payload".to_string().as_bytes(), &Secret::NoSecret)
        .unwrap();
    assert!(valid);
}

#[test]
fn sign_and_verify_hs256() {
    let expected_base64 = "uC_LeRrOxXhZuYm0MKgmSIzi5Hn9-SMmvQoug3WkK6Q";
    let expected_bytes: Vec<u8> = BASE64URL_NOPAD.decode(expected_base64.as_bytes()).unwrap();

    let actual_signature = SignatureAlgorithm::HS256
        .sign("payload".to_string().as_bytes(), &Secret::bytes_from_str("secret"))
        .unwrap();
    assert_eq!(&*BASE64URL_NOPAD.encode(&actual_signature), expected_base64);

    let valid = SignatureAlgorithm::HS256
        .verify(
            expected_bytes.as_slice(),
            "payload".to_string().as_bytes(),
            &Secret::bytes_from_str("secret"),
        )
        .unwrap();
    assert!(valid);
}

#[test]
#[should_panic(expected = "UnsupportedOperation")]
fn sign_ecdsa() {
    let private_key = Secret::Bytes("secret".to_string().into_bytes());
    let payload = "payload".to_string();
    let payload_bytes = payload.as_bytes();

    SignatureAlgorithm::ES256.sign(payload_bytes, &private_key).unwrap();
}

#[test]
fn verify_es256() {
    let payload = "sample".to_string();
    let payload_bytes = payload.as_bytes();
    let public_key = "0460FED4BA255A9D31C961EB74C6356D68C049B8923B61FA6CE669622E60F29FB67903FE1008B8BC99A41AE9E9562\
                      8BC64F2F1B20C2D7E9F5177A3C294D4462299";
    let public_key = Secret::PublicKey(HEXUPPER.decode(public_key.as_bytes()).unwrap());
    let signature = "3046022100EFD48B2AACB6A8FD1140DD9CD45E81D69D2C877B56AAF991C34D0EA84EAF3716022100F7CB1C942D657C\
                     41D436C7A1B6E29F65F3E900DBB9AFF4064DC4AB2F843ACDA8";
    let signature_bytes: Vec<u8> = HEXUPPER.decode(signature.as_bytes()).unwrap();
    let valid = SignatureAlgorithm::ES256
        .verify(signature_bytes.as_slice(), payload_bytes, &public_key)
        .unwrap();
    assert!(valid);
}

#[test]
fn verify_es384() {
    let payload = "sample".to_string();
    let payload_bytes = payload.as_bytes();
    let public_key = "04EC3A4E415B4E19A4568618029F427FA5DA9A8BC4AE92E02E06AAE5286B300C64DEF8F0EA9055866064A25451548\
                      0BC138015D9B72D7D57244EA8EF9AC0C621896708A59367F9DFB9F54CA84B3F1C9DB1288B231C3AE0D4FE7344FD25\
                      33264720";
    let public_key = Secret::PublicKey(HEXUPPER.decode(public_key.as_bytes()).unwrap());
    let signature = "306602310094EDBB92A5ECB8AAD4736E56C691916B3F88140666CE9FA73D64C4EA95AD133C81A648152E44ACF96E36\
                     DD1E80FABE4602310099EF4AEB15F178CEA1FE40DB2603138F130E740A19624526203B6351D0A3A94FA329C145786E\
                     679E7B82C71A38628AC8";
    let signature_bytes: Vec<u8> = HEXUPPER.decode(signature.as_bytes()).unwrap();
    let valid = SignatureAlgorithm::ES384
        .verify(signature_bytes.as_slice(), payload_bytes, &public_key)
        .unwrap();
    assert!(valid);
}

#[test]
#[should_panic(expected = "UnsupportedOperation")]
fn verify_es512() {
    let payload: Vec<u8> = vec![];
    let signature: Vec<u8> = vec![];
    let public_key = Secret::PublicKey(vec![]);
    SignatureAlgorithm::ES512
        .verify(signature.as_slice(), payload.as_slice(), &public_key)
        .unwrap();
}

#[test]
fn invalid_none() {
    let invalid_signature = "broken".to_string();
    let signature_bytes = invalid_signature.as_bytes();
    let valid = SignatureAlgorithm::NoSignature
        .verify(signature_bytes, "payload".to_string().as_bytes(), &Secret::NoSecret)
        .unwrap();
    assert!(!valid);
}

#[test]
fn invalid_hs256() {
    let invalid_signature = "broken".to_string();
    let signature_bytes = invalid_signature.as_bytes();
    let valid = SignatureAlgorithm::HS256
        .verify(
            signature_bytes,
            "payload".to_string().as_bytes(),
            &Secret::Bytes("secret".to_string().into_bytes()),
        )
        .unwrap();
    assert!(!valid);
}

#[test]
fn rng_is_created() {
    let rng = rng();
    let mut random: Vec<u8> = vec![0; 8];
    rng.fill(&mut random).unwrap();
}

#[test]
fn aes_gcm_128_encryption_round_trip() {
    const PAYLOAD: &str = "这个世界值得我们奋战！";
    let key = octet_jwk(random_key(128 / 8));

    let encrypted = aes_gcm_encrypt(AesGcm::Aes128, PAYLOAD.as_bytes(), &vec![], &key).unwrap();
    let decrypted = aes_gcm_decrypt(AesGcm::Aes128, &encrypted, &key).unwrap();

    let payload = String::from_utf8(decrypted).unwrap();
    assert_eq!(payload, PAYLOAD);
}

#[test]
fn aes_gcm_256_encryption_round_trip() {
    const PAYLOAD: &str = "这个世界值得我们奋战！";
    let key = octet_jwk(random_key(256 / 8));

    let encrypted = aes_gcm_encrypt(AesGcm::Aes256, PAYLOAD.as_bytes(), &vec![], &key).unwrap();
    let decrypted = aes_gcm_decrypt(AesGcm::Aes256, &encrypted, &key).unwrap();

    let payload = String::from_utf8(decrypted).unwrap();
    assert_eq!(payload, PAYLOAD);
}

#[test]
fn dir_cek_returns_provided_key() {
    let key = octet_jwk(random_key(256 / 8));

    let cek_alg = KeyManagementAlgorithm::DirectSymmetricKey;
    let cek = cek_alg.cek(ContentEncryptionAlgorithm::A256GCM, &key).unwrap();

    assert_eq!(cek.octet_key().unwrap(), key.octet_key().unwrap());
}

#[test]
fn cek_aes128gcmkw_returns_right_key_length() {
    let key = octet_jwk(random_key(128 / 8));

    let cek_alg = KeyManagementAlgorithm::A128GCMKW;
    let cek = cek_alg.cek(ContentEncryptionAlgorithm::A128GCM, &key).unwrap();
    assert_eq!(cek.octet_key().unwrap().len(), 128 / 8);
    assert_ne!(cek.octet_key().unwrap(), key.octet_key().unwrap());

    let cek = cek_alg.cek(ContentEncryptionAlgorithm::A256GCM, &key).unwrap();
    assert_eq!(cek.octet_key().unwrap().len(), 256 / 8);
    assert_ne!(cek.octet_key().unwrap(), key.octet_key().unwrap());
}

#[test]
fn cek_aes256gcmkw_returns_right_key_length() {
    let key = octet_jwk(random_key(256 / 8));

    let cek_alg = KeyManagementAlgorithm::A256GCMKW;
    let cek = cek_alg.cek(ContentEncryptionAlgorithm::A128GCM, &key).unwrap();
    assert_eq!(cek.octet_key().unwrap().len(), 128 / 8);
    assert_ne!(cek.octet_key().unwrap(), key.octet_key().unwrap());

    let cek = cek_alg.cek(ContentEncryptionAlgorithm::A256GCM, &key).unwrap();
    assert_eq!(cek.octet_key().unwrap().len(), 256 / 8);
    assert_ne!(cek.octet_key().unwrap(), key.octet_key().unwrap());
}

#[test]
fn aes128gcmkw_key_encryption_round_trip() {
    let key = octet_jwk(random_key(128 / 8));

    let cek_alg = KeyManagementAlgorithm::A128GCMKW;
    let enc_alg = ContentEncryptionAlgorithm::A128GCM;
    let cek = cek_alg.cek(enc_alg, &key).unwrap();

    let encrypted_cek = cek_alg.encrypt(cek.octet_key().unwrap(), &key).unwrap();
    let decrypted_cek = cek_alg.decrypt(&encrypted_cek, enc_alg, &key).unwrap();

    assert_eq!(cek.octet_key().unwrap(), decrypted_cek.octet_key().unwrap());
}

#[test]
fn aes256gcmkw_key_encryption_round_trip() {
    let key = octet_jwk(random_key(256 / 8));

    let cek_alg = KeyManagementAlgorithm::A256GCMKW;
    let enc_alg = ContentEncryptionAlgorithm::A128GCM;
    let cek = cek_alg.cek(enc_alg, &key).unwrap();

    let encrypted_cek = cek_alg.encrypt(cek.octet_key().unwrap(), &key).unwrap();
    let decrypted_cek = cek_alg.decrypt(&encrypted_cek, enc_alg, &key).unwrap();

    assert_eq!(cek.octet_key().unwrap(), decrypted_cek.octet_key().unwrap());
}

#[test]
fn aes128gcm_key_length() {
    let enc_alg = ContentEncryptionAlgorithm::A128GCM;
    let cek = enc_alg.generate_key().unwrap();
    assert_eq!(cek.len(), 128 / 8);
}

#[test]
fn aes256gcm_key_length() {
    let enc_alg = ContentEncryptionAlgorithm::A256GCM;
    let cek = enc_alg.generate_key().unwrap();
    assert_eq!(cek.len(), 256 / 8);
}

#[test]
fn aes128gcm_encryption_round_trip() {
    let key = octet_jwk(random_key(128 / 8));

    let payload = "狼よ、我が敵を食らえ！";
    let aad = "My servants never die!";
    let enc_alg = ContentEncryptionAlgorithm::A128GCM;
    let encrypted_payload = enc_alg.encrypt(payload.as_bytes(), aad.as_bytes(), &key).unwrap();

    let decrypted_payload = enc_alg.decrypt(&encrypted_payload, &key).unwrap();
    assert_eq!(payload.as_bytes(), decrypted_payload.as_slice());
}

#[test]
fn aes1256gcm_encryption_round_trip() {
    let key = octet_jwk(random_key(256 / 8));

    let payload = "狼よ、我が敵を食らえ！";
    let aad = "My servants never die!";
    let enc_alg = ContentEncryptionAlgorithm::A256GCM;
    let encrypted_payload = enc_alg.encrypt(payload.as_bytes(), aad.as_bytes(), &key).unwrap();

    let decrypted_payload = enc_alg.decrypt(&encrypted_payload, &key).unwrap();
    assert_eq!(payload.as_bytes(), decrypted_payload.as_slice());
}
