use jwa::{
    AlgorithmParameters, ContentEncryptionAlgorithm, EncryptionResult, Error, Jwk,
    KeyManagementAlgorithm, KeyManagementAlgorithmType, KeyType, PublicKeyUse, Secret,
    SignatureAlgorithm,
};
use jwa::Algorithm;
use jwa::KeyManagementAlgorithm as K;
use jwa::KeyManagementAlgorithmType as T;

fn key_of(len: usize) -> Jwk {
    let value: Vec<u8> = (0..len).map(|i| (i * 7 + 3) as u8).collect();
    Jwk::new_octet_key(value)
}

fn rsa_jwk() -> Jwk {
    Jwk {
        params: AlgorithmParameters::Rsa(vec![1, 2, 3]),
        public_key_use: Some(PublicKeyUse::Signature),
        algorithm: None,
    }
}

fn payload() -> Vec<u8> {
    b"attack at dawn".to_vec()
}

#[test]
fn gcm_round_trip_both_sizes_with_aad() {
    for (alg, len) in [
        (ContentEncryptionAlgorithm::A128GCM, 16),
        (ContentEncryptionAlgorithm::A256GCM, 32),
    ] {
        let key = key_of(len);
        let enc = alg.encrypt(&payload(), b"header", &key).unwrap();
        assert_eq!(enc.nonce.len(), 12);
        assert_eq!(enc.tag.len(), 16);
        assert_eq!(enc.encrypted.len(), payload().len());
        assert_eq!(enc.additional_data, b"header".to_vec());
        assert_ne!(enc.encrypted, payload());
        assert_eq!(alg.decrypt(&enc, &key).unwrap(), payload());
    }
}

#[test]
fn gcm_round_trip_empty_payload() {
    let key = key_of(16);
    let alg = ContentEncryptionAlgorithm::A128GCM;
    let enc = alg.encrypt(&[], &[], &key).unwrap();
    assert!(enc.encrypted.is_empty());
    assert_eq!(enc.tag.len(), 16);
    assert_eq!(alg.decrypt(&enc, &key).unwrap(), Vec::<u8>::new());
}

#[test]
fn gcm_nonces_differ_between_calls() {
    let key = key_of(32);
    let alg = ContentEncryptionAlgorithm::A256GCM;
    let a = alg.encrypt(&payload(), &[], &key).unwrap();
    let b = alg.encrypt(&payload(), &[], &key).unwrap();
    assert_ne!(a.nonce, b.nonce);
    assert_ne!(a.encrypted, b.encrypted);
}

#[test]
fn gcm_tampering_is_detected() {
    for (alg, len) in [
        (ContentEncryptionAlgorithm::A128GCM, 16),
        (ContentEncryptionAlgorithm::A256GCM, 32),
    ] {
        let key = key_of(len);
        let enc = alg.encrypt(&payload(), b"header", &key).unwrap();

        let mut bad = enc.clone();
        bad.encrypted[0] ^= 1;
        assert_eq!(alg.decrypt(&bad, &key), Err(Error::AuthenticationFailure));

        let mut bad = enc.clone();
        bad.tag[15] ^= 0x80;
        assert_eq!(alg.decrypt(&bad, &key), Err(Error::AuthenticationFailure));

        let mut bad = enc.clone();
        bad.additional_data[2] ^= 4;
        assert_eq!(alg.decrypt(&bad, &key), Err(Error::AuthenticationFailure));

        let mut bad = enc.clone();
        bad.nonce[0] ^= 1;
        assert_eq!(alg.decrypt(&bad, &key), Err(Error::AuthenticationFailure));
    }
}

#[test]
fn gcm_wrong_key_is_an_authentication_failure() {
    let alg = ContentEncryptionAlgorithm::A128GCM;
    let enc = alg.encrypt(&payload(), &[], &key_of(16)).unwrap();
    let mut other = key_of(16);
    if let AlgorithmParameters::OctetKey(v) = &mut other.params {
        v[0] ^= 1;
    }
    assert_eq!(alg.decrypt(&enc, &other), Err(Error::AuthenticationFailure));
}

#[test]
fn gcm_key_of_wrong_length_is_refused() {
    let alg = ContentEncryptionAlgorithm::A256GCM;
    assert_eq!(
        alg.encrypt(&payload(), &[], &key_of(16)).unwrap_err(),
        Error::UnspecifiedCryptographicError
    );
}

#[test]
fn gcm_needs_a_symmetric_key() {
    let alg = ContentEncryptionAlgorithm::A128GCM;
    let expected = Error::UnexpectedKeyType { expected: KeyType::Octet, actual: KeyType::Rsa };
    assert_eq!(alg.encrypt(&payload(), &[], &rsa_jwk()).unwrap_err(), expected);
    let enc = alg.encrypt(&payload(), &[], &key_of(16)).unwrap();
    assert_eq!(alg.decrypt(&enc, &rsa_jwk()), Err(expected));
}

#[test]
fn unsupported_content_algorithms() {
    for alg in [
        ContentEncryptionAlgorithm::A128CBC_HS256,
        ContentEncryptionAlgorithm::A192CBC_HS384,
        ContentEncryptionAlgorithm::A256CBC_HS512,
        ContentEncryptionAlgorithm::A192GCM,
    ] {
        assert_eq!(alg.generate_key(), Err(Error::UnsupportedOperation));
        assert_eq!(
            alg.encrypt(&payload(), &[], &key_of(24)).unwrap_err(),
            Error::UnsupportedOperation
        );
        assert_eq!(
            alg.decrypt(&EncryptionResult::default(), &key_of(24)),
            Err(Error::UnsupportedOperation)
        );
    }
}

#[test]
fn hmac_round_trips_and_lengths() {
    let secret = Secret::bytes_from_str("a shared secret");
    for (alg, len) in [
        (SignatureAlgorithm::HS256, 32),
        (SignatureAlgorithm::HS384, 48),
        (SignatureAlgorithm::HS512, 64),
    ] {
        let sig = alg.sign(&payload(), &secret).unwrap();
        assert_eq!(sig.len(), len);
        assert!(alg.verify(&sig, &payload(), &secret).unwrap());
        assert!(!alg.verify(&sig, b"attack at dusk", &secret).unwrap());
        assert!(!alg.verify(&sig[..len - 1], &payload(), &secret).unwrap());
    }
}

#[test]
fn hmac_digests_differ() {
    let secret = Secret::bytes_from_str("secret");
    let a = SignatureAlgorithm::HS256.sign(b"payload", &secret).unwrap();
    let b = SignatureAlgorithm::HS512.sign(b"payload", &secret).unwrap();
    assert_ne!(&a[..], &b[..32]);
}

#[test]
fn none_accepts_only_the_empty_signature() {
    let alg = SignatureAlgorithm::NoSignature;
    assert!(alg.verify(&[], b"anything", &Secret::NoSecret).unwrap());
    assert!(alg.verify(&[], b"", &Secret::NoSecret).unwrap());
    assert!(!alg.verify(&[0], b"anything", &Secret::NoSecret).unwrap());
}

#[test]
fn wrong_secret_types_are_refused() {
    let bytes = Secret::bytes_from_str("secret");
    assert_eq!(
        SignatureAlgorithm::NoSignature.sign(b"p", &bytes),
        Err(Error::InvalidSecretType)
    );
    assert_eq!(
        SignatureAlgorithm::NoSignature.verify(&[], b"p", &bytes),
        Err(Error::InvalidSecretType)
    );
    assert_eq!(SignatureAlgorithm::HS256.sign(b"p", &Secret::NoSecret), Err(Error::InvalidSecretType));
    assert_eq!(
        SignatureAlgorithm::HS384.verify(&[], b"p", &Secret::PublicKey(vec![4])),
        Err(Error::InvalidSecretType)
    );
    assert_eq!(SignatureAlgorithm::RS256.sign(b"p", &bytes), Err(Error::InvalidSecretType));
    assert_eq!(SignatureAlgorithm::PS512.verify(&[], b"p", &bytes), Err(Error::InvalidSecretType));
}

#[test]
fn ecdsa_signing_is_unsupported() {
    let secret = Secret::bytes_from_str("secret");
    for alg in [SignatureAlgorithm::ES256, SignatureAlgorithm::ES384, SignatureAlgorithm::ES512] {
        assert_eq!(alg.sign(b"p", &secret), Err(Error::UnsupportedOperation));
        assert_eq!(alg.sign(b"p", &Secret::NoSecret), Err(Error::UnsupportedOperation));
    }
    assert_eq!(
        SignatureAlgorithm::ES512.verify(&[], b"p", &Secret::NoSecret),
        Err(Error::UnsupportedOperation)
    );
}

#[test]
fn es256_rejects_other_message_and_garbage_key() {
    let public_key = data_encoding::HEXUPPER
        .decode(b"0460FED4BA255A9D31C961EB74C6356D68C049B8923B61FA6CE669622E60F29FB67903FE1008B8BC99A41AE9E95628BC64F2F1B20C2D7E9F5177A3C294D4462299")
        .unwrap();
    let signature = data_encoding::HEXUPPER
        .decode(b"3046022100EFD48B2AACB6A8FD1140DD9CD45E81D69D2C877B56AAF991C34D0EA84EAF3716022100F7CB1C942D657C41D436C7A1B6E29F65F3E900DBB9AFF4064DC4AB2F843ACDA8")
        .unwrap();
    let secret = Secret::PublicKey(public_key);
    assert!(!SignatureAlgorithm::ES256.verify(&signature, b"simple", &secret).unwrap());
    assert!(!SignatureAlgorithm::ES384.verify(&signature, b"sample", &secret).unwrap());
    assert!(!SignatureAlgorithm::RS256
        .verify(b"broken", b"payload", &Secret::PublicKey(b"not a key".to_vec()))
        .unwrap());
}

#[test]
fn rsa_key_that_does_not_parse_is_invalid() {
    assert!(matches!(Secret::rsa_keypair_from_der(b"not der"), Err(Error::InvalidKey)));
}

#[test]
fn algorithm_type_spot_checks() {
    assert_eq!(K::A128GCMKW.algorithm_type(), T::SymmetricKeyWrapping);
    assert_eq!(K::PBES2_HS384_A192KW.algorithm_type(), T::SymmetricKeyWrapping);
    assert_eq!(K::A192KW.algorithm_type(), T::SymmetricKeyWrapping);
    assert_eq!(K::RSA_OAEP.algorithm_type(), T::AsymmetricKeyEncryption);
    assert_eq!(K::RSA1_5.algorithm_type(), T::AsymmetricKeyEncryption);
    assert_eq!(K::DirectSymmetricKey.algorithm_type(), T::DirectEncryption);
    assert_eq!(K::ECDH_ES.algorithm_type(), T::DirectKeyAgreement);
    assert_eq!(K::ECDH_ES_A128KW.algorithm_type(), T::KeyAgreementWithKeyWrapping);
    assert_eq!(K::ECDH_ES_A256KW.algorithm_type(), T::KeyAgreementWithKeyWrapping);
}

#[test]
fn defaults() {
    assert_eq!(SignatureAlgorithm::default(), SignatureAlgorithm::HS256);
    assert_eq!(KeyManagementAlgorithm::default(), KeyManagementAlgorithm::DirectSymmetricKey);
    assert_eq!(ContentEncryptionAlgorithm::default(), ContentEncryptionAlgorithm::A128GCM);
    let empty = EncryptionResult::default();
    assert!(empty.nonce.is_empty() && empty.encrypted.is_empty());
    assert!(empty.tag.is_empty() && empty.additional_data.is_empty());
}

#[test]
fn direct_key_management() {
    let alg = KeyManagementAlgorithm::DirectSymmetricKey;
    let key = key_of(32);
    let wrapped = alg.encrypt(b"ignored", &key).unwrap();
    assert!(wrapped.encrypted.is_empty() && wrapped.tag.is_empty() && wrapped.nonce.is_empty());
    let unwrapped = alg.decrypt(&wrapped, ContentEncryptionAlgorithm::A256GCM, &key).unwrap();
    assert_eq!(unwrapped.octet_key().unwrap(), key.octet_key().unwrap());
    assert_eq!(
        alg.cek(ContentEncryptionAlgorithm::A128GCM, &rsa_jwk()).unwrap_err(),
        Error::UnexpectedKeyType { expected: KeyType::Octet, actual: KeyType::Rsa }
    );
}

#[test]
fn wrapped_cek_carries_its_metadata() {
    let alg = KeyManagementAlgorithm::A128GCMKW;
    let key = key_of(16);
    let cek = alg.cek(ContentEncryptionAlgorithm::A256GCM, &key).unwrap();
    assert_eq!(cek.key_type(), KeyType::Octet);
    assert_eq!(cek.public_key_use, Some(PublicKeyUse::Encryption));
    assert_eq!(
        cek.algorithm,
        Some(Algorithm::ContentEncryption(ContentEncryptionAlgorithm::A256GCM))
    );
    let wrapped = alg.encrypt(cek.octet_key().unwrap(), &key).unwrap();
    assert!(wrapped.additional_data.is_empty());
    let unwrapped = alg.decrypt(&wrapped, ContentEncryptionAlgorithm::A256GCM, &key).unwrap();
    assert_eq!(unwrapped.octet_key().unwrap(), cek.octet_key().unwrap());
    assert_eq!(unwrapped.algorithm, cek.algorithm);
    assert_eq!(
        alg.cek(ContentEncryptionAlgorithm::A192GCM, &key).unwrap_err(),
        Error::UnsupportedOperation
    );
}

#[test]
fn unsupported_key_management_algorithms() {
    let key = key_of(24);
    for alg in [
        K::RSA1_5,
        K::RSA_OAEP,
        K::RSA_OAEP_256,
        K::A128KW,
        K::A192KW,
        K::A256KW,
        K::ECDH_ES,
        K::ECDH_ES_A128KW,
        K::ECDH_ES_A192KW,
        K::ECDH_ES_A256KW,
        K::A192GCMKW,
        K::PBES2_HS256_A128KW,
        K::PBES2_HS384_A192KW,
        K::PBES2_HS512_A256KW,
    ] {
        assert_eq!(
            alg.cek(ContentEncryptionAlgorithm::A128GCM, &key).unwrap_err(),
            Error::UnsupportedOperation
        );
        assert_eq!(alg.encrypt(b"cek", &key).unwrap_err(), Error::UnsupportedOperation);
        assert_eq!(
            alg.decrypt(&EncryptionResult::default(), ContentEncryptionAlgorithm::A128GCM, &key)
                .unwrap_err(),
            Error::UnsupportedOperation
        );
    }
}

#[test]
fn tokens_round_trip() {
    let mut all: Vec<Algorithm> = Vec::new();
    for s in [
        SignatureAlgorithm::NoSignature,
        SignatureAlgorithm::HS256,
        SignatureAlgorithm::HS384,
        SignatureAlgorithm::HS512,
        SignatureAlgorithm::RS256,
        SignatureAlgorithm::RS384,
        SignatureAlgorithm::RS512,
        SignatureAlgorithm::ES256,
        SignatureAlgorithm::ES384,
        SignatureAlgorithm::ES512,
        SignatureAlgorithm::PS256,
        SignatureAlgorithm::PS384,
        SignatureAlgorithm::PS512,
    ] {
        all.push(Algorithm::Signature(s));
    }
    for k in [
        K::RSA1_5,
        K::RSA_OAEP,
        K::RSA_OAEP_256,
        K::A128KW,
        K::A192KW,
        K::A256KW,
        K::DirectSymmetricKey,
        K::ECDH_ES,
        K::ECDH_ES_A128KW,
        K::ECDH_ES_A192KW,
        K::ECDH_ES_A256KW,
        K::A128GCMKW,
        K::A192GCMKW,
        K::A256GCMKW,
        K::PBES2_HS256_A128KW,
        K::PBES2_HS384_A192KW,
        K::PBES2_HS512_A256KW,
    ] {
        all.push(Algorithm::KeyManagement(k));
    }
    for c in [
        ContentEncryptionAlgorithm::A128CBC_HS256,
        ContentEncryptionAlgorithm::A192CBC_HS384,
        ContentEncryptionAlgorithm::A256CBC_HS512,
        ContentEncryptionAlgorithm::A128GCM,
        ContentEncryptionAlgorithm::A192GCM,
        ContentEncryptionAlgorithm::A256GCM,
    ] {
        all.push(Algorithm::ContentEncryption(c));
    }
    assert_eq!(all.len(), 36);
    for a in &all {
        assert_eq!(Algorithm::from_token(a.token()), Some(*a));
    }
}

#[test]
fn tokens_are_the_rfc_identifiers() {
    assert_eq!(SignatureAlgorithm::NoSignature.token(), "none");
    assert_eq!(K::RSA_OAEP_256.token(), "RSA-OAEP-256");
    assert_eq!(K::DirectSymmetricKey.token(), "dir");
    assert_eq!(K::ECDH_ES_A128KW.token(), "ECDH-ES+A128KW");
    assert_eq!(K::PBES2_HS512_A256KW.token(), "PBES2-HS512+A256KW");
    assert_eq!(ContentEncryptionAlgorithm::A128CBC_HS256.token(), "A128CBC-HS256");
    assert_eq!(
        Algorithm::from_token("RSA-OAEP"),
        Some(Algorithm::KeyManagement(K::RSA_OAEP))
    );
    assert_eq!(
        Algorithm::from_token("A128GCM"),
        Some(Algorithm::ContentEncryption(ContentEncryptionAlgorithm::A128GCM))
    );
    assert_eq!(Algorithm::from_token("HS256"), Some(Algorithm::Signature(SignatureAlgorithm::HS256)));
    assert_eq!(SignatureAlgorithm::from_token("dir"), None);
}

#[test]
fn unknown_tokens_decode_to_nothing() {
    assert_eq!(Algorithm::from_token(""), None);
    assert_eq!(Algorithm::from_token("hs256"), None);
    assert_eq!(Algorithm::from_token("RSA_OAEP"), None);
    assert_eq!(Algorithm::from_token("A128GCM "), None);
    assert_eq!(KeyManagementAlgorithm::from_token("A128GCM"), None);
}

#[test]
fn sealed_result_assembles_or_reports() {
    let ok = jwa::sealed_result(vec![9; 12], Ok((vec![1, 2], vec![3; 16])), b"aad");
    let res = ok.unwrap();
    assert_eq!(res.nonce, vec![9; 12]);
    assert_eq!(res.encrypted, vec![1, 2]);
    assert_eq!(res.tag, vec![3; 16]);
    assert_eq!(res.additional_data, b"aad".to_vec());
    let failed = jwa::sealed_result(vec![9; 12], Err(ring::error::Unspecified), b"aad");
    assert_eq!(failed.unwrap_err(), Error::UnspecifiedCryptographicError);
}

#[test]
fn encryption_results_compare_by_fields() {
    let key = key_of(16);
    let alg = ContentEncryptionAlgorithm::A128GCM;
    let enc = alg.encrypt(&payload(), b"h", &key).unwrap();
    assert_eq!(enc, enc.clone());
    let mut other = enc.clone();
    other.tag[0] ^= 1;
    assert_ne!(enc, other);
    assert_eq!(EncryptionResult::default(), EncryptionResult::default());
}

#[test]
fn rsa_signing_with_unparsable_key_fails() {
    let secret = Secret::RsaKeyPair(b"not a key".to_vec());
    for alg in [SignatureAlgorithm::RS256, SignatureAlgorithm::PS384] {
        assert_eq!(alg.sign(b"payload", &secret), Err(Error::UnspecifiedCryptographicError));
    }
}

#[test]
fn hmac_verify_rejects_truncated_and_extended_tags() {
    let secret = Secret::bytes_from_str("secret");
    let alg = SignatureAlgorithm::HS256;
    let mut sig = alg.sign(b"payload", &secret).unwrap();
    assert!(alg.verify(&sig, b"payload", &secret).unwrap());
    sig.push(0);
    assert!(!alg.verify(&sig, b"payload", &secret).unwrap());
    assert!(!alg.verify(&[], b"payload", &secret).unwrap());
}
