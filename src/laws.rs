//! Laws that relate the algorithms' operations to one another.
use vstd::prelude::*;

use crate::catalog::{ContentEncryptionAlgorithm, KeyManagementAlgorithm, SignatureAlgorithm};
use crate::encryption::EncryptionResult;
use crate::error::Error;
use crate::key::{Jwk, Secret};
use crate::primitives::{gcm_lengths_ok, rsa_public_key_of, seals_to};

verus! {

/// Content encryption round trip: with a supported content encryption
/// algorithm, decrypting what `encrypt` produced, under the same key, gives
/// back the payload.
pub proof fn encryption_round_trip(
    alg: ContentEncryptionAlgorithm,
    payload: Seq<u8>,
    aad: Seq<u8>,
    key: Jwk,
    encrypted: EncryptionResult,
    decrypted: Result<Vec<u8>, Error>,
)
    requires
        alg.spec_aes_gcm() is Some,
        alg.encrypt_result(payload, aad, key, Ok(encrypted)),
        alg.decrypt_result(encrypted, key, decrypted),
    ensures
        decrypted is Ok && decrypted->Ok_0@ == payload,
{
    let k = key.octet_value()->0;
    assert(crate::primitives::seals_to(
        alg.spec_aes_gcm()->0,
        k,
        encrypted.nonce@,
        encrypted.additional_data@,
        payload,
        encrypted.sealed(),
    ));
}

/// With a symmetric key of the algorithm's length and data within GCM's
/// limits, encryption fails only when the random source does, and what it
/// returns has a 12-byte nonce, a 16-byte tag, a ciphertext as long as the
/// payload and the associated data unchanged.
pub proof fn encryption_with_valid_key(
    alg: ContentEncryptionAlgorithm,
    payload: Seq<u8>,
    aad: Seq<u8>,
    key: Jwk,
    encrypted: Result<EncryptionResult, Error>,
)
    requires
        alg.spec_aes_gcm() is Some,
        key.octet_value() matches Some(k) && k.len() == alg.spec_aes_gcm()->0.key_len(),
        gcm_lengths_ok(aad.len(), payload.len()),
        alg.encrypt_result(payload, aad, key, encrypted),
    ensures
        encrypted matches Err(e) ==> e == Error::RandomGenerationFailure,
        encrypted matches Ok(res) ==> {
            &&& res.nonce@.len() == 12
            &&& res.tag@.len() == 16
            &&& res.encrypted@.len() == payload.len()
            &&& res.additional_data@ == aad
        },
{
}

/// Decryption rejects, with `AuthenticationFailure`, every input that is not
/// the AES-GCM sealing of some plaintext under the key, nonce and associated
/// data it carries: an altered ciphertext, tag or associated data is rejected
/// unless the alteration is itself such a sealing.
pub proof fn unsealed_input_is_rejected(
    alg: ContentEncryptionAlgorithm,
    encrypted: EncryptionResult,
    key: Jwk,
    decrypted: Result<Vec<u8>, Error>,
)
    requires
        alg.spec_aes_gcm() is Some,
        key.octet_value() is Some,
        forall|p: Seq<u8>|
            !seals_to(
                alg.spec_aes_gcm()->0,
                key.octet_value()->0,
                encrypted.nonce@,
                encrypted.additional_data@,
                p,
                encrypted.sealed(),
            ),
        alg.decrypt_result(encrypted, key, decrypted),
    ensures
        decrypted == Err::<Vec<u8>, Error>(Error::AuthenticationFailure),
{
    if let Ok(p) = decrypted {
        assert(!seals_to(
            alg.spec_aes_gcm()->0,
            key.octet_value()->0,
            encrypted.nonce@,
            encrypted.additional_data@,
            p@,
            encrypted.sealed(),
        ));
    }
}

/// Key wrapping round trip: with a supported AES-GCM key-wrapping algorithm,
/// unwrapping what `encrypt` wrapped, under the same key, gives a content key
/// for the chosen content algorithm that holds the wrapped bytes.
pub proof fn key_wrap_round_trip(
    alg: KeyManagementAlgorithm,
    content_alg: ContentEncryptionAlgorithm,
    cek: Seq<u8>,
    key: Jwk,
    encrypted: EncryptionResult,
    decrypted: Result<Jwk, Error>,
)
    requires
        alg.spec_aes_gcm_wrap() is Some,
        alg.encrypt_result(cek, key, Ok(encrypted)),
        alg.decrypt_result(encrypted, content_alg, key, decrypted),
    ensures
        decrypted matches Ok(c) && crate::key_management::content_key(c, content_alg, cek),
{
    let k = key.octet_value()->0;
    assert(crate::primitives::seals_to(
        alg.spec_aes_gcm_wrap()->0,
        k,
        encrypted.nonce@,
        encrypted.additional_data@,
        cek,
        encrypted.sealed(),
    ));
}

/// Signature correctness: for `none` and the HMAC algorithms, a signature made
/// by `sign` verifies with the same secret over the same data.
pub proof fn signature_round_trip(
    alg: SignatureAlgorithm,
    data: Seq<u8>,
    secret: Secret,
    signature: Vec<u8>,
    verified: Result<bool, Error>,
)
    requires
        alg == SignatureAlgorithm::NoSignature || alg.spec_hmac_digest() is Some,
        alg.signed(data, &secret, Ok(signature)),
        alg.verified(signature@, data, &secret, verified),
    ensures
        verified == Ok::<bool, Error>(true),
{
}

/// Signature correctness for RSA: a signature that `sign` made with a key
/// pair verifies, in the same algorithm, under that key pair's public key.
pub proof fn rsa_signature_round_trip(
    alg: SignatureAlgorithm,
    data: Seq<u8>,
    private_key: Vec<u8>,
    public_key: Vec<u8>,
    signature: Vec<u8>,
    verified: Result<bool, Error>,
)
    requires
        alg.spec_rsa_padding() is Some,
        alg.signed(data, &Secret::RsaKeyPair(private_key), Ok(signature)),
        rsa_public_key_of(private_key@) == Some(public_key@),
        alg.verified(signature@, data, &Secret::PublicKey(public_key), verified),
    ensures
        verified == Ok::<bool, Error>(true),
{
}

/// HMAC and RSASSA-PKCS1-v1_5 signing are deterministic: two calls with the
/// same data and secret both succeed with the same signature, or both fail with
/// the same error.
pub proof fn deterministic_signing(
    alg: SignatureAlgorithm,
    data: Seq<u8>,
    secret: Secret,
    first: Result<Vec<u8>, Error>,
    second: Result<Vec<u8>, Error>,
)
    requires
        alg.spec_hmac_digest() is Some || (alg.spec_rsa_padding() matches Some(p) && p.is_pkcs1()),
        alg.signed(data, &secret, first),
        alg.signed(data, &secret, second),
    ensures
        first is Ok <==> second is Ok,
        first is Ok ==> first->Ok_0@ == second->Ok_0@,
        first is Err ==> first == second,
{
}

/// The `none` algorithm accepts a signature exactly when it is empty, whatever
/// the data.
pub proof fn none_accepts_only_empty(
    signature: Seq<u8>,
    data: Seq<u8>,
    verified: Result<bool, Error>,
)
    requires
        SignatureAlgorithm::NoSignature.verified(signature, data, &Secret::NoSecret, verified),
    ensures
        verified == Ok::<bool, Error>(signature.len() == 0),
{
}

/// With `dir` the content encryption key is the shared symmetric key itself.
pub proof fn direct_cek_is_key(
    content_alg: ContentEncryptionAlgorithm,
    key: Jwk,
    cek: Result<Jwk, Error>,
)
    requires
        key.octet_value() is Some,
        KeyManagementAlgorithm::DirectSymmetricKey.cek_result(content_alg, key, cek),
    ensures
        cek matches Ok(c) && c.octet_value() == key.octet_value(),
{
}

/// With an AES-GCM key-wrapping algorithm the content encryption key has the
/// length that the content algorithm needs (16 bytes for A128GCM, 32 for
/// A256GCM), whatever the length of the management key.
pub proof fn wrapped_cek_length(
    alg: KeyManagementAlgorithm,
    content_alg: ContentEncryptionAlgorithm,
    key: Jwk,
    cek: Result<Jwk, Error>,
)
    requires
        alg.spec_aes_gcm_wrap() is Some,
        content_alg.spec_aes_gcm() is Some,
        alg.cek_result(content_alg, key, cek),
    ensures
        cek matches Ok(c) ==> (c.octet_value() matches Some(v) && v.len() == (if content_alg
            == ContentEncryptionAlgorithm::A128GCM {
            16nat
        } else {
            32nat
        })),
{
}

/// Generated content keys have 16 bytes for A128GCM and 32 for A256GCM; every
/// other content algorithm is refused.
pub proof fn generated_key_length(alg: ContentEncryptionAlgorithm, key: Result<Vec<u8>, Error>)
    requires
        alg.generated(key),
    ensures
        alg == ContentEncryptionAlgorithm::A128GCM ==> (key matches Ok(k) ==> k@.len() == 16),
        alg == ContentEncryptionAlgorithm::A256GCM ==> (key matches Ok(k) ==> k@.len() == 32),
        alg.spec_aes_gcm() is None ==> key == Err::<Vec<u8>, Error>(Error::UnsupportedOperation),
{
}

/// ES512 is refused for signing and for verification, whatever the inputs.
pub proof fn es512_unsupported(
    data: Seq<u8>,
    signature: Seq<u8>,
    secret: Secret,
    signed: Result<Vec<u8>, Error>,
    verified: Result<bool, Error>,
)
    requires
        SignatureAlgorithm::ES512.signed(data, &secret, signed),
        SignatureAlgorithm::ES512.verified(signature, data, &secret, verified),
    ensures
        signed == Err::<Vec<u8>, Error>(Error::UnsupportedOperation),
        verified == Err::<bool, Error>(Error::UnsupportedOperation),
{
}

/// Every key management algorithm other than `dir`, A128GCMKW and A256GCMKW
/// is refused by `cek`, `encrypt` and `decrypt`, whatever the inputs.
pub proof fn unsupported_key_management(
    alg: KeyManagementAlgorithm,
    content_alg: ContentEncryptionAlgorithm,
    payload: Seq<u8>,
    encrypted: EncryptionResult,
    key: Jwk,
    cek: Result<Jwk, Error>,
    wrapped: Result<EncryptionResult, Error>,
    unwrapped: Result<Jwk, Error>,
)
    requires
        alg != KeyManagementAlgorithm::DirectSymmetricKey,
        alg != KeyManagementAlgorithm::A128GCMKW,
        alg != KeyManagementAlgorithm::A256GCMKW,
        alg.cek_result(content_alg, key, cek),
        alg.encrypt_result(payload, key, wrapped),
        alg.decrypt_result(encrypted, content_alg, key, unwrapped),
    ensures
        cek == Err::<Jwk, Error>(Error::UnsupportedOperation),
        wrapped == Err::<EncryptionResult, Error>(Error::UnsupportedOperation),
        unwrapped == Err::<Jwk, Error>(Error::UnsupportedOperation),
{
}

/// Wrapping a key with A128GCMKW or A256GCMKW is encrypting it with A128GCM or
/// A256GCM, respectively, with no associated data.
pub proof fn key_wrap_is_content_encryption(
    payload: Seq<u8>,
    key: Jwk,
    r: Result<EncryptionResult, Error>,
)
    ensures
        KeyManagementAlgorithm::A128GCMKW.encrypt_result(payload, key, r)
            == ContentEncryptionAlgorithm::A128GCM.encrypt_result(payload, Seq::empty(), key, r),
        KeyManagementAlgorithm::A256GCMKW.encrypt_result(payload, key, r)
            == ContentEncryptionAlgorithm::A256GCM.encrypt_result(payload, Seq::empty(), key, r),
{
}

} // verus!
