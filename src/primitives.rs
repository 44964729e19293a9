//! The cryptographic primitives of *ring* that the algorithms are built on.
//!
//! The functions here that call into ring are trusted: each contract states
//! what ring's source and documentation promise of the call it makes, and
//! nothing more. The enums select among ring's algorithms, one variant for each.
use vstd::prelude::*;

verus! {

/// Messages and keys handed to the digest-based primitives are shorter than
/// this: ring panics when the bit length of a hashed input overflows `u64`.
pub const MAX_HASHED_LEN: u64 = 0x1000_0000_0000_0000;

/// Length of an AES-GCM authentication tag, in bytes.
pub const TAG_SIZE: usize = 16;

/// Length of an AES-GCM nonce, in bytes.
pub const NONCE_LENGTH: usize = 12;

/// The longest plaintext that AES-GCM seals under one nonce (NIST SP 800-38D).
pub const GCM_MAX_PLAINTEXT: u64 = 68719476704;

/// Associated data is shorter than this, so that its bit length fits in `u64`.
pub const GCM_MAX_AAD: u64 = 0x2000_0000_0000_0000;

#[verifier::external_type_specification]
#[verifier::external_body]
pub struct ExUnspecified(ring::error::Unspecified);

#[verifier::external_type_specification]
#[verifier::external_body]
pub struct ExKeyRejected(ring::error::KeyRejected);

#[verifier::external_type_specification]
#[verifier::external_body]
pub struct ExSystemRandom(ring::rand::SystemRandom);

/// The digest that an HMAC is computed with.
#[derive(Debug, Clone, Copy, PartialEq, Eq, Structural)]
pub enum HmacDigest {
    Sha256,
    Sha384,
    Sha512,
}

impl HmacDigest {
    /// Output length of the digest, which is the length of the HMAC tag.
    pub open spec fn output_len(self) -> nat {
        match self {
            HmacDigest::Sha256 => 32,
            HmacDigest::Sha384 => 48,
            HmacDigest::Sha512 => 64,
        }
    }
}

/// The padding scheme of an RSA signature.
#[derive(Debug, Clone, Copy, PartialEq, Eq, Structural)]
pub enum RsaPadding {
    Pkcs1Sha256,
    Pkcs1Sha384,
    Pkcs1Sha512,
    PssSha256,
    PssSha384,
    PssSha512,
}

impl RsaPadding {
    /// Whether the padding is RSASSA-PKCS1-v1_5, whose signatures are
    /// deterministic.
    pub open spec fn is_pkcs1(self) -> bool {
        ||| self == RsaPadding::Pkcs1Sha256
        ||| self == RsaPadding::Pkcs1Sha384
        ||| self == RsaPadding::Pkcs1Sha512
    }

    /// The verification scheme that checks signatures made with this padding.
    pub open spec fn scheme(self) -> VerificationScheme {
        match self {
            RsaPadding::Pkcs1Sha256 => VerificationScheme::RsaPkcs1Sha256,
            RsaPadding::Pkcs1Sha384 => VerificationScheme::RsaPkcs1Sha384,
            RsaPadding::Pkcs1Sha512 => VerificationScheme::RsaPkcs1Sha512,
            RsaPadding::PssSha256 => VerificationScheme::RsaPssSha256,
            RsaPadding::PssSha384 => VerificationScheme::RsaPssSha384,
            RsaPadding::PssSha512 => VerificationScheme::RsaPssSha512,
        }
    }
}

/// A public-key signature verification scheme.
#[derive(Debug, Clone, Copy, PartialEq, Eq, Structural)]
pub enum VerificationScheme {
    RsaPkcs1Sha256,
    RsaPkcs1Sha384,
    RsaPkcs1Sha512,
    RsaPssSha256,
    RsaPssSha384,
    RsaPssSha512,
    EcdsaP256Sha256,
    EcdsaP384Sha384,
}

/// An AES-GCM key size.
#[derive(Debug, Clone, Copy, PartialEq, Eq, Structural)]
pub enum AesGcm {
    Aes128,
    Aes256,
}

impl AesGcm {
    /// Key length in bytes.
    pub open spec fn key_len(self) -> nat {
        match self {
            AesGcm::Aes128 => 16,
            AesGcm::Aes256 => 32,
        }
    }
}

/// The HMAC tag of `data` under `key` with the given digest.
pub uninterp spec fn hmac_tag(digest: HmacDigest, key: Seq<u8>, data: Seq<u8>) -> Seq<u8>;

/// Whether `signature` is a valid signature of `message` under the encoded
/// public key `public_key` in the given scheme.
pub uninterp spec fn signature_verifies(
    scheme: VerificationScheme,
    public_key: Seq<u8>,
    message: Seq<u8>,
    signature: Seq<u8>,
) -> bool;

/// The DER-encoded RSAPublicKey of the RSA key pair whose DER-encoded
/// RSAPrivateKey is `der`; `None` when ring rejects `der`.
pub uninterp spec fn rsa_public_key_of(der: Seq<u8>) -> Option<Seq<u8>>;

/// The RSASSA-PKCS1-v1_5 signature of `message` with the given padding under
/// the key pair whose DER-encoded RSAPrivateKey is `der`; `None` when ring
/// does not sign (it does not draw randomness for this padding).
pub uninterp spec fn rsa_pkcs1_signature(padding: RsaPadding, der: Seq<u8>, message: Seq<u8>) -> Option<
    Seq<u8>,
>;

/// The AES-GCM encryption of `plaintext`, followed by its 16-byte tag.
pub uninterp spec fn aes_gcm_sealed(
    key: Seq<u8>,
    nonce: Seq<u8>,
    aad: Seq<u8>,
    plaintext: Seq<u8>,
) -> Seq<u8>;

/// Whether AES-GCM is defined on associated data and plaintext of these lengths.
pub open spec fn gcm_lengths_ok(aad_len: nat, plaintext_len: nat) -> bool {
    &&& plaintext_len <= GCM_MAX_PLAINTEXT
    &&& aad_len < GCM_MAX_AAD
}

/// Whether sealing `plaintext` with AES-GCM of the given size under `key`,
/// `nonce` and `aad` succeeds and gives `sealed` (ciphertext, then tag).
pub open spec fn seals_to(
    algorithm: AesGcm,
    key: Seq<u8>,
    nonce: Seq<u8>,
    aad: Seq<u8>,
    plaintext: Seq<u8>,
    sealed: Seq<u8>,
) -> bool {
    &&& key.len() == algorithm.key_len()
    &&& nonce.len() == NONCE_LENGTH
    &&& gcm_lengths_ok(aad.len(), plaintext.len())
    &&& aes_gcm_sealed(key, nonce, aad, plaintext) == sealed
}

/// Relies on `ring::rand::SystemRandom::new`, the operating system's secure
/// random source; constructing it never fails.
#[verifier::external_body]
pub fn rng() -> ring::rand::SystemRandom {
    ring::rand::SystemRandom::new()
}

/// Relies on `SecureRandom::fill` of `SystemRandom`: it overwrites the buffer
/// in place, or fails.
#[verifier::external_body]
pub(crate) fn fill_random(
    rng: &ring::rand::SystemRandom,
    dest: &mut Vec<u8>,
) -> (r: Result<(), ring::error::Unspecified>)
    ensures
        final(dest)@.len() == old(dest)@.len(),
{
    ring::rand::SecureRandom::fill(rng, dest.as_mut_slice())
}

/// Relies on `ring::hmac::sign` with a key from `ring::hmac::Key::new`: the tag
/// is a function of the digest, key and data, as long as the digest's output.
#[verifier::external_body]
pub(crate) fn hmac_sign(digest: HmacDigest, key: &[u8], data: &[u8]) -> (r: Vec<u8>)
    requires
        key@.len() < MAX_HASHED_LEN,
        data@.len() < MAX_HASHED_LEN,
    ensures
        r@ == hmac_tag(digest, key@, data@),
        r@.len() == digest.output_len(),
{
    let algorithm = match digest {
        HmacDigest::Sha256 => ring::hmac::HMAC_SHA256,
        HmacDigest::Sha384 => ring::hmac::HMAC_SHA384,
        HmacDigest::Sha512 => ring::hmac::HMAC_SHA512,
    };
    let key = ring::hmac::Key::new(algorithm, key);
    ring::hmac::sign(&key, data).as_ref().to_vec()
}

/// Relies on `ring::hmac::verify` with a key from `ring::hmac::Key::new`: `Ok`
/// exactly when `tag` is the HMAC tag of `data` under `key`, checked in
/// constant time as its documentation states.
#[verifier::external_body]
pub(crate) fn hmac_verify(
    digest: HmacDigest,
    key: &[u8],
    data: &[u8],
    tag: &[u8],
) -> (r: Result<(), ring::error::Unspecified>)
    requires
        key@.len() < MAX_HASHED_LEN,
        data@.len() < MAX_HASHED_LEN,
    ensures
        r is Ok <==> tag@ == hmac_tag(digest, key@, data@),
        r is Ok ==> tag@.len() == digest.output_len(),
{
    let algorithm = match digest {
        HmacDigest::Sha256 => ring::hmac::HMAC_SHA256,
        HmacDigest::Sha384 => ring::hmac::HMAC_SHA384,
        HmacDigest::Sha512 => ring::hmac::HMAC_SHA512,
    };
    let key = ring::hmac::Key::new(algorithm, key);
    ring::hmac::verify(&key, data, tag)
}

/// Relies on `ring::rsa::KeyPair::from_der`, which parses a DER-encoded
/// RSAPrivateKey of 2048 to 4096 bits or rejects it, and on `KeyPair::public`,
/// whose bytes are the DER-encoded RSAPublicKey.
#[verifier::external_body]
pub(crate) fn rsa_public_key(der: &[u8]) -> (r: Result<Vec<u8>, ring::error::KeyRejected>)
    ensures
        r is Ok <==> rsa_public_key_of(der@) is Some,
        r matches Ok(public_key) ==> rsa_public_key_of(der@) == Some(public_key@),
{
    let key_pair = ring::rsa::KeyPair::from_der(der)?;
    Ok(key_pair.public().as_ref().to_vec())
}

/// Relies on `ring::rsa::KeyPair::sign`, with the key pair parsed from `der` by
/// `KeyPair::from_der` and a buffer as long as its modulus
/// (`PublicKey::modulus_len`). A signature it makes is valid for the message
/// under the key pair's public key (`KeyPair::public`) in the scheme of the
/// padding: RSASSA-PKCS1-v1_5, which (success included) depends on the key
/// and message alone, or RSASSA-PSS, whose salt it draws from `rng`.
#[verifier::external_body]
pub(crate) fn rsa_sign(
    der: &[u8],
    padding: RsaPadding,
    rng: &ring::rand::SystemRandom,
    message: &[u8],
) -> (r: Result<Vec<u8>, ring::error::Unspecified>)
    requires
        message@.len() < MAX_HASHED_LEN,
    ensures
        r is Ok ==> rsa_public_key_of(der@) is Some,
        r matches Ok(signature) ==> signature_verifies(
            padding.scheme(),
            rsa_public_key_of(der@)->0,
            message@,
            signature@,
        ),
        r matches Ok(signature) ==> (padding.is_pkcs1() ==> rsa_pkcs1_signature(
            padding,
            der@,
            message@,
        ) == Some(signature@)),
        r is Err ==> (padding.is_pkcs1() ==> rsa_pkcs1_signature(padding, der@, message@) is None),
{
    let padding: &'static dyn ring::signature::RsaEncoding = match padding {
        RsaPadding::Pkcs1Sha256 => &ring::signature::RSA_PKCS1_SHA256,
        RsaPadding::Pkcs1Sha384 => &ring::signature::RSA_PKCS1_SHA384,
        RsaPadding::Pkcs1Sha512 => &ring::signature::RSA_PKCS1_SHA512,
        RsaPadding::PssSha256 => &ring::signature::RSA_PSS_SHA256,
        RsaPadding::PssSha384 => &ring::signature::RSA_PSS_SHA384,
        RsaPadding::PssSha512 => &ring::signature::RSA_PSS_SHA512,
    };
    let key_pair = ring::rsa::KeyPair::from_der(der).map_err(|_| ring::error::Unspecified)?;
    let mut signature = vec![0u8; key_pair.public().modulus_len()];
    key_pair.sign(padding, rng, message, &mut signature)?;
    Ok(signature)
}

/// Relies on `ring::signature::UnparsedPublicKey::verify`: `Ok` exactly when
/// the signature is valid, a function of the scheme, key, message and signature.
/// RSA schemes accept moduli of 2048 to 8192 bits; ECDSA signatures are
/// ASN.1-encoded.
#[verifier::external_body]
pub(crate) fn verify_signature(
    scheme: VerificationScheme,
    public_key: &[u8],
    message: &[u8],
    signature: &[u8],
) -> (r: Result<(), ring::error::Unspecified>)
    requires
        message@.len() < MAX_HASHED_LEN,
    ensures
        r is Ok <==> signature_verifies(scheme, public_key@, message@, signature@),
{
    let algorithm: &'static dyn ring::signature::VerificationAlgorithm = match scheme {
        VerificationScheme::RsaPkcs1Sha256 => &ring::signature::RSA_PKCS1_2048_8192_SHA256,
        VerificationScheme::RsaPkcs1Sha384 => &ring::signature::RSA_PKCS1_2048_8192_SHA384,
        VerificationScheme::RsaPkcs1Sha512 => &ring::signature::RSA_PKCS1_2048_8192_SHA512,
        VerificationScheme::RsaPssSha256 => &ring::signature::RSA_PSS_2048_8192_SHA256,
        VerificationScheme::RsaPssSha384 => &ring::signature::RSA_PSS_2048_8192_SHA384,
        VerificationScheme::RsaPssSha512 => &ring::signature::RSA_PSS_2048_8192_SHA512,
        VerificationScheme::EcdsaP256Sha256 => &ring::signature::ECDSA_P256_SHA256_ASN1,
        VerificationScheme::EcdsaP384Sha384 => &ring::signature::ECDSA_P384_SHA384_ASN1,
    };
    ring::signature::UnparsedPublicKey::new(algorithm, public_key).verify(message, signature)
}

/// Relies on `ring::aead::LessSafeKey::seal_in_place_separate_tag`, with the key
/// from `UnboundKey::new` (which fails unless the key has the algorithm's
/// length) and the nonce from `Nonce::try_assume_unique_for_key` (which fails
/// unless it has 12 bytes). Sealing itself fails only past GCM's length limits
/// (`gcm::Context::new`). On success the ciphertext is as long as the
/// plaintext, and the ciphertext followed by the 16-byte tag is the AES-GCM
/// encryption of the plaintext.
#[verifier::external_body]
pub(crate) fn aes_gcm_seal(
    algorithm: AesGcm,
    key: &[u8],
    nonce: &[u8],
    aad: &[u8],
    plaintext: &[u8],
) -> (r: Result<(Vec<u8>, Vec<u8>), ring::error::Unspecified>)
    ensures
        key@.len() != algorithm.key_len() ==> r is Err,
        key@.len() == algorithm.key_len() && nonce@.len() == NONCE_LENGTH && gcm_lengths_ok(
            aad@.len(),
            plaintext@.len(),
        ) ==> r is Ok,
        r matches Ok((ciphertext, tag)) ==> ciphertext@.len() == plaintext@.len() && tag@.len()
            == TAG_SIZE,
        r matches Ok((ciphertext, tag)) ==> aes_gcm_sealed(key@, nonce@, aad@, plaintext@)
            == ciphertext@ + tag@,
        r matches Ok((ciphertext, tag)) ==> seals_to(
            algorithm,
            key@,
            nonce@,
            aad@,
            plaintext@,
            ciphertext@ + tag@,
        ),
{
    let algorithm = match algorithm {
        AesGcm::Aes128 => &ring::aead::AES_128_GCM,
        AesGcm::Aes256 => &ring::aead::AES_256_GCM,
    };
    let key = ring::aead::LessSafeKey::new(ring::aead::UnboundKey::new(algorithm, key)?);
    let nonce = ring::aead::Nonce::try_assume_unique_for_key(nonce)?;
    let mut in_out = plaintext.to_vec();
    let tag = key.seal_in_place_separate_tag(nonce, ring::aead::Aad::from(aad), &mut in_out)?;
    Ok((in_out, tag.as_ref().to_vec()))
}

/// Relies on `ring::aead::LessSafeKey::open_in_place_separate_tag`, with key and
/// nonce made as for sealing and the tag from `Tag::try_from` (which fails
/// unless it has 16 bytes). It authenticates and decrypts: it returns a
/// plaintext only if sealing that plaintext gives the ciphertext followed by the
/// tag, and, when the tag has 16 bytes, it returns the plaintext whose sealing
/// gives them whenever there is one.
#[verifier::external_body]
pub(crate) fn aes_gcm_open(
    algorithm: AesGcm,
    key: &[u8],
    nonce: &[u8],
    aad: &[u8],
    ciphertext: &[u8],
    tag: &[u8],
) -> (r: Result<Vec<u8>, ring::error::Unspecified>)
    ensures
        r matches Ok(opened) ==> aes_gcm_sealed(key@, nonce@, aad@, opened@) == ciphertext@ + tag@,
        r matches Ok(opened) ==> seals_to(algorithm, key@, nonce@, aad@, opened@, ciphertext@ + tag@),
        forall|plaintext: Seq<u8>| #[trigger]
            seals_to(algorithm, key@, nonce@, aad@, plaintext, ciphertext@ + tag@) && tag@.len() == TAG_SIZE ==> r is Ok && r->Ok_0@ == plaintext,
{
    let algorithm = match algorithm {
        AesGcm::Aes128 => &ring::aead::AES_128_GCM,
        AesGcm::Aes256 => &ring::aead::AES_256_GCM,
    };
    let key = ring::aead::LessSafeKey::new(ring::aead::UnboundKey::new(algorithm, key)?);
    let nonce = ring::aead::Nonce::try_assume_unique_for_key(nonce)?;
    let tag = ring::aead::Tag::try_from(tag)?;
    let mut in_out = ciphertext.to_vec();
    let aad = ring::aead::Aad::from(aad);
    Ok(key.open_in_place_separate_tag(nonce, aad, tag, &mut in_out, 0..)?.to_vec())
}

} // verus!
