//! The algorithm catalog: the three families of RFC 7518 and their union.
use vstd::prelude::*;

verus! {

/// An algorithm of any of the three families. On the wire the token alone tells
/// which family a value belongs to.
#[derive(Debug, Clone, Copy, PartialEq, Eq, Structural)]
pub enum Algorithm {
    /// Digital signatures and MACs.
    Signature(SignatureAlgorithm),
    /// Encryption or agreement of a content encryption key.
    KeyManagement(KeyManagementAlgorithm),
    /// Encryption of the content itself.
    ContentEncryption(ContentEncryptionAlgorithm),
}

/// Algorithms for digital signatures and MACs.
#[derive(Debug, Clone, Copy, PartialEq, Eq, Structural)]
pub enum SignatureAlgorithm {
    /// No signature: a valid signature is empty.
    NoSignature,
    /// HMAC using SHA-256
    HS256,
    /// HMAC using SHA-384
    HS384,
    /// HMAC using SHA-512
    HS512,
    /// RSASSA-PKCS1-v1_5 using SHA-256
    RS256,
    /// RSASSA-PKCS1-v1_5 using SHA-384
    RS384,
    /// RSASSA-PKCS1-v1_5 using SHA-512
    RS512,
    /// ECDSA using P-256 and SHA-256 (verification only)
    ES256,
    /// ECDSA using P-384 and SHA-384 (verification only)
    ES384,
    /// ECDSA using P-521 and SHA-512 (unsupported)
    ES512,
    /// RSASSA-PSS using SHA-256 and MGF1 with SHA-256
    PS256,
    /// RSASSA-PSS using SHA-384 and MGF1 with SHA-384
    PS384,
    /// RSASSA-PSS using SHA-512 and MGF1 with SHA-512
    PS512,
}

/// Algorithms that encrypt or determine a content encryption key.
#[derive(Debug, Clone, Copy, PartialEq, Eq, Structural)]
#[allow(non_camel_case_types)]
pub enum KeyManagementAlgorithm {
    /// RSAES-PKCS1-v1_5
    RSA1_5,
    /// RSAES OAEP using default parameters
    RSA_OAEP,
    /// RSAES OAEP using SHA-256 and MGF1 with SHA-256
    RSA_OAEP_256,
    /// AES Key Wrap using a 128-bit key (unsupported)
    A128KW,
    /// AES Key Wrap using a 192-bit key (unsupported)
    A192KW,
    /// AES Key Wrap using a 256-bit key (unsupported)
    A256KW,
    /// Direct use of a shared symmetric key (`dir`)
    DirectSymmetricKey,
    /// ECDH-ES using Concat KDF
    ECDH_ES,
    /// ECDH-ES using Concat KDF and A128KW wrapping
    ECDH_ES_A128KW,
    /// ECDH-ES using Concat KDF and A192KW wrapping
    ECDH_ES_A192KW,
    /// ECDH-ES using Concat KDF and A256KW wrapping
    ECDH_ES_A256KW,
    /// Key wrapping with AES GCM using a 128-bit key
    A128GCMKW,
    /// Key wrapping with AES GCM using a 192-bit key (unsupported)
    A192GCMKW,
    /// Key wrapping with AES GCM using a 256-bit key
    A256GCMKW,
    /// PBES2 with HMAC SHA-256 and A128KW wrapping
    PBES2_HS256_A128KW,
    /// PBES2 with HMAC SHA-384 and A192KW wrapping
    PBES2_HS384_A192KW,
    /// PBES2 with HMAC SHA-512 and A256KW wrapping
    PBES2_HS512_A256KW,
}

/// What a key management algorithm does with respect to the content encryption key.
#[derive(Debug, Clone, Copy, PartialEq, Eq, Structural)]
pub enum KeyManagementAlgorithmType {
    /// Wraps a randomly generated key with a symmetric algorithm.
    SymmetricKeyWrapping,
    /// Encrypts a randomly generated key with an asymmetric algorithm.
    AsymmetricKeyEncryption,
    /// Agrees on the key directly.
    DirectKeyAgreement,
    /// Agrees on a symmetric key and wraps the content key with it.
    KeyAgreementWithKeyWrapping,
    /// The shared symmetric key is the content key.
    DirectEncryption,
}

/// Algorithms that encrypt the content.
#[derive(Debug, Clone, Copy, PartialEq, Eq, Structural)]
#[allow(non_camel_case_types)]
pub enum ContentEncryptionAlgorithm {
    /// AES_128_CBC_HMAC_SHA_256 (unsupported)
    A128CBC_HS256,
    /// AES_192_CBC_HMAC_SHA_384 (unsupported)
    A192CBC_HS384,
    /// AES_256_CBC_HMAC_SHA_512 (unsupported)
    A256CBC_HS512,
    /// AES GCM using a 128-bit key
    A128GCM,
    /// AES GCM using a 192-bit key (unsupported)
    A192GCM,
    /// AES GCM using a 256-bit key
    A256GCM,
}

impl Default for SignatureAlgorithm {
    fn default() -> (r: Self)
        ensures
            r == SignatureAlgorithm::HS256,
    {
        SignatureAlgorithm::HS256
    }
}

impl Default for KeyManagementAlgorithm {
    fn default() -> (r: Self)
        ensures
            r == KeyManagementAlgorithm::DirectSymmetricKey,
    {
        KeyManagementAlgorithm::DirectSymmetricKey
    }
}

impl Default for ContentEncryptionAlgorithm {
    fn default() -> (r: Self)
        ensures
            r == ContentEncryptionAlgorithm::A128GCM,
    {
        ContentEncryptionAlgorithm::A128GCM
    }
}

impl KeyManagementAlgorithm {
    /// The category of each key management algorithm.
    pub open spec fn spec_algorithm_type(self) -> KeyManagementAlgorithmType {
        match self {
            KeyManagementAlgorithm::RSA1_5
            | KeyManagementAlgorithm::RSA_OAEP
            | KeyManagementAlgorithm::RSA_OAEP_256 => KeyManagementAlgorithmType::AsymmetricKeyEncryption,
            KeyManagementAlgorithm::DirectSymmetricKey => KeyManagementAlgorithmType::DirectEncryption,
            KeyManagementAlgorithm::ECDH_ES => KeyManagementAlgorithmType::DirectKeyAgreement,
            KeyManagementAlgorithm::ECDH_ES_A128KW
            | KeyManagementAlgorithm::ECDH_ES_A192KW
            | KeyManagementAlgorithm::ECDH_ES_A256KW => KeyManagementAlgorithmType::KeyAgreementWithKeyWrapping,
            _ => KeyManagementAlgorithmType::SymmetricKeyWrapping,
        }
    }

    /// Returns the type of operations that the algorithm is intended to support.
    pub fn algorithm_type(&self) -> (r: KeyManagementAlgorithmType)
        ensures
            r == self.spec_algorithm_type(),
    {
        match *self {
            KeyManagementAlgorithm::A128KW
            | KeyManagementAlgorithm::A192KW
            | KeyManagementAlgorithm::A256KW
            | KeyManagementAlgorithm::A128GCMKW
            | KeyManagementAlgorithm::A192GCMKW
            | KeyManagementAlgorithm::A256GCMKW
            | KeyManagementAlgorithm::PBES2_HS256_A128KW
            | KeyManagementAlgorithm::PBES2_HS384_A192KW
            | KeyManagementAlgorithm::PBES2_HS512_A256KW => KeyManagementAlgorithmType::SymmetricKeyWrapping,
            KeyManagementAlgorithm::RSA1_5
            | KeyManagementAlgorithm::RSA_OAEP
            | KeyManagementAlgorithm::RSA_OAEP_256 => KeyManagementAlgorithmType::AsymmetricKeyEncryption,
            KeyManagementAlgorithm::DirectSymmetricKey => KeyManagementAlgorithmType::DirectEncryption,
            KeyManagementAlgorithm::ECDH_ES => KeyManagementAlgorithmType::DirectKeyAgreement,
            KeyManagementAlgorithm::ECDH_ES_A128KW
            | KeyManagementAlgorithm::ECDH_ES_A192KW
            | KeyManagementAlgorithm::ECDH_ES_A256KW => KeyManagementAlgorithmType::KeyAgreementWithKeyWrapping,
        }
    }
}

} // verus!
