//! Algorithms of JSON Web Algorithms (RFC 7518): signing and verification,
//! content-encryption-key derivation and wrapping, and authenticated content
//! encryption, each with its contract.
pub mod catalog;
pub mod encryption;
pub mod error;
pub mod key;
pub mod key_management;
pub mod laws;
pub mod primitives;
pub mod signature;
pub mod token;

pub use catalog::{
    Algorithm, ContentEncryptionAlgorithm, KeyManagementAlgorithm, KeyManagementAlgorithmType,
    SignatureAlgorithm,
};
pub use encryption::{aes_gcm_decrypt, aes_gcm_encrypt, sealed_result, EncryptionResult};
pub use error::Error;
pub use key::{AlgorithmParameters, Jwk, KeyType, PublicKeyUse, Secret};
pub use primitives::{rng, AesGcm};
