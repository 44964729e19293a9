//! Errors of the algorithm layer.
use vstd::prelude::*;

verus! {

/// What can go wrong in a signing, key-management or encryption call.
#[derive(Debug, Clone, Copy, PartialEq, Eq, Structural)]
pub enum Error {
    /// The secret given does not have the capability that the algorithm needs.
    InvalidSecretType,
    /// The algorithm is recognised but not implemented.
    UnsupportedOperation,
    /// Authenticated decryption failed: wrong key, or altered ciphertext, tag or data.
    AuthenticationFailure,
    /// The secure random source failed.
    RandomGenerationFailure,
    /// A cryptographic primitive refused its input (a key of the wrong length, a
    /// signature buffer of the wrong size).
    UnspecifiedCryptographicError,
    /// Key material could not be parsed.
    InvalidKey,
    /// A key object of one type was given where another type is needed.
    UnexpectedKeyType { expected: crate::key::KeyType, actual: crate::key::KeyType },
}

} // verus!
