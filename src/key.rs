//! Key objects and signing secrets, as far as the algorithms read them.
use vstd::prelude::*;
use vstd::string::StringSliceAdditionalSpecFns;

use crate::catalog::Algorithm;
use crate::error::Error;
use crate::primitives::{rsa_public_key, rsa_public_key_of};

verus! {

/// The type of a key object.
#[derive(Debug, Clone, Copy, PartialEq, Eq, Structural)]
pub enum KeyType {
    /// A symmetric key given as raw bytes.
    Octet,
    /// An elliptic-curve key.
    EllipticCurve,
    /// An RSA key.
    Rsa,
}

/// The intended use of a key.
#[derive(Debug, Clone, Copy, PartialEq, Eq, Structural)]
pub enum PublicKeyUse {
    /// Signing and verification.
    Signature,
    /// Encryption and decryption.
    Encryption,
}

/// The key material of a key object.
#[derive(Debug)]
pub enum AlgorithmParameters {
    /// A symmetric key: its raw bytes.
    OctetKey(Vec<u8>),
    /// An elliptic-curve key, in its encoded form.
    EllipticCurve(Vec<u8>),
    /// An RSA key, in its encoded form.
    Rsa(Vec<u8>),
}

/// A key object: key material with the algorithm and use it is meant for.
#[derive(Debug)]
pub struct Jwk {
    /// The key material.
    pub params: AlgorithmParameters,
    /// What the key is meant to be used for.
    pub public_key_use: Option<PublicKeyUse>,
    /// The algorithm the key is meant to be used with.
    pub algorithm: Option<Algorithm>,
}

impl AlgorithmParameters {
    pub open spec fn spec_key_type(self) -> KeyType {
        match self {
            AlgorithmParameters::OctetKey(_) => KeyType::Octet,
            AlgorithmParameters::EllipticCurve(_) => KeyType::EllipticCurve,
            AlgorithmParameters::Rsa(_) => KeyType::Rsa,
        }
    }

    /// The bytes of the key material.
    pub open spec fn bytes(self) -> Seq<u8> {
        match self {
            AlgorithmParameters::OctetKey(v) => v@,
            AlgorithmParameters::EllipticCurve(v) => v@,
            AlgorithmParameters::Rsa(v) => v@,
        }
    }
}

impl Jwk {
    /// The type of the key.
    pub open spec fn spec_key_type(self) -> KeyType {
        self.params.spec_key_type()
    }

    /// The raw bytes of a symmetric key; `None` for any other key.
    pub open spec fn octet_value(self) -> Option<Seq<u8>> {
        match self.params {
            AlgorithmParameters::OctetKey(v) => Some(v@),
            _ => None,
        }
    }

    /// Whether two key objects hold the same material and metadata.
    pub open spec fn same_key(self, other: Jwk) -> bool {
        &&& self.params.spec_key_type() == other.params.spec_key_type()
        &&& self.params.bytes() == other.params.bytes()
        &&& self.public_key_use == other.public_key_use
        &&& self.algorithm == other.algorithm
    }

    /// The error for a key that is not symmetric where a symmetric one is needed.
    pub open spec fn not_octet_error(self) -> Error {
        Error::UnexpectedKeyType { expected: KeyType::Octet, actual: self.spec_key_type() }
    }

    /// A symmetric key with no metadata.
    pub fn new_octet_key(value: Vec<u8>) -> (r: Jwk)
        ensures
            r.octet_value() == Some(value@),
            r.public_key_use is None,
            r.algorithm is None,
    {
        Jwk { params: AlgorithmParameters::OctetKey(value), public_key_use: None, algorithm: None }
    }

    /// A fresh content encryption key for `algorithm`, meant for encryption.
    pub fn new_content_key(value: Vec<u8>, algorithm: Algorithm) -> (r: Jwk)
        ensures
            r.octet_value() == Some(value@),
            r.public_key_use == Some(PublicKeyUse::Encryption),
            r.algorithm == Some(algorithm),
    {
        Jwk {
            params: AlgorithmParameters::OctetKey(value),
            public_key_use: Some(PublicKeyUse::Encryption),
            algorithm: Some(algorithm),
        }
    }

    /// The type of the key.
    pub fn key_type(&self) -> (r: KeyType)
        ensures
            r == self.spec_key_type(),
    {
        match &self.params {
            AlgorithmParameters::OctetKey(_) => KeyType::Octet,
            AlgorithmParameters::EllipticCurve(_) => KeyType::EllipticCurve,
            AlgorithmParameters::Rsa(_) => KeyType::Rsa,
        }
    }

    /// The raw bytes of a symmetric key, or an error for any other key.
    pub fn octet_key(&self) -> (r: Result<&[u8], Error>)
        ensures
            match self.octet_value() {
                Some(v) => r is Ok && r->Ok_0@ == v,
                None => r == Err::<&[u8], Error>(self.not_octet_error()),
            },
    {
        match &self.params {
            AlgorithmParameters::OctetKey(v) => Ok(v.as_slice()),
            _ => Err(Error::UnexpectedKeyType { expected: KeyType::Octet, actual: self.key_type() }),
        }
    }

    /// A copy of the key object.
    pub fn clone_without_additional(&self) -> (r: Jwk)
        ensures
            r.same_key(*self),
    {
        let params = match &self.params {
            AlgorithmParameters::OctetKey(v) => AlgorithmParameters::OctetKey(copy_bytes(v.as_slice())),
            AlgorithmParameters::EllipticCurve(v) => AlgorithmParameters::EllipticCurve(
                copy_bytes(v.as_slice()),
            ),
            AlgorithmParameters::Rsa(v) => AlgorithmParameters::Rsa(copy_bytes(v.as_slice())),
        };
        Jwk { params, public_key_use: self.public_key_use, algorithm: self.algorithm }
    }
}

/// A copy of a byte slice.
pub fn copy_bytes(b: &[u8]) -> (r: Vec<u8>)
    ensures
        r@ == b@,
{
    vstd::slice::slice_to_vec(b)
}

/// The secret a signature algorithm signs or verifies with.
pub enum Secret {
    /// No secret, for the `none` algorithm.
    NoSecret,
    /// A symmetric secret, for HMAC.
    Bytes(Vec<u8>),
    /// An RSA key pair, for signing: its DER-encoded RSAPrivateKey.
    RsaKeyPair(Vec<u8>),
    /// An encoded public key, for verification.
    PublicKey(Vec<u8>),
}

impl Secret {
    /// A symmetric secret holding the bytes of `s`.
    pub fn bytes_from_str(s: &str) -> (r: Secret)
        ensures
            r matches Secret::Bytes(b) && b@ == s.spec_bytes(),
    {
        Secret::Bytes(vstd::slice::slice_to_vec(s.as_bytes()))
    }

    /// An RSA key pair given as a DER-encoded RSAPrivateKey; `InvalidKey` when
    /// the encoding is rejected.
    pub fn rsa_keypair_from_der(der: &[u8]) -> (r: Result<Secret, Error>)
        ensures
            r is Ok <==> rsa_public_key_of(der@) is Some,
            r matches Ok(s) ==> (s matches Secret::RsaKeyPair(d) && d@ == der@),
            r matches Err(e) ==> e == Error::InvalidKey,
    {
        match rsa_public_key(der) {
            Ok(_) => Ok(Secret::RsaKeyPair(copy_bytes(der))),
            Err(_) => Err(Error::InvalidKey),
        }
    }

    /// The public key of an RSA key pair, as the secret that verifies its
    /// signatures; `InvalidKey` when the key pair is rejected, and
    /// `InvalidSecretType` for any other secret.
    pub fn rsa_public_key(&self) -> (r: Result<Secret, Error>)
        ensures
            match self {
                Secret::RsaKeyPair(der) => match rsa_public_key_of(der@) {
                    Some(pk) => r matches Ok(s) && (s matches Secret::PublicKey(k) && k@ == pk),
                    None => r == Err::<Secret, Error>(Error::InvalidKey),
                },
                _ => r == Err::<Secret, Error>(Error::InvalidSecretType),
            },
    {
        match self {
            Secret::RsaKeyPair(der) => match rsa_public_key(der.as_slice()) {
                Ok(public_key) => Ok(Secret::PublicKey(public_key)),
                Err(_) => Err(Error::InvalidKey),
            },
            _ => Err(Error::InvalidSecretType),
        }
    }
}

} // verus!
