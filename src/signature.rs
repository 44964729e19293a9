//! The signature engine: signing and verification for every signature algorithm.
use vstd::prelude::*;

use crate::catalog::SignatureAlgorithm;
use crate::error::Error;
use crate::key::Secret;
use crate::primitives::{
    hmac_sign, hmac_tag, hmac_verify, rng, rsa_pkcs1_signature, rsa_public_key_of, rsa_sign, signature_verifies,
    verify_signature, HmacDigest, RsaPadding, VerificationScheme, MAX_HASHED_LEN,
};

verus! {

impl SignatureAlgorithm {
    /// The digest of an HMAC algorithm; `None` for the others.
    pub open spec fn spec_hmac_digest(self) -> Option<HmacDigest> {
        match self {
            SignatureAlgorithm::HS256 => Some(HmacDigest::Sha256),
            SignatureAlgorithm::HS384 => Some(HmacDigest::Sha384),
            SignatureAlgorithm::HS512 => Some(HmacDigest::Sha512),
            _ => None,
        }
    }

    /// The padding of an RSA algorithm; `None` for the others.
    pub open spec fn spec_rsa_padding(self) -> Option<RsaPadding> {
        match self {
            SignatureAlgorithm::RS256 => Some(RsaPadding::Pkcs1Sha256),
            SignatureAlgorithm::RS384 => Some(RsaPadding::Pkcs1Sha384),
            SignatureAlgorithm::RS512 => Some(RsaPadding::Pkcs1Sha512),
            SignatureAlgorithm::PS256 => Some(RsaPadding::PssSha256),
            SignatureAlgorithm::PS384 => Some(RsaPadding::PssSha384),
            SignatureAlgorithm::PS512 => Some(RsaPadding::PssSha512),
            _ => None,
        }
    }

    /// The public-key verification scheme of an algorithm; `None` for `none`,
    /// the HMAC algorithms and ES512, which has none.
    pub open spec fn spec_verification_scheme(self) -> Option<VerificationScheme> {
        match self {
            SignatureAlgorithm::RS256 => Some(VerificationScheme::RsaPkcs1Sha256),
            SignatureAlgorithm::RS384 => Some(VerificationScheme::RsaPkcs1Sha384),
            SignatureAlgorithm::RS512 => Some(VerificationScheme::RsaPkcs1Sha512),
            SignatureAlgorithm::PS256 => Some(VerificationScheme::RsaPssSha256),
            SignatureAlgorithm::PS384 => Some(VerificationScheme::RsaPssSha384),
            SignatureAlgorithm::PS512 => Some(VerificationScheme::RsaPssSha512),
            SignatureAlgorithm::ES256 => Some(VerificationScheme::EcdsaP256Sha256),
            SignatureAlgorithm::ES384 => Some(VerificationScheme::EcdsaP384Sha384),
            _ => None,
        }
    }

    /// Whether the algorithm is one of the ECDSA family.
    pub open spec fn is_ecdsa(self) -> bool {
        ||| self == SignatureAlgorithm::ES256
        ||| self == SignatureAlgorithm::ES384
        ||| self == SignatureAlgorithm::ES512
    }

    /// Whether an HMAC secret, if that is what `secret` is, is short enough to hash.
    pub open spec fn hmac_key_fits(secret: &Secret) -> bool {
        secret matches Secret::Bytes(k) ==> k@.len() < MAX_HASHED_LEN
    }

    /// What `sign` returns for the algorithms whose result the contract fixes.
    pub open spec fn signed(self, data: Seq<u8>, secret: &Secret, r: Result<Vec<u8>, Error>) -> bool {
        if self == SignatureAlgorithm::NoSignature {
            match secret {
                Secret::NoSecret => r is Ok && r->Ok_0@.len() == 0,
                _ => r == Err::<Vec<u8>, Error>(Error::InvalidSecretType),
            }
        } else if self.spec_hmac_digest() is Some {
            match secret {
                Secret::Bytes(k) => r is Ok && r->Ok_0@ == hmac_tag(
                    self.spec_hmac_digest()->0,
                    k@,
                    data,
                ) && r->Ok_0@.len() == self.spec_hmac_digest()->0.output_len(),
                _ => r == Err::<Vec<u8>, Error>(Error::InvalidSecretType),
            }
        } else if self.spec_rsa_padding() is Some {
            match secret {
                Secret::RsaKeyPair(der) => {
                    &&& r matches Ok(sig) ==> (rsa_public_key_of(der@) matches Some(pk)
                        && signature_verifies(self.spec_verification_scheme()->0, pk, data, sig@))
                    &&& self.spec_rsa_padding()->0.is_pkcs1() ==> match r {
                        Ok(sig) => rsa_pkcs1_signature(self.spec_rsa_padding()->0, der@, data)
                            == Some(sig@),
                        Err(_) => rsa_pkcs1_signature(self.spec_rsa_padding()->0, der@, data) is None,
                    }
                    &&& r matches Err(e) ==> e == Error::UnspecifiedCryptographicError
                },
                _ => r == Err::<Vec<u8>, Error>(Error::InvalidSecretType),
            }
        } else {
            r == Err::<Vec<u8>, Error>(Error::UnsupportedOperation)
        }
    }

    /// What `verify` returns.
    pub open spec fn verified(
        self,
        signature: Seq<u8>,
        data: Seq<u8>,
        secret: &Secret,
        r: Result<bool, Error>,
    ) -> bool {
        if self == SignatureAlgorithm::NoSignature {
            match secret {
                Secret::NoSecret => r == Ok::<bool, Error>(signature.len() == 0),
                _ => r == Err::<bool, Error>(Error::InvalidSecretType),
            }
        } else if self.spec_hmac_digest() is Some {
            match secret {
                Secret::Bytes(k) => {
                    &&& r == Ok::<bool, Error>(
                        signature == hmac_tag(self.spec_hmac_digest()->0, k@, data),
                    )
                    &&& signature.len() != self.spec_hmac_digest()->0.output_len() ==> r
                        == Ok::<bool, Error>(false)
                },
                _ => r == Err::<bool, Error>(Error::InvalidSecretType),
            }
        } else if self.spec_verification_scheme() is Some {
            match secret {
                Secret::PublicKey(k) => r == Ok::<bool, Error>(
                    signature_verifies(self.spec_verification_scheme()->0, k@, data, signature),
                ),
                _ => r == Err::<bool, Error>(Error::InvalidSecretType),
            }
        } else {
            r == Err::<bool, Error>(Error::UnsupportedOperation)
        }
    }

    /// Signs `data` with `secret` according to the algorithm.
    pub fn sign(&self, data: &[u8], secret: &Secret) -> (r: Result<Vec<u8>, Error>)
        requires
            data@.len() < MAX_HASHED_LEN,
            Self::hmac_key_fits(secret),
        ensures
            self.signed(data@, secret, r),
    {
        match *self {
            SignatureAlgorithm::NoSignature => Self::sign_none(secret),
            SignatureAlgorithm::HS256
            | SignatureAlgorithm::HS384
            | SignatureAlgorithm::HS512 => Self::sign_hmac(data, secret, self),
            SignatureAlgorithm::RS256
            | SignatureAlgorithm::RS384
            | SignatureAlgorithm::RS512
            | SignatureAlgorithm::PS256
            | SignatureAlgorithm::PS384
            | SignatureAlgorithm::PS512 => Self::sign_rsa(data, secret, self),
            SignatureAlgorithm::ES256
            | SignatureAlgorithm::ES384
            | SignatureAlgorithm::ES512 => Self::sign_ecdsa(data, secret, self),
        }
    }

    /// Verifies `expected_signature` over `data` with `secret`. A signature that
    /// does not match gives `Ok(false)`; an error means the check could not be made.
    pub fn verify(&self, expected_signature: &[u8], data: &[u8], secret: &Secret) -> (r: Result<
        bool,
        Error,
    >)
        requires
            data@.len() < MAX_HASHED_LEN,
            Self::hmac_key_fits(secret),
        ensures
            self.verified(expected_signature@, data@, secret, r),
    {
        match *self {
            SignatureAlgorithm::NoSignature => Self::verify_none(expected_signature, secret),
            SignatureAlgorithm::HS256
            | SignatureAlgorithm::HS384
            | SignatureAlgorithm::HS512 => Self::verify_hmac(expected_signature, data, secret, self),
            SignatureAlgorithm::RS256
            | SignatureAlgorithm::RS384
            | SignatureAlgorithm::RS512
            | SignatureAlgorithm::PS256
            | SignatureAlgorithm::PS384
            | SignatureAlgorithm::PS512
            | SignatureAlgorithm::ES256
            | SignatureAlgorithm::ES384
            | SignatureAlgorithm::ES512 => Self::verify_public_key(
                expected_signature,
                data,
                secret,
                self,
            ),
        }
    }

    fn sign_none(secret: &Secret) -> (r: Result<Vec<u8>, Error>)
        ensures
            SignatureAlgorithm::NoSignature.signed(Seq::empty(), secret, r),
    {
        match secret {
            Secret::NoSecret => Ok(Vec::new()),
            _ => Err(Error::InvalidSecretType),
        }
    }

    fn sign_hmac(data: &[u8], secret: &Secret, algorithm: &SignatureAlgorithm) -> (r: Result<
        Vec<u8>,
        Error,
    >)
        requires
            algorithm.spec_hmac_digest() is Some,
            data@.len() < MAX_HASHED_LEN,
            Self::hmac_key_fits(secret),
        ensures
            algorithm.signed(data@, secret, r),
    {
        let key = match secret {
            Secret::Bytes(key) => key,
            _ => return Err(Error::InvalidSecretType),
        };
        let digest = Self::hmac_digest(algorithm);
        Ok(hmac_sign(digest, key.as_slice(), data))
    }

    /// The digest of an HMAC algorithm.
    fn hmac_digest(algorithm: &SignatureAlgorithm) -> (d: HmacDigest)
        requires
            algorithm.spec_hmac_digest() is Some,
        ensures
            Some(d) == algorithm.spec_hmac_digest(),
    {
        match *algorithm {
            SignatureAlgorithm::HS384 => HmacDigest::Sha384,
            SignatureAlgorithm::HS512 => HmacDigest::Sha512,
            _ => HmacDigest::Sha256,
        }
    }

    fn sign_rsa(data: &[u8], secret: &Secret, algorithm: &SignatureAlgorithm) -> (r: Result<
        Vec<u8>,
        Error,
    >)
        requires
            algorithm.spec_rsa_padding() is Some,
            data@.len() < MAX_HASHED_LEN,
        ensures
            algorithm.signed(data@, secret, r),
    {
        let der = match secret {
            Secret::RsaKeyPair(der) => der,
            _ => return Err(Error::InvalidSecretType),
        };
        let padding = Self::rsa_padding(algorithm);
        match rsa_sign(der.as_slice(), padding, &rng(), data) {
            Ok(signature) => Ok(signature),
            Err(_) => Err(Error::UnspecifiedCryptographicError),
        }
    }

    /// The padding that an RSA algorithm signs with.
    fn rsa_padding(algorithm: &SignatureAlgorithm) -> (p: RsaPadding)
        requires
            algorithm.spec_rsa_padding() is Some,
        ensures
            Some(p) == algorithm.spec_rsa_padding(),
    {
        match *algorithm {
            SignatureAlgorithm::RS384 => RsaPadding::Pkcs1Sha384,
            SignatureAlgorithm::RS512 => RsaPadding::Pkcs1Sha512,
            SignatureAlgorithm::PS256 => RsaPadding::PssSha256,
            SignatureAlgorithm::PS384 => RsaPadding::PssSha384,
            SignatureAlgorithm::PS512 => RsaPadding::PssSha512,
            _ => RsaPadding::Pkcs1Sha256,
        }
    }

    /// ECDSA signing is not available: ES256 and ES384 verify only, and ES512
    /// is not supported at all.
    fn sign_ecdsa(_data: &[u8], _secret: &Secret, algorithm: &SignatureAlgorithm) -> (r: Result<
        Vec<u8>,
        Error,
    >)
        requires
            algorithm.is_ecdsa(),
        ensures
            r == Err::<Vec<u8>, Error>(Error::UnsupportedOperation),
    {
        Err(Error::UnsupportedOperation)
    }

    fn verify_none(expected_signature: &[u8], secret: &Secret) -> (r: Result<bool, Error>)
        ensures
            SignatureAlgorithm::NoSignature.verified(expected_signature@, Seq::empty(), secret, r),
    {
        match secret {
            Secret::NoSecret => Ok(expected_signature.len() == 0),
            _ => Err(Error::InvalidSecretType),
        }
    }

    fn verify_hmac(
        expected_signature: &[u8],
        data: &[u8],
        secret: &Secret,
        algorithm: &SignatureAlgorithm,
    ) -> (r: Result<bool, Error>)
        requires
            algorithm.spec_hmac_digest() is Some,
            data@.len() < MAX_HASHED_LEN,
            Self::hmac_key_fits(secret),
        ensures
            algorithm.verified(expected_signature@, data@, secret, r),
    {
        let key = match secret {
            Secret::Bytes(key) => key,
            _ => return Err(Error::InvalidSecretType),
        };
        let digest = Self::hmac_digest(algorithm);
        Ok(hmac_verify(digest, key.as_slice(), data, expected_signature).is_ok())
    }

    fn verify_public_key(
        expected_signature: &[u8],
        data: &[u8],
        secret: &Secret,
        algorithm: &SignatureAlgorithm,
    ) -> (r: Result<bool, Error>)
        requires
            algorithm.spec_verification_scheme() is Some || *algorithm == SignatureAlgorithm::ES512,
            data@.len() < MAX_HASHED_LEN,
        ensures
            algorithm.verified(expected_signature@, data@, secret, r),
    {
        let scheme = match *algorithm {
            SignatureAlgorithm::ES512 => return Err(Error::UnsupportedOperation),
            SignatureAlgorithm::RS384 => VerificationScheme::RsaPkcs1Sha384,
            SignatureAlgorithm::RS512 => VerificationScheme::RsaPkcs1Sha512,
            SignatureAlgorithm::PS256 => VerificationScheme::RsaPssSha256,
            SignatureAlgorithm::PS384 => VerificationScheme::RsaPssSha384,
            SignatureAlgorithm::PS512 => VerificationScheme::RsaPssSha512,
            SignatureAlgorithm::ES256 => VerificationScheme::EcdsaP256Sha256,
            SignatureAlgorithm::ES384 => VerificationScheme::EcdsaP384Sha384,
            _ => VerificationScheme::RsaPkcs1Sha256,
        };
        let public_key = match secret {
            Secret::PublicKey(public_key) => public_key,
            _ => return Err(Error::InvalidSecretType),
        };
        match verify_signature(scheme, public_key.as_slice(), data, expected_signature) {
            Ok(()) => Ok(true),
            Err(_) => Ok(false),
        }
    }
}

} // verus!
