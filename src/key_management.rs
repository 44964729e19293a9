//! The key-management engine: content encryption key derivation and wrapping.
use vstd::prelude::*;

use crate::catalog::{Algorithm, ContentEncryptionAlgorithm, KeyManagementAlgorithm};
use crate::encryption::{
    aes_gcm_decrypt, aes_gcm_encrypt, aes_gcm_encrypted, EncryptionResult,
};
use crate::error::Error;
use crate::key::{Jwk, PublicKeyUse};
use crate::primitives::{seals_to, AesGcm, TAG_SIZE};

verus! {

/// Whether `c` is a content encryption key for `content_alg` holding `value`.
pub open spec fn content_key(c: Jwk, content_alg: ContentEncryptionAlgorithm, value: Seq<u8>) -> bool {
    &&& c.octet_value() == Some(value)
    &&& c.public_key_use == Some(PublicKeyUse::Encryption)
    &&& c.algorithm == Some(Algorithm::ContentEncryption(content_alg))
}

impl KeyManagementAlgorithm {
    /// The AES-GCM size of a supported key-wrapping algorithm; `None` for all others.
    pub open spec fn spec_aes_gcm_wrap(self) -> Option<AesGcm> {
        match self {
            KeyManagementAlgorithm::A128GCMKW => Some(AesGcm::Aes128),
            KeyManagementAlgorithm::A256GCMKW => Some(AesGcm::Aes256),
            _ => None,
        }
    }

    /// What `cek` returns.
    pub open spec fn cek_result(
        self,
        content_alg: ContentEncryptionAlgorithm,
        key: Jwk,
        r: Result<Jwk, Error>,
    ) -> bool {
        if self == KeyManagementAlgorithm::DirectSymmetricKey {
            match key.octet_value() {
                Some(_) => r matches Ok(c) && c.same_key(key),
                None => r == Err::<Jwk, Error>(key.not_octet_error()),
            }
        } else if self.spec_aes_gcm_wrap() is Some {
            match content_alg.spec_aes_gcm() {
                Some(a) => {
                    &&& r matches Ok(c) ==> (c.octet_value() matches Some(v) && v.len()
                        == a.key_len() && content_key(c, content_alg, v))
                    &&& r matches Err(e) ==> e == Error::RandomGenerationFailure
                },
                None => r == Err::<Jwk, Error>(Error::UnsupportedOperation),
            }
        } else {
            r == Err::<Jwk, Error>(Error::UnsupportedOperation)
        }
    }

    /// What `decrypt` returns with a key-wrapping algorithm of size `a`.
    pub open spec fn unwrapped(
        a: AesGcm,
        encrypted: EncryptionResult,
        content_alg: ContentEncryptionAlgorithm,
        key: Jwk,
        r: Result<Jwk, Error>,
    ) -> bool {
        match key.octet_value() {
            None => r == Err::<Jwk, Error>(key.not_octet_error()),
            Some(k) => {
                &&& r matches Ok(c) ==> (c.octet_value() matches Some(v) && content_key(
                    c,
                    content_alg,
                    v,
                ) && seals_to(
                    a,
                    k,
                    encrypted.nonce@,
                    encrypted.additional_data@,
                    v,
                    encrypted.sealed(),
                ))
                &&& r matches Err(e) ==> e == Error::AuthenticationFailure
                &&& forall|p: Seq<u8>|
                    #[trigger] seals_to(
                        a,
                        k,
                        encrypted.nonce@,
                        encrypted.additional_data@,
                        p,
                        encrypted.sealed(),
                    ) && encrypted.tag@.len() == TAG_SIZE ==> (r matches Ok(c) && content_key(
                        c,
                        content_alg,
                        p,
                    ))
            },
        }
    }

    /// What `encrypt` returns.
    pub open spec fn encrypt_result(self, payload: Seq<u8>, key: Jwk, r: Result<EncryptionResult, Error>) -> bool {
        match self.spec_aes_gcm_wrap() {
            Some(a) => aes_gcm_encrypted(a, payload, Seq::empty(), key, r),
            None => if self == KeyManagementAlgorithm::DirectSymmetricKey {
                r matches Ok(res) && res.is_empty()
            } else {
                r == Err::<EncryptionResult, Error>(Error::UnsupportedOperation)
            },
        }
    }

    /// What `decrypt` returns.
    pub open spec fn decrypt_result(
        self,
        encrypted: EncryptionResult,
        content_alg: ContentEncryptionAlgorithm,
        key: Jwk,
        r: Result<Jwk, Error>,
    ) -> bool {
        match self.spec_aes_gcm_wrap() {
            Some(a) => Self::unwrapped(a, encrypted, content_alg, key, r),
            None => if self == KeyManagementAlgorithm::DirectSymmetricKey {
                r matches Ok(c) && c.same_key(key)
            } else {
                r == Err::<Jwk, Error>(Error::UnsupportedOperation)
            },
        }
    }

    /// The content encryption key for encrypting with `content_alg`: the shared
    /// key itself for `dir`, a fresh random key for the AES-GCM key-wrapping
    /// algorithms.
    pub fn cek(&self, content_alg: ContentEncryptionAlgorithm, key: &Jwk) -> (r: Result<Jwk, Error>)
        ensures
            self.cek_result(content_alg, *key, r),
    {
        match *self {
            KeyManagementAlgorithm::DirectSymmetricKey => self.cek_direct(key),
            KeyManagementAlgorithm::A128GCMKW
            | KeyManagementAlgorithm::A256GCMKW => self.cek_aes_gcm(content_alg),
            _ => Err(Error::UnsupportedOperation),
        }
    }

    fn cek_direct(&self, key: &Jwk) -> (r: Result<Jwk, Error>)
        ensures
            match key.octet_value() {
                Some(_) => r matches Ok(c) && c.same_key(*key),
                None => r == Err::<Jwk, Error>(key.not_octet_error()),
            },
    {
        match key.octet_key() {
            Ok(_) => Ok(key.clone_without_additional()),
            Err(e) => Err(e),
        }
    }

    fn cek_aes_gcm(&self, content_alg: ContentEncryptionAlgorithm) -> (r: Result<Jwk, Error>)
        requires
            self.spec_aes_gcm_wrap() is Some,
        ensures
            forall|key: Jwk| #[trigger] self.cek_result(content_alg, key, r),
    {
        let key = content_alg.generate_key()?;
        Ok(Jwk::new_content_key(key, Algorithm::ContentEncryption(content_alg)))
    }

    /// Wraps `payload`, a content encryption key, under `key`: AES-GCM with no
    /// associated data for the key-wrapping algorithms, nothing for `dir`.
    pub fn encrypt(&self, payload: &[u8], key: &Jwk) -> (r: Result<EncryptionResult, Error>)
        ensures
            self.encrypt_result(payload@, *key, r),
    {
        match *self {
            KeyManagementAlgorithm::A128GCMKW
            | KeyManagementAlgorithm::A192GCMKW
            | KeyManagementAlgorithm::A256GCMKW => self.aes_gcm_encrypt(payload, key),
            KeyManagementAlgorithm::DirectSymmetricKey => Ok(EncryptionResult::default()),
            _ => Err(Error::UnsupportedOperation),
        }
    }

    /// Unwraps the content encryption key for `content_alg` from `encrypted`
    /// under `key`; for `dir` the content key is `key` itself.
    pub fn decrypt(
        &self,
        encrypted: &EncryptionResult,
        content_alg: ContentEncryptionAlgorithm,
        key: &Jwk,
    ) -> (r: Result<Jwk, Error>)
        ensures
            self.decrypt_result(*encrypted, content_alg, *key, r),
    {
        match *self {
            KeyManagementAlgorithm::A128GCMKW
            | KeyManagementAlgorithm::A192GCMKW
            | KeyManagementAlgorithm::A256GCMKW => self.aes_gcm_decrypt(encrypted, content_alg, key),
            KeyManagementAlgorithm::DirectSymmetricKey => Ok(key.clone_without_additional()),
            _ => Err(Error::UnsupportedOperation),
        }
    }

    fn aes_gcm_encrypt(&self, payload: &[u8], key: &Jwk) -> (r: Result<EncryptionResult, Error>)
        ensures
            match self.spec_aes_gcm_wrap() {
                Some(a) => aes_gcm_encrypted(a, payload@, Seq::empty(), *key, r),
                None => r == Err::<EncryptionResult, Error>(Error::UnsupportedOperation),
            },
    {
        let algorithm = match *self {
            KeyManagementAlgorithm::A128GCMKW => AesGcm::Aes128,
            KeyManagementAlgorithm::A256GCMKW => AesGcm::Aes256,
            _ => return Err(Error::UnsupportedOperation),
        };
        let no_aad: Vec<u8> = Vec::new();
        aes_gcm_encrypt(algorithm, payload, no_aad.as_slice(), key)
    }

    fn aes_gcm_decrypt(
        &self,
        encrypted: &EncryptionResult,
        content_alg: ContentEncryptionAlgorithm,
        key: &Jwk,
    ) -> (r: Result<Jwk, Error>)
        ensures
            match self.spec_aes_gcm_wrap() {
                Some(a) => Self::unwrapped(a, *encrypted, content_alg, *key, r),
                None => r == Err::<Jwk, Error>(Error::UnsupportedOperation),
            },
    {
        let algorithm = match *self {
            KeyManagementAlgorithm::A128GCMKW => AesGcm::Aes128,
            KeyManagementAlgorithm::A256GCMKW => AesGcm::Aes256,
            _ => return Err(Error::UnsupportedOperation),
        };
        let cek = aes_gcm_decrypt(algorithm, encrypted, key)?;
        Ok(Jwk::new_content_key(cek, Algorithm::ContentEncryption(content_alg)))
    }
}

} // verus!
