//! The content-encryption engine: AES-GCM encryption and key generation.
use vstd::prelude::*;

use crate::catalog::ContentEncryptionAlgorithm;
use crate::error::Error;
use crate::key::Jwk;
use crate::primitives::{
    aes_gcm_open, aes_gcm_seal, fill_random, gcm_lengths_ok, rng, seals_to, AesGcm, NONCE_LENGTH,
    TAG_SIZE,
};

verus! {

/// The result of an encryption: the fields a serialization layer puts on the wire.
#[derive(Debug, Clone)]
pub struct EncryptionResult {
    /// The nonce (initialization vector) used in the encryption.
    pub nonce: Vec<u8>,
    /// The encrypted payload.
    pub encrypted: Vec<u8>,
    /// The authentication tag.
    pub tag: Vec<u8>,
    /// Additional data that is integrity protected but not encrypted.
    pub additional_data: Vec<u8>,
}

impl Default for EncryptionResult {
    fn default() -> (r: Self)
        ensures
            r.is_empty(),
    {
        EncryptionResult {
            nonce: Vec::new(),
            encrypted: Vec::new(),
            tag: Vec::new(),
            additional_data: Vec::new(),
        }
    }
}

/// Whether two byte slices are equal.
fn bytes_equal(a: &[u8], b: &[u8]) -> (r: bool)
    ensures
        r == (a@ == b@),
{
    if a.len() != b.len() {
        return false;
    }
    let mut i: usize = 0;
    while i < a.len()
        invariant
            a@.len() == b@.len(),
            i <= a@.len(),
            forall|j: int| 0 <= j < i ==> a@[j] == b@[j],
        decreases a@.len() - i,
    {
        if a[i] != b[i] {
            return false;
        }
        i = i + 1;
    }
    assert(a@ =~= b@);
    true
}

impl PartialEq for EncryptionResult {
    fn eq(&self, other: &EncryptionResult) -> (r: bool) {
        bytes_equal(self.nonce.as_slice(), other.nonce.as_slice()) && bytes_equal(
            self.encrypted.as_slice(),
            other.encrypted.as_slice(),
        ) && bytes_equal(self.tag.as_slice(), other.tag.as_slice()) && bytes_equal(
            self.additional_data.as_slice(),
            other.additional_data.as_slice(),
        )
    }
}

impl vstd::std_specs::cmp::PartialEqSpecImpl for EncryptionResult {
    open spec fn obeys_eq_spec() -> bool {
        true
    }

    open spec fn eq_spec(&self, other: &EncryptionResult) -> bool {
        &&& self.nonce@ == other.nonce@
        &&& self.encrypted@ == other.encrypted@
        &&& self.tag@ == other.tag@
        &&& self.additional_data@ == other.additional_data@
    }
}

impl Eq for EncryptionResult {

}

impl EncryptionResult {
    /// Whether every field is empty.
    pub open spec fn is_empty(self) -> bool {
        &&& self.nonce@.len() == 0
        &&& self.encrypted@.len() == 0
        &&& self.tag@.len() == 0
        &&& self.additional_data@.len() == 0
    }

    /// The ciphertext followed by the tag, as AES-GCM produces and consumes it.
    pub open spec fn sealed(self) -> Seq<u8> {
        self.encrypted@ + self.tag@
    }

    /// Whether this is the AES-GCM encryption of `payload` with `aad` under
    /// `key`, with a nonce and tag of the sizes the algorithms fix.
    pub open spec fn encrypts(self, algorithm: AesGcm, key: Seq<u8>, payload: Seq<u8>, aad: Seq<u8>) -> bool {
        &&& self.nonce@.len() == NONCE_LENGTH
        &&& self.tag@.len() == TAG_SIZE
        &&& self.encrypted@.len() == payload.len()
        &&& self.additional_data@ == aad
        &&& seals_to(algorithm, key, self.nonce@, aad, payload, self.sealed())
    }
}

/// What `aes_gcm_encrypt` returns for `payload` and `aad` under the key object `key`.
pub open spec fn aes_gcm_encrypted(
    algorithm: AesGcm,
    payload: Seq<u8>,
    aad: Seq<u8>,
    key: Jwk,
    r: Result<EncryptionResult, Error>,
) -> bool {
    match key.octet_value() {
        None => r == Err::<EncryptionResult, Error>(key.not_octet_error()),
        Some(k) => {
            &&& r matches Ok(res) ==> res.encrypts(algorithm, k, payload, aad)
            &&& r matches Err(e) ==> (e == Error::RandomGenerationFailure || (e
                == Error::UnspecifiedCryptographicError && (k.len() != algorithm.key_len()
                || !gcm_lengths_ok(aad.len(), payload.len()))))
            &&& k.len() != algorithm.key_len() ==> r is Err
        },
    }
}

/// What `aes_gcm_decrypt` returns for `encrypted` under the key object `key`.
pub open spec fn aes_gcm_decrypted(
    algorithm: AesGcm,
    encrypted: EncryptionResult,
    key: Jwk,
    r: Result<Vec<u8>, Error>,
) -> bool {
    match key.octet_value() {
        None => r == Err::<Vec<u8>, Error>(key.not_octet_error()),
        Some(k) => {
            &&& r matches Ok(p) ==> seals_to(
                algorithm,
                k,
                encrypted.nonce@,
                encrypted.additional_data@,
                p@,
                encrypted.sealed(),
            )
            &&& r matches Err(e) ==> e == Error::AuthenticationFailure
            &&& forall|p: Seq<u8>|
                #[trigger] seals_to(
                    algorithm,
                    k,
                    encrypted.nonce@,
                    encrypted.additional_data@,
                    p,
                    encrypted.sealed(),
                ) && encrypted.tag@.len() == TAG_SIZE ==> r is Ok && r->Ok_0@ == p
        },
    }
}

/// A byte vector of `len` zeros.
fn zeros(len: usize) -> (r: Vec<u8>)
    ensures
        r@.len() == len,
{
    vec![0u8; len]
}

/// The encryption result made of `nonce`, the outcome of sealing with it, and
/// the associated data `aad`.
pub fn sealed_result(
    nonce: Vec<u8>,
    sealed: Result<(Vec<u8>, Vec<u8>), ring::error::Unspecified>,
    aad: &[u8],
) -> (r: Result<EncryptionResult, Error>)
    ensures
        match sealed {
            Ok((encrypted, tag)) => r matches Ok(res) && res.nonce@ == nonce@ && res.encrypted@
                == encrypted@ && res.tag@ == tag@ && res.additional_data@ == aad@,
            Err(_) => r == Err::<EncryptionResult, Error>(Error::UnspecifiedCryptographicError),
        },
{
    match sealed {
        Ok((encrypted, tag)) => Ok(
            EncryptionResult { nonce, encrypted, tag, additional_data: vstd::slice::slice_to_vec(aad) },
        ),
        Err(_) => Err(Error::UnspecifiedCryptographicError),
    }
}

/// Encrypts `payload` with AES-GCM under the symmetric key object `key`, with a
/// fresh random nonce, authenticating `aad` with it.
pub fn aes_gcm_encrypt(algorithm: AesGcm, payload: &[u8], aad: &[u8], key: &Jwk) -> (r: Result<
    EncryptionResult,
    Error,
>)
    ensures
        aes_gcm_encrypted(algorithm, payload@, aad@, *key, r),
{
    let key = key.octet_key()?;
    let mut nonce = zeros(NONCE_LENGTH);
    if fill_random(&rng(), &mut nonce).is_err() {
        return Err(Error::RandomGenerationFailure);
    }
    let sealed = aes_gcm_seal(algorithm, key, nonce.as_slice(), aad, payload);
    sealed_result(nonce, sealed, aad)
}

/// Decrypts and authenticates `encrypted` with AES-GCM under the symmetric key
/// object `key`. Every failure to authenticate is the same `AuthenticationFailure`.
pub fn aes_gcm_decrypt(algorithm: AesGcm, encrypted: &EncryptionResult, key: &Jwk) -> (r: Result<
    Vec<u8>,
    Error,
>)
    ensures
        aes_gcm_decrypted(algorithm, *encrypted, *key, r),
{
    let key = key.octet_key()?;
    match aes_gcm_open(
        algorithm,
        key,
        encrypted.nonce.as_slice(),
        encrypted.additional_data.as_slice(),
        encrypted.encrypted.as_slice(),
        encrypted.tag.as_slice(),
    ) {
        Ok(plaintext) => Ok(plaintext),
        Err(_) => Err(Error::AuthenticationFailure),
    }
}

impl ContentEncryptionAlgorithm {
    /// The AES-GCM size of a supported algorithm; `None` for the unsupported ones.
    pub open spec fn spec_aes_gcm(self) -> Option<AesGcm> {
        match self {
            ContentEncryptionAlgorithm::A128GCM => Some(AesGcm::Aes128),
            ContentEncryptionAlgorithm::A256GCM => Some(AesGcm::Aes256),
            _ => None,
        }
    }

    /// What `generate_key` returns.
    pub open spec fn generated(self, r: Result<Vec<u8>, Error>) -> bool {
        match self.spec_aes_gcm() {
            Some(a) => {
                &&& r matches Ok(k) ==> k@.len() == a.key_len()
                &&& r matches Err(e) ==> e == Error::RandomGenerationFailure
            },
            None => r == Err::<Vec<u8>, Error>(Error::UnsupportedOperation),
        }
    }

    /// What `encrypt` returns.
    pub open spec fn encrypt_result(
        self,
        payload: Seq<u8>,
        aad: Seq<u8>,
        key: Jwk,
        r: Result<EncryptionResult, Error>,
    ) -> bool {
        match self.spec_aes_gcm() {
            Some(a) => aes_gcm_encrypted(a, payload, aad, key, r),
            None => r == Err::<EncryptionResult, Error>(Error::UnsupportedOperation),
        }
    }

    /// What `decrypt` returns.
    pub open spec fn decrypt_result(self, encrypted: EncryptionResult, key: Jwk, r: Result<Vec<u8>, Error>) -> bool {
        match self.spec_aes_gcm() {
            Some(a) => aes_gcm_decrypted(a, encrypted, key, r),
            None => r == Err::<Vec<u8>, Error>(Error::UnsupportedOperation),
        }
    }

    /// Generates a random key of the length that the algorithm needs.
    pub fn generate_key(&self) -> (r: Result<Vec<u8>, Error>)
        ensures
            self.generated(r),
    {
        let length: usize = match *self {
            ContentEncryptionAlgorithm::A128GCM => 16,
            ContentEncryptionAlgorithm::A256GCM => 32,
            _ => return Err(Error::UnsupportedOperation),
        };
        let mut key = zeros(length);
        match fill_random(&rng(), &mut key) {
            Ok(()) => Ok(key),
            Err(_) => Err(Error::RandomGenerationFailure),
        }
    }

    /// Encrypts `payload` under the symmetric key object `key`, authenticating
    /// `aad` with it.
    pub fn encrypt(&self, payload: &[u8], aad: &[u8], key: &Jwk) -> (r: Result<
        EncryptionResult,
        Error,
    >)
        ensures
            self.encrypt_result(payload@, aad@, *key, r),
    {
        match *self {
            ContentEncryptionAlgorithm::A128GCM
            | ContentEncryptionAlgorithm::A192GCM
            | ContentEncryptionAlgorithm::A256GCM => self.aes_gcm_encrypt(payload, aad, key),
            _ => Err(Error::UnsupportedOperation),
        }
    }

    /// Decrypts and authenticates `encrypted` under the symmetric key object `key`.
    pub fn decrypt(&self, encrypted: &EncryptionResult, key: &Jwk) -> (r: Result<Vec<u8>, Error>)
        ensures
            self.decrypt_result(*encrypted, *key, r),
    {
        match *self {
            ContentEncryptionAlgorithm::A128GCM
            | ContentEncryptionAlgorithm::A192GCM
            | ContentEncryptionAlgorithm::A256GCM => self.aes_gcm_decrypt(encrypted, key),
            _ => Err(Error::UnsupportedOperation),
        }
    }

    fn aes_gcm_encrypt(&self, payload: &[u8], aad: &[u8], key: &Jwk) -> (r: Result<
        EncryptionResult,
        Error,
    >)
        ensures
            self.encrypt_result(payload@, aad@, *key, r),
    {
        let algorithm = match *self {
            ContentEncryptionAlgorithm::A128GCM => AesGcm::Aes128,
            ContentEncryptionAlgorithm::A256GCM => AesGcm::Aes256,
            _ => return Err(Error::UnsupportedOperation),
        };
        aes_gcm_encrypt(algorithm, payload, aad, key)
    }

    fn aes_gcm_decrypt(&self, encrypted: &EncryptionResult, key: &Jwk) -> (r: Result<
        Vec<u8>,
        Error,
    >)
        ensures
            self.decrypt_result(*encrypted, *key, r),
    {
        let algorithm = match *self {
            ContentEncryptionAlgorithm::A128GCM => AesGcm::Aes128,
            ContentEncryptionAlgorithm::A256GCM => AesGcm::Aes256,
            _ => return Err(Error::UnsupportedOperation),
        };
        aes_gcm_decrypt(algorithm, encrypted, key)
    }
}

} // verus!
