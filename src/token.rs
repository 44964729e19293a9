//! The token that stands for each algorithm on the wire (RFC 7518).
use vstd::prelude::*;

use crate::catalog::{Algorithm, ContentEncryptionAlgorithm, KeyManagementAlgorithm, SignatureAlgorithm};

verus! {

/// Whether two strings are equal.
fn str_eq(a: &str, b: &str) -> (r: bool)
    ensures
        r == (a@ == b@),
{
    a.to_owned() == b.to_owned()
}

impl SignatureAlgorithm {
    /// The token of the algorithm.
    pub open spec fn spec_token(self) -> Seq<char> {
        match self {
            SignatureAlgorithm::NoSignature => "none"@,
            SignatureAlgorithm::HS256 => "HS256"@,
            SignatureAlgorithm::HS384 => "HS384"@,
            SignatureAlgorithm::HS512 => "HS512"@,
            SignatureAlgorithm::RS256 => "RS256"@,
            SignatureAlgorithm::RS384 => "RS384"@,
            SignatureAlgorithm::RS512 => "RS512"@,
            SignatureAlgorithm::ES256 => "ES256"@,
            SignatureAlgorithm::ES384 => "ES384"@,
            SignatureAlgorithm::ES512 => "ES512"@,
            SignatureAlgorithm::PS256 => "PS256"@,
            SignatureAlgorithm::PS384 => "PS384"@,
            SignatureAlgorithm::PS512 => "PS512"@,
        }
    }

    /// The token of the algorithm.
    pub fn token(&self) -> (r: &'static str)
        ensures
            r@ == self.spec_token(),
    {
        match *self {
            SignatureAlgorithm::NoSignature => "none",
            SignatureAlgorithm::HS256 => "HS256",
            SignatureAlgorithm::HS384 => "HS384",
            SignatureAlgorithm::HS512 => "HS512",
            SignatureAlgorithm::RS256 => "RS256",
            SignatureAlgorithm::RS384 => "RS384",
            SignatureAlgorithm::RS512 => "RS512",
            SignatureAlgorithm::ES256 => "ES256",
            SignatureAlgorithm::ES384 => "ES384",
            SignatureAlgorithm::ES512 => "ES512",
            SignatureAlgorithm::PS256 => "PS256",
            SignatureAlgorithm::PS384 => "PS384",
            SignatureAlgorithm::PS512 => "PS512",
        }
    }

    /// The algorithm of this family that `token` stands for, if any.
    pub fn from_token(token: &str) -> (r: Option<SignatureAlgorithm>)
        ensures
            match r {
                Some(a) => a.spec_token() == token@,
                None => forall|a: SignatureAlgorithm| #[trigger] a.spec_token() != token@,
            },
    {
        if str_eq(token, "none") {
            return Some(SignatureAlgorithm::NoSignature);
        }
        if str_eq(token, "HS256") {
            return Some(SignatureAlgorithm::HS256);
        }
        if str_eq(token, "HS384") {
            return Some(SignatureAlgorithm::HS384);
        }
        if str_eq(token, "HS512") {
            return Some(SignatureAlgorithm::HS512);
        }
        if str_eq(token, "RS256") {
            return Some(SignatureAlgorithm::RS256);
        }
        if str_eq(token, "RS384") {
            return Some(SignatureAlgorithm::RS384);
        }
        if str_eq(token, "RS512") {
            return Some(SignatureAlgorithm::RS512);
        }
        if str_eq(token, "ES256") {
            return Some(SignatureAlgorithm::ES256);
        }
        if str_eq(token, "ES384") {
            return Some(SignatureAlgorithm::ES384);
        }
        if str_eq(token, "ES512") {
            return Some(SignatureAlgorithm::ES512);
        }
        if str_eq(token, "PS256") {
            return Some(SignatureAlgorithm::PS256);
        }
        if str_eq(token, "PS384") {
            return Some(SignatureAlgorithm::PS384);
        }
        if str_eq(token, "PS512") {
            return Some(SignatureAlgorithm::PS512);
        }
        None
    }
}

impl KeyManagementAlgorithm {
    /// The token of the algorithm.
    pub open spec fn spec_token(self) -> Seq<char> {
        match self {
            KeyManagementAlgorithm::RSA1_5 => "RSA1_5"@,
            KeyManagementAlgorithm::RSA_OAEP => "RSA-OAEP"@,
            KeyManagementAlgorithm::RSA_OAEP_256 => "RSA-OAEP-256"@,
            KeyManagementAlgorithm::A128KW => "A128KW"@,
            KeyManagementAlgorithm::A192KW => "A192KW"@,
            KeyManagementAlgorithm::A256KW => "A256KW"@,
            KeyManagementAlgorithm::DirectSymmetricKey => "dir"@,
            KeyManagementAlgorithm::ECDH_ES => "ECDH-ES"@,
            KeyManagementAlgorithm::ECDH_ES_A128KW => "ECDH-ES+A128KW"@,
            KeyManagementAlgorithm::ECDH_ES_A192KW => "ECDH-ES+A192KW"@,
            KeyManagementAlgorithm::ECDH_ES_A256KW => "ECDH-ES+A256KW"@,
            KeyManagementAlgorithm::A128GCMKW => "A128GCMKW"@,
            KeyManagementAlgorithm::A192GCMKW => "A192GCMKW"@,
            KeyManagementAlgorithm::A256GCMKW => "A256GCMKW"@,
            KeyManagementAlgorithm::PBES2_HS256_A128KW => "PBES2-HS256+A128KW"@,
            KeyManagementAlgorithm::PBES2_HS384_A192KW => "PBES2-HS384+A192KW"@,
            KeyManagementAlgorithm::PBES2_HS512_A256KW => "PBES2-HS512+A256KW"@,
        }
    }

    /// The token of the algorithm.
    pub fn token(&self) -> (r: &'static str)
        ensures
            r@ == self.spec_token(),
    {
        match *self {
            KeyManagementAlgorithm::RSA1_5 => "RSA1_5",
            KeyManagementAlgorithm::RSA_OAEP => "RSA-OAEP",
            KeyManagementAlgorithm::RSA_OAEP_256 => "RSA-OAEP-256",
            KeyManagementAlgorithm::A128KW => "A128KW",
            KeyManagementAlgorithm::A192KW => "A192KW",
            KeyManagementAlgorithm::A256KW => "A256KW",
            KeyManagementAlgorithm::DirectSymmetricKey => "dir",
            KeyManagementAlgorithm::ECDH_ES => "ECDH-ES",
            KeyManagementAlgorithm::ECDH_ES_A128KW => "ECDH-ES+A128KW",
            KeyManagementAlgorithm::ECDH_ES_A192KW => "ECDH-ES+A192KW",
            KeyManagementAlgorithm::ECDH_ES_A256KW => "ECDH-ES+A256KW",
            KeyManagementAlgorithm::A128GCMKW => "A128GCMKW",
            KeyManagementAlgorithm::A192GCMKW => "A192GCMKW",
            KeyManagementAlgorithm::A256GCMKW => "A256GCMKW",
            KeyManagementAlgorithm::PBES2_HS256_A128KW => "PBES2-HS256+A128KW",
            KeyManagementAlgorithm::PBES2_HS384_A192KW => "PBES2-HS384+A192KW",
            KeyManagementAlgorithm::PBES2_HS512_A256KW => "PBES2-HS512+A256KW",
        }
    }

    /// The algorithm of this family that `token` stands for, if any.
    pub fn from_token(token: &str) -> (r: Option<KeyManagementAlgorithm>)
        ensures
            match r {
                Some(a) => a.spec_token() == token@,
                None => forall|a: KeyManagementAlgorithm| #[trigger] a.spec_token() != token@,
            },
    {
        if str_eq(token, "RSA1_5") {
            return Some(KeyManagementAlgorithm::RSA1_5);
        }
        if str_eq(token, "RSA-OAEP") {
            return Some(KeyManagementAlgorithm::RSA_OAEP);
        }
        if str_eq(token, "RSA-OAEP-256") {
            return Some(KeyManagementAlgorithm::RSA_OAEP_256);
        }
        if str_eq(token, "A128KW") {
            return Some(KeyManagementAlgorithm::A128KW);
        }
        if str_eq(token, "A192KW") {
            return Some(KeyManagementAlgorithm::A192KW);
        }
        if str_eq(token, "A256KW") {
            return Some(KeyManagementAlgorithm::A256KW);
        }
        if str_eq(token, "dir") {
            return Some(KeyManagementAlgorithm::DirectSymmetricKey);
        }
        if str_eq(token, "ECDH-ES") {
            return Some(KeyManagementAlgorithm::ECDH_ES);
        }
        if str_eq(token, "ECDH-ES+A128KW") {
            return Some(KeyManagementAlgorithm::ECDH_ES_A128KW);
        }
        if str_eq(token, "ECDH-ES+A192KW") {
            return Some(KeyManagementAlgorithm::ECDH_ES_A192KW);
        }
        if str_eq(token, "ECDH-ES+A256KW") {
            return Some(KeyManagementAlgorithm::ECDH_ES_A256KW);
        }
        if str_eq(token, "A128GCMKW") {
            return Some(KeyManagementAlgorithm::A128GCMKW);
        }
        if str_eq(token, "A192GCMKW") {
            return Some(KeyManagementAlgorithm::A192GCMKW);
        }
        if str_eq(token, "A256GCMKW") {
            return Some(KeyManagementAlgorithm::A256GCMKW);
        }
        if str_eq(token, "PBES2-HS256+A128KW") {
            return Some(KeyManagementAlgorithm::PBES2_HS256_A128KW);
        }
        if str_eq(token, "PBES2-HS384+A192KW") {
            return Some(KeyManagementAlgorithm::PBES2_HS384_A192KW);
        }
        if str_eq(token, "PBES2-HS512+A256KW") {
            return Some(KeyManagementAlgorithm::PBES2_HS512_A256KW);
        }
        None
    }
}

impl ContentEncryptionAlgorithm {
    /// The token of the algorithm.
    pub open spec fn spec_token(self) -> Seq<char> {
        match self {
            ContentEncryptionAlgorithm::A128CBC_HS256 => "A128CBC-HS256"@,
            ContentEncryptionAlgorithm::A192CBC_HS384 => "A192CBC-HS384"@,
            ContentEncryptionAlgorithm::A256CBC_HS512 => "A256CBC-HS512"@,
            ContentEncryptionAlgorithm::A128GCM => "A128GCM"@,
            ContentEncryptionAlgorithm::A192GCM => "A192GCM"@,
            ContentEncryptionAlgorithm::A256GCM => "A256GCM"@,
        }
    }

    /// The token of the algorithm.
    pub fn token(&self) -> (r: &'static str)
        ensures
            r@ == self.spec_token(),
    {
        match *self {
            ContentEncryptionAlgorithm::A128CBC_HS256 => "A128CBC-HS256",
            ContentEncryptionAlgorithm::A192CBC_HS384 => "A192CBC-HS384",
            ContentEncryptionAlgorithm::A256CBC_HS512 => "A256CBC-HS512",
            ContentEncryptionAlgorithm::A128GCM => "A128GCM",
            ContentEncryptionAlgorithm::A192GCM => "A192GCM",
            ContentEncryptionAlgorithm::A256GCM => "A256GCM",
        }
    }

    /// The algorithm of this family that `token` stands for, if any.
    pub fn from_token(token: &str) -> (r: Option<ContentEncryptionAlgorithm>)
        ensures
            match r {
                Some(a) => a.spec_token() == token@,
                None => forall|a: ContentEncryptionAlgorithm| #[trigger] a.spec_token() != token@,
            },
    {
        if str_eq(token, "A128CBC-HS256") {
            return Some(ContentEncryptionAlgorithm::A128CBC_HS256);
        }
        if str_eq(token, "A192CBC-HS384") {
            return Some(ContentEncryptionAlgorithm::A192CBC_HS384);
        }
        if str_eq(token, "A256CBC-HS512") {
            return Some(ContentEncryptionAlgorithm::A256CBC_HS512);
        }
        if str_eq(token, "A128GCM") {
            return Some(ContentEncryptionAlgorithm::A128GCM);
        }
        if str_eq(token, "A192GCM") {
            return Some(ContentEncryptionAlgorithm::A192GCM);
        }
        if str_eq(token, "A256GCM") {
            return Some(ContentEncryptionAlgorithm::A256GCM);
        }
        None
    }
}

impl Algorithm {
    /// The token of the algorithm, that of its family's algorithm.
    pub open spec fn spec_token(self) -> Seq<char> {
        match self {
            Algorithm::Signature(a) => a.spec_token(),
            Algorithm::KeyManagement(a) => a.spec_token(),
            Algorithm::ContentEncryption(a) => a.spec_token(),
        }
    }

    /// The token of the algorithm. No field says which family it belongs to.
    pub fn token(&self) -> (r: &'static str)
        ensures
            r@ == self.spec_token(),
    {
        match self {
            Algorithm::Signature(a) => a.token(),
            Algorithm::KeyManagement(a) => a.token(),
            Algorithm::ContentEncryption(a) => a.token(),
        }
    }

    /// Whether `r` is what decoding `token` gives: the algorithm whose token it
    /// is, or `None` when it is no algorithm's token.
    pub open spec fn decodes(token: Seq<char>, r: Option<Algorithm>) -> bool {
        match r {
            Some(a) => a.spec_token() == token,
            None => forall|a: Algorithm| #[trigger] a.spec_token() != token,
        }
    }

    /// The algorithm, of whichever family, that `token` stands for, if any.
    pub fn from_token(token: &str) -> (r: Option<Algorithm>)
        ensures
            Self::decodes(token@, r),
    {
        if let Some(a) = SignatureAlgorithm::from_token(token) {
            return Some(Algorithm::Signature(a));
        }
        if let Some(a) = KeyManagementAlgorithm::from_token(token) {
            return Some(Algorithm::KeyManagement(a));
        }
        if let Some(a) = ContentEncryptionAlgorithm::from_token(token) {
            return Some(Algorithm::ContentEncryption(a));
        }
        proof {
            assert forall|a: Algorithm| #[trigger] a.spec_token() != token@ by {
                match a {
                    Algorithm::Signature(s) => assert(s.spec_token() != token@),
                    Algorithm::KeyManagement(k) => assert(k.spec_token() != token@),
                    Algorithm::ContentEncryption(c) => assert(c.spec_token() != token@),
                }
            }
        }
        None
    }
}

/// No two algorithms, of the same family or of different ones, share a token.
pub proof fn tokens_are_distinct(a: Algorithm, b: Algorithm)
    ensures
        a.spec_token() == b.spec_token() ==> a == b,
{
    reveal_strlit("none");
    reveal_strlit("HS256");
    reveal_strlit("HS384");
    reveal_strlit("HS512");
    reveal_strlit("RS256");
    reveal_strlit("RS384");
    reveal_strlit("RS512");
    reveal_strlit("ES256");
    reveal_strlit("ES384");
    reveal_strlit("ES512");
    reveal_strlit("PS256");
    reveal_strlit("PS384");
    reveal_strlit("PS512");
    reveal_strlit("RSA1_5");
    reveal_strlit("RSA-OAEP");
    reveal_strlit("RSA-OAEP-256");
    reveal_strlit("A128KW");
    reveal_strlit("A192KW");
    reveal_strlit("A256KW");
    reveal_strlit("dir");
    reveal_strlit("ECDH-ES");
    reveal_strlit("ECDH-ES+A128KW");
    reveal_strlit("ECDH-ES+A192KW");
    reveal_strlit("ECDH-ES+A256KW");
    reveal_strlit("A128GCMKW");
    reveal_strlit("A192GCMKW");
    reveal_strlit("A256GCMKW");
    reveal_strlit("PBES2-HS256+A128KW");
    reveal_strlit("PBES2-HS384+A192KW");
    reveal_strlit("PBES2-HS512+A256KW");
    reveal_strlit("A128CBC-HS256");
    reveal_strlit("A192CBC-HS384");
    reveal_strlit("A256CBC-HS512");
    reveal_strlit("A128GCM");
    reveal_strlit("A192GCM");
    reveal_strlit("A256GCM");
    assert("none"@.len() == 4);
    assert("HS256"@.len() == 5);
    assert("HS256"@[0] == 'H');
    assert("HS256"@[2] == '2');
    assert("HS384"@.len() == 5);
    assert("HS384"@[0] == 'H');
    assert("HS384"@[2] == '3');
    assert("HS512"@.len() == 5);
    assert("HS512"@[0] == 'H');
    assert("HS512"@[2] == '5');
    assert("RS256"@.len() == 5);
    assert("RS256"@[0] == 'R');
    assert("RS256"@[2] == '2');
    assert("RS384"@.len() == 5);
    assert("RS384"@[0] == 'R');
    assert("RS384"@[2] == '3');
    assert("RS512"@.len() == 5);
    assert("RS512"@[0] == 'R');
    assert("RS512"@[2] == '5');
    assert("ES256"@.len() == 5);
    assert("ES256"@[0] == 'E');
    assert("ES256"@[2] == '2');
    assert("ES384"@.len() == 5);
    assert("ES384"@[0] == 'E');
    assert("ES384"@[2] == '3');
    assert("ES512"@.len() == 5);
    assert("ES512"@[0] == 'E');
    assert("ES512"@[2] == '5');
    assert("PS256"@.len() == 5);
    assert("PS256"@[0] == 'P');
    assert("PS256"@[2] == '2');
    assert("PS384"@.len() == 5);
    assert("PS384"@[0] == 'P');
    assert("PS384"@[2] == '3');
    assert("PS512"@.len() == 5);
    assert("PS512"@[0] == 'P');
    assert("PS512"@[2] == '5');
    assert("RSA1_5"@.len() == 6);
    assert("RSA1_5"@[0] == 'R');
    assert("RSA1_5"@[1] == 'S');
    assert("RSA1_5"@[2] == 'A');
    assert("RSA-OAEP"@.len() == 8);
    assert("RSA-OAEP-256"@.len() == 12);
    assert("A128KW"@.len() == 6);
    assert("A128KW"@[0] == 'A');
    assert("A128KW"@[1] == '1');
    assert("A128KW"@[2] == '2');
    assert("A192KW"@.len() == 6);
    assert("A192KW"@[0] == 'A');
    assert("A192KW"@[1] == '1');
    assert("A192KW"@[2] == '9');
    assert("A256KW"@.len() == 6);
    assert("A256KW"@[0] == 'A');
    assert("A256KW"@[1] == '2');
    assert("A256KW"@[2] == '5');
    assert("dir"@.len() == 3);
    assert("ECDH-ES"@.len() == 7);
    assert("ECDH-ES"@[0] == 'E');
    assert("ECDH-ES"@[1] == 'C');
    assert("ECDH-ES"@[2] == 'D');
    assert("ECDH-ES+A128KW"@.len() == 14);
    assert("ECDH-ES+A128KW"@[9] == '1');
    assert("ECDH-ES+A128KW"@[10] == '2');
    assert("ECDH-ES+A192KW"@.len() == 14);
    assert("ECDH-ES+A192KW"@[9] == '1');
    assert("ECDH-ES+A192KW"@[10] == '9');
    assert("ECDH-ES+A256KW"@.len() == 14);
    assert("ECDH-ES+A256KW"@[9] == '2');
    assert("ECDH-ES+A256KW"@[10] == '5');
    assert("A128GCMKW"@.len() == 9);
    assert("A128GCMKW"@[1] == '1');
    assert("A128GCMKW"@[2] == '2');
    assert("A192GCMKW"@.len() == 9);
    assert("A192GCMKW"@[1] == '1');
    assert("A192GCMKW"@[2] == '9');
    assert("A256GCMKW"@.len() == 9);
    assert("A256GCMKW"@[1] == '2');
    assert("A256GCMKW"@[2] == '5');
    assert("PBES2-HS256+A128KW"@.len() == 18);
    assert("PBES2-HS256+A128KW"@[8] == '2');
    assert("PBES2-HS384+A192KW"@.len() == 18);
    assert("PBES2-HS384+A192KW"@[8] == '3');
    assert("PBES2-HS512+A256KW"@.len() == 18);
    assert("PBES2-HS512+A256KW"@[8] == '5');
    assert("A128CBC-HS256"@.len() == 13);
    assert("A128CBC-HS256"@[1] == '1');
    assert("A128CBC-HS256"@[2] == '2');
    assert("A192CBC-HS384"@.len() == 13);
    assert("A192CBC-HS384"@[1] == '1');
    assert("A192CBC-HS384"@[2] == '9');
    assert("A256CBC-HS512"@.len() == 13);
    assert("A256CBC-HS512"@[1] == '2');
    assert("A256CBC-HS512"@[2] == '5');
    assert("A128GCM"@.len() == 7);
    assert("A128GCM"@[0] == 'A');
    assert("A128GCM"@[1] == '1');
    assert("A128GCM"@[2] == '2');
    assert("A192GCM"@.len() == 7);
    assert("A192GCM"@[0] == 'A');
    assert("A192GCM"@[1] == '1');
    assert("A192GCM"@[2] == '9');
    assert("A256GCM"@.len() == 7);
    assert("A256GCM"@[0] == 'A');
    assert("A256GCM"@[1] == '2');
    assert("A256GCM"@[2] == '5');
}

/// Token round trip: decoding the token of an algorithm gives that algorithm
/// back, and decoding a token, when it stands for an algorithm, then encoding
/// that algorithm gives the token back.
pub proof fn token_round_trip(a: Algorithm, token: Seq<char>, decoded: Option<Algorithm>)
    requires
        Algorithm::decodes(token, decoded),
    ensures
        token == a.spec_token() ==> decoded == Some(a),
        decoded matches Some(d) ==> d.spec_token() == token,
{
    if token == a.spec_token() {
        if let Some(d) = decoded {
            tokens_are_distinct(a, d);
        }
    }
}

} // verus!
