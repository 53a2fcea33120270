//! Public keys as JSON Web Keys, and their multibase form.
//!
//! A public key in multibase form is its multicodec code followed by the
//! key's bytes, written in base58btc.

use vstd::prelude::*;
use vstd::utf8::encode_utf8;

use crate::ed25519::PUBLIC_KEY_LENGTH;
use crate::encoding::{
    base64url, base64url_decoded, decode_base64url, decode_multibase, encode_base58btc,
    encode_base64url, multibase_base58btc, multibase_decoded,
};
use crate::error::Error;
use crate::json::{
    json_object, json_string, member, object, optional, required, string_json, texts_of,
    Canonical,
};
use crate::hash::{digest, sha256};
use crate::text::{append_chars, string_of};

verus! {

/// The multicodec code of an Ed25519 public key.
pub const ED25519_CODEC: [u8; 2] = [0xed, 0x01];

/// The multicodec code of an X25519 public key.
pub const X25519_CODEC: [u8; 2] = [0xec, 0x01];

/// Cryptographic key type.
#[derive(Debug, Clone, Copy, PartialEq, Eq, Structural)]
pub enum KeyType {
    /// Octet key pair (Edwards curve).
    Okp,
    /// Elliptic curve key pair.
    Ec,
    /// Octet string.
    Oct,
}

/// Cryptographic curve type.
#[derive(Debug, Clone, Copy, PartialEq, Eq, Structural)]
pub enum Curve {
    /// Ed25519 signature key pairs.
    Ed25519,
    /// X25519 encryption key pairs.
    X25519,
    /// The secp256k1 curve.
    Es256K,
}

/// The intended use of a public key.
#[derive(Debug, Clone, Copy, PartialEq, Eq, Structural)]
pub enum KeyUse {
    /// The key verifies signatures.
    Signature,
    /// The key encrypts.
    Encryption,
}

/// The algorithm that a key is intended for.
#[derive(Debug, Clone, Copy, PartialEq, Eq, Structural)]
pub enum KeyAlgorithm {
    /// ECDH-ES key agreement.
    EcdhEs,
    /// ECDH-ES with the key wrapped by A256KW.
    EcdhEsA256Kw,
    /// ECIES for secp256k1.
    EciesEs256K,
}

/// Simplified JSON Web Key (JWK) key structure.
#[derive(Debug, Clone, PartialEq, Eq)]
pub struct PublicKeyJwk {
    /// Key identifier.
    pub kid: Option<String>,
    /// Key type.
    pub kty: KeyType,
    /// Cryptographic curve type.
    pub crv: Curve,
    /// X coordinate: the key's bytes in unpadded base64url.
    pub x: String,
    /// Y coordinate. Not used by Edwards-curve keys.
    pub y: Option<String>,
    /// Algorithm intended for use with the key.
    pub alg: Option<KeyAlgorithm>,
    /// Use of the key.
    pub use_: Option<KeyUse>,
}

impl KeyType {
    /// The key type's name.
    pub open spec fn name(self) -> Seq<char> {
        match self {
            KeyType::Okp => "OKP"@,
            KeyType::Ec => "EC"@,
            KeyType::Oct => "oct"@,
        }
    }

    /// The key type's name.
    pub fn as_str(&self) -> (s: &'static str)
        ensures
            s@ == self.name(),
    {
        match self {
            KeyType::Okp => "OKP",
            KeyType::Ec => "EC",
            KeyType::Oct => "oct",
        }
    }
}

impl Curve {
    /// The curve's name.
    pub open spec fn name(self) -> Seq<char> {
        match self {
            Curve::Ed25519 => "Ed25519"@,
            Curve::X25519 => "X25519"@,
            Curve::Es256K => "ES256K"@,
        }
    }

    /// The curve's name.
    pub fn as_str(&self) -> (s: &'static str)
        ensures
            s@ == self.name(),
    {
        match self {
            Curve::Ed25519 => "Ed25519",
            Curve::X25519 => "X25519",
            Curve::Es256K => "ES256K",
        }
    }
}

impl KeyUse {
    /// The name of the use.
    pub open spec fn name(self) -> Seq<char> {
        match self {
            KeyUse::Signature => "sig"@,
            KeyUse::Encryption => "enc"@,
        }
    }

    /// The name of the use.
    pub fn as_str(&self) -> (s: &'static str)
        ensures
            s@ == self.name(),
    {
        match self {
            KeyUse::Signature => "sig",
            KeyUse::Encryption => "enc",
        }
    }
}

impl KeyAlgorithm {
    /// The algorithm's name.
    pub open spec fn name(self) -> Seq<char> {
        match self {
            KeyAlgorithm::EcdhEs => "ECDH-ES"@,
            KeyAlgorithm::EcdhEsA256Kw => "ECDH-ES+A256KW"@,
            KeyAlgorithm::EciesEs256K => "ECIES-ES256K"@,
        }
    }

    /// The algorithm's name.
    pub fn as_str(&self) -> (s: &'static str)
        ensures
            s@ == self.name(),
    {
        match self {
            KeyAlgorithm::EcdhEs => "ECDH-ES",
            KeyAlgorithm::EcdhEsA256Kw => "ECDH-ES+A256KW",
            KeyAlgorithm::EciesEs256K => "ECIES-ES256K",
        }
    }
}

impl PublicKeyJwk {
    /// The members of the key's JSON object: `alg`, `crv`, `kid`, `kty`,
    /// `use`, `x` and `y`, in this order; a member without a value is left
    /// out.
    pub open spec fn members(&self) -> Seq<Seq<char>> {
        optional(
            "alg"@,
            match self.alg {
                Some(alg) => Some(json_string(alg.name())),
                None => None,
            },
        ) + required("crv"@, json_string(self.crv.name())) + optional(
            "kid"@,
            match self.kid {
                Some(kid) => Some(json_string(kid@)),
                None => None,
            },
        ) + required("kty"@, json_string(self.kty.name())) + optional(
            "use"@,
            match self.use_ {
                Some(u) => Some(json_string(u.name())),
                None => None,
            },
        ) + required("x"@, json_string(self.x@)) + optional(
            "y"@,
            match self.y {
                Some(y) => Some(json_string(y@)),
                None => None,
            },
        )
    }
}

impl PublicKeyJwk {
    /// The members that the thumbprint of the key is taken of: `crv`, `kty`,
    /// `x` and, where the key has one, `y`.
    pub open spec fn thumbprint_members(&self) -> Seq<Seq<char>> {
        required("crv"@, json_string(self.crv.name())) + required(
            "kty"@,
            json_string(self.kty.name()),
        ) + required("x"@, json_string(self.x@)) + optional(
            "y"@,
            match self.y {
                Some(y) => Some(json_string(y@)),
                None => None,
            },
        )
    }

    /// The thumbprint of the key: the SHA-256 digest of the JSON object of
    /// the key's required members, in unpadded base64url.
    pub open spec fn thumbprint_of(&self) -> Seq<char> {
        base64url(sha256(encode_utf8(json_object(self.thumbprint_members()))))
    }

    /// The thumbprint of the key.
    pub fn thumbprint(&self) -> (t: String)
        ensures
            t@ == self.thumbprint_of(),
    {
        let mut members: Vec<Vec<char>> = Vec::new();
        members.push(member("crv", string_json(self.crv.as_str())));
        members.push(member("kty", string_json(self.kty.as_str())));
        members.push(member("x", string_json(self.x.as_str())));
        if let Some(y) = &self.y {
            members.push(member("y", string_json(y.as_str())));
        }
        assert(texts_of(members@) =~= self.thumbprint_members());
        let text = string_of(&object(&members));
        let d = digest(text.as_str().as_bytes());
        encode_base64url(d.as_slice())
    }

    /// The identifier of a verification method of the DID `did` for this
    /// key: the DID, `#`, and the thumbprint of the key.
    pub fn key_id(&self, did: &str) -> (id: String)
        ensures
            id@ == did@ + "#"@ + self.thumbprint_of(),
    {
        let mut id = did.to_owned();
        id.append("#");
        let t = self.thumbprint();
        id.append(t.as_str());
        id
    }
}

impl Canonical for PublicKeyJwk {
    open spec fn json(&self) -> Seq<char> {
        json_object(self.members())
    }

    fn push_json(&self, out: &mut Vec<char>) {
        let mut members: Vec<Vec<char>> = Vec::new();
        if let Some(alg) = &self.alg {
            members.push(member("alg", string_json(alg.as_str())));
        }
        members.push(member("crv", string_json(self.crv.as_str())));
        if let Some(kid) = &self.kid {
            members.push(member("kid", string_json(kid.as_str())));
        }
        members.push(member("kty", string_json(self.kty.as_str())));
        if let Some(u) = &self.use_ {
            members.push(member("use", string_json(u.as_str())));
        }
        members.push(member("x", string_json(self.x.as_str())));
        if let Some(y) = &self.y {
            members.push(member("y", string_json(y.as_str())));
        }
        assert(texts_of(members@) =~= self.members());
        let text = object(&members);
        append_chars(out, &text);
    }
}

/// The multibase form of the Ed25519 public key `key`.
pub open spec fn multikey(key: Seq<u8>) -> Seq<char> {
    multibase_base58btc(ED25519_CODEC@ + key)
}

/// Whether `bytes` is the multicodec form of a public key: a code for an
/// Ed25519 or X25519 key, then 32 bytes.
pub open spec fn is_coded_key(bytes: Seq<u8>) -> bool {
    &&& bytes.len() == 2 + PUBLIC_KEY_LENGTH
    &&& (bytes.take(2) == ED25519_CODEC@ || bytes.take(2) == X25519_CODEC@)
}

/// The public key that the multibase text `text` holds; `None` where it
/// holds none.
pub open spec fn multikey_decoded(text: Seq<char>) -> Option<Seq<u8>> {
    match multibase_decoded(text) {
        Some(bytes) => if is_coded_key(bytes) {
            Some(bytes.skip(2))
        } else {
            None
        },
        None => None,
    }
}

impl PublicKeyJwk {
    /// Whether this is the JWK of the Ed25519 public key `key`: an octet key
    /// pair on Ed25519 whose `x` is the key in base64url, and nothing else.
    pub open spec fn is_ed25519_of(self, key: Seq<u8>) -> bool {
        &&& self.kid is None
        &&& self.kty == KeyType::Okp
        &&& self.crv == Curve::Ed25519
        &&& self.x@ == base64url(key)
        &&& self.y is None
        &&& self.alg is None
        &&& self.use_ is None
    }

    /// The JWK of the Ed25519 public key `key_bytes`. Never fails.
    pub fn from_bytes(key_bytes: &[u8]) -> (r: Result<PublicKeyJwk, Error>)
        requires
            key_bytes@.len() <= usize::MAX / 4,
        ensures
            r matches Ok(jwk) && jwk.is_ed25519_of(key_bytes@) && base64url_decoded(jwk.x@)
                == Some(key_bytes@),
    {
        Ok(
            PublicKeyJwk {
                kid: None,
                kty: KeyType::Okp,
                crv: Curve::Ed25519,
                x: encode_base64url(key_bytes),
                y: None,
                alg: None,
                use_: None,
            },
        )
    }

    /// The JWK of the public key that the multibase text `key` holds.
    ///
    /// Fails with `Other` exactly when `key` is no multibase text, or what it
    /// stands for is not a code for an Ed25519 or X25519 key followed by 32
    /// bytes.
    pub fn from_multibase(key: &str) -> (r: Result<PublicKeyJwk, Error>)
        ensures
            match r {
                Ok(jwk) => multikey_decoded(key@) matches Some(k) && jwk.is_ed25519_of(k)
                    && base64url_decoded(jwk.x@) == Some(k),
                Err(e) => multikey_decoded(key@) is None && e is Other && e.detail() == (
                match multibase_decoded(key@) {
                    None => "issue decoding key"@,
                    Some(b) => if b.len() != 2 + PUBLIC_KEY_LENGTH {
                        "key is not 32 bytes long"@
                    } else {
                        "not Ed25519"@
                    },
                }),
            },
    {
        let bytes = match decode_multibase(key) {
            Some(b) => b,
            None => {
                return Err(Error::Other("issue decoding key".to_owned()));
            },
        };
        if bytes.len() != 2 + PUBLIC_KEY_LENGTH {
            return Err(Error::Other("key is not 32 bytes long".to_owned()));
        }
        let is_ed = bytes[0] == ED25519_CODEC[0] && bytes[1] == ED25519_CODEC[1];
        let is_x = bytes[0] == X25519_CODEC[0] && bytes[1] == X25519_CODEC[1];
        proof {
            assert(is_ed == (bytes@.take(2) =~= ED25519_CODEC@));
            assert(is_x == (bytes@.take(2) =~= X25519_CODEC@));
        }
        if !is_ed && !is_x {
            return Err(Error::Other("not Ed25519".to_owned()));
        }
        let mut key_bytes: Vec<u8> = Vec::new();
        let mut i: usize = 2;
        while i < bytes.len()
            invariant
                2 <= i <= bytes@.len(),
                key_bytes@ == bytes@.subrange(2, i as int),
            decreases bytes@.len() - i,
        {
            key_bytes.push(bytes[i]);
            i += 1;
        }
        assert(key_bytes@ == bytes@.skip(2));
        Self::from_bytes(key_bytes.as_slice())
    }

    /// The multibase form of the key, taken as an Ed25519 public key.
    ///
    /// Fails with `Other` exactly when `x` is not unpadded base64url.
    pub fn to_multibase(&self) -> (r: Result<String, Error>)
        ensures
            match r {
                Ok(text) => base64url_decoded(self.x@) matches Some(k) && text@ == multikey(k)
                    && multibase_decoded(text@) == Some(ED25519_CODEC@ + k),
                Err(e) => base64url_decoded(self.x@) is None && e is Other && e.detail()
                    == "issue decoding key"@,
            },
    {
        let decoded = match decode_base64url(self.x.as_str()) {
            Some(b) => b,
            None => {
                return Err(Error::Other("issue decoding key".to_owned()));
            },
        };
        let mut key_bytes: Vec<u8> = Vec::new();
        key_bytes.push(ED25519_CODEC[0]);
        key_bytes.push(ED25519_CODEC[1]);
        assert(key_bytes@ == ED25519_CODEC@);
        let n: usize = decoded.len();
        let mut i: usize = 0;
        while i < n
            invariant
                n == decoded@.len(),
                i <= n,
                key_bytes@ == ED25519_CODEC@ + decoded@.take(i as int),
            decreases n - i,
        {
            key_bytes.push(decoded[i]);
            i += 1;
            assert(decoded@.take(i as int) == decoded@.take(i - 1).push(decoded@[i - 1]));
        }
        assert(decoded@.take(n as int) == decoded@);
        Ok(encode_base58btc(key_bytes.as_slice()))
    }
}

/// The public key that the multibase text `text` holds.
pub fn decode_multikey(text: &str) -> (key: Option<Vec<u8>>)
    ensures
        match key {
            Some(k) => multikey_decoded(text@) == Some(k@),
            None => multikey_decoded(text@) is None,
        },
{
    let bytes = match decode_multibase(text) {
        Some(b) => b,
        None => {
            return None;
        },
    };
    if bytes.len() != 2 + PUBLIC_KEY_LENGTH {
        return None;
    }
    let is_ed = bytes[0] == ED25519_CODEC[0] && bytes[1] == ED25519_CODEC[1];
    let is_x = bytes[0] == X25519_CODEC[0] && bytes[1] == X25519_CODEC[1];
    proof {
        assert(is_ed == (bytes@.take(2) =~= ED25519_CODEC@));
        assert(is_x == (bytes@.take(2) =~= X25519_CODEC@));
    }
    if !is_ed && !is_x {
        return None;
    }
    let mut key: Vec<u8> = Vec::new();
    let mut i: usize = 2;
    while i < bytes.len()
        invariant
            2 <= i <= bytes@.len(),
            key@ == bytes@.subrange(2, i as int),
        decreases bytes@.len() - i,
    {
        key.push(bytes[i]);
        i += 1;
    }
    assert(key@ == bytes@.skip(2));
    Some(key)
}

/// The multibase form of the Ed25519 public key `key`. Decoding the result
/// gives a key of 32 bytes back.
pub fn encode_multikey(key: &[u8]) -> (text: String)
    ensures
        text@ == multikey(key@),
        key@.len() == PUBLIC_KEY_LENGTH ==> multikey_decoded(text@) == Some(key@),
{
    let mut bytes: Vec<u8> = Vec::new();
    bytes.push(ED25519_CODEC[0]);
    bytes.push(ED25519_CODEC[1]);
    assert(bytes@ == ED25519_CODEC@);
    let mut i: usize = 0;
    while i < key.len()
        invariant
            i <= key@.len(),
            bytes@ == ED25519_CODEC@ + key@.take(i as int),
        decreases key@.len() - i,
    {
        bytes.push(key[i]);
        i += 1;
        assert(key@.take(i as int) == key@.take(i - 1).push(key@[i - 1]));
    }
    assert(key@.take(key@.len() as int) == key@);
    let text = encode_base58btc(bytes.as_slice());
    proof {
        let coded = ED25519_CODEC@ + key@;
        assert(coded.take(2) == ED25519_CODEC@);
        assert(coded.skip(2) == key@);
    }
    text
}

} // verus!
