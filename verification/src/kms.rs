//! Key management: a keyring of Ed25519 signing keys, each with the key that
//! will follow it.

use vstd::prelude::*;

use crate::ed25519::{
    ed25519_public_key, ed25519_signature, generate_secret, public_key, sign,
    PUBLIC_KEY_LENGTH, SECRET_KEY_LENGTH, SIGNATURE_LENGTH,
};
use crate::encoding::{base64url_decoded, decode_base64url, encode_base64url};
use crate::jwk::{multikey, multikey_decoded, PublicKeyJwk, ED25519_CODEC};
use crate::text::str_eq;

verus! {

/// What a keyring operation can fail with.
#[derive(Debug, Clone, Copy, PartialEq, Eq, Structural)]
pub enum KeyringError {
    /// The keyring holds no key under the identifier asked for.
    KeyNotFound,
    /// The bytes given are not a secret key.
    InvalidSecretKey,
    /// No verification method has been set.
    VerificationMethodNotSet,
}

impl KeyringError {
    /// The message of the error.
    pub open spec fn detail(self) -> Seq<char> {
        match self {
            KeyringError::KeyNotFound => "key not found"@,
            KeyringError::InvalidSecretKey => "invalid secret key"@,
            KeyringError::VerificationMethodNotSet => "verification method not set"@,
        }
    }

    /// The message of the error.
    pub fn message(&self) -> (m: String)
        ensures
            m@ == self.detail(),
    {
        match self {
            KeyringError::KeyNotFound => "key not found".to_owned(),
            KeyringError::InvalidSecretKey => "invalid secret key".to_owned(),
            KeyringError::VerificationMethodNotSet => "verification method not set".to_owned(),
        }
    }
}

/// Signature algorithms.
#[derive(Debug, Clone, Copy, PartialEq, Eq, Structural)]
pub enum Algorithm {
    /// EdDSA on the Ed25519 curve.
    EdDSA,
    /// ECDSA on the secp256k1 curve.
    ES256K,
    /// ECDSA on the P-256 curve.
    ES256,
}

/// One key of a keyring, as contracts see it.
pub struct KeyPair {
    /// The identifier that the key is held under.
    pub id: Seq<char>,
    /// The secret key in use.
    pub secret: Seq<u8>,
    /// The secret key that a rotation puts in use.
    pub next_secret: Seq<u8>,
}

/// A keyring, as contracts see it.
pub struct KeyringView {
    /// The keys, in the order in which their identifiers were first used.
    pub pairs: Seq<KeyPair>,
    /// The identifier of the key that signatures are verified with; empty
    /// while none is set.
    pub verification_method: Seq<char>,
}

/// The key `secret`, with `next_secret` to follow it, under `id`.
pub open spec fn key_pair(id: Seq<char>, secret: Seq<u8>, next_secret: Seq<u8>) -> KeyPair {
    KeyPair { id, secret, next_secret }
}

/// The reference to a `did:key` verification method, for a public key in
/// multibase form: the DID of the key, `#`, and the key once more.
pub open spec fn did_key_reference(multibase: Seq<char>) -> Seq<char> {
    "did:key:"@ + multibase + "#"@ + multibase
}

impl KeyringView {
    /// The keyring with `pairs` for its keys.
    pub open spec fn with_pairs(self, pairs: Seq<KeyPair>) -> KeyringView {
        KeyringView { pairs, verification_method: self.verification_method }
    }

    /// Whether a key is held under `id`.
    pub open spec fn has(self, id: Seq<char>) -> bool {
        exists|i: int| 0 <= i < self.pairs.len() && #[trigger] self.pairs[i].id == id
    }

    /// The position of the key held under `id`.
    pub open spec fn position(self, id: Seq<char>) -> int {
        choose|i: int| 0 <= i < self.pairs.len() && #[trigger] self.pairs[i].id == id
    }

    /// The key held under `id`.
    pub open spec fn pair(self, id: Seq<char>) -> KeyPair {
        self.pairs[self.position(id)]
    }

    /// Whether the keyring is valid: no identifier is used twice, every
    /// secret key has its length, and the verification method, once set,
    /// names a key.
    pub open spec fn valid(self) -> bool {
        &&& forall|i: int, j: int|
            0 <= i < j < self.pairs.len() ==> #[trigger] self.pairs[i].id
                != #[trigger] self.pairs[j].id
        &&& forall|i: int|
            0 <= i < self.pairs.len() ==> (#[trigger] self.pairs[i]).secret.len()
                == SECRET_KEY_LENGTH && self.pairs[i].next_secret.len() == SECRET_KEY_LENGTH
        &&& self.verification_method.len() > 0 ==> self.has(self.verification_method)
    }

    /// The keyring with `pair` put under its identifier: in place of the key
    /// held there, or else behind the others.
    pub open spec fn with_pair(self, pair: KeyPair) -> KeyringView {
        self.with_pairs(
            if self.has(pair.id) {
                self.pairs.update(self.position(pair.id), pair)
            } else {
                self.pairs.push(pair)
            },
        )
    }
}

/// One key of a keyring: the secret keys are held as unpadded base64url.
#[derive(Debug)]
struct KeyEntry {
    id: String,
    key: String,
    next_key: String,
}

impl KeyEntry {
    spec fn pair(self) -> KeyPair {
        KeyPair {
            id: self.id@,
            secret: base64url_decoded(self.key@).unwrap(),
            next_secret: base64url_decoded(self.next_key@).unwrap(),
        }
    }

    spec fn decodes(self) -> bool {
        &&& base64url_decoded(self.key@) is Some
        &&& base64url_decoded(self.next_key@) is Some
    }
}

/// A keyring of Ed25519 signing keys. Each key is held under an identifier,
/// together with the key that the next rotation puts in its place.
#[derive(Debug)]
pub struct Keyring {
    entries: Vec<KeyEntry>,
    verification_method: String,
}

impl View for Keyring {
    type V = KeyringView;

    closed spec fn view(&self) -> KeyringView {
        KeyringView {
            pairs: Seq::new(self.entries@.len(), |i: int| self.entries@[i].pair()),
            verification_method: self.verification_method@,
        }
    }
}

impl Keyring {
    /// Whether the keyring is well formed: its view is valid, and every
    /// secret key is held in a form that can be read back.
    pub closed spec fn wf(&self) -> bool {
        &&& self@.valid()
        &&& forall|i: int| 0 <= i < self.entries@.len() ==> (#[trigger] self.entries@[i]).decodes()
    }

    /// A well-formed keyring has a valid view.
    pub proof fn lemma_wf_valid(&self)
        requires
            self.wf(),
        ensures
            self@.valid(),
    {
    }

    /// A keyring without keys and without a verification method.
    pub fn new() -> (r: Self)
        ensures
            r.wf(),
            r@.pairs.len() == 0,
            r@.verification_method.len() == 0,
    {
        Keyring { entries: Vec::new(), verification_method: String::new() }
    }

    /// The position of the key held under `id`.
    fn find(&self, id: &str) -> (r: Option<usize>)
        requires
            self.wf(),
        ensures
            match r {
                Some(i) => i < self.entries@.len() && self@.has(id@) && self@.position(id@) == i
                    && self.entries@[i as int].decodes(),
                None => !self@.has(id@),
            },
    {
        let n: usize = self.entries.len();
        let mut i: usize = 0;
        while i < n
            invariant
                self.wf(),
                n == self.entries@.len(),
                i <= n,
                self@.pairs.len() == n,
                forall|k: int| 0 <= k < i ==> (#[trigger] self@.pairs[k]).id != id@,
            decreases n - i,
        {
            if str_eq(self.entries[i].id.as_str(), id) {
                assert(self@.pairs[i as int].id == id@);
                return Some(i);
            }
            i += 1;
        }
        None
    }

    /// Puts the secret key `secret`, and `next_secret` to follow it, under
    /// `id`: in place of the key held there, or else as a new key.
    ///
    /// Fails with `InvalidSecretKey`, and changes nothing, exactly when one
    /// of the two is not 32 bytes long.
    pub fn add_key_with(&mut self, id: &str, secret: &[u8], next_secret: &[u8]) -> (r: Result<
        (),
        KeyringError,
    >)
        requires
            old(self).wf(),
        ensures
            final(self).wf(),
            if secret@.len() == SECRET_KEY_LENGTH && next_secret@.len() == SECRET_KEY_LENGTH {
                r is Ok && final(self)@ == old(self)@.with_pair(
                    key_pair(id@, secret@, next_secret@),
                )
            } else {
                r == Err::<(), KeyringError>(KeyringError::InvalidSecretKey) && final(self)@ == old(
                    self,
                )@
            },
    {
        if secret.len() != SECRET_KEY_LENGTH || next_secret.len() != SECRET_KEY_LENGTH {
            return Err(KeyringError::InvalidSecretKey);
        }
        let entry = KeyEntry {
            id: id.to_owned(),
            key: encode_base64url(secret),
            next_key: encode_base64url(next_secret),
        };
        let ghost pair = key_pair(id@, secret@, next_secret@);
        assert(entry.pair() == pair);
        let ghost before = self@;
        match self.find(id) {
            Some(i) => {
                self.entries.set(i, entry);
                proof {
                    assert(self@.pairs =~= before.pairs.update(i as int, pair));
                    Self::lemma_update_keeps_valid(before, i as int, pair);
                }
            },
            None => {
                self.entries.push(entry);
                proof {
                    assert(self@.pairs =~= before.pairs.push(pair));
                    Self::lemma_push_keeps_valid(before, pair);
                }
            },
        }
        Ok(())
    }

    /// Putting a key in place of the one with the same identifier keeps a
    /// keyring valid.
    proof fn lemma_update_keeps_valid(v: KeyringView, i: int, pair: KeyPair)
        requires
            v.valid(),
            0 <= i < v.pairs.len(),
            v.pairs[i].id == pair.id,
            pair.secret.len() == SECRET_KEY_LENGTH,
            pair.next_secret.len() == SECRET_KEY_LENGTH,
        ensures
            v.with_pairs(v.pairs.update(i, pair)).valid(),
    {
        let w = v.with_pairs(v.pairs.update(i, pair));
        assert forall|a: int, b: int| 0 <= a < b < w.pairs.len() implies #[trigger] w.pairs[a].id
            != #[trigger] w.pairs[b].id by {
            assert(w.pairs[a].id == v.pairs[a].id);
            assert(w.pairs[b].id == v.pairs[b].id);
        }
        if v.verification_method.len() > 0 {
            let k = v.position(v.verification_method);
            assert(w.pairs[k].id == v.verification_method);
        }
    }

    /// Adding a key under an identifier not yet used keeps a keyring valid.
    proof fn lemma_push_keeps_valid(v: KeyringView, pair: KeyPair)
        requires
            v.valid(),
            !v.has(pair.id),
            pair.secret.len() == SECRET_KEY_LENGTH,
            pair.next_secret.len() == SECRET_KEY_LENGTH,
        ensures
            v.with_pairs(v.pairs.push(pair)).valid(),
    {
        let w = v.with_pairs(v.pairs.push(pair));
        assert forall|a: int, b: int| 0 <= a < b < w.pairs.len() implies #[trigger] w.pairs[a].id
            != #[trigger] w.pairs[b].id by {
            assert(w.pairs[a].id == v.pairs[a].id);
            if b < v.pairs.len() {
                assert(w.pairs[b].id == v.pairs[b].id);
            }
        }
        if v.verification_method.len() > 0 {
            let k = v.position(v.verification_method);
            assert(w.pairs[k].id == v.verification_method);
        }
    }

    /// Adds a newly generated key, and a key to follow it, under `id`: in
    /// place of the key held there, or else as a new key. Never fails.
    pub fn add_key(&mut self, id: &str) -> (r: Result<(), KeyringError>)
        requires
            old(self).wf(),
        ensures
            r is Ok,
            final(self).wf(),
            exists|secret: Seq<u8>, next_secret: Seq<u8>|
                secret.len() == SECRET_KEY_LENGTH && next_secret.len() == SECRET_KEY_LENGTH
                    && final(self)@ == old(self)@.with_pair(
                    #[trigger] key_pair(id@, secret, next_secret),
                ),
    {
        let secret = generate_secret();
        let next_secret = generate_secret();
        self.add_key_with(id, secret.as_slice(), next_secret.as_slice())
    }

    /// Makes `vm` the identifier of the key that signatures are verified
    /// with. Where no key is held under `vm`, a newly generated one is added.
    /// Never fails.
    pub fn set_verification_method(&mut self, vm: &str) -> (r: Result<(), KeyringError>)
        requires
            old(self).wf(),
        ensures
            r is Ok,
            final(self).wf(),
            final(self)@.verification_method == vm@,
            final(self)@.has(vm@),
            old(self)@.has(vm@) ==> final(self)@.pairs == old(self)@.pairs,
            !old(self)@.has(vm@) ==> exists|secret: Seq<u8>, next_secret: Seq<u8>|
                secret.len() == SECRET_KEY_LENGTH && next_secret.len() == SECRET_KEY_LENGTH
                    && final(self)@.pairs == old(self)@.pairs.push(
                    #[trigger] key_pair(vm@, secret, next_secret),
                ),
    {
        if self.find(vm).is_none() {
            let _ = self.add_key(vm);
        }
        proof {
            let v = self@;
            assert(v.has(vm@)) by {
                if !old(self)@.has(vm@) {
                    let k = old(self)@.pairs.len() as int;
                    assert(v.pairs[k].id == vm@);
                }
            }
        }
        self.verification_method = vm.to_owned();
        Ok(())
    }

    /// The secret key at position `i`.
    fn secret_at(&self, i: usize) -> (secret: Vec<u8>)
        requires
            self.wf(),
            i < self@.pairs.len(),
        ensures
            secret@ == self@.pairs[i as int].secret,
            secret@.len() == SECRET_KEY_LENGTH,
    {
        assert(self.entries@[i as int].decodes());
        match decode_base64url(self.entries[i].key.as_str()) {
            Some(secret) => secret,
            None => Vec::new(),
        }
    }

    /// The secret key that follows the one at position `i`.
    fn next_secret_at(&self, i: usize) -> (secret: Vec<u8>)
        requires
            self.wf(),
            i < self@.pairs.len(),
        ensures
            secret@ == self@.pairs[i as int].next_secret,
            secret@.len() == SECRET_KEY_LENGTH,
    {
        assert(self.entries@[i as int].decodes());
        match decode_base64url(self.entries[i].next_key.as_str()) {
            Some(secret) => secret,
            None => Vec::new(),
        }
    }

    /// The JWK of the public key of `secret`.
    fn public_jwk(secret: &[u8]) -> (r: Result<PublicKeyJwk, KeyringError>)
        requires
            secret@.len() == SECRET_KEY_LENGTH,
        ensures
            r matches Ok(jwk) && jwk.is_ed25519_of(ed25519_public_key(secret@))
                && base64url_decoded(jwk.x@) == Some(ed25519_public_key(secret@)),
            ed25519_public_key(secret@).len() == PUBLIC_KEY_LENGTH,
    {
        let public = public_key(secret);
        match PublicKeyJwk::from_bytes(public.as_slice()) {
            Ok(jwk) => Ok(jwk),
            Err(_) => Err(KeyringError::InvalidSecretKey),
        }
    }

    /// The multibase form of the public key of `secret`.
    fn public_multibase(secret: &[u8]) -> (r: Result<String, KeyringError>)
        requires
            secret@.len() == SECRET_KEY_LENGTH,
        ensures
            r matches Ok(text) && text@ == multikey(ed25519_public_key(secret@))
                && multikey_decoded(text@) == Some(ed25519_public_key(secret@)),
    {
        let jwk = match Self::public_jwk(secret) {
            Ok(jwk) => jwk,
            Err(e) => {
                return Err(e);
            },
        };
        match jwk.to_multibase() {
            Ok(text) => {
                proof {
                    let key = ed25519_public_key(secret@);
                    let coded = ED25519_CODEC@ + key;
                    assert(coded.take(2) == ED25519_CODEC@);
                    assert(coded.skip(2) == key);
                }
                Ok(text)
            },
            Err(_) => Err(KeyringError::InvalidSecretKey),
        }
    }

    /// Rotates the keys: each key is replaced by the key that was to follow
    /// it, and gets a newly generated key to follow it in turn. Never fails.
    pub fn rotate(&mut self) -> (r: Result<(), KeyringError>)
        requires
            old(self).wf(),
        ensures
            r is Ok,
            final(self).wf(),
            final(self)@.verification_method == old(self)@.verification_method,
            final(self)@.pairs.len() == old(self)@.pairs.len(),
            forall|i: int|
                0 <= i < old(self)@.pairs.len() ==> {
                    &&& (#[trigger] final(self)@.pairs[i]).id == old(self)@.pairs[i].id
                    &&& final(self)@.pairs[i].secret == old(self)@.pairs[i].next_secret
                },
    {
        let n: usize = self.entries.len();
        let mut rotated: Vec<KeyEntry> = Vec::new();
        let mut i: usize = 0;
        while i < n
            invariant
                self.wf(),
                n == self.entries@.len(),
                i <= n,
                rotated@.len() == i,
                forall|k: int|
                    0 <= k < i ==> {
                        &&& (#[trigger] rotated@[k]).decodes()
                        &&& rotated@[k].pair().id == self@.pairs[k].id
                        &&& rotated@[k].pair().secret == self@.pairs[k].next_secret
                        &&& rotated@[k].pair().next_secret.len() == SECRET_KEY_LENGTH
                    },
            decreases n - i,
        {
            assert(self.entries@[i as int].decodes());
            assert(self@.pairs[i as int] == self.entries@[i as int].pair());
            let fresh = generate_secret();
            let entry = KeyEntry {
                id: self.entries[i].id.clone(),
                key: self.entries[i].next_key.clone(),
                next_key: encode_base64url(fresh.as_slice()),
            };
            rotated.push(entry);
            i += 1;
        }
        let ghost before = self@;
        self.entries = rotated;
        proof {
            let after = self@;
            assert forall|a: int, b: int| 0 <= a < b < after.pairs.len() implies #[trigger] after.pairs[a].id
                != #[trigger] after.pairs[b].id by {
                assert(after.pairs[a].id == before.pairs[a].id);
                assert(after.pairs[b].id == before.pairs[b].id);
            }
            assert forall|k: int| 0 <= k < after.pairs.len() implies (#[trigger] after.pairs[k]).secret.len()
                == SECRET_KEY_LENGTH && after.pairs[k].next_secret.len() == SECRET_KEY_LENGTH by {
                assert(after.pairs[k].secret == before.pairs[k].next_secret);
            }
            if before.verification_method.len() > 0 {
                let k = before.position(before.verification_method);
                assert(after.pairs[k].id == before.verification_method);
            }
        }
        Ok(())
    }

    /// The public key held under `id`, as a JWK. Where no key is held under
    /// `id`, a newly generated one is added first. Never fails.
    pub fn jwk(&mut self, id: &str) -> (r: Result<PublicKeyJwk, KeyringError>)
        requires
            old(self).wf(),
        ensures
            final(self).wf(),
            final(self)@.has(id@),
            r matches Ok(jwk) && jwk.is_ed25519_of(
                ed25519_public_key(final(self)@.pair(id@).secret),
            ),
            old(self)@.has(id@) ==> final(self)@ == old(self)@,
            !old(self)@.has(id@) ==> exists|secret: Seq<u8>, next_secret: Seq<u8>|
                secret.len() == SECRET_KEY_LENGTH && next_secret.len() == SECRET_KEY_LENGTH
                    && final(self)@ == old(self)@.with_pair(
                    #[trigger] key_pair(id@, secret, next_secret),
                ),
    {
        let i = self.locate(id);
        let secret = self.secret_at(i);
        Self::public_jwk(secret.as_slice())
    }

    /// The position of the key held under `id`, which is added first where
    /// there is none.
    fn locate(&mut self, id: &str) -> (i: usize)
        requires
            old(self).wf(),
        ensures
            final(self).wf(),
            final(self)@.has(id@),
            i < final(self)@.pairs.len(),
            final(self)@.position(id@) == i,
            old(self)@.has(id@) ==> final(self)@ == old(self)@,
            !old(self)@.has(id@) ==> exists|secret: Seq<u8>, next_secret: Seq<u8>|
                secret.len() == SECRET_KEY_LENGTH && next_secret.len() == SECRET_KEY_LENGTH
                    && final(self)@ == old(self)@.with_pair(
                    #[trigger] key_pair(id@, secret, next_secret),
                ),
    {
        match self.find(id) {
            Some(i) => i,
            None => {
                let _ = self.add_key(id);
                assert(self@.pairs[old(self)@.pairs.len() as int].id == id@);
                match self.find(id) {
                    Some(i) => i,
                    None => 0,
                }
            },
        }
    }

    /// The public key held under `id`, in multibase form. Where no key is
    /// held under `id`, a newly generated one is added first. Never fails.
    pub fn multibase(&mut self, id: &str) -> (r: Result<String, KeyringError>)
        requires
            old(self).wf(),
        ensures
            final(self).wf(),
            final(self)@.has(id@),
            r matches Ok(text) && text@ == multikey(
                ed25519_public_key(final(self)@.pair(id@).secret),
            ) && multikey_decoded(text@) == Some(
                ed25519_public_key(final(self)@.pair(id@).secret),
            ),
            old(self)@.has(id@) ==> final(self)@ == old(self)@,
            !old(self)@.has(id@) ==> exists|secret: Seq<u8>, next_secret: Seq<u8>|
                secret.len() == SECRET_KEY_LENGTH && next_secret.len() == SECRET_KEY_LENGTH
                    && final(self)@ == old(self)@.with_pair(
                    #[trigger] key_pair(id@, secret, next_secret),
                ),
    {
        let i = self.locate(id);
        let secret = self.secret_at(i);
        Self::public_multibase(secret.as_slice())
    }

    /// The public key that is to follow the one held under `id`, as a JWK.
    ///
    /// Fails with `KeyNotFound` exactly when no key is held under `id`.
    pub fn next_jwk(&self, id: &str) -> (r: Result<PublicKeyJwk, KeyringError>)
        requires
            self.wf(),
        ensures
            match r {
                Ok(jwk) => self@.has(id@) && jwk.is_ed25519_of(
                    ed25519_public_key(self@.pair(id@).next_secret),
                ),
                Err(e) => !self@.has(id@) && e == KeyringError::KeyNotFound,
            },
    {
        match self.find(id) {
            Some(i) => {
                let secret = self.next_secret_at(i);
                Self::public_jwk(secret.as_slice())
            },
            None => Err(KeyringError::KeyNotFound),
        }
    }

    /// The public key that is to follow the one held under `id`, in
    /// multibase form.
    ///
    /// Fails with `KeyNotFound` exactly when no key is held under `id`.
    pub fn next_multibase(&self, id: &str) -> (r: Result<String, KeyringError>)
        requires
            self.wf(),
        ensures
            match r {
                Ok(text) => self@.has(id@) && text@ == multikey(
                    ed25519_public_key(self@.pair(id@).next_secret),
                ) && multikey_decoded(text@) == Some(
                    ed25519_public_key(self@.pair(id@).next_secret),
                ),
                Err(e) => !self@.has(id@) && e == KeyringError::KeyNotFound,
            },
    {
        match self.find(id) {
            Some(i) => {
                let secret = self.next_secret_at(i);
                Self::public_multibase(secret.as_slice())
            },
            None => Err(KeyringError::KeyNotFound),
        }
    }

    /// The identifier of the key that signs.
    pub open spec fn signing_id() -> Seq<char> {
        "signing"@
    }

    /// Signs `msg` with the key held under `signing`.
    ///
    /// Fails with `KeyNotFound` exactly when no key is held under `signing`.
    pub fn try_sign(&self, msg: &[u8]) -> (r: Result<Vec<u8>, KeyringError>)
        requires
            self.wf(),
        ensures
            match r {
                Ok(signature) => self@.has(Self::signing_id()) && signature@ == ed25519_signature(
                    self@.pair(Self::signing_id()).secret,
                    msg@,
                ) && signature@.len() == SIGNATURE_LENGTH,
                Err(e) => !self@.has(Self::signing_id()) && e == KeyringError::KeyNotFound,
            },
    {
        match self.find("signing") {
            Some(i) => {
                let secret = self.secret_at(i);
                Ok(sign(secret.as_slice(), msg))
            },
            None => Err(KeyringError::KeyNotFound),
        }
    }

    /// The public key of the key held under `signing`.
    ///
    /// Fails with `KeyNotFound` exactly when no key is held under `signing`.
    pub fn verifying_key(&self) -> (r: Result<Vec<u8>, KeyringError>)
        requires
            self.wf(),
        ensures
            match r {
                Ok(public) => self@.has(Self::signing_id()) && public@ == ed25519_public_key(
                    self@.pair(Self::signing_id()).secret,
                ) && public@.len() == PUBLIC_KEY_LENGTH,
                Err(e) => !self@.has(Self::signing_id()) && e == KeyringError::KeyNotFound,
            },
    {
        match self.find("signing") {
            Some(i) => {
                let secret = self.secret_at(i);
                Ok(public_key(secret.as_slice()))
            },
            None => Err(KeyringError::KeyNotFound),
        }
    }

    /// The signature algorithm of the keyring's keys: EdDSA.
    pub fn algorithm(&self) -> (a: Algorithm)
        ensures
            a == Algorithm::EdDSA,
    {
        Algorithm::EdDSA
    }

    /// The verification method of the keyring: the `did:key` reference to
    /// the public key of the key that was set as verification method.
    ///
    /// Fails with `VerificationMethodNotSet` exactly when none is set.
    pub fn verification_method(&self) -> (r: Result<String, KeyringError>)
        requires
            self.wf(),
        ensures
            match r {
                Ok(vm) => self@.verification_method.len() > 0 && vm@ == did_key_reference(
                    multikey(ed25519_public_key(self@.pair(self@.verification_method).secret)),
                ),
                Err(e) => self@.verification_method.len() == 0 && e
                    == KeyringError::VerificationMethodNotSet,
            },
    {
        if self.verification_method.as_str().unicode_len() == 0 {
            return Err(KeyringError::VerificationMethodNotSet);
        }
        let i = match self.find(self.verification_method.as_str()) {
            Some(i) => i,
            None => {
                return Err(KeyringError::KeyNotFound);
            },
        };
        let secret = self.secret_at(i);
        let multibase = Self::public_multibase(secret.as_slice())?;
        let mut vm = "did:key:".to_owned();
        vm.append(multibase.as_str());
        vm.append("#");
        vm.append(multibase.as_str());
        Ok(vm)
    }
}

impl Clone for Keyring {
    fn clone(&self) -> (r: Self)
        ensures
            r@ == self@,
            self.wf() ==> r.wf(),
    {
        let mut entries: Vec<KeyEntry> = Vec::new();
        let n: usize = self.entries.len();
        let mut i: usize = 0;
        while i < n
            invariant
                n == self.entries@.len(),
                i <= n,
                entries@ == self.entries@.take(i as int),
            decreases n - i,
        {
            let e = &self.entries[i];
            entries.push(KeyEntry { id: e.id.clone(), key: e.key.clone(), next_key: e.next_key.clone() });
            i += 1;
            assert(self.entries@.take(i as int) == self.entries@.take(i - 1).push(
                self.entries@[i - 1],
            ));
        }
        assert(entries@ == self.entries@);
        Keyring { entries, verification_method: self.verification_method.clone() }
    }
}

} // verus!
