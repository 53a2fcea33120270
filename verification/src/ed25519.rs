//! Ed25519 keys and signatures, as the `ed25519-dalek` crate computes them.

use ed25519_dalek::Signer;
use vstd::prelude::*;

verus! {

/// The length of an Ed25519 secret key, in bytes.
pub const SECRET_KEY_LENGTH: usize = 32;

/// The length of an Ed25519 public key, in bytes.
pub const PUBLIC_KEY_LENGTH: usize = 32;

/// The length of an Ed25519 signature, in bytes.
pub const SIGNATURE_LENGTH: usize = 64;

/// The public key that belongs to the secret key `secret`.
pub uninterp spec fn ed25519_public_key(secret: Seq<u8>) -> Seq<u8>;

/// The signature of `message` under the secret key `secret`. Ed25519
/// signatures are deterministic.
pub uninterp spec fn ed25519_signature(secret: Seq<u8>, message: Seq<u8>) -> Seq<u8>;

/// Whether `signature` is a signature of `message` that the public key
/// `public` verifies.
pub uninterp spec fn ed25519_verifies(public: Seq<u8>, message: Seq<u8>, signature: Seq<u8>) -> bool;

/// `ed25519_dalek::SigningKey::generate` with the operating system's random
/// number generator, and `to_bytes`: a fresh secret key. Nothing is known of
/// it but its length.
#[verifier::external_body]
pub(crate) fn generate_secret() -> (secret: Vec<u8>)
    ensures
        secret@.len() == SECRET_KEY_LENGTH,
{
    ed25519_dalek::SigningKey::generate(&mut rand::rngs::OsRng).to_bytes().to_vec()
}

/// `ed25519_dalek::SigningKey::from_bytes`, `verifying_key` and `as_bytes`:
/// the public key of `secret`.
#[verifier::external_body]
pub(crate) fn public_key(secret: &[u8]) -> (public: Vec<u8>)
    requires
        secret@.len() == SECRET_KEY_LENGTH,
    ensures
        public@ == ed25519_public_key(secret@),
        public@.len() == PUBLIC_KEY_LENGTH,
{
    let key: ed25519_dalek::SecretKey = secret.try_into().unwrap();
    ed25519_dalek::SigningKey::from_bytes(&key).verifying_key().as_bytes().to_vec()
}

/// `ed25519_dalek::SigningKey::from_bytes`, `sign` and `to_bytes`: the
/// signature of `message` under `secret`.
#[verifier::external_body]
pub(crate) fn sign(secret: &[u8], message: &[u8]) -> (signature: Vec<u8>)
    requires
        secret@.len() == SECRET_KEY_LENGTH,
    ensures
        signature@ == ed25519_signature(secret@, message@),
        signature@.len() == SIGNATURE_LENGTH,
{
    let key: ed25519_dalek::SecretKey = secret.try_into().unwrap();
    ed25519_dalek::SigningKey::from_bytes(&key).sign(message).to_bytes().to_vec()
}

/// `ed25519_dalek::VerifyingKey::from_bytes` and `verify_strict`, with
/// `Signature::from_bytes`: whether `public` is a public key that verifies
/// `signature` as a signature of `message`.
#[verifier::external_body]
pub(crate) fn verify(public: &[u8], message: &[u8], signature: &[u8]) -> (valid: bool)
    requires
        public@.len() == PUBLIC_KEY_LENGTH,
        signature@.len() == SIGNATURE_LENGTH,
    ensures
        valid == ed25519_verifies(public@, message@, signature@),
{
    let key: [u8; 32] = public.try_into().unwrap();
    let sig: [u8; 64] = signature.try_into().unwrap();
    match ed25519_dalek::VerifyingKey::from_bytes(&key) {
        Ok(key) => key.verify_strict(message, &ed25519_dalek::Signature::from_bytes(&sig)).is_ok(),
        Err(_) => false,
    }
}

} // verus!
