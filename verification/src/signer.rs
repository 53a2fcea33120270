//! Signers: what signs the entries of a log.

use vstd::prelude::*;

use crate::ed25519::{
    ed25519_public_key, ed25519_signature, PUBLIC_KEY_LENGTH, SIGNATURE_LENGTH,
};
use crate::error::Error;
use crate::jwk::multikey;
use crate::kms::{did_key_reference, Algorithm, Keyring, KeyringError};

verus! {

/// Signs entries, and says which key verifies its signatures.
///
/// A signer may be far away, and may answer one question in more than one
/// way. What it may answer is told by the four relations below; each
/// operation gives an answer that its relation admits.
pub trait SignerExt {
    /// Whether the signer is fit for use.
    spec fn ready(&self) -> bool;

    /// Whether `r` is an answer that the signer may give when asked to sign
    /// `msg`.
    spec fn may_sign(&self, msg: Seq<u8>, r: Result<Vec<u8>, Error>) -> bool;

    /// Whether `r` is an answer that the signer may give when asked for the
    /// public key that verifies its signatures.
    spec fn may_show(&self, r: Result<Vec<u8>, Error>) -> bool;

    /// Whether `a` is an answer that the signer may give when asked for the
    /// algorithm of its signatures.
    spec fn may_use(&self, a: Algorithm) -> bool;

    /// Whether `r` is an answer that the signer may give when asked for its
    /// verification method.
    spec fn may_name(&self, r: Result<String, Error>) -> bool;

    /// The signature of `msg`.
    fn try_sign(&self, msg: &[u8]) -> (r: Result<Vec<u8>, Error>)
        requires
            self.ready(),
        ensures
            self.may_sign(msg@, r),
    ;

    /// The public key that verifies the signer's signatures.
    fn verifying_key(&self) -> (r: Result<Vec<u8>, Error>)
        requires
            self.ready(),
        ensures
            self.may_show(r),
    ;

    /// The algorithm of the signer's signatures.
    fn algorithm(&self) -> (a: Algorithm)
        requires
            self.ready(),
        ensures
            self.may_use(a),
    ;

    /// The reference to the verification method that verifies the signer's
    /// signatures.
    fn verification_method(&self) -> (r: Result<String, Error>)
        requires
            self.ready(),
        ensures
            self.may_name(r),
    ;
}

/// Whether `e` is the error of a signer for the keyring's error `cause`:
/// `Other`, with the message of `cause`.
pub open spec fn is_keyring_failure(e: Error, cause: KeyringError) -> bool {
    e is Other && e.detail() == cause.detail()
}

/// A keyring signs with the key held under `signing`, and names the key
/// that was set as its verification method.
impl SignerExt for Keyring {
    open spec fn ready(&self) -> bool {
        self.wf()
    }

    /// The signature of `msg` under the signing key, which is 64 bytes
    /// long; a failure exactly where there is no signing key.
    open spec fn may_sign(&self, msg: Seq<u8>, r: Result<Vec<u8>, Error>) -> bool {
        match r {
            Ok(signature) => self@.has(Keyring::signing_id()) && signature@ == ed25519_signature(
                self@.pair(Keyring::signing_id()).secret,
                msg,
            ) && signature@.len() == SIGNATURE_LENGTH,
            Err(e) => !self@.has(Keyring::signing_id()) && is_keyring_failure(
                e,
                KeyringError::KeyNotFound,
            ),
        }
    }

    /// The public key of the signing key, which is 32 bytes long; a failure
    /// exactly where there is no signing key.
    open spec fn may_show(&self, r: Result<Vec<u8>, Error>) -> bool {
        match r {
            Ok(public) => self@.has(Keyring::signing_id()) && public@ == ed25519_public_key(
                self@.pair(Keyring::signing_id()).secret,
            ) && public@.len() == PUBLIC_KEY_LENGTH,
            Err(e) => !self@.has(Keyring::signing_id()) && is_keyring_failure(
                e,
                KeyringError::KeyNotFound,
            ),
        }
    }

    /// EdDSA.
    open spec fn may_use(&self, a: Algorithm) -> bool {
        a == Algorithm::EdDSA
    }

    /// The `did:key` reference to the public key of the key that was set as
    /// verification method; a failure exactly where none was set.
    open spec fn may_name(&self, r: Result<String, Error>) -> bool {
        match r {
            Ok(vm) => self@.verification_method.len() > 0 && vm@ == did_key_reference(
                multikey(ed25519_public_key(self@.pair(self@.verification_method).secret)),
            ),
            Err(e) => self@.verification_method.len() == 0 && is_keyring_failure(
                e,
                KeyringError::VerificationMethodNotSet,
            ),
        }
    }

    fn try_sign(&self, msg: &[u8]) -> (r: Result<Vec<u8>, Error>) {
        match Keyring::try_sign(self, msg) {
            Ok(signature) => Ok(signature),
            Err(e) => Err(Error::Other(e.message())),
        }
    }

    fn verifying_key(&self) -> (r: Result<Vec<u8>, Error>) {
        match Keyring::verifying_key(self) {
            Ok(public) => Ok(public),
            Err(e) => Err(Error::Other(e.message())),
        }
    }

    fn algorithm(&self) -> (a: Algorithm) {
        Keyring::algorithm(self)
    }

    fn verification_method(&self) -> (r: Result<String, Error>) {
        match Keyring::verification_method(self) {
            Ok(vm) => Ok(vm),
            Err(e) => Err(Error::Other(e.message())),
        }
    }
}

} // verus!
