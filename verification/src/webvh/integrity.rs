//! Data integrity proofs over log entries: what is signed, who signed, and
//! whether the signature holds.

use vstd::prelude::*;
use vstd::utf8::encode_utf8;

use crate::ed25519::{ed25519_verifies, verify, SIGNATURE_LENGTH};
use crate::encoding::{decode_multibase, encode_base58btc, multibase_base58btc, multibase_decoded};
use crate::error::Error;
use crate::hash::{digest, sha256};
use crate::jwk::{decode_multikey, multikey_decoded};
use crate::kms::did_key_reference;
use crate::signer::SignerExt;
use crate::text::{chars_eq, chars_of, slice_of, starts_with, str_eq, string_of};
use crate::webvh::log::{LogEntry, Proof};

verus! {

/// The type of a data integrity proof.
pub const PROOF_TYPE: &'static str = "DataIntegrityProof";

/// The suite of proofs made with Ed25519 over canonical JSON.
pub const CRYPTOSUITE: &'static str = "eddsa-jcs-2022";

/// The purpose of the proofs of a log.
pub const PROOF_PURPOSE: &'static str = "authentication";

/// The public key, in multibase form, that the `did:key` reference `vm`
/// names: `vm` is `did:key:`, the key, `#`, and the key once more. `None`
/// where `vm` is no such reference.
pub open spec fn key_of_reference(vm: Seq<char>) -> Option<Seq<char>> {
    let rest = vm.skip("did:key:"@.len() as int);
    let half = (rest.len() - 1) / 2;
    if "did:key:"@.is_prefix_of(vm) && rest.len() % 2 == 1 && rest[half] == '#' && rest.take(half)
        == rest.skip(half + 1) {
        Some(rest.take(half))
    } else {
        None
    }
}

/// The reference to the key `key` names `key`.
pub proof fn lemma_reference_names_key(key: Seq<char>)
    ensures
        key_of_reference(did_key_reference(key)) == Some(key),
{
    reveal_strlit("did:key:");
    reveal_strlit("#");
    let vm = did_key_reference(key);
    let rest = vm.skip("did:key:"@.len() as int);
    assert(rest =~= key + "#"@ + key);
    let half = (rest.len() - 1) / 2;
    assert(half == key.len());
    assert(rest.take(half) =~= key);
    assert(rest.skip(half + 1) =~= key);
    assert("did:key:"@.is_prefix_of(vm));
}

/// The public key, in multibase form, that the `did:key` reference `vm`
/// names.
pub fn reference_key(vm: &str) -> (key: Option<String>)
    ensures
        match key {
            Some(k) => key_of_reference(vm@) == Some(k@),
            None => key_of_reference(vm@) is None,
        },
{
    let chars = chars_of(vm);
    let prefix = chars_of("did:key:");
    if !starts_with(&chars, &prefix) {
        return None;
    }
    let rest = slice_of(&chars, prefix.len(), chars.len());
    assert(rest@ == vm@.skip("did:key:"@.len() as int));
    if rest.len() % 2 != 1 {
        return None;
    }
    let half: usize = (rest.len() - 1) / 2;
    if rest[half] != '#' {
        return None;
    }
    let first = slice_of(&rest, 0, half);
    let second = slice_of(&rest, half + 1, rest.len());
    if !chars_eq(&first, &second) {
        return None;
    }
    Some(string_of(&first))
}

/// What a proof of `entry` signs: the SHA-256 digest of the proof without
/// its signature, followed by the SHA-256 digest of the entry without its
/// proofs, each taken of the canonical JSON text.
pub open spec fn signing_input(entry: LogEntry, proof: Proof) -> Seq<u8> {
    sha256(encode_utf8(proof.options_json())) + sha256(
        encode_utf8(entry.unsigned_json(entry.version_id@)),
    )
}

/// What a proof of `entry` signs.
pub fn signing_input_of(entry: &LogEntry, proof: &Proof) -> (input: Vec<u8>)
    ensures
        input@ == signing_input(*entry, *proof),
{
    let options = proof.options_text();
    let unsigned = entry.unsigned_text(entry.version_id.as_str());
    let mut input = digest(options.as_str().as_bytes());
    let second = digest(unsigned.as_str().as_bytes());
    let ghost first = input@;
    let n: usize = second.len();
    let mut i: usize = 0;
    while i < n
        invariant
            n == second@.len(),
            i <= n,
            input@ == first + second@.take(i as int),
        decreases n - i,
    {
        input.push(second[i]);
        i += 1;
        assert(second@.take(i as int) == second@.take(i - 1).push(second@[i - 1]));
    }
    assert(second@.take(n as int) == second@);
    input
}

impl Proof {
    /// Whether the proof is a data integrity proof of the suite and purpose
    /// that logs use.
    pub open spec fn is_data_integrity(&self) -> bool {
        &&& self.type_@ == PROOF_TYPE@
        &&& self.cryptosuite@ == CRYPTOSUITE@
        &&& self.proof_purpose@ == PROOF_PURPOSE@
    }

    /// The public key, in multibase form, that the proof names as its
    /// signer.
    pub open spec fn signer(&self) -> Option<Seq<char>> {
        key_of_reference(self.verification_method@)
    }

    /// The signature that the proof carries.
    pub open spec fn signature(&self) -> Option<Seq<u8>> {
        match self.proof_value {
            Some(value) => multibase_decoded(value@),
            None => None,
        }
    }

    /// Whether the proof holds of `entry`: it is a data integrity proof, it
    /// names a `did:key` whose key is a public key, it carries a signature
    /// of 64 bytes, and the key verifies the signature over what a proof of
    /// `entry` signs.
    pub open spec fn verifies(&self, entry: LogEntry) -> bool {
        &&& self.is_data_integrity()
        &&& self.signer() matches Some(key)
        &&& multikey_decoded(key) matches Some(public)
        &&& self.signature() matches Some(signature)
        &&& signature.len() == SIGNATURE_LENGTH
        &&& ed25519_verifies(public, signing_input(entry, *self), signature)
    }

    /// Whether the proof holds of `entry`.
    pub fn verify(&self, entry: &LogEntry) -> (valid: bool)
        ensures
            valid == self.verifies(*entry),
    {
        if !str_eq(self.type_.as_str(), PROOF_TYPE) || !str_eq(
            self.cryptosuite.as_str(),
            CRYPTOSUITE,
        ) || !str_eq(self.proof_purpose.as_str(), PROOF_PURPOSE) {
            return false;
        }
        let key = match reference_key(self.verification_method.as_str()) {
            Some(key) => key,
            None => {
                return false;
            },
        };
        let public = match decode_multikey(key.as_str()) {
            Some(public) => public,
            None => {
                return false;
            },
        };
        let value = match &self.proof_value {
            Some(value) => value,
            None => {
                return false;
            },
        };
        let signature = match decode_multibase(value.as_str()) {
            Some(signature) => signature,
            None => {
                return false;
            },
        };
        if signature.len() != SIGNATURE_LENGTH {
            return false;
        }
        let input = signing_input_of(entry, self);
        verify(public.as_slice(), input.as_slice(), signature.as_slice())
    }
}

impl Proof {
    /// A data integrity proof by the verification method
    /// `verification_method`, made at `created`, that is yet to be signed.
    pub fn unsigned(verification_method: String, created: &str) -> (proof: Proof)
        ensures
            proof.is_data_integrity(),
            proof.verification_method == verification_method,
            proof.created@ == created@,
            proof.proof_value is None,
    {
        Proof {
            type_: PROOF_TYPE.to_owned(),
            cryptosuite: CRYPTOSUITE.to_owned(),
            verification_method,
            proof_purpose: PROOF_PURPOSE.to_owned(),
            created: created.to_owned(),
            proof_value: None,
        }
    }

    /// The proof with `signature` for its signature, in multibase form.
    pub fn signed_with(self, signature: &[u8]) -> (proof: Proof)
        ensures
            proof.type_ == self.type_,
            proof.cryptosuite == self.cryptosuite,
            proof.verification_method == self.verification_method,
            proof.proof_purpose == self.proof_purpose,
            proof.created == self.created,
            proof.proof_value matches Some(value) && value@ == multibase_base58btc(signature@),
            proof.signature() == Some(signature@),
    {
        let mut proof = self;
        proof.proof_value = Some(encode_base58btc(signature));
        proof
    }
}

impl LogEntry {
    /// Whether `draft` is a proof of the kind that logs use, made at
    /// `created` by a verification method that `signer` may name, and yet to
    /// be signed.
    pub open spec fn is_draft_by<S: SignerExt>(draft: Proof, signer: S, created: Seq<char>) -> bool {
        &&& draft.is_data_integrity()
        &&& draft.created@ == created
        &&& draft.proof_value is None
        &&& signer.may_name(Ok(draft.verification_method))
    }

    /// Whether `proof` is a proof of the entry by `signer`, made at
    /// `created`: it is of the kind that logs use, it names a verification
    /// method that `signer` may name, and it carries, in multibase form, a
    /// signature that `signer` may give of what a proof of the entry signs.
    pub open spec fn is_proved_by<S: SignerExt>(
        self,
        proof: Proof,
        signer: S,
        created: Seq<char>,
    ) -> bool {
        &&& proof.is_data_integrity()
        &&& proof.created@ == created
        &&& signer.may_name(Ok(proof.verification_method))
        &&& proof.proof_value is Some
        &&& exists|signature: Vec<u8>|
            #![trigger signer.may_sign(signing_input(self, proof), Ok(signature))]
            {
                &&& signer.may_sign(signing_input(self, proof), Ok(signature))
                &&& proof.proof_value->0@ == multibase_base58btc(signature@)
                &&& proof.signature() == Some(signature@)
            }
    }

    /// Whether `e` is a failure of `signer` to prove the entry at `created`:
    /// the failure to name its verification method, or else the failure to
    /// sign what a proof of the entry by that method signs.
    pub open spec fn is_refused_by<S: SignerExt>(
        self,
        e: Error,
        signer: S,
        created: Seq<char>,
    ) -> bool {
        ||| signer.may_name(Err(e))
        ||| exists|draft: Proof|
            #![trigger signing_input(self, draft)]
            Self::is_draft_by(draft, signer, created) && signer.may_sign(
                signing_input(self, draft),
                Err(e),
            )
    }

    /// A proof of an entry that is yet to be signed is a proof of the entry
    /// that carries it: the proofs of an entry are no part of what is signed.
    pub proof fn lemma_proof_of_draft<S: SignerExt>(
        self,
        draft: LogEntry,
        proof: Proof,
        signer: S,
        created: Seq<char>,
    )
        requires
            draft.is_proved_by(proof, signer, created),
            self.version_id == draft.version_id,
            self.version_time == draft.version_time,
            self.parameters == draft.parameters,
            self.state == draft.state,
        ensures
            self.is_proved_by(proof, signer, created),
    {
        assert(self.unsigned_json(self.version_id@) == draft.unsigned_json(draft.version_id@));
        assert(signing_input(self, proof) == signing_input(draft, proof));
        let signature = choose|signature: Vec<u8>|
            #![trigger signer.may_sign(signing_input(draft, proof), Ok(signature))]
            {
                &&& signer.may_sign(signing_input(draft, proof), Ok(signature))
                &&& proof.proof_value->0@ == multibase_base58btc(signature@)
                &&& proof.signature() == Some(signature@)
            };
        assert(signer.may_sign(signing_input(self, proof), Ok(signature)));
    }

    /// A proof of the entry by `signer`, made at `created`.
    ///
    /// The signer is asked for its verification method, and then for a
    /// signature of what a proof of the entry by that method signs. The
    /// proof names the method and carries the signature in multibase form.
    /// Fails with what `signer` fails with, and not else.
    pub fn prove<S: SignerExt>(&self, signer: &S, created: &str) -> (r: Result<Proof, Error>)
        requires
            signer.ready(),
        ensures
            match r {
                Ok(proof) => self.is_proved_by(proof, *signer, created@),
                Err(e) => self.is_refused_by(e, *signer, created@),
            },
    {
        let vm = match signer.verification_method() {
            Ok(vm) => vm,
            Err(e) => {
                return Err(e);
            },
        };
        let draft = Proof::unsigned(vm, created);
        let input = signing_input_of(self, &draft);
        match signer.try_sign(input.as_slice()) {
            Ok(signature) => {
                let proof = draft.signed_with(signature.as_slice());
                proof {
                    assert(proof.options_members() == draft.options_members());
                    assert(signing_input(*self, proof) == signing_input(*self, draft));
                    assert(signer.may_sign(signing_input(*self, proof), Ok(signature)));
                }
                Ok(proof)
            },
            Err(e) => {
                proof {
                    assert(Self::is_draft_by(draft, *signer, created@));
                    assert(signer.may_sign(signing_input(*self, draft), Err(e)));
                }
                Err(e)
            },
        }
    }
}

} // verus!
