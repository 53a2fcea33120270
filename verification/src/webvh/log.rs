//! The log of a `did:webvh` DID: its entries, their parameters and proofs,
//! and the canonical JSON text of each.

use vstd::prelude::*;

use crate::document::Document;
use crate::json::{
    array, bool_json, decimal, decimal_json, json_array, json_bool, json_object, json_of,
    json_string, jsons_of, member, object, optional, optional_array, push_decimal, required,
    string_json, texts_of, Canonical,
};
use crate::text::{append_chars, chars_of, replace_all, replace_all_in, string_of};

verus! {

/// The text `s` with every occurrence of `from` replaced by `to`.
pub fn replace_text(s: &str, from: &str, to: &str) -> (r: String)
    ensures
        r@ == replace_all(s@, from@, to@),
{
    let replaced = replace_all_in(&chars_of(s), &chars_of(from), &chars_of(to));
    string_of(&replaced)
}

/// The token that stands for the SCID until the SCID is known.
pub const SCID_PLACEHOLDER: &'static str = "{SCID}";

/// The version of the `did:webvh` method that entries are written for.
pub const METHOD: &'static str = "did:webvh:0.5";

/// A witness and the weight of its approval.
#[derive(Debug, Clone, PartialEq, Eq)]
pub struct WitnessWeight {
    /// The witness, as the `did:key` reference that its proofs name.
    pub id: String,
    /// The weight of the witness's approval.
    pub weight: u64,
}

/// The witnesses of a DID, and the weight that their approvals must reach.
#[derive(Debug, Clone, PartialEq, Eq)]
pub struct Witness {
    /// The weight that the approvals of an entry must reach.
    pub threshold: u64,
    /// The witnesses.
    pub witnesses: Vec<WitnessWeight>,
}

/// The parameters of a log entry. A parameter that an entry does not give
/// keeps the value it had.
#[derive(Debug, Clone, PartialEq, Eq)]
pub struct Parameters {
    /// The version of the method that the log follows.
    pub method: Option<String>,
    /// The self-certifying identifier of the DID.
    pub scid: Option<String>,
    /// The public keys, in multibase form, that may sign the next entry.
    pub update_keys: Option<Vec<String>>,
    /// The hashes of the public keys that may become update keys next.
    pub next_key_hashes: Option<Vec<String>>,
    /// Whether the DID may move to another place.
    pub portable: Option<bool>,
    /// The witnesses of the DID.
    pub witness: Option<Witness>,
    /// For how many seconds a resolved document may be kept.
    pub ttl: Option<u64>,
    /// Whether the DID has been deactivated.
    pub deactivated: Option<bool>,
}

/// A data integrity proof.
#[derive(Debug, Clone, PartialEq, Eq)]
pub struct Proof {
    /// The type of the proof.
    pub type_: String,
    /// The suite that the proof was made with.
    pub cryptosuite: String,
    /// The key that verifies the proof.
    pub verification_method: String,
    /// What the proof is for.
    pub proof_purpose: String,
    /// When the proof was made.
    pub created: String,
    /// The signature, in multibase form; absent while the proof is being
    /// made.
    pub proof_value: Option<String>,
}

/// The DID document of one version, as a log holds it: in its canonical
/// JSON text, beside the DID that it is about.
#[derive(Debug, Clone, PartialEq, Eq)]
pub struct State {
    /// The DID that the document is about.
    pub id: String,
    /// The canonical JSON text of the document.
    pub document: String,
}

/// An entry of a log: one version of the DID document.
#[derive(Debug, Clone, PartialEq, Eq)]
pub struct LogEntry {
    /// The number of the version, a hyphen, and the hash of the entry.
    pub version_id: String,
    /// When the version was made, as a UTC timestamp.
    pub version_time: String,
    /// The parameters that the entry sets.
    pub parameters: Parameters,
    /// The DID document of this version.
    pub state: State,
    /// The proofs of the entry.
    pub proof: Vec<Proof>,
}

/// The proofs of the witnesses of one entry.
#[derive(Debug, Clone, PartialEq, Eq)]
pub struct WitnessEntry {
    /// The entry that the proofs are for.
    pub version_id: String,
    /// The proofs.
    pub proof: Vec<Proof>,
}

impl State {
    /// The state that holds `document`.
    pub fn of(document: &Document) -> (state: State)
        ensures
            state.id@ == document.id@,
            state.document@ == document.json(),
    {
        let text = json_of(document);
        State { id: document.id.clone(), document: string_of(&text) }
    }

    /// The state with every occurrence of `from` replaced by `to`, in the
    /// DID and in the text of the document.
    pub fn replaced(&self, from: &str, to: &str) -> (state: State)
        ensures
            state.id@ == replace_all(self.id@, from@, to@),
            state.document@ == replace_all(self.document@, from@, to@),
    {
        State {
            id: replace_text(self.id.as_str(), from, to),
            document: replace_text(self.document.as_str(), from, to),
        }
    }

    /// A copy of the state.
    pub fn copy(&self) -> (state: State)
        ensures
            state.id@ == self.id@,
            state.document@ == self.document@,
    {
        State { id: self.id.clone(), document: self.document.clone() }
    }
}

impl Canonical for State {
    /// The text of the document, as it is.
    open spec fn json(&self) -> Seq<char> {
        self.document@
    }

    fn push_json(&self, out: &mut Vec<char>) {
        let text = chars_of(self.document.as_str());
        append_chars(out, &text);
    }
}

impl Canonical for u64 {
    open spec fn json(&self) -> Seq<char> {
        decimal(*self as nat)
    }

    fn push_json(&self, out: &mut Vec<char>) {
        push_decimal(out, *self);
    }
}

impl WitnessWeight {
    /// The members of the JSON object: `id` and `weight`.
    pub open spec fn members(&self) -> Seq<Seq<char>> {
        required("id"@, json_string(self.id@)) + required("weight"@, decimal(self.weight as nat))
    }
}

impl Canonical for WitnessWeight {
    open spec fn json(&self) -> Seq<char> {
        json_object(self.members())
    }

    fn push_json(&self, out: &mut Vec<char>) {
        let mut members: Vec<Vec<char>> = Vec::new();
        members.push(member("id", string_json(self.id.as_str())));
        members.push(member("weight", decimal_json(self.weight)));
        assert(texts_of(members@) =~= self.members());
        let text = object(&members);
        append_chars(out, &text);
    }
}

impl Witness {
    /// The members of the JSON object: `threshold` and `witnesses`.
    pub open spec fn members(&self) -> Seq<Seq<char>> {
        required("threshold"@, decimal(self.threshold as nat)) + required(
            "witnesses"@,
            json_array(jsons_of(self.witnesses@)),
        )
    }
}

impl Canonical for Witness {
    open spec fn json(&self) -> Seq<char> {
        json_object(self.members())
    }

    fn push_json(&self, out: &mut Vec<char>) {
        let mut members: Vec<Vec<char>> = Vec::new();
        members.push(member("threshold", decimal_json(self.threshold)));
        members.push(member("witnesses", array(&self.witnesses)));
        assert(texts_of(members@) =~= self.members());
        let text = object(&members);
        append_chars(out, &text);
    }
}

/// The JSON text of a truth value, where there is one.
pub open spec fn optional_bool(b: Option<bool>) -> Option<Seq<char>> {
    match b {
        Some(b) => Some(json_bool(b)),
        None => None,
    }
}

/// The canonical JSON text of a value, where there is one.
pub open spec fn optional_json<T: Canonical>(value: Option<T>) -> Option<Seq<char>> {
    match value {
        Some(v) => Some(v.json()),
        None => None,
    }
}

impl Parameters {
    /// The members of the JSON object, in the order of their names:
    /// `deactivated`, `method`, `nextKeyHashes`, `portable`, `scid`, `ttl`,
    /// `updateKeys` and `witness`. A parameter that is not given is left out.
    pub open spec fn members(&self) -> Seq<Seq<char>> {
        optional("deactivated"@, optional_bool(self.deactivated)) + optional(
            "method"@,
            optional_json(self.method),
        ) + optional("nextKeyHashes"@, optional_array(self.next_key_hashes)) + optional(
            "portable"@,
            optional_bool(self.portable),
        ) + optional("scid"@, optional_json(self.scid)) + optional(
            "ttl"@,
            optional_json(self.ttl),
        ) + optional("updateKeys"@, optional_array(self.update_keys)) + optional(
            "witness"@,
            optional_json(self.witness),
        )
    }

    /// Parameters that give nothing.
    pub fn none() -> (p: Parameters)
        ensures
            p.method is None,
            p.scid is None,
            p.update_keys is None,
            p.next_key_hashes is None,
            p.portable is None,
            p.witness is None,
            p.ttl is None,
            p.deactivated is None,
    {
        Parameters {
            method: None,
            scid: None,
            update_keys: None,
            next_key_hashes: None,
            portable: None,
            witness: None,
            ttl: None,
            deactivated: None,
        }
    }
}

/// The view of a text, where there is one.
pub open spec fn optional_view(value: Option<Vec<char>>) -> Option<Seq<char>> {
    match value {
        Some(v) => Some(v@),
        None => None,
    }
}

/// Adds the member `key` with a value whose text is `value` to `members`,
/// where there is such a value.
fn push_optional(members: &mut Vec<Vec<char>>, key: &str, value: Option<Vec<char>>)
    ensures
        texts_of(final(members)@) == texts_of(old(members)@) + optional(
            key@,
            optional_view(value),
        ),
{
    let ghost before = texts_of(members@);
    let ghost spec_value = optional_view(value);
    match value {
        Some(v) => {
            members.push(member(key, v));
        },
        None => {},
    }
    assert(texts_of(members@) =~= before + optional(key@, spec_value));
}

/// The canonical JSON text of `value`, where there is one.
fn optional_json_of<T: Canonical>(value: &Option<T>) -> (text: Option<Vec<char>>)
    ensures
        match text {
            Some(t) => optional_json(*value) == Some(t@),
            None => optional_json(*value) is None,
        },
{
    match value {
        Some(v) => Some(json_of(v)),
        None => None,
    }
}

/// The JSON array of `items`, where there are any.
fn optional_array_of<T: Canonical>(items: &Option<Vec<T>>) -> (text: Option<Vec<char>>)
    ensures
        match text {
            Some(t) => optional_array(*items) == Some(t@),
            None => optional_array(*items) is None,
        },
{
    match items {
        Some(v) => Some(array(v)),
        None => None,
    }
}

/// The JSON text of the truth value `b`, where there is one.
fn optional_bool_of(b: Option<bool>) -> (text: Option<Vec<char>>)
    ensures
        match text {
            Some(t) => optional_bool(b) == Some(t@),
            None => optional_bool(b) is None,
        },
{
    match b {
        Some(b) => Some(bool_json(b)),
        None => None,
    }
}

impl Canonical for Parameters {
    open spec fn json(&self) -> Seq<char> {
        json_object(self.members())
    }

    fn push_json(&self, out: &mut Vec<char>) {
        let mut members: Vec<Vec<char>> = Vec::new();
        assert(texts_of(members@) =~= Seq::<Seq<char>>::empty());
        push_optional(&mut members, "deactivated", optional_bool_of(self.deactivated));
        push_optional(&mut members, "method", optional_json_of(&self.method));
        push_optional(&mut members, "nextKeyHashes", optional_array_of(&self.next_key_hashes));
        push_optional(&mut members, "portable", optional_bool_of(self.portable));
        push_optional(&mut members, "scid", optional_json_of(&self.scid));
        push_optional(&mut members, "ttl", optional_json_of(&self.ttl));
        push_optional(&mut members, "updateKeys", optional_array_of(&self.update_keys));
        push_optional(&mut members, "witness", optional_json_of(&self.witness));
        assert(texts_of(members@) =~= self.members());
        let text = object(&members);
        append_chars(out, &text);
    }
}

impl Proof {
    /// The members of the JSON object of the proof without its signature:
    /// `created`, `cryptosuite`, `proofPurpose`, `type` and
    /// `verificationMethod`.
    pub open spec fn options_members(&self) -> Seq<Seq<char>> {
        required("created"@, json_string(self.created@)) + required(
            "cryptosuite"@,
            json_string(self.cryptosuite@),
        ) + required("proofPurpose"@, json_string(self.proof_purpose@)) + required(
            "type"@,
            json_string(self.type_@),
        ) + required("verificationMethod"@, json_string(self.verification_method@))
    }

    /// The canonical JSON text of the proof without its signature.
    pub open spec fn options_json(&self) -> Seq<char> {
        json_object(self.options_members())
    }

    /// The members of the JSON object of the proof: those of the proof
    /// without its signature, with `proofValue`, where there is one, in its
    /// place behind `proofPurpose`.
    pub open spec fn members(&self) -> Seq<Seq<char>> {
        required("created"@, json_string(self.created@)) + required(
            "cryptosuite"@,
            json_string(self.cryptosuite@),
        ) + required("proofPurpose"@, json_string(self.proof_purpose@)) + optional(
            "proofValue"@,
            optional_json(self.proof_value),
        ) + required("type"@, json_string(self.type_@)) + required(
            "verificationMethod"@,
            json_string(self.verification_method@),
        )
    }

    /// The canonical JSON text of the proof without its signature.
    pub fn options_text(&self) -> (text: String)
        ensures
            text@ == self.options_json(),
    {
        let mut members: Vec<Vec<char>> = Vec::new();
        members.push(member("created", string_json(self.created.as_str())));
        members.push(member("cryptosuite", string_json(self.cryptosuite.as_str())));
        members.push(member("proofPurpose", string_json(self.proof_purpose.as_str())));
        members.push(member("type", string_json(self.type_.as_str())));
        members.push(member("verificationMethod", string_json(self.verification_method.as_str())));
        assert(texts_of(members@) =~= self.options_members());
        let text = object(&members);
        string_of(&text)
    }
}

impl Canonical for Proof {
    open spec fn json(&self) -> Seq<char> {
        json_object(self.members())
    }

    fn push_json(&self, out: &mut Vec<char>) {
        let mut members: Vec<Vec<char>> = Vec::new();
        assert(texts_of(members@) =~= Seq::<Seq<char>>::empty());
        push_optional(&mut members, "created", Some(string_json(self.created.as_str())));
        push_optional(&mut members, "cryptosuite", Some(string_json(self.cryptosuite.as_str())));
        push_optional(&mut members, "proofPurpose", Some(string_json(self.proof_purpose.as_str())));
        push_optional(&mut members, "proofValue", optional_json_of(&self.proof_value));
        push_optional(&mut members, "type", Some(string_json(self.type_.as_str())));
        push_optional(
            &mut members,
            "verificationMethod",
            Some(string_json(self.verification_method.as_str())),
        );
        assert(texts_of(members@) =~= self.members());
        let text = object(&members);
        append_chars(out, &text);
    }
}

impl LogEntry {
    /// The members of the JSON object of the entry without its proofs, with
    /// `version_id` for its version: `parameters`, `state`, `versionId` and
    /// `versionTime`.
    pub open spec fn unsigned_members(&self, version_id: Seq<char>) -> Seq<Seq<char>> {
        required("parameters"@, self.parameters.json()) + required("state"@, self.state.json())
            + required("versionId"@, json_string(version_id)) + required(
            "versionTime"@,
            json_string(self.version_time@),
        )
    }

    /// The canonical JSON text of the entry without its proofs, with
    /// `version_id` for its version.
    pub open spec fn unsigned_json(&self, version_id: Seq<char>) -> Seq<char> {
        json_object(self.unsigned_members(version_id))
    }

    /// The members of the JSON object of the entry with the proofs `proofs`
    /// and with `version_id` for its version: `parameters`, `proof`, `state`,
    /// `versionId` and `versionTime`.
    pub open spec fn members_with(&self, version_id: Seq<char>, proofs: Seq<char>) -> Seq<
        Seq<char>,
    > {
        required("parameters"@, self.parameters.json()) + required("proof"@, proofs) + required(
            "state"@,
            self.state.json(),
        ) + required("versionId"@, json_string(version_id)) + required(
            "versionTime"@,
            json_string(self.version_time@),
        )
    }

    /// The canonical JSON text of the entry with an empty list of proofs,
    /// and with `version_id` for its version.
    pub open spec fn unproved_json(&self, version_id: Seq<char>) -> Seq<char> {
        json_object(self.members_with(version_id, "[]"@))
    }

    /// The canonical JSON text of the entry without its proofs, with
    /// `version_id` for its version.
    pub fn unsigned_text(&self, version_id: &str) -> (text: String)
        ensures
            text@ == self.unsigned_json(version_id@),
    {
        let mut members: Vec<Vec<char>> = Vec::new();
        members.push(member("parameters", json_of(&self.parameters)));
        members.push(member("state", json_of(&self.state)));
        members.push(member("versionId", string_json(version_id)));
        members.push(member("versionTime", string_json(self.version_time.as_str())));
        assert(texts_of(members@) =~= self.unsigned_members(version_id@));
        let text = object(&members);
        string_of(&text)
    }

    /// The canonical JSON text of the entry with an empty list of proofs,
    /// and with `version_id` for its version.
    pub fn unproved_text(&self, version_id: &str) -> (text: String)
        ensures
            text@ == self.unproved_json(version_id@),
    {
        let mut members: Vec<Vec<char>> = Vec::new();
        members.push(member("parameters", json_of(&self.parameters)));
        members.push(member("proof", chars_of("[]")));
        members.push(member("state", json_of(&self.state)));
        members.push(member("versionId", string_json(version_id)));
        members.push(member("versionTime", string_json(self.version_time.as_str())));
        assert(texts_of(members@) =~= self.members_with(version_id@, "[]"@));
        let text = object(&members);
        string_of(&text)
    }
}

impl Canonical for LogEntry {
    /// The entry as it stands in a log: one JSON object with the members
    /// `parameters`, `proof`, `state`, `versionId` and `versionTime`.
    open spec fn json(&self) -> Seq<char> {
        json_object(self.members_with(self.version_id@, json_array(jsons_of(self.proof@))))
    }

    fn push_json(&self, out: &mut Vec<char>) {
        let mut members: Vec<Vec<char>> = Vec::new();
        members.push(member("parameters", json_of(&self.parameters)));
        members.push(member("proof", array(&self.proof)));
        members.push(member("state", json_of(&self.state)));
        members.push(member("versionId", string_json(self.version_id.as_str())));
        members.push(member("versionTime", string_json(self.version_time.as_str())));
        assert(texts_of(members@) =~= self.members_with(
            self.version_id@,
            json_array(jsons_of(self.proof@)),
        ));
        let text = object(&members);
        append_chars(out, &text);
    }
}

} // verus!
