//! Building a log: the first entry, the entries that follow it, and the
//! entry that ends it.

use vstd::prelude::*;

use crate::document::Document;
use crate::error::Error;
use crate::hash::{hash_text, text_hash};
use crate::json::{
    json_array, json_bool, json_object, json_string, jsons_of, optional, optional_array,
    required, Canonical,
};
use crate::text::replace_all;
use crate::signer::SignerExt;
use crate::webvh::log::{
    optional_json, LogEntry, Parameters, Proof, State, Witness, WitnessWeight, METHOD,
    SCID_PLACEHOLDER,
};
use crate::webvh::params::{deactivated, next_key_hashes, next_key_hashes_of, strings};
use crate::webvh::replay::{
    check_scid, entry_hash, expected_version_id, fails_with, holds_up_to, resolve_log,
    scid_holds, version_holds, version_id, version_id_of,
};
use crate::webvh::time::{is_timestamp, precedes, text_le, timestamp};

verus! {

/// The sum of the weights of the first `n` of `witnesses`.
pub open spec fn total_weight(witnesses: Seq<WitnessWeight>, n: int) -> nat
    decreases n,
{
    if n <= 0 {
        0
    } else {
        total_weight(witnesses, n - 1) + witnesses[n - 1].weight as nat
    }
}

/// The weights of `witnesses` are no more than their number times the
/// greatest weight there is.
proof fn lemma_total_weight_bound(witnesses: Seq<WitnessWeight>, n: int)
    requires
        0 <= n <= witnesses.len(),
    ensures
        total_weight(witnesses, n) <= n * u64::MAX,
    decreases n,
{
    if n > 0 {
        lemma_total_weight_bound(witnesses, n - 1);
        assert((n - 1) * u64::MAX + u64::MAX == n * u64::MAX) by (nonlinear_arith);
    }
}

impl Witness {
    /// Whether the witnesses can do their office: the threshold is above
    /// zero, and the weights of all witnesses together reach it.
    pub open spec fn valid(&self) -> bool {
        0 < self.threshold <= total_weight(self.witnesses@, self.witnesses@.len() as int)
    }

    /// Whether the witnesses can do their office.
    pub fn is_valid(&self) -> (ok: bool)
        ensures
            ok == self.valid(),
    {
        let n: usize = self.witnesses.len();
        let mut total: u128 = 0;
        let mut k: usize = 0;
        while k < n
            invariant
                n == self.witnesses@.len(),
                k <= n,
                total == total_weight(self.witnesses@, k as int),
                total <= k * u64::MAX,
            decreases n - k,
        {
            proof {
                lemma_total_weight_bound(self.witnesses@, k + 1);
                assert(n * u64::MAX <= usize::MAX * u64::MAX) by (nonlinear_arith)
                    requires
                        n <= usize::MAX,
                ;
                assert((k + 1) * u64::MAX <= n * u64::MAX) by (nonlinear_arith)
                    requires
                        k + 1 <= n,
                ;
            }
            total = total + self.witnesses[k].weight as u128;
            k += 1;
        }
        self.threshold > 0 && self.threshold as u128 <= total
    }
}

/// The hashes of `keys`, each that of the key's text.
pub fn commitments(keys: &Vec<String>) -> (hashes: Vec<String>)
    ensures
        hashes@.len() == keys@.len(),
        forall|i: int| 0 <= i < keys@.len() ==> (#[trigger] hashes@[i])@ == text_hash(keys@[i]@),
{
    let mut hashes: Vec<String> = Vec::new();
    let n: usize = keys.len();
    let mut i: usize = 0;
    while i < n
        invariant
            n == keys@.len(),
            i <= n,
            hashes@.len() == i,
            forall|k: int| 0 <= k < i ==> (#[trigger] hashes@[k])@ == text_hash(keys@[k]@),
        decreases n - i,
    {
        hashes.push(hash_text(keys[i].as_str()));
        i += 1;
    }
    hashes
}

/// The hash that commits to the key `key`: that of the key's text in
/// multibase form.
pub fn commitment(key: &str) -> (hash: String)
    ensures
        hash@ == text_hash(key@),
{
    hash_text(key)
}

/// The JSON text of the hashes that commit to `next_keys`; `None` where
/// there are no such keys.
pub open spec fn commitments_json(next_keys: Seq<String>) -> Option<Seq<char>> {
    if next_keys.len() == 0 {
        None
    } else {
        Some(json_array(Seq::new(next_keys.len(), |i: int| json_string(text_hash(next_keys[i]@)))))
    }
}

/// The canonical JSON text of the parameters of a first entry with `scid`
/// for its SCID: the method's version, the hashes that commit to
/// `next_keys`, whether the DID may move, the SCID, how long the document
/// may be kept, the update keys, and the witnesses.
pub open spec fn genesis_parameters(
    scid: Seq<char>,
    update_keys: Seq<String>,
    next_keys: Seq<String>,
    portable: bool,
    witness: Option<Witness>,
    ttl: Option<u64>,
) -> Seq<char> {
    json_object(
        required("method"@, json_string(METHOD@)) + optional(
            "nextKeyHashes"@,
            commitments_json(next_keys),
        ) + required("portable"@, json_bool(portable)) + required("scid"@, json_string(scid))
            + optional("ttl"@, optional_json(ttl)) + required(
            "updateKeys"@,
            json_array(jsons_of(update_keys)),
        ) + optional("witness"@, optional_json(witness)),
    )
}

/// The canonical JSON text of a first entry, with an empty list of proofs,
/// in which `scid` stands for the SCID, in the parameters and as the
/// version, and `state` is the text of the document.
pub open spec fn genesis_text(
    scid: Seq<char>,
    state: Seq<char>,
    update_keys: Seq<String>,
    next_keys: Seq<String>,
    portable: bool,
    witness: Option<Witness>,
    ttl: Option<u64>,
    now: Seq<char>,
) -> Seq<char> {
    json_object(
        required(
            "parameters"@,
            genesis_parameters(scid, update_keys, next_keys, portable, witness, ttl),
        ) + required("proof"@, "[]"@) + required("state"@, state) + required(
            "versionId"@,
            json_string(scid),
        ) + required("versionTime"@, json_string(now)),
    )
}

/// The SCID of the log that begins with `document`: the hash of the first
/// entry in which the placeholder stands for the SCID.
pub open spec fn genesis_scid(
    document: Document,
    update_keys: Seq<String>,
    next_keys: Seq<String>,
    portable: bool,
    witness: Option<Witness>,
    ttl: Option<u64>,
    now: Seq<char>,
) -> Seq<char> {
    text_hash(
        genesis_text(
            SCID_PLACEHOLDER@,
            document.json(),
            update_keys,
            next_keys,
            portable,
            witness,
            ttl,
            now,
        ),
    )
}

/// Whether the SCID of the log that begins with `document` certifies its
/// first entry: with the SCID in the place of the placeholder, and then the
/// placeholder in the place of the SCID again, the entry has the SCID for
/// its hash.
pub open spec fn genesis_certifies(
    document: Document,
    update_keys: Seq<String>,
    next_keys: Seq<String>,
    portable: bool,
    witness: Option<Witness>,
    ttl: Option<u64>,
    now: Seq<char>,
) -> bool {
    let scid = genesis_scid(document, update_keys, next_keys, portable, witness, ttl, now);
    text_hash(
        replace_all(
            genesis_text(
                scid,
                replace_all(document.json(), SCID_PLACEHOLDER@, scid),
                update_keys,
                next_keys,
                portable,
                witness,
                ttl,
                now,
            ),
            scid,
            SCID_PLACEHOLDER@,
        ),
    ) == scid
}

impl LogEntry {
    /// The text of a first entry is made of its parts.
    proof fn lemma_genesis_text(
        self,
        scid: Seq<char>,
        update_keys: Seq<String>,
        next_keys: Seq<String>,
        portable: bool,
        witness: Option<Witness>,
        ttl: Option<u64>,
    )
        requires
            self.parameters.method matches Some(m) && m@ == METHOD@,
            self.parameters.scid matches Some(s) && s@ == scid,
            self.parameters.update_keys matches Some(keys) && keys@ == update_keys,
            if next_keys.len() == 0 {
                self.parameters.next_key_hashes is None
            } else {
                self.parameters.next_key_hashes matches Some(hashes) && hashes@.len()
                    == next_keys.len() && forall|i: int|
                    0 <= i < next_keys.len() ==> (#[trigger] hashes@[i])@ == text_hash(
                        next_keys[i]@,
                    )
            },
            self.parameters.portable == Some(portable),
            self.parameters.witness == witness,
            self.parameters.ttl == ttl,
            self.parameters.deactivated is None,
        ensures
            self.unproved_json(scid) == genesis_text(
                scid,
                self.state.document@,
                update_keys,
                next_keys,
                portable,
                witness,
                ttl,
                self.version_time@,
            ),
    {
        let p = self.parameters;
        if next_keys.len() > 0 {
            let hashes = p.next_key_hashes->0@;
            assert(jsons_of(hashes) =~= Seq::new(
                next_keys.len(),
                |i: int| json_string(text_hash(next_keys[i]@)),
            ));
        }
        assert(optional_array(p.next_key_hashes) == commitments_json(next_keys));
        assert(p.members() =~= required("method"@, json_string(METHOD@)) + optional(
            "nextKeyHashes"@,
            commitments_json(next_keys),
        ) + required("portable"@, json_bool(portable)) + required("scid"@, json_string(scid))
            + optional("ttl"@, optional_json(ttl)) + required(
            "updateKeys"@,
            json_array(jsons_of(update_keys)),
        ) + optional("witness"@, optional_json(witness)));
        assert(p.json() == genesis_parameters(
            scid,
            update_keys,
            next_keys,
            portable,
            witness,
            ttl,
        ));
    }

    /// Whether this is the first entry of a log for `document`, in which
    /// the placeholder stands for the SCID: the entry is made at `now`; it
    /// names the method's version and its SCID, gives `update_keys`, commits
    /// to `next_keys` where there are any, and says whether the DID may
    /// move, who witnesses it and how long it may be kept; and its document
    /// is `document` with the SCID in place of the placeholder.
    pub open spec fn is_genesis_of(
        self,
        document: Document,
        update_keys: Seq<String>,
        next_keys: Seq<String>,
        portable: bool,
        witness: Option<Witness>,
        ttl: Option<u64>,
        now: Seq<char>,
    ) -> bool {
        &&& self.version_time@ == now
        &&& self.parameters.method matches Some(m) && m@ == METHOD@
        &&& self.parameters.scid matches Some(scid) && self.state.id@ == replace_all(
            document.id@,
            SCID_PLACEHOLDER@,
            scid@,
        ) && self.state.document@ == replace_all(document.json(), SCID_PLACEHOLDER@, scid@)
        &&& self.parameters.update_keys matches Some(keys) && keys@ == update_keys
        &&& if next_keys.len() == 0 {
            self.parameters.next_key_hashes is None
        } else {
            self.parameters.next_key_hashes matches Some(hashes) && hashes@.len()
                == next_keys.len() && forall|i: int|
                0 <= i < next_keys.len() ==> (#[trigger] hashes@[i])@ == text_hash(next_keys[i]@)
        }
        &&& self.parameters.portable == Some(portable)
        &&& self.parameters.witness == witness
        &&& self.parameters.ttl == ttl
        &&& self.parameters.deactivated is None
    }

    /// The first entry of a log for `document`, yet to be signed. Wherever
    /// the SCID is to stand in `document`, the placeholder stands.
    ///
    /// Fails with `Other` where there are no update keys; else with
    /// `WitnessThreshold` where witnesses are given that cannot do their
    /// office; else with `ChainBroken` where `now` is no UTC timestamp; else
    /// with `ScidMismatch`, which carries the SCID, exactly when the SCID
    /// does not certify the entry.
    pub fn genesis(
        document: &Document,
        update_keys: Vec<String>,
        next_keys: &Vec<String>,
        portable: bool,
        witness: Option<Witness>,
        ttl: Option<u64>,
        now: &str,
    ) -> (r: Result<LogEntry, Error>)
        ensures
            match r {
                Ok(entry) => {
                    &&& update_keys@.len() > 0
                    &&& witness matches Some(w) ==> w.valid()
                    &&& is_timestamp(now@)
                    &&& entry.is_genesis_of(
                        *document,
                        update_keys@,
                        next_keys@,
                        portable,
                        witness,
                        ttl,
                        now@,
                    )
                    &&& entry.proof@.len() == 0
                    &&& entry.parameters.scid->0@ == genesis_scid(
                        *document,
                        update_keys@,
                        next_keys@,
                        portable,
                        witness,
                        ttl,
                        now@,
                    )
                    &&& genesis_certifies(
                        *document,
                        update_keys@,
                        next_keys@,
                        portable,
                        witness,
                        ttl,
                        now@,
                    )
                    &&& scid_holds(seq![entry], 0)
                    &&& version_holds(seq![entry], 0)
                },
                Err(e) => if update_keys@.len() == 0 {
                    e is Other && e.detail() == "update keys are missing"@
                } else if witness is Some && !witness->0.valid() {
                    e is WitnessThreshold && e.detail() == "threshold is out of reach"@
                } else if !is_timestamp(now@) {
                    e is ChainBroken && e.detail() == now@
                } else {
                    &&& !genesis_certifies(
                        *document,
                        update_keys@,
                        next_keys@,
                        portable,
                        witness,
                        ttl,
                        now@,
                    )
                    &&& e is ScidMismatch
                    &&& e.detail() == genesis_scid(
                        *document,
                        update_keys@,
                        next_keys@,
                        portable,
                        witness,
                        ttl,
                        now@,
                    )
                },
            },
    {
        if update_keys.len() == 0 {
            return Err(Error::Other("update keys are missing".to_owned()));
        }
        if let Some(w) = &witness {
            if !w.is_valid() {
                return Err(Error::WitnessThreshold("threshold is out of reach".to_owned()));
            }
        }
        if !timestamp(now) {
            return Err(Error::ChainBroken(now.to_owned()));
        }
        let next_key_hashes = if next_keys.len() == 0 {
            None
        } else {
            Some(commitments(next_keys))
        };
        let state = State::of(document);
        let mut log: Vec<LogEntry> = Vec::new();
        log.push(
            LogEntry {
                version_id: SCID_PLACEHOLDER.to_owned(),
                version_time: now.to_owned(),
                parameters: Parameters {
                    method: Some(METHOD.to_owned()),
                    scid: Some(SCID_PLACEHOLDER.to_owned()),
                    update_keys: Some(update_keys),
                    next_key_hashes,
                    portable: Some(portable),
                    witness,
                    ttl,
                    deactivated: None,
                },
                state,
                proof: Vec::new(),
            },
        );
        proof {
            log@[0].lemma_genesis_text(
                SCID_PLACEHOLDER@,
                update_keys@,
                next_keys@,
                portable,
                witness,
                ttl,
            );
        }
        let scid = hash_text(log[0].unproved_text(SCID_PLACEHOLDER).as_str());
        assert(scid@ == genesis_scid(
            *document,
            update_keys@,
            next_keys@,
            portable,
            witness,
            ttl,
            now@,
        ));
        let mut entry = match log.pop() {
            Some(entry) => entry,
            None => {
                return Err(Error::ScidMismatch(scid));
            },
        };
        entry.state = entry.state.replaced(SCID_PLACEHOLDER, scid.as_str());
        entry.parameters.scid = Some(scid.clone());
        log.push(entry);
        proof {
            log@[0].lemma_genesis_text(scid@, update_keys@, next_keys@, portable, witness, ttl);
            assert(scid_holds(log@, 0) == genesis_certifies(
                *document,
                update_keys@,
                next_keys@,
                portable,
                witness,
                ttl,
                now@,
            ));
        }
        if !check_scid(&log, 0) {
            return Err(Error::ScidMismatch(scid));
        }
        let id = expected_version_id(&log, 0);
        let mut entry = match log.pop() {
            Some(entry) => entry,
            None => {
                return Err(Error::ScidMismatch(scid));
            },
        };
        let ghost before = entry;
        entry.version_id = id;
        proof {
            let old_log = seq![before];
            let new_log = seq![entry];
            assert(entry.unproved_json(scid@) == before.unproved_json(scid@));
            assert(entry.unsigned_json(scid@) == before.unsigned_json(scid@));
            assert(entry_hash(new_log, 0) == entry_hash(old_log, 0));
        }
        Ok(entry)
    }

    /// Whether this is the entry that follows the entry `before` with the
    /// number `n`, made at `now`, with the document `state` and the
    /// parameters `parameters`, and without a proof yet.
    pub open spec fn follows(
        self,
        before: LogEntry,
        n: nat,
        state: State,
        parameters: Parameters,
        now: Seq<char>,
    ) -> bool {
        &&& self.version_time@ == now
        &&& self.state == state
        &&& self.parameters == parameters
        &&& self.proof@.len() == 0
        &&& self.version_id@ == version_id(n, text_hash(self.unsigned_json(before.version_id@)))
    }

    /// The entry that follows the last entry of `log`, yet to be signed:
    /// made at `now`, with the document `state` and the parameters
    /// `parameters`.
    ///
    /// Fails with `NotFound` where `log` is empty; else with `ChainBroken`
    /// where `now` is no UTC timestamp, or not after the time of the last
    /// entry.
    pub fn following(log: &Vec<LogEntry>, state: State, parameters: Parameters, now: &str) -> (r:
        Result<LogEntry, Error>)
        requires
            log@.len() < usize::MAX,
        ensures
            match r {
                Ok(entry) => log@.len() > 0 && is_timestamp(now@) && !text_le(
                    now@,
                    log@.last().version_time@,
                ) && entry.follows(log@.last(), (log@.len() + 1) as nat, state, parameters, now@),
                Err(e) => if log@.len() == 0 {
                    e is NotFound
                } else {
                    (!is_timestamp(now@) || text_le(now@, log@.last().version_time@))
                        && e is ChainBroken && e.detail() == now@
                },
            },
    {
        let n: usize = log.len();
        if n == 0 {
            return Err(Error::NotFound("the log is empty".to_owned()));
        }
        if precedes(now, log[n - 1].version_time.as_str()) {
            return Err(Error::ChainBroken(now.to_owned()));
        }
        Self::succeeding(log, state, parameters, now)
    }

    /// The entry that follows the last entry of `log`, yet to be signed,
    /// where it may be made at the time of the last entry.
    ///
    /// Fails with `NotFound` where `log` is empty; else with `ChainBroken`
    /// where `now` is no UTC timestamp.
    pub fn succeeding(log: &Vec<LogEntry>, state: State, parameters: Parameters, now: &str) -> (r:
        Result<LogEntry, Error>)
        requires
            log@.len() < usize::MAX,
        ensures
            match r {
                Ok(entry) => log@.len() > 0 && is_timestamp(now@) && entry.follows(
                    log@.last(),
                    (log@.len() + 1) as nat,
                    state,
                    parameters,
                    now@,
                ),
                Err(e) => if log@.len() == 0 {
                    e is NotFound
                } else {
                    !is_timestamp(now@) && e is ChainBroken && e.detail() == now@
                },
            },
    {
        let n: usize = log.len();
        if n == 0 {
            return Err(Error::NotFound("the log is empty".to_owned()));
        }
        let last = &log[n - 1];
        if !timestamp(now) {
            return Err(Error::ChainBroken(now.to_owned()));
        }
        let mut entry = LogEntry {
            version_id: String::new(),
            version_time: now.to_owned(),
            parameters,
            state,
            proof: Vec::new(),
        };
        let text = entry.unsigned_text(last.version_id.as_str());
        let hash = hash_text(text.as_str());
        let ghost before = entry;
        entry.version_id = version_id_of(n as u64 + 1, hash.as_str());
        assert(entry.unsigned_json(last.version_id@) == before.unsigned_json(last.version_id@));
        Ok(entry)
    }

    /// The entry with `proof` added to its proofs.
    pub fn signed(self, proof: Proof) -> (entry: LogEntry)
        ensures
            entry.version_id == self.version_id,
            entry.version_time == self.version_time,
            entry.parameters == self.parameters,
            entry.state == self.state,
            entry.proof@ == self.proof@.push(proof),
    {
        let mut entry = self;
        entry.proof.push(proof);
        entry
    }
}

/// The log `log`, where it is without fault. Witnesses are not asked for.
///
/// Fails with the first fault of the first entry at fault.
pub fn checked(log: Vec<LogEntry>) -> (r: Result<Vec<LogEntry>, Error>)
    ensures
        match r {
            Ok(same) => same == log && log@.len() > 0 && holds_up_to(
                log@,
                log@.len() - 1,
                None,
            ),
            Err(e) => if log@.len() == 0 {
                e is NotFound
            } else {
                fails_with(log@, None, log@.len() - 1, e)
            },
        },
{
    match resolve_log(&log, None, None) {
        Ok(_) => Ok(log),
        Err(e) => Err(e),
    }
}

/// Whether `longer` is `log` with `added` more entries behind it.
pub open spec fn extends(longer: Seq<LogEntry>, log: Seq<LogEntry>, added: int) -> bool {
    &&& longer.len() == log.len() + added
    &&& longer.take(log.len() as int) == log
}

/// Creates the log of a DID: its first entry, for `document`, signed by
/// `signer` and made at `now`. Wherever the SCID is to stand in `document`,
/// the placeholder stands.
///
/// Fails as `genesis` does, and with what `signer` fails with; and it fails
/// with the first fault of the entry where the entry does not hold, as with
/// `ProofVerification` where the key of `signer` is not among the update
/// keys. What it gives is a log without fault.
pub fn create<S: SignerExt>(
    document: &Document,
    update_keys: Vec<String>,
    next_keys: &Vec<String>,
    portable: bool,
    witness: Option<Witness>,
    ttl: Option<u64>,
    now: &str,
    signer: &S,
) -> (r: Result<Vec<LogEntry>, Error>)
    requires
        signer.ready(),
    ensures
        r matches Ok(log) ==> {
            &&& log@.len() == 1
            &&& holds_up_to(log@, 0, None)
            &&& log@[0].is_genesis_of(
                *document,
                update_keys@,
                next_keys@,
                portable,
                witness,
                ttl,
                now@,
            )
            &&& log@[0].proof@.len() == 1
            &&& log@[0].is_proved_by(log@[0].proof@[0], *signer, now@)
        },
        update_keys@.len() == 0 ==> r is Err && r->Err_0 is Other,
        update_keys@.len() > 0 && witness is Some && !witness->0.valid() ==> r is Err
            && r->Err_0 is WitnessThreshold,
        update_keys@.len() > 0 && (witness is Some ==> witness->0.valid()) && !is_timestamp(now@)
            ==> r is Err && r->Err_0 is ChainBroken && r->Err_0.detail() == now@,
{
    let entry = match LogEntry::genesis(
        document,
        update_keys,
        next_keys,
        portable,
        witness,
        ttl,
        now,
    ) {
        Ok(entry) => entry,
        Err(e) => {
            return Err(e);
        },
    };
    let proof = match entry.prove(signer, now) {
        Ok(proof) => proof,
        Err(e) => {
            return Err(e);
        },
    };
    let ghost draft = entry;
    let mut log: Vec<LogEntry> = Vec::new();
    log.push(entry.signed(proof));
    proof {
        log@[0].lemma_proof_of_draft(draft, proof, *signer, now@);
    }
    checked(log)
}

/// The keys that a caller may give, as contracts see them.
pub open spec fn keys_of(keys: Option<&Vec<String>>) -> Option<Seq<String>> {
    match keys {
        Some(k) => Some(k@),
        None => None,
    }
}

/// Whether `hashes` commit to `keys`: there are none where there are no
/// keys, and else as many, each the hash of its key's text.
pub open spec fn commits_to(hashes: Option<Vec<String>>, keys: Option<Seq<String>>) -> bool {
    match keys {
        Some(k) => hashes is Some && hashes->0@.len() == k.len() && forall|i: int|
            0 <= i < k.len() ==> (#[trigger] hashes->0@[i])@ == text_hash(k[i]@),
        None => hashes is None,
    }
}

impl Parameters {
    /// Whether these are the parameters of an update: they give
    /// `update_keys` and commit to `next_keys`, each where given, and give
    /// nothing else.
    pub open spec fn is_update_of(
        self,
        update_keys: Option<Vec<String>>,
        next_keys: Option<Seq<String>>,
    ) -> bool {
        &&& self.update_keys == update_keys
        &&& commits_to(self.next_key_hashes, next_keys)
        &&& self.method is None
        &&& self.scid is None
        &&& self.portable is None
        &&& self.witness is None
        &&& self.ttl is None
        &&& self.deactivated is None
    }

    /// Whether these are the parameters of the entry that comes before the
    /// end of a log that is committed to next keys: `update_keys` become the
    /// update keys, no more keys are committed to, and nothing else is
    /// given.
    pub open spec fn is_release_of(self, update_keys: Vec<String>) -> bool {
        &&& self.update_keys == Some(update_keys)
        &&& self.next_key_hashes is Some
        &&& self.next_key_hashes->0@.len() == 0
        &&& self.method is None
        &&& self.scid is None
        &&& self.portable is None
        &&& self.witness is None
        &&& self.ttl is None
        &&& self.deactivated is None
    }

    /// Whether these are the parameters of the entry that ends a log: the
    /// DID is deactivated, there are no update keys any more, and nothing
    /// else is given.
    pub open spec fn is_end(self) -> bool {
        &&& self.deactivated == Some(true)
        &&& self.update_keys is Some
        &&& self.update_keys->0@.len() == 0
        &&& self.next_key_hashes is None
        &&& self.method is None
        &&& self.scid is None
        &&& self.portable is None
        &&& self.witness is None
        &&& self.ttl is None
    }
}

impl LogEntry {
    /// Whether this entry, yet to be signed, comes behind `log` at `now`:
    /// it is made at `now`, has no proof, and its version holds the number
    /// behind that of the log's last entry and the hash of the entry.
    pub open spec fn comes_behind(self, log: Seq<LogEntry>, now: Seq<char>) -> bool {
        &&& self.version_time@ == now
        &&& self.proof@.len() == 0
        &&& self.version_id@ == version_id(
            (log.len() + 1) as nat,
            text_hash(self.unsigned_json(log.last().version_id@)),
        )
    }

    /// The entry, yet to be signed, that adds a version to `log`: an entry
    /// for `document`, made at `now`. Where `update_keys` are given, they are
    /// the update keys from this entry on; where `next_keys` are given, the
    /// entry commits to them. The entry gives no other parameter.
    ///
    /// Fails with `NotFound` where `log` is empty; else with `ChainBroken`
    /// where `now` is no UTC timestamp, or not after the time of the last
    /// entry.
    pub fn update_draft(
        log: &Vec<LogEntry>,
        document: &Document,
        update_keys: Option<Vec<String>>,
        next_keys: Option<&Vec<String>>,
        now: &str,
    ) -> (r: Result<LogEntry, Error>)
        requires
            log@.len() < usize::MAX,
        ensures
            match r {
                Ok(entry) => {
                    &&& log@.len() > 0
                    &&& is_timestamp(now@)
                    &&& !text_le(now@, log@.last().version_time@)
                    &&& entry.comes_behind(log@, now@)
                    &&& entry.state.id@ == document.id@
                    &&& entry.state.document@ == document.json()
                    &&& entry.parameters.is_update_of(update_keys, keys_of(next_keys))
                },
                Err(e) => if log@.len() == 0 {
                    e is NotFound
                } else {
                    (!is_timestamp(now@) || text_le(now@, log@.last().version_time@))
                        && e is ChainBroken && e.detail() == now@
                },
            },
    {
        let mut parameters = Parameters::none();
        parameters.update_keys = update_keys;
        parameters.next_key_hashes = match next_keys {
            Some(keys) => Some(commitments(keys)),
            None => None,
        };
        LogEntry::following(log, State::of(document), parameters, now)
    }

    /// The entry, yet to be signed, that comes next in ending `log`, and
    /// whether another is to follow it.
    ///
    /// Where the last entry of `log` is committed to next keys, the entry
    /// makes `update_keys` the update keys and commits to no more keys, and
    /// another entry is to follow it. Else the entry ends the log: the DID is
    /// deactivated and there are no update keys any more; `update_keys` play
    /// no part, and no entry follows. The entry keeps the document of the
    /// last entry of `log`, and is made at `now`.
    ///
    /// Fails with `NotFound` where `log` is empty; else with `ChainBroken`
    /// where `now` is no UTC timestamp.
    pub fn deactivation_draft(log: &Vec<LogEntry>, update_keys: Vec<String>, now: &str) -> (r:
        Result<(LogEntry, bool), Error>)
        requires
            log@.len() < usize::MAX,
        ensures
            match r {
                Ok((entry, more)) => {
                    &&& log@.len() > 0
                    &&& is_timestamp(now@)
                    &&& more == (next_key_hashes(log@, log@.len() - 1).len() > 0)
                    &&& entry.comes_behind(log@, now@)
                    &&& entry.state.id@ == log@.last().state.id@
                    &&& entry.state.document@ == log@.last().state.document@
                    &&& if more {
                        entry.parameters.is_release_of(update_keys)
                    } else {
                        entry.parameters.is_end()
                    }
                },
                Err(e) => if log@.len() == 0 {
                    e is NotFound
                } else {
                    !is_timestamp(now@) && e is ChainBroken && e.detail() == now@
                },
            },
    {
        let n: usize = log.len();
        if n == 0 {
            return Err(Error::NotFound("the log is empty".to_owned()));
        }
        let more = match next_key_hashes_of(log, n - 1) {
            Some(hashes) => hashes.len() > 0,
            None => false,
        };
        let mut parameters = Parameters::none();
        if more {
            parameters.update_keys = Some(update_keys);
            parameters.next_key_hashes = Some(Vec::new());
        } else {
            parameters.deactivated = Some(true);
            parameters.update_keys = Some(Vec::new());
        }
        let state = log[n - 1].state.copy();
        match LogEntry::succeeding(log, state, parameters, now) {
            Ok(entry) => Ok((entry, more)),
            Err(e) => Err(e),
        }
    }
}

/// Adds a version to `log`: an entry for `document`, signed by `signer` and
/// made at `now`. Where `update_keys` are given, they are the update keys
/// from this entry on; where `next_keys` are given, the entry commits to
/// them. The entry gives no other parameter.
///
/// Fails as `update_draft` does, and with what `signer` fails with; and it
/// fails with the first fault of the first entry at fault where the log
/// with the new entry does not hold. What it gives is a log without fault.
pub fn update<S: SignerExt>(
    log: Vec<LogEntry>,
    document: &Document,
    update_keys: Option<Vec<String>>,
    next_keys: Option<&Vec<String>>,
    now: &str,
    signer: &S,
) -> (r: Result<Vec<LogEntry>, Error>)
    requires
        signer.ready(),
        log@.len() < usize::MAX,
    ensures
        r matches Ok(longer) ==> {
            &&& extends(longer@, log@, 1)
            &&& holds_up_to(longer@, longer@.len() - 1, None)
            &&& longer@.last().version_time@ == now@
            &&& longer@.last().state.id@ == document.id@
            &&& longer@.last().state.document@ == document.json()
            &&& longer@.last().parameters.is_update_of(update_keys, keys_of(next_keys))
            &&& longer@.last().proof@.len() == 1
            &&& longer@.last().is_proved_by(longer@.last().proof@[0], *signer, now@)
        },
        log@.len() == 0 ==> r is Err && r->Err_0 is NotFound,
        log@.len() > 0 && (!is_timestamp(now@) || text_le(now@, log@.last().version_time@)) ==> r
            is Err && r->Err_0 is ChainBroken && r->Err_0.detail() == now@,
{
    let entry = match LogEntry::update_draft(&log, document, update_keys, next_keys, now) {
        Ok(entry) => entry,
        Err(e) => {
            return Err(e);
        },
    };
    let proof = match entry.prove(signer, now) {
        Ok(proof) => proof,
        Err(e) => {
            return Err(e);
        },
    };
    let ghost before = log@;
    let ghost draft = entry;
    let mut longer = log;
    longer.push(entry.signed(proof));
    proof {
        assert(longer@.take(before.len() as int) =~= before);
        longer@.last().lemma_proof_of_draft(draft, proof, *signer, now@);
    }
    checked(longer)
}

/// Ends `log`: the DID is deactivated, and no key may update it any more.
///
/// Where the last entry of `log` is committed to next keys, an entry comes
/// first that makes `update_keys` the update keys and commits to no more
/// keys; `signer` signs it, and `last_signer` signs the entry that ends the
/// log. Else `signer` signs the entry that ends the log, and `update_keys`
/// and `last_signer` play no part. The entries keep the document of the
/// last entry of `log`, and are made at `now`.
///
/// Fails as `deactivation_draft` does, and with what a signer fails with;
/// and it fails with the first fault of the first entry at fault where the
/// log with the new entries does not hold. What it gives is a log without
/// fault.
pub fn deactivate<A: SignerExt, B: SignerExt>(
    log: Vec<LogEntry>,
    update_keys: Vec<String>,
    now: &str,
    signer: &A,
    last_signer: &B,
) -> (r: Result<Vec<LogEntry>, Error>)
    requires
        signer.ready(),
        last_signer.ready(),
        log@.len() + 1 < usize::MAX,
    ensures
        r matches Ok(longer) ==> {
            &&& log@.len() > 0
            &&& extends(
                longer@,
                log@,
                if next_key_hashes(log@, log@.len() - 1).len() > 0 {
                    2int
                } else {
                    1int
                },
            )
            &&& holds_up_to(longer@, longer@.len() - 1, None)
            &&& deactivated(longer@, longer@.len() - 1)
            &&& crate::webvh::params::update_keys(longer@, longer@.len() - 1).len() == 0
            &&& longer@.last().parameters.is_end()
            &&& longer@.len() == log@.len() + 2 ==> longer@[log@.len() as int].parameters.is_release_of(
                update_keys,
            )
            &&& forall|i: int|
                log@.len() <= i < longer@.len() ==> {
                    &&& (#[trigger] longer@[i]).version_time@ == now@
                    &&& longer@[i].state.id@ == log@.last().state.id@
                    &&& longer@[i].state.document@ == log@.last().state.document@
                }
        },
        log@.len() == 0 ==> r is Err && r->Err_0 is NotFound,
        log@.len() > 0 && !is_timestamp(now@) ==> r is Err && r->Err_0 is ChainBroken
            && r->Err_0.detail() == now@,
{
    let ghost before = log@;
    let mut longer = log;
    let (first, more) = match LogEntry::deactivation_draft(&longer, update_keys, now) {
        Ok(draft) => draft,
        Err(e) => {
            return Err(e);
        },
    };
    let proof = match first.prove(signer, now) {
        Ok(proof) => proof,
        Err(e) => {
            return Err(e);
        },
    };
    longer.push(first.signed(proof));
    if more {
        let ghost middle = longer@;
        proof {
            let at = middle.len() - 1;
            assert(middle[at].parameters.next_key_hashes is Some);
            assert(strings(middle[at].parameters.next_key_hashes->0@) =~= Seq::<Seq<char>>::empty());
        }
        let (last, _) = match LogEntry::deactivation_draft(&longer, Vec::new(), now) {
            Ok(draft) => draft,
            Err(e) => {
                return Err(e);
            },
        };
        let proof = match last.prove(last_signer, now) {
            Ok(proof) => proof,
            Err(e) => {
                return Err(e);
            },
        };
        longer.push(last.signed(proof));
    }
    proof {
        assert(longer@.take(before.len() as int) =~= before);
        let last = longer@.len() - 1;
        assert(longer@[last].parameters.deactivated == Some(true));
        assert(longer@[last].parameters.update_keys is Some);
        assert(strings(longer@[last].parameters.update_keys->0@) =~= Seq::<Seq<char>>::empty());
    }
    checked(longer)
}

} // verus!
