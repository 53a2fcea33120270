//! Replaying a log: every entry is held against the entry before it, and
//! the last one gives the DID document.

use vstd::prelude::*;

use crate::error::Error;
use crate::hash::{hash_text, text_hash};
use crate::json::{decimal, push_decimal};
use crate::resolve::DocumentMetadata;
use crate::text::{append_chars, chars_of, replace_all, str_eq, string_of};
use crate::webvh::integrity::reference_key;
use crate::webvh::time::{is_timestamp, precedes, text_le, timestamp};
use crate::webvh::log::{
    replace_text, LogEntry, State, Witness, WitnessEntry, WitnessWeight, METHOD,
    SCID_PLACEHOLDER,
};
use crate::webvh::params::{
    contains_string, deactivated, deactivated_of, next_key_hashes, next_key_hashes_of, portable,
    portable_of, strings, update_keys, update_keys_of, witness, witness_of,
};

verus! {

/// The SCID of a log: the one that its first entry gives.
pub open spec fn scid(log: Seq<LogEntry>) -> Seq<char> {
    match log[0].parameters.scid {
        Some(s) => s@,
        None => Seq::<char>::empty(),
    }
}

/// What entry `i` follows in the chain of hashes: the version of the entry
/// before, and for the first entry the SCID.
pub open spec fn parent(log: Seq<LogEntry>, i: int) -> Seq<char> {
    if i == 0 {
        scid(log)
    } else {
        log[i - 1].version_id@
    }
}

/// The hash of entry `i`: that of the entry without its proofs, with what
/// it follows for its version.
pub open spec fn entry_hash(log: Seq<LogEntry>, i: int) -> Seq<char> {
    text_hash(log[i].unsigned_json(parent(log, i)))
}

/// The version of the `n`th entry with the hash `hash`: the number, a
/// hyphen, and the hash.
pub open spec fn version_id(n: nat, hash: Seq<char>) -> Seq<char> {
    decimal(n) + seq!['-'] + hash
}

/// Whether the SCID holds at entry `i`. The first entry gives a SCID that
/// is the hash of that entry with an empty list of proofs and with the
/// placeholder wherever the SCID stands; a later entry gives no other SCID.
pub open spec fn scid_holds(log: Seq<LogEntry>, i: int) -> bool {
    if i == 0 {
        &&& log[0].parameters.scid matches Some(s)
        &&& s@.len() > 0
        &&& text_hash(replace_all(log[0].unproved_json(s@), s@, SCID_PLACEHOLDER@)) == s@
    } else {
        log[i].parameters.scid matches Some(s) ==> s@ == scid(log)
    }
}

/// Whether the version of entry `i` holds its number and its hash.
pub open spec fn version_holds(log: Seq<LogEntry>, i: int) -> bool {
    log[i].version_id@ == version_id((i + 1) as nat, entry_hash(log, i))
}

/// The keys that may sign entry `i`: the update keys in force at the entry
/// before, and for the first entry its own.
pub open spec fn signers(log: Seq<LogEntry>, i: int) -> Seq<Seq<char>> {
    if i == 0 {
        update_keys(log, 0)
    } else {
        update_keys(log, i - 1)
    }
}

/// Whether the proofs of entry `i` hold: there is one, and each holds of
/// the entry and names a signer that may sign it.
pub open spec fn proofs_hold(log: Seq<LogEntry>, i: int) -> bool {
    &&& log[i].proof@.len() > 0
    &&& forall|k: int|
        0 <= k < log[i].proof@.len() ==> {
            &&& (#[trigger] log[i].proof@[k]).verifies(log[i])
            &&& log[i].proof@[k].signer() matches Some(key)
            &&& signers(log, i).contains(key)
        }
}

/// Whether entry `i` keeps to the key hashes that the entry before was
/// committed to: where there are any, the entry gives as many update keys,
/// and the hash of each is among them.
pub open spec fn rotation_holds(log: Seq<LogEntry>, i: int) -> bool {
    i > 0 && next_key_hashes(log, i - 1).len() > 0 ==> {
        &&& log[i].parameters.update_keys matches Some(keys)
        &&& keys@.len() == next_key_hashes(log, i - 1).len()
        &&& forall|k: int|
            0 <= k < keys@.len() ==> next_key_hashes(log, i - 1).contains(
                text_hash(#[trigger] keys@[k]@),
            )
    }
}

/// Whether the time of entry `i` holds: it is a UTC timestamp, not before
/// that of the entry before.
pub open spec fn time_holds(log: Seq<LogEntry>, i: int) -> bool {
    &&& is_timestamp(log[i].version_time@)
    &&& i > 0 ==> text_le(log[i - 1].version_time@, log[i].version_time@)
}

/// Whether the DID of entry `i` holds its place: it is that of the entry
/// before, unless the DID may move.
pub open spec fn place_holds(log: Seq<LogEntry>, i: int) -> bool {
    i > 0 && !portable(log, i - 1) ==> log[i].state.id@ == log[i - 1].state.id@
}

/// Whether the method of entry `i` holds: the first entry names the version
/// of the method, and no entry names another.
pub open spec fn method_holds(log: Seq<LogEntry>, i: int) -> bool {
    &&& i == 0 ==> log[0].parameters.method is Some
    &&& log[i].parameters.method matches Some(m) ==> m@ == METHOD@
}

/// Whether the witness `who` approves of `entry`: among `proofs` there is,
/// for the version of the entry, a proof that names the witness and holds
/// of the entry.
pub open spec fn approves(entry: LogEntry, who: WitnessWeight, proofs: Seq<WitnessEntry>) -> bool {
    exists|a: int, b: int|
        0 <= a < proofs.len() && 0 <= b < proofs[a].proof@.len() && approval_by(
            entry,
            who,
            proofs,
            a,
            b,
        )
}

/// Whether the proof at position `b` of the witness entry at position `a`
/// is an approval of `entry` by the witness `who`.
pub open spec fn approval_by(
    entry: LogEntry,
    who: WitnessWeight,
    proofs: Seq<WitnessEntry>,
    a: int,
    b: int,
) -> bool {
    &&& proofs[a].version_id@ == entry.version_id@
    &&& proofs[a].proof@[b].verification_method@ == who.id@
    &&& proofs[a].proof@[b].verifies(entry)
}

/// The weight of the approvals of `entry` by the first `n` of `witnesses`.
pub open spec fn approval(
    entry: LogEntry,
    witnesses: Seq<WitnessWeight>,
    proofs: Seq<WitnessEntry>,
    n: int,
) -> nat
    decreases n,
{
    if n <= 0 {
        0
    } else {
        approval(entry, witnesses, proofs, n - 1) + (if approves(
            entry,
            witnesses[n - 1],
            proofs,
        ) {
            witnesses[n - 1].weight as nat
        } else {
            0
        })
    }
}

/// Whether entry `i` is witnessed: where witnesses are in force, the weight
/// of their approvals reaches the threshold.
pub open spec fn witnessed(log: Seq<LogEntry>, i: int, proofs: Seq<WitnessEntry>) -> bool {
    match witness(log, i) {
        Some(w) => approval(log[i], w.witnesses@, proofs, w.witnesses@.len() as int)
            >= w.threshold,
        None => true,
    }
}

/// What an entry can be at fault in.
#[derive(Debug, Clone, Copy, PartialEq, Eq, Structural)]
pub enum Fault {
    /// The SCID does not hold.
    Scid,
    /// The version does not hold the entry's number and hash.
    Version,
    /// A proof does not hold, or its signer may not sign.
    Proof,
    /// The update keys do not keep to the committed key hashes.
    Rotation,
    /// The time is no timestamp, or before that of the entry before.
    Time,
    /// The DID has moved though it may not.
    Place,
    /// The version of the method is not the supported one.
    Method,
    /// The weight of the witnesses' approvals is below the threshold.
    Witness,
}

/// The proofs of the witnesses, as contracts see them.
pub open spec fn witness_proofs_of(proofs: Option<&Vec<WitnessEntry>>) -> Option<
    Seq<WitnessEntry>,
> {
    match proofs {
        Some(p) => Some(p@),
        None => None,
    }
}

/// The first fault of entry `i`, in the order in which an entry is held
/// against the entry before; `None` where it has none. Witnesses are asked
/// for only where `proofs` are given.
#[verifier::opaque]
pub open spec fn fault(log: Seq<LogEntry>, i: int, proofs: Option<Seq<WitnessEntry>>) -> Option<
    Fault,
> {
    if !scid_holds(log, i) {
        Some(Fault::Scid)
    } else if !version_holds(log, i) {
        Some(Fault::Version)
    } else if !proofs_hold(log, i) {
        Some(Fault::Proof)
    } else if !rotation_holds(log, i) {
        Some(Fault::Rotation)
    } else if !time_holds(log, i) {
        Some(Fault::Time)
    } else if !place_holds(log, i) {
        Some(Fault::Place)
    } else if !method_holds(log, i) {
        Some(Fault::Method)
    } else if proofs is Some && !witnessed(log, i, proofs->0) {
        Some(Fault::Witness)
    } else {
        None
    }
}

/// Whether the entries of `log` up to, and with, entry `last` are without
/// fault.
pub open spec fn holds_up_to(log: Seq<LogEntry>, last: int, proofs: Option<Seq<WitnessEntry>>) -> bool {
    forall|i: int| 0 <= i <= last ==> (#[trigger] fault(log, i, proofs)) is None
}

/// The version of the `n`th entry with the hash `hash`.
pub fn version_id_of(n: u64, hash: &str) -> (id: String)
    ensures
        id@ == version_id(n as nat, hash@),
{
    let mut id: Vec<char> = Vec::new();
    push_decimal(&mut id, n);
    id.push('-');
    let tail = chars_of(hash);
    append_chars(&mut id, &tail);
    assert(id@ =~= version_id(n as nat, hash@));
    string_of(&id)
}

/// The text that entry `i` follows in the chain of hashes.
fn parent_of(log: &Vec<LogEntry>, i: usize) -> (p: String)
    requires
        i < log@.len(),
    ensures
        p@ == parent(log@, i as int),
{
    if i == 0 {
        match &log[0].parameters.scid {
            Some(s) => s.clone(),
            None => String::new(),
        }
    } else {
        log[i - 1].version_id.clone()
    }
}

/// Whether the SCID holds at entry `i`.
pub fn check_scid(log: &Vec<LogEntry>, i: usize) -> (ok: bool)
    requires
        i < log@.len(),
    ensures
        ok == scid_holds(log@, i as int),
{
    if i == 0 {
        match &log[0].parameters.scid {
            Some(s) => {
                if s.as_str().unicode_len() == 0 {
                    return false;
                }
                let text = log[0].unproved_text(s.as_str());
                let preliminary = replace_text(text.as_str(), s.as_str(), SCID_PLACEHOLDER);
                assert(preliminary@ == replace_all(
                    log@[0].unproved_json(s@),
                    s@,
                    SCID_PLACEHOLDER@,
                ));
                let hash = hash_text(preliminary.as_str());
                let ok = str_eq(hash.as_str(), s.as_str());
                assert(ok == scid_holds(log@, 0));
                ok
            },
            None => false,
        }
    } else {
        match &log[i].parameters.scid {
            Some(s) => {
                let first = parent_of(log, 0);
                str_eq(s.as_str(), first.as_str())
            },
            None => true,
        }
    }
}

/// The version that entry `i` should have.
pub fn expected_version_id(log: &Vec<LogEntry>, i: usize) -> (id: String)
    requires
        i < log@.len(),
    ensures
        id@ == version_id((i + 1) as nat, entry_hash(log@, i as int)),
{
    let p = parent_of(log, i);
    let text = log[i].unsigned_text(p.as_str());
    let hash = hash_text(text.as_str());
    let n: usize = log.len();
    version_id_of(i as u64 + 1, hash.as_str())
}

/// Whether the version of entry `i` holds its number and its hash.
pub fn check_version(log: &Vec<LogEntry>, i: usize) -> (ok: bool)
    requires
        i < log@.len(),
    ensures
        ok == version_holds(log@, i as int),
{
    let expected = expected_version_id(log, i);
    str_eq(log[i].version_id.as_str(), expected.as_str())
}

/// Whether the proofs of entry `i` hold.
pub fn check_proofs(log: &Vec<LogEntry>, i: usize) -> (ok: bool)
    requires
        i < log@.len(),
    ensures
        ok == proofs_hold(log@, i as int),
{
    let entry = &log[i];
    let n: usize = entry.proof.len();
    if n == 0 {
        return false;
    }
    let keys = if i == 0 {
        update_keys_of(log, 0)
    } else {
        update_keys_of(log, i - 1)
    };
    let mut k: usize = 0;
    while k < n
        invariant
            i < log@.len(),
            entry == &log@[i as int],
            n == entry.proof@.len(),
            k <= n,
            match keys {
                Some(v) => strings(v@) == signers(log@, i as int),
                None => signers(log@, i as int).len() == 0,
            },
            forall|j: int|
                0 <= j < k ==> {
                    &&& (#[trigger] log@[i as int].proof@[j]).verifies(log@[i as int])
                    &&& log@[i as int].proof@[j].signer() matches Some(key)
                    &&& signers(log@, i as int).contains(key)
                },
        decreases n - k,
    {
        let proof = &entry.proof[k];
        if !proof.verify(entry) {
            return false;
        }
        let signer = match reference_key(proof.verification_method.as_str()) {
            Some(key) => key,
            None => {
                return false;
            },
        };
        let allowed = match keys {
            Some(v) => contains_string(v, signer.as_str()),
            None => false,
        };
        if !allowed {
            return false;
        }
        k += 1;
    }
    true
}

/// Whether entry `i` keeps to the key hashes that the entry before was
/// committed to.
pub fn check_rotation(log: &Vec<LogEntry>, i: usize) -> (ok: bool)
    requires
        i < log@.len(),
    ensures
        ok == rotation_holds(log@, i as int),
{
    if i == 0 {
        return true;
    }
    let hashes = match next_key_hashes_of(log, i - 1) {
        Some(h) => h,
        None => {
            return true;
        },
    };
    if hashes.len() == 0 {
        return true;
    }
    let keys = match &log[i].parameters.update_keys {
        Some(keys) => keys,
        None => {
            return false;
        },
    };
    if keys.len() != hashes.len() {
        return false;
    }
    let n: usize = keys.len();
    let mut k: usize = 0;
    while k < n
        invariant
            0 < i < log@.len(),
            log@[i as int].parameters.update_keys == Some(*keys),
            n == keys@.len(),
            n == hashes@.len(),
            n > 0,
            k <= n,
            strings(hashes@) == next_key_hashes(log@, i - 1),
            forall|j: int|
                0 <= j < k ==> next_key_hashes(log@, i - 1).contains(
                    text_hash(#[trigger] keys@[j]@),
                ),
        decreases n - k,
    {
        let hash = hash_text(keys[k].as_str());
        if !contains_string(hashes, hash.as_str()) {
            assert(!next_key_hashes(log@, i - 1).contains(text_hash(keys@[k as int]@)));
            return false;
        }
        k += 1;
    }
    true
}

/// Whether the time of entry `i` holds.
pub fn check_time(log: &Vec<LogEntry>, i: usize) -> (ok: bool)
    requires
        i < log@.len(),
    ensures
        ok == time_holds(log@, i as int),
{
    if !timestamp(log[i].version_time.as_str()) {
        return false;
    }
    if i == 0 {
        return true;
    }
    precedes(log[i - 1].version_time.as_str(), log[i].version_time.as_str())
}

/// Whether the DID of entry `i` holds its place.
pub fn check_place(log: &Vec<LogEntry>, i: usize) -> (ok: bool)
    requires
        i < log@.len(),
    ensures
        ok == place_holds(log@, i as int),
{
    if i == 0 || portable_of(log, i - 1) {
        return true;
    }
    str_eq(log[i].state.id.as_str(), log[i - 1].state.id.as_str())
}

/// Whether the method of entry `i` holds.
pub fn check_method(log: &Vec<LogEntry>, i: usize) -> (ok: bool)
    requires
        i < log@.len(),
    ensures
        ok == method_holds(log@, i as int),
{
    match &log[i].parameters.method {
        Some(m) => str_eq(m.as_str(), METHOD),
        None => i != 0,
    }
}

/// Whether the witness `who` approves of `entry`.
pub fn check_approval(entry: &LogEntry, who: &WitnessWeight, proofs: &Vec<WitnessEntry>) -> (ok:
    bool)
    ensures
        ok == approves(*entry, *who, proofs@),
{
    let n: usize = proofs.len();
    let mut a: usize = 0;
    while a < n
        invariant
            n == proofs@.len(),
            a <= n,
            forall|x: int, y: int|
                0 <= x < a && 0 <= y < proofs@[x].proof@.len() ==> !approval_by(
                    *entry,
                    *who,
                    proofs@,
                    x,
                    y,
                ),
        decreases n - a,
    {
        let group = &proofs[a];
        if str_eq(group.version_id.as_str(), entry.version_id.as_str()) {
            let m: usize = group.proof.len();
            let mut b: usize = 0;
            while b < m
                invariant
                    a < n,
                    n == proofs@.len(),
                    group == &proofs@[a as int],
                    m == group.proof@.len(),
                    b <= m,
                    group.version_id@ == entry.version_id@,
                    forall|y: int|
                        0 <= y < b ==> !approval_by(*entry, *who, proofs@, a as int, y),
                decreases m - b,
            {
                let proof = &group.proof[b];
                if str_eq(proof.verification_method.as_str(), who.id.as_str()) && proof.verify(
                    entry,
                ) {
                    assert(approval_by(*entry, *who, proofs@, a as int, b as int));
                    return true;
                }
                b += 1;
            }
        }
        a += 1;
    }
    false
}

/// The weights of `witnesses` are no more than their number times the
/// greatest weight there is.
proof fn lemma_approval_bound(
    entry: LogEntry,
    witnesses: Seq<WitnessWeight>,
    proofs: Seq<WitnessEntry>,
    n: int,
)
    requires
        0 <= n <= witnesses.len(),
    ensures
        approval(entry, witnesses, proofs, n) <= n * u64::MAX,
    decreases n,
{
    if n > 0 {
        lemma_approval_bound(entry, witnesses, proofs, n - 1);
        assert((n - 1) * u64::MAX + u64::MAX == n * u64::MAX) by (nonlinear_arith);
    }
}

/// Whether the weight of the approvals of `entry` by `witnesses` reaches
/// `threshold`.
pub fn check_threshold(entry: &LogEntry, w: &Witness, proofs: &Vec<WitnessEntry>) -> (ok: bool)
    ensures
        ok == (approval(*entry, w.witnesses@, proofs@, w.witnesses@.len() as int) >= w.threshold),
{
    let n: usize = w.witnesses.len();
    let mut total: u128 = 0;
    let mut k: usize = 0;
    while k < n
        invariant
            n == w.witnesses@.len(),
            k <= n,
            total == approval(*entry, w.witnesses@, proofs@, k as int),
            total <= k * u64::MAX,
        decreases n - k,
    {
        proof {
            lemma_approval_bound(*entry, w.witnesses@, proofs@, k + 1);
            assert(n * u64::MAX <= usize::MAX * u64::MAX) by (nonlinear_arith)
                requires
                    n <= usize::MAX,
            ;
            assert((k + 1) * u64::MAX <= n * u64::MAX) by (nonlinear_arith)
                requires
                    k + 1 <= n,
            ;
        }
        if check_approval(entry, &w.witnesses[k], proofs) {
            total = total + w.witnesses[k].weight as u128;
        }
        k += 1;
    }
    total >= w.threshold as u128
}

/// Whether entry `i` is witnessed.
pub fn check_witness(log: &Vec<LogEntry>, i: usize, proofs: &Vec<WitnessEntry>) -> (ok: bool)
    requires
        i < log@.len(),
    ensures
        ok == witnessed(log@, i as int, proofs@),
{
    match witness_of(log, i) {
        Some(w) => check_threshold(&log[i], w, proofs),
        None => true,
    }
}

/// The first fault of entry `i`.
pub fn check_entry(log: &Vec<LogEntry>, i: usize, proofs: Option<&Vec<WitnessEntry>>) -> (r:
    Option<Fault>)
    requires
        i < log@.len(),
    ensures
        r == fault(log@, i as int, witness_proofs_of(proofs)),
{
    reveal(fault);
    if !check_scid(log, i) {
        Some(Fault::Scid)
    } else if !check_version(log, i) {
        Some(Fault::Version)
    } else if !check_proofs(log, i) {
        Some(Fault::Proof)
    } else if !check_rotation(log, i) {
        Some(Fault::Rotation)
    } else if !check_time(log, i) {
        Some(Fault::Time)
    } else if !check_place(log, i) {
        Some(Fault::Place)
    } else if !check_method(log, i) {
        Some(Fault::Method)
    } else {
        match proofs {
            Some(p) => if check_witness(log, i, p) {
                None
            } else {
                Some(Fault::Witness)
            },
            None => None,
        }
    }
}

/// Where a replay stops short of the end of the log.
#[derive(Debug, Clone, PartialEq, Eq)]
pub struct ReplayOptions {
    /// The version to stop at.
    pub version_id: Option<String>,
    /// The time to stop at: the replay gives the last version made at or
    /// before it. Plays no part where a version to stop at is given.
    pub version_time: Option<String>,
}

/// What a replay gives: a version of the DID document, and what is known of
/// its place in the history.
#[derive(Debug, Clone, PartialEq, Eq)]
pub struct ResolvedLog {
    /// The DID document.
    pub state: State,
    /// The version, its time, and whether the DID is deactivated.
    pub metadata: DocumentMetadata,
}

/// The position at which a replay of `log` from position `i` on stops under
/// `options`: at the first entry with the version asked for; or else at the
/// last entry made at or before the time asked for; or else at the last
/// entry. `None` where there is no such entry.
pub open spec fn stop_from(log: Seq<LogEntry>, options: Option<ReplayOptions>, i: int) -> Option<
    int,
>
    decreases log.len() - i,
{
    if i < 0 || i >= log.len() {
        None
    } else if options is Some && options->0.version_id is Some {
        if log[i].version_id@ == options->0.version_id->0@ {
            Some(i)
        } else {
            stop_from(log, options, i + 1)
        }
    } else if options is Some && options->0.version_time is Some {
        if !text_le(log[i].version_time@, options->0.version_time->0@) {
            None
        } else if i + 1 == log.len() || !text_le(
            log[i + 1].version_time@,
            options->0.version_time->0@,
        ) {
            Some(i)
        } else {
            stop_from(log, options, i + 1)
        }
    } else {
        Some(log.len() - 1)
    }
}

/// The options of a replay, as contracts see them.
pub open spec fn options_of(options: Option<&ReplayOptions>) -> Option<ReplayOptions> {
    match options {
        Some(o) => Some(*o),
        None => None,
    }
}

/// The position at which a replay of `log` stops under `options`.
pub fn stop_of(log: &Vec<LogEntry>, options: Option<&ReplayOptions>) -> (r: Option<usize>)
    ensures
        match r {
            Some(c) => c < log@.len() && stop_from(log@, options_of(options), 0) == Some(c as int),
            None => stop_from(log@, options_of(options), 0) is None,
        },
{
    let n: usize = log.len();
    if n == 0 {
        return None;
    }
    let o = match options {
        Some(o) => o,
        None => {
            return Some(n - 1);
        },
    };
    if let Some(v) = &o.version_id {
        let mut i: usize = 0;
        while i < n
            invariant
                n == log@.len(),
                i <= n,
                options == Some(o),
                o.version_id == Some(*v),
                stop_from(log@, options_of(options), 0) == stop_from(
                    log@,
                    options_of(options),
                    i as int,
                ),
            decreases n - i,
        {
            if str_eq(log[i].version_id.as_str(), v.as_str()) {
                return Some(i);
            }
            i += 1;
        }
        return None;
    }
    if let Some(t) = &o.version_time {
        let mut i: usize = 0;
        while i < n
            invariant
                n == log@.len(),
                i <= n,
                options == Some(o),
                o.version_id is None,
                o.version_time == Some(*t),
                stop_from(log@, options_of(options), 0) == stop_from(
                    log@,
                    options_of(options),
                    i as int,
                ),
            decreases n - i,
        {
            if !precedes(log[i].version_time.as_str(), t.as_str()) {
                return None;
            }
            if i + 1 == n || !precedes(log[i + 1].version_time.as_str(), t.as_str()) {
                return Some(i);
            }
            i += 1;
        }
        return None;
    }
    Some(n - 1)
}

impl Fault {
    /// Whether `e` is the error that reports this fault of the entry with
    /// the version `version_id`: the error of the fault's kind, with the
    /// version for its message.
    pub open spec fn is_reported_by(self, e: Error, version_id: Seq<char>) -> bool {
        &&& e.detail() == version_id
        &&& match self {
            Fault::Scid => e is ScidMismatch,
            Fault::Version => e is ChainBroken,
            Fault::Proof => e is ProofVerification,
            Fault::Rotation => e is PreRotationMismatch,
            Fault::Time => e is ChainBroken,
            Fault::Place => e is PortabilityViolation,
            Fault::Method => e is MethodNotSupported,
            Fault::Witness => e is WitnessThreshold,
        }
    }

    /// The error that reports this fault of the entry with the version
    /// `version_id`.
    pub fn report(&self, version_id: &str) -> (e: Error)
        ensures
            self.is_reported_by(e, version_id@),
    {
        let m = version_id.to_owned();
        match self {
            Fault::Scid => Error::ScidMismatch(m),
            Fault::Version => Error::ChainBroken(m),
            Fault::Proof => Error::ProofVerification(m),
            Fault::Rotation => Error::PreRotationMismatch(m),
            Fault::Time => Error::ChainBroken(m),
            Fault::Place => Error::PortabilityViolation(m),
            Fault::Method => Error::MethodNotSupported(m),
            Fault::Witness => Error::WitnessThreshold(m),
        }
    }
}

/// Whether `r` is what a replay of `log` gives that stops at entry `at`:
/// the document of that entry, with its version, its time, and whether the
/// DID is deactivated there.
pub open spec fn is_replay_of(r: ResolvedLog, log: Seq<LogEntry>, at: int) -> bool {
    &&& r.state.id@ == log[at].state.id@
    &&& r.state.document@ == log[at].state.document@
    &&& r.metadata.version_id@ == log[at].version_id@
    &&& r.metadata.version_time@ == log[at].version_time@
    &&& r.metadata.deactivated == deactivated(log, at)
    &&& r.metadata.next_update is None
}

/// Whether the replay of `log` fails with `e`: its first entry with a fault
/// is at or before the entry `stop`, and `e` reports that fault.
pub open spec fn fails_with(
    log: Seq<LogEntry>,
    proofs: Option<Seq<WitnessEntry>>,
    stop: int,
    e: Error,
) -> bool {
    exists|i: int|
        0 <= i <= stop && holds_up_to(log, i - 1, proofs) && (#[trigger] fault(log, i, proofs))
            is Some && fault(log, i, proofs)->0.is_reported_by(e, log[i].version_id@)
}

/// Whether `r` is what the replay of `log` gives under `options`, with the
/// witnesses asked for where `proofs` are given. Where `options` ask for no
/// entry of the log, it fails with `NotFound`; else it stops at the entry
/// asked for, gives the document of that entry where no entry up to it has
/// a fault, and fails with the first fault of the first entry at fault
/// where one has.
pub open spec fn is_resolution(
    log: Seq<LogEntry>,
    proofs: Option<Seq<WitnessEntry>>,
    options: Option<ReplayOptions>,
    r: Result<ResolvedLog, Error>,
) -> bool {
    match r {
        Ok(resolved) => stop_from(log, options, 0) is Some && holds_up_to(
            log,
            stop_from(log, options, 0)->0,
            proofs,
        ) && is_replay_of(resolved, log, stop_from(log, options, 0)->0),
        Err(e) => if stop_from(log, options, 0) is None {
            e is NotFound
        } else {
            fails_with(log, proofs, stop_from(log, options, 0)->0, e)
        },
    }
}

/// Replays `log` and gives the DID document of its last entry, or of the
/// entry that `options` ask for.
///
/// Every entry up to that one is held against the entry before it. Where
/// `witness_proofs` are given, the witnesses in force must approve of every
/// such entry; where none are given, witnesses are not asked for. The
/// replay fails with the first fault of the first entry at fault, and the
/// error carries the version of that entry. It fails with `NotFound` where
/// the log is empty or holds no entry that `options` ask for.
pub fn resolve_log(
    log: &Vec<LogEntry>,
    witness_proofs: Option<&Vec<WitnessEntry>>,
    options: Option<&ReplayOptions>,
) -> (r: Result<ResolvedLog, Error>)
    ensures
        is_resolution(log@, witness_proofs_of(witness_proofs), options_of(options), r),
{
    let stop = match stop_of(log, options) {
        Some(stop) => stop,
        None => {
            return Err(Error::NotFound("no such version".to_owned()));
        },
    };
    let ghost proofs = witness_proofs_of(witness_proofs);
    let n: usize = log.len();
    let mut i: usize = 0;
    while i <= stop
        invariant
            stop < n,
            n == log@.len(),
            i <= stop + 1,
            proofs == witness_proofs_of(witness_proofs),
            stop_from(log@, options_of(options), 0) == Some(stop as int),
            holds_up_to(log@, i - 1, proofs),
        decreases stop + 1 - i,
    {
        match check_entry(log, i, witness_proofs) {
            Some(f) => {
                let e = f.report(log[i].version_id.as_str());
                assert(fault(log@, i as int, proofs) == Some(f));
                assert(fails_with(log@, proofs, stop as int, e));
                return Err(e);
            },
            None => {},
        }
        i += 1;
    }
    let entry = &log[stop];
    Ok(
        ResolvedLog {
            state: entry.state.copy(),
            metadata: DocumentMetadata {
                version_id: entry.version_id.clone(),
                version_time: entry.version_time.clone(),
                deactivated: deactivated_of(log, stop),
                next_update: None,
            },
        },
    )
}

} // verus!
