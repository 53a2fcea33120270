//! What holds of every log that a replay finds without fault.

use vstd::prelude::*;

use crate::error::Error;
use crate::hash::text_hash;
use crate::webvh::builder::total_weight;
use crate::webvh::log::{LogEntry, WitnessEntry, WitnessWeight};
use crate::webvh::params::{next_key_hashes, update_keys, witness};
use crate::webvh::replay::{
    approval, approves, fault, holds_up_to, is_replay_of, is_resolution, parent, rotation_holds, stop_from,
    version_id, witnessed, Fault, ReplayOptions, ResolvedLog,
};
use crate::webvh::time::text_le;

verus! {

/// A log without fault resolves to the document of its last entry: a
/// replay to the end of it does not fail, and gives that document with its
/// version and time, and says whether the DID is deactivated there.
pub proof fn lemma_faultless_log_resolves(
    log: Seq<LogEntry>,
    proofs: Option<Seq<WitnessEntry>>,
    r: Result<ResolvedLog, Error>,
)
    requires
        log.len() > 0,
        holds_up_to(log, log.len() - 1, proofs),
        is_resolution(log, proofs, None, r),
    ensures
        r is Ok,
        is_replay_of(r->Ok_0, log, log.len() - 1),
{
    assert(stop_from(log, None, 0) == Some(log.len() - 1));
}

/// A log of one entry without fault resolves to the document of that entry.
pub proof fn lemma_single_entry_resolves(
    log: Seq<LogEntry>,
    proofs: Option<Seq<WitnessEntry>>,
    r: Result<ResolvedLog, Error>,
)
    requires
        log.len() == 1,
        fault(log, 0, proofs) is None,
        is_resolution(log, proofs, None, r),
    ensures
        r is Ok,
        r->Ok_0.state.document@ == log[0].state.document@,
        r->Ok_0.metadata.version_id@ == log[0].version_id@,
{
    lemma_faultless_log_resolves(log, proofs, r);
}

/// In a log that resolves, the version of every entry up to the one that
/// the replay stops at holds the hash of that entry, taken anew from its
/// canonical text.
pub proof fn lemma_versions_hold_hashes(
    log: Seq<LogEntry>,
    proofs: Option<Seq<WitnessEntry>>,
    last: int,
    i: int,
)
    requires
        holds_up_to(log, last, proofs),
        0 <= i <= last,
    ensures
        log[i].version_id@ == version_id(
            (i + 1) as nat,
            text_hash(log[i].unsigned_json(parent(log, i))),
        ),
{
    reveal(fault);
    assert(fault(log, i, proofs) is None);
}

/// In a log that resolves, every proof of an entry behind the first names
/// a signer that is among the update keys in force at the entry before.
pub proof fn lemma_signers_are_update_keys(
    log: Seq<LogEntry>,
    proofs: Option<Seq<WitnessEntry>>,
    last: int,
    i: int,
    k: int,
)
    requires
        holds_up_to(log, last, proofs),
        0 < i <= last,
        0 <= k < log[i].proof@.len(),
    ensures
        log[i].proof@[k].verifies(log[i]),
        log[i].proof@[k].signer() is Some,
        update_keys(log, i - 1).contains(log[i].proof@[k].signer()->0),
{
    reveal(fault);
    assert(fault(log, i, proofs) is None);
}

/// In a log that resolves with witnesses asked for, the approvals of every
/// entry under witnesses reach the threshold.
pub proof fn lemma_entries_are_witnessed(
    log: Seq<LogEntry>,
    proofs: Seq<WitnessEntry>,
    last: int,
    i: int,
)
    requires
        holds_up_to(log, last, Some(proofs)),
        0 <= i <= last,
    ensures
        witnessed(log, i, proofs),
{
    reveal(fault);
    assert(fault(log, i, Some(proofs)) is None);
}

/// Where witnesses are in force and no proofs of witnesses are given at
/// all, an entry is not witnessed unless the threshold is zero.
pub proof fn lemma_no_proofs_no_approval(
    entry: LogEntry,
    witnesses: Seq<WitnessWeight>,
    n: int,
)
    requires
        0 <= n <= witnesses.len(),
    ensures
        approval(entry, witnesses, Seq::<WitnessEntry>::empty(), n) == 0,
    decreases n,
{
    if n > 0 {
        lemma_no_proofs_no_approval(entry, witnesses, n - 1);
    }
}

/// The hashes of `keys`, each that of the key's text.
pub open spec fn key_hashes(keys: Seq<String>) -> Seq<Seq<char>> {
    Seq::new(keys.len(), |k: int| text_hash(keys[k]@))
}

/// Where `a` holds nothing twice, is as long as `b`, and holds only what
/// `b` holds, the two hold the same, each thing as often.
proof fn lemma_same_multiset<A>(a: Seq<A>, b: Seq<A>)
    requires
        a.len() == b.len(),
        a.no_duplicates(),
        forall|k: int| 0 <= k < a.len() ==> b.contains(#[trigger] a[k]),
    ensures
        a.to_multiset() =~= b.to_multiset(),
{
    broadcast use vstd::seq_lib::seq_to_set_is_finite;
    broadcast use vstd::seq_lib::to_multiset_contains;

    a.unique_seq_to_set();
    b.lemma_cardinality_of_set();
    assert(a.to_set().subset_of(b.to_set())) by {
        assert forall|x: A| a.to_set().contains(x) implies b.to_set().contains(x) by {
            let k = choose|k: int| 0 <= k < a.len() && a[k] == x;
            assert(b.contains(a[k]));
        }
    }
    vstd::set_lib::lemma_len_subset(a.to_set(), b.to_set());
    vstd::set_lib::lemma_subset_equality(a.to_set(), b.to_set());
    b.lemma_no_dup_set_cardinality();
    a.lemma_multiset_has_no_duplicates();
    b.lemma_multiset_has_no_duplicates();
    assert forall|x: A| a.to_multiset().count(x) == b.to_multiset().count(x) by {
        assert(a.to_set().contains(x) == b.to_set().contains(x));
        assert(a.contains(x) == b.contains(x));
    }
}

/// In a log that resolves, where an entry was committed to next keys and
/// the entry behind it gives update keys with hashes that differ from one
/// another, the hashes of those update keys are the committed hashes, each
/// as often.
pub proof fn lemma_update_keys_match_commitments(
    log: Seq<LogEntry>,
    proofs: Option<Seq<WitnessEntry>>,
    last: int,
    i: int,
)
    requires
        holds_up_to(log, last, proofs),
        0 < i <= last,
        next_key_hashes(log, i - 1).len() > 0,
        log[i].parameters.update_keys is Some ==> key_hashes(
            log[i].parameters.update_keys->0@,
        ).no_duplicates(),
    ensures
        log[i].parameters.update_keys is Some,
        key_hashes(log[i].parameters.update_keys->0@).to_multiset() == next_key_hashes(
            log,
            i - 1,
        ).to_multiset(),
{
    reveal(fault);
    assert(fault(log, i, proofs) is None);
    assert(rotation_holds(log, i));
    let keys = log[i].parameters.update_keys->0@;
    let hashes = key_hashes(keys);
    assert forall|k: int| 0 <= k < hashes.len() implies next_key_hashes(log, i - 1).contains(
        #[trigger] hashes[k],
    ) by {
        assert(hashes[k] == text_hash(keys[k]@));
    }
    lemma_same_multiset(hashes, next_key_hashes(log, i - 1));
}

/// A log whose first entry is under witnesses with a threshold above zero,
/// and which has no other fault, does not resolve where witnesses are asked
/// for and no proofs of witnesses are given: the replay fails with
/// `WitnessThreshold` at the first entry.
pub proof fn lemma_omitted_witness_proofs_fail(
    log: Seq<LogEntry>,
    options: Option<ReplayOptions>,
    r: Result<ResolvedLog, Error>,
)
    requires
        log.len() > 0,
        stop_from(log, options, 0) is Some,
        fault(log, 0, None) is None,
        witness(log, 0) is Some,
        witness(log, 0)->0.threshold > 0,
        is_resolution(log, Some(Seq::<WitnessEntry>::empty()), options, r),
    ensures
        r is Err,
        r->Err_0 is WitnessThreshold,
        r->Err_0.detail() == log[0].version_id@,
{
    reveal(fault);
    let none = Seq::<WitnessEntry>::empty();
    let w = witness(log, 0)->0;
    lemma_no_proofs_no_approval(log[0], w.witnesses@, w.witnesses@.len() as int);
    assert(!witnessed(log, 0, none));
    assert(fault(log, 0, Some(none)) == Some(Fault::Witness));
    let stop = stop_from(log, options, 0)->0;
    lemma_stop_in_range(log, options, 0);
    match r {
        Ok(_) => {
            assert(holds_up_to(log, stop, Some(none)));
            assert(fault(log, 0, Some(none)) is None);
        },
        Err(e) => {
            let i = choose|i: int|
                0 <= i <= stop && holds_up_to(log, i - 1, Some(none)) && (#[trigger] fault(
                    log,
                    i,
                    Some(none),
                )) is Some && fault(log, i, Some(none))->0.is_reported_by(e, log[i].version_id@);
            if i > 0 {
                assert(fault(log, 0, Some(none)) is None);
            }
        },
    }
}

/// Where a replay stops, there is an entry.
pub proof fn lemma_stop_in_range(log: Seq<LogEntry>, options: Option<ReplayOptions>, i: int)
    requires
        stop_from(log, options, i) is Some,
    ensures
        i <= stop_from(log, options, i)->0 < log.len(),
        0 <= i,
    decreases log.len() - i,
{
    if 0 <= i < log.len() {
        if options is Some && options->0.version_id is Some {
            if log[i].version_id@ != options->0.version_id->0@ {
                lemma_stop_in_range(log, options, i + 1);
            }
        } else if options is Some && options->0.version_time is Some {
            if text_le(log[i].version_time@, options->0.version_time->0@) && !(i + 1 == log.len()
                || !text_le(log[i + 1].version_time@, options->0.version_time->0@)) {
                lemma_stop_in_range(log, options, i + 1);
            }
        }
    }
}

/// Where every one of the first `n` witnesses approves of an entry, the
/// weight of the approvals is the weight of those witnesses together.
pub proof fn lemma_all_approve(
    entry: LogEntry,
    witnesses: Seq<WitnessWeight>,
    proofs: Seq<WitnessEntry>,
    n: int,
)
    requires
        0 <= n <= witnesses.len(),
        forall|k: int| 0 <= k < n ==> approves(entry, #[trigger] witnesses[k], proofs),
    ensures
        approval(entry, witnesses, proofs, n) == total_weight(witnesses, n),
    decreases n,
{
    if n > 0 {
        lemma_all_approve(entry, witnesses, proofs, n - 1);
        assert(approves(entry, witnesses[n - 1], proofs));
    }
}

/// An entry under witnesses that can do their office is witnessed where
/// every witness approves of it.
pub proof fn lemma_witnessed_by_all(log: Seq<LogEntry>, i: int, proofs: Seq<WitnessEntry>)
    requires
        witness(log, i) is Some,
        witness(log, i)->0.valid(),
        forall|k: int|
            0 <= k < witness(log, i)->0.witnesses@.len() ==> approves(
                log[i],
                #[trigger] witness(log, i)->0.witnesses@[k],
                proofs,
            ),
    ensures
        witnessed(log, i, proofs),
{
    let w = witness(log, i)->0;
    lemma_all_approve(log[i], w.witnesses@, proofs, w.witnesses@.len() as int);
}

/// The weight of the approvals of an entry is never more than the weight of
/// the witnesses together.
pub proof fn lemma_approval_at_most_total(
    entry: LogEntry,
    witnesses: Seq<WitnessWeight>,
    proofs: Seq<WitnessEntry>,
    n: int,
)
    requires
        0 <= n <= witnesses.len(),
    ensures
        approval(entry, witnesses, proofs, n) <= total_weight(witnesses, n),
    decreases n,
{
    if n > 0 {
        lemma_approval_at_most_total(entry, witnesses, proofs, n - 1);
    }
}

} // verus!
