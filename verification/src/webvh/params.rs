//! The parameters in force at an entry of a log: those that the entry
//! gives, and for the rest those in force at the entry before.

use vstd::prelude::*;

use crate::text::str_eq;
use crate::webvh::log::{LogEntry, Parameters, Witness};

verus! {

/// The views of `items`.
pub open spec fn strings(items: Seq<String>) -> Seq<Seq<char>> {
    Seq::new(items.len(), |i: int| items[i]@)
}

/// Whether the text `s` is among `items`.
pub fn contains_string(items: &Vec<String>, s: &str) -> (found: bool)
    ensures
        found == strings(items@).contains(s@),
{
    let n: usize = items.len();
    let mut i: usize = 0;
    while i < n
        invariant
            n == items@.len(),
            i <= n,
            forall|k: int| 0 <= k < i ==> strings(items@)[k] != s@,
        decreases n - i,
    {
        if str_eq(items[i].as_str(), s) {
            assert(strings(items@)[i as int] == s@);
            return true;
        }
        i += 1;
    }
    false
}

/// A parameter that carries over from entry to entry.
#[derive(Debug, Clone, Copy, PartialEq, Eq, Structural)]
pub enum Param {
    /// `updateKeys`
    UpdateKeys,
    /// `nextKeyHashes`
    NextKeyHashes,
    /// `portable`
    Portable,
    /// `witness`
    Witness,
    /// `deactivated`
    Deactivated,
}

impl Parameters {
    /// Whether the parameters give a value for `which`.
    pub open spec fn gives(&self, which: Param) -> bool {
        match which {
            Param::UpdateKeys => self.update_keys is Some,
            Param::NextKeyHashes => self.next_key_hashes is Some,
            Param::Portable => self.portable is Some,
            Param::Witness => self.witness is Some,
            Param::Deactivated => self.deactivated is Some,
        }
    }

    /// Whether the parameters give a value for `which`.
    pub fn has(&self, which: Param) -> (given: bool)
        ensures
            given == self.gives(which),
    {
        match which {
            Param::UpdateKeys => self.update_keys.is_some(),
            Param::NextKeyHashes => self.next_key_hashes.is_some(),
            Param::Portable => self.portable.is_some(),
            Param::Witness => self.witness.is_some(),
            Param::Deactivated => self.deactivated.is_some(),
        }
    }
}

/// The position of the entry that set the value of `which` in force at
/// entry `i`: the last entry up to `i` that gives one. `None` where no entry
/// up to `i` gives one.
pub open spec fn setter(log: Seq<LogEntry>, i: int, which: Param) -> Option<int>
    decreases i,
{
    if i < 0 || i >= log.len() {
        None
    } else if log[i].parameters.gives(which) {
        Some(i)
    } else if i == 0 {
        None
    } else {
        setter(log, i - 1, which)
    }
}

/// The position of the entry that set the value of `which` in force at
/// entry `i`.
pub fn setter_of(log: &Vec<LogEntry>, i: usize, which: Param) -> (r: Option<usize>)
    requires
        i < log@.len(),
    ensures
        match r {
            Some(j) => setter(log@, i as int, which) == Some(j as int) && j <= i
                && log@[j as int].parameters.gives(which),
            None => setter(log@, i as int, which) is None,
        },
{
    let mut j: usize = i;
    loop
        invariant
            j <= i < log@.len(),
            setter(log@, i as int, which) == setter(log@, j as int, which),
        decreases j,
    {
        if log[j].parameters.has(which) {
            return Some(j);
        }
        if j == 0 {
            return None;
        }
        j -= 1;
    }
}

/// The update keys in force at entry `i`: none, where no entry up to `i`
/// gives any.
pub open spec fn update_keys(log: Seq<LogEntry>, i: int) -> Seq<Seq<char>> {
    match setter(log, i, Param::UpdateKeys) {
        Some(j) => strings(log[j].parameters.update_keys->0@),
        None => Seq::<Seq<char>>::empty(),
    }
}

/// The hashes of the next keys in force at entry `i`: none, where no entry
/// up to `i` gives any.
pub open spec fn next_key_hashes(log: Seq<LogEntry>, i: int) -> Seq<Seq<char>> {
    match setter(log, i, Param::NextKeyHashes) {
        Some(j) => strings(log[j].parameters.next_key_hashes->0@),
        None => Seq::<Seq<char>>::empty(),
    }
}

/// Whether the DID may move, as in force at entry `i`: not, where no entry
/// up to `i` says.
pub open spec fn portable(log: Seq<LogEntry>, i: int) -> bool {
    match setter(log, i, Param::Portable) {
        Some(j) => log[j].parameters.portable->0,
        None => false,
    }
}

/// Whether the DID is deactivated, as in force at entry `i`: not, where no
/// entry up to `i` says.
pub open spec fn deactivated(log: Seq<LogEntry>, i: int) -> bool {
    match setter(log, i, Param::Deactivated) {
        Some(j) => log[j].parameters.deactivated->0,
        None => false,
    }
}

/// The witnesses in force at entry `i`: none, where no entry up to `i`
/// gives any.
pub open spec fn witness(log: Seq<LogEntry>, i: int) -> Option<Witness> {
    match setter(log, i, Param::Witness) {
        Some(j) => log[j].parameters.witness,
        None => None,
    }
}

/// The update keys in force at entry `i`.
pub fn update_keys_of(log: &Vec<LogEntry>, i: usize) -> (keys: Option<&Vec<String>>)
    requires
        i < log@.len(),
    ensures
        match keys {
            Some(k) => strings(k@) == update_keys(log@, i as int),
            None => update_keys(log@, i as int).len() == 0,
        },
{
    match setter_of(log, i, Param::UpdateKeys) {
        Some(j) => log[j].parameters.update_keys.as_ref(),
        None => None,
    }
}

/// The hashes of the next keys in force at entry `i`.
pub fn next_key_hashes_of(log: &Vec<LogEntry>, i: usize) -> (hashes: Option<&Vec<String>>)
    requires
        i < log@.len(),
    ensures
        match hashes {
            Some(h) => strings(h@) == next_key_hashes(log@, i as int),
            None => next_key_hashes(log@, i as int).len() == 0,
        },
{
    match setter_of(log, i, Param::NextKeyHashes) {
        Some(j) => log[j].parameters.next_key_hashes.as_ref(),
        None => None,
    }
}

/// Whether the DID may move, as in force at entry `i`.
pub fn portable_of(log: &Vec<LogEntry>, i: usize) -> (b: bool)
    requires
        i < log@.len(),
    ensures
        b == portable(log@, i as int),
{
    match setter_of(log, i, Param::Portable) {
        Some(j) => match log[j].parameters.portable {
            Some(b) => b,
            None => false,
        },
        None => false,
    }
}

/// Whether the DID is deactivated, as in force at entry `i`.
pub fn deactivated_of(log: &Vec<LogEntry>, i: usize) -> (b: bool)
    requires
        i < log@.len(),
    ensures
        b == deactivated(log@, i as int),
{
    match setter_of(log, i, Param::Deactivated) {
        Some(j) => match log[j].parameters.deactivated {
            Some(b) => b,
            None => false,
        },
        None => false,
    }
}

/// The witnesses in force at entry `i`.
pub fn witness_of(log: &Vec<LogEntry>, i: usize) -> (w: Option<&Witness>)
    requires
        i < log@.len(),
    ensures
        match w {
            Some(w) => witness(log@, i as int) == Some(*w),
            None => witness(log@, i as int) is None,
        },
{
    match setter_of(log, i, Param::Witness) {
        Some(j) => log[j].parameters.witness.as_ref(),
        None => None,
    }
}

} // verus!
