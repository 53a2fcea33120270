//! The times of log entries: UTC timestamps, and their order.

use vstd::prelude::*;

use crate::text::chars_of;

verus! {

/// Whether `a` does not come after `b` in the order of texts: character by
/// character, and a text before the texts that it begins.
pub open spec fn text_le(a: Seq<char>, b: Seq<char>) -> bool
    decreases a.len(),
{
    if a.len() == 0 {
        true
    } else if b.len() == 0 {
        false
    } else if a[0] != b[0] {
        a[0] < b[0]
    } else {
        text_le(a.skip(1), b.skip(1))
    }
}

/// Whether `a` does not come after `b` in the order of texts.
pub fn precedes(a: &str, b: &str) -> (r: bool)
    ensures
        r == text_le(a@, b@),
{
    let x = chars_of(a);
    let y = chars_of(b);
    let mut i: usize = 0;
    assert(x@.skip(0) == x@ && y@.skip(0) == y@);
    loop
        invariant
            i <= x@.len(),
            i <= y@.len(),
            text_le(a@, b@) == text_le(x@.skip(i as int), y@.skip(i as int)),
        decreases x@.len() - i,
    {
        if i == x.len() {
            return true;
        }
        if i == y.len() {
            return false;
        }
        if x[i] != y[i] {
            return x[i] < y[i];
        }
        assert(x@.skip(i as int).skip(1) == x@.skip(i + 1));
        assert(y@.skip(i as int).skip(1) == y@.skip(i + 1));
        i += 1;
    }
}

/// Whether `c` may stand at position `i` of a timestamp: a digit, or the
/// mark of the position.
pub open spec fn timestamp_char(i: int, c: char) -> bool {
    if i == 4 || i == 7 {
        c == '-'
    } else if i == 10 {
        c == 'T'
    } else if i == 13 || i == 16 {
        c == ':'
    } else if i == 19 {
        c == 'Z'
    } else {
        '0' <= c <= '9'
    }
}

/// Whether `s` is a UTC timestamp of the form `2024-01-31T12:00:00Z`. The
/// order of texts puts such timestamps in the order of time.
pub open spec fn is_timestamp(s: Seq<char>) -> bool {
    &&& s.len() == 20
    &&& forall|i: int| 0 <= i < 20 ==> timestamp_char(i, #[trigger] s[i])
}

/// Whether `s` is a UTC timestamp.
pub fn timestamp(s: &str) -> (r: bool)
    ensures
        r == is_timestamp(s@),
{
    let chars = chars_of(s);
    if chars.len() != 20 {
        return false;
    }
    let mut i: usize = 0;
    while i < 20
        invariant
            chars@.len() == 20,
            chars@ == s@,
            i <= 20,
            forall|k: int| 0 <= k < i ==> timestamp_char(k, #[trigger] chars@[k]),
        decreases 20 - i,
    {
        let c = chars[i];
        let ok = if i == 4 || i == 7 {
            c == '-'
        } else if i == 10 {
            c == 'T'
        } else if i == 13 || i == 16 {
            c == ':'
        } else if i == 19 {
            c == 'Z'
        } else {
            c >= '0' && c <= '9'
        };
        if !ok {
            return false;
        }
        i += 1;
    }
    true
}

} // verus!
