//! The characters that a `did:web` or `did:webvh` method-specific identifier
//! may hold, and the path from such an identifier to a web location.

use vstd::prelude::*;

use crate::text::{
    append_chars, chars_of, contains_char, replace_all, replace_all_in, replace_char,
    replace_char_in, string_of,
};

verus! {

/// Whether `c` may stand in a method-specific identifier: an ASCII letter or
/// digit, or one of `.`, `-`, `:` and `%`.
pub open spec fn is_identifier_char(c: char) -> bool {
    ||| 'a' <= c <= 'z'
    ||| 'A' <= c <= 'Z'
    ||| '0' <= c <= '9'
    ||| c == '.'
    ||| c == '-'
    ||| c == ':'
    ||| c == '%'
}

/// Whether `s` is a method-specific identifier: not empty, and made of
/// identifier characters only.
pub open spec fn is_identifier(s: Seq<char>) -> bool {
    &&& s.len() > 0
    &&& forall|i: int| 0 <= i < s.len() ==> is_identifier_char(#[trigger] s[i])
}

/// The host and path that `identifier` names: each `:` becomes `/`, and then
/// each `%3A` becomes `:`.
pub open spec fn location_of(identifier: Seq<char>) -> Seq<char> {
    replace_all(replace_char(identifier, ':', '/'), "%3A"@, ":"@)
}

/// The HTTPS location of the file `file` for `identifier`: the host and path
/// that the identifier names, then `/.well-known` where the identifier names
/// no path, then `file`.
pub open spec fn url_for(identifier: Seq<char>, file: Seq<char>) -> Seq<char> {
    "https://"@ + location_of(identifier) + (if identifier.contains(':') {
        Seq::<char>::empty()
    } else {
        "/.well-known"@
    }) + file
}

/// Whether `c` may stand in a method-specific identifier.
pub fn identifier_char(c: char) -> (b: bool)
    ensures
        b == is_identifier_char(c),
{
    (c >= 'a' && c <= 'z') || (c >= 'A' && c <= 'Z') || (c >= '0' && c <= '9') || c == '.'
        || c == '-' || c == ':' || c == '%'
}

/// Whether the part of `s` from position `from` on is a method-specific
/// identifier.
pub fn identifier_from(s: &Vec<char>, from: usize) -> (b: bool)
    requires
        from <= s@.len(),
    ensures
        b == is_identifier(s@.skip(from as int)),
{
    let n: usize = s.len();
    if from == n {
        return false;
    }
    let mut i: usize = from;
    while i < n
        invariant
            n == s@.len(),
            from <= i <= n,
            forall|k: int| from <= k < i ==> is_identifier_char(#[trigger] s@[k]),
        decreases n - i,
    {
        if !identifier_char(s[i]) {
            assert(s@.skip(from as int)[i - from] == s@[i as int]);
            return false;
        }
        i += 1;
    }
    assert forall|k: int| 0 <= k < s@.skip(from as int).len() implies is_identifier_char(
        #[trigger] s@.skip(from as int)[k],
    ) by {
        assert(s@.skip(from as int)[k] == s@[from + k]);
    }
    true
}

/// The host and path that `identifier` names.
pub fn location(identifier: &Vec<char>) -> (r: Vec<char>)
    ensures
        r@ == location_of(identifier@),
{
    let slashed = replace_char_in(identifier, ':', '/');
    let escaped = chars_of("%3A");
    let colon = chars_of(":");
    replace_all_in(&slashed, &escaped, &colon)
}

/// The HTTPS location of the file `file` for `identifier`.
pub fn build_url(identifier: &Vec<char>, file: &str) -> (r: String)
    ensures
        r@ == url_for(identifier@, file@),
{
    let mut url = chars_of("https://");
    let domain = location(identifier);
    append_chars(&mut url, &domain);
    if !contains_char(identifier, ':') {
        let well_known = chars_of("/.well-known");
        append_chars(&mut url, &well_known);
    }
    let tail = chars_of(file);
    append_chars(&mut url, &tail);
    string_of(&url)
}

} // verus!
