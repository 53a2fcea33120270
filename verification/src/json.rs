//! Canonical JSON text: strings with the canonical escapes, numbers in
//! their shortest decimal form, no white space.

use vstd::prelude::*;

use crate::text::{append_chars, chars_of};

verus! {

/// The hexadecimal digits, lower case.
pub const HEX_DIGITS: [char; 16] = [
    '0',
    '1',
    '2',
    '3',
    '4',
    '5',
    '6',
    '7',
    '8',
    '9',
    'a',
    'b',
    'c',
    'd',
    'e',
    'f',
];

/// How the character `c` stands inside a JSON string: a quotation mark and
/// a backslash behind a backslash; backspace, tab, line feed, form feed and
/// carriage return by their letters; any other control character by its
/// code in four hexadecimal digits; every other character as it is.
pub open spec fn escaped_char(c: char) -> Seq<char> {
    if c == '"' {
        seq!['\\', '"']
    } else if c == '\\' {
        seq!['\\', '\\']
    } else if c == '\u{8}' {
        seq!['\\', 'b']
    } else if c == '\u{9}' {
        seq!['\\', 't']
    } else if c == '\u{a}' {
        seq!['\\', 'n']
    } else if c == '\u{c}' {
        seq!['\\', 'f']
    } else if c == '\u{d}' {
        seq!['\\', 'r']
    } else if (c as u32) < 0x20 {
        seq!['\\', 'u', '0', '0', HEX_DIGITS@[(c as u32 / 16) as int], HEX_DIGITS@[(c as u32 % 16) as int]]
    } else {
        seq![c]
    }
}

/// The characters of `s` as they stand inside a JSON string.
pub open spec fn escaped(s: Seq<char>) -> Seq<char>
    decreases s.len(),
{
    if s.len() == 0 {
        Seq::<char>::empty()
    } else {
        escaped(s.drop_last()) + escaped_char(s.last())
    }
}

/// The JSON string that holds `s`.
pub open spec fn json_string(s: Seq<char>) -> Seq<char> {
    seq!['"'] + escaped(s) + seq!['"']
}

/// The decimal digits of `n`, without leading zeros.
pub open spec fn decimal(n: nat) -> Seq<char>
    decreases n,
{
    if n < 10 {
        seq![HEX_DIGITS@[n as int]]
    } else {
        decimal(n / 10) + seq![HEX_DIGITS@[(n % 10) as int]]
    }
}

/// The JSON text of the truth value `b`.
pub open spec fn json_bool(b: bool) -> Seq<char> {
    if b {
        "true"@
    } else {
        "false"@
    }
}

/// A value that has a canonical JSON text.
pub trait Canonical {
    /// The canonical JSON text of the value.
    spec fn json(&self) -> Seq<char>;

    /// Appends the canonical JSON text of the value to `out`.
    fn push_json(&self, out: &mut Vec<char>)
        ensures
            final(out)@ == old(out)@ + self.json(),
    ;
}

/// The texts `items` from position `from` on, with commas between them.
pub open spec fn joined_from(items: Seq<Seq<char>>, from: int) -> Seq<char>
    decreases items.len() - from,
{
    if from >= items.len() {
        Seq::<char>::empty()
    } else if from + 1 == items.len() {
        items[from]
    } else {
        items[from] + seq![','] + joined_from(items, from + 1)
    }
}

/// The JSON array whose items have the texts `items`.
pub open spec fn json_array(items: Seq<Seq<char>>) -> Seq<char> {
    seq!['['] + joined_from(items, 0) + seq![']']
}

/// The JSON object whose members have the texts `members`.
pub open spec fn json_object(members: Seq<Seq<char>>) -> Seq<char> {
    seq!['{'] + joined_from(members, 0) + seq!['}']
}

/// The text of the object member `key` with a value whose text is `value`.
pub open spec fn json_member(key: Seq<char>, value: Seq<char>) -> Seq<char> {
    json_string(key) + seq![':'] + value
}

/// The member texts of the member `key`, which is absent where `value` is
/// `None`.
pub open spec fn optional(key: Seq<char>, value: Option<Seq<char>>) -> Seq<Seq<char>> {
    match value {
        Some(v) => seq![json_member(key, v)],
        None => Seq::<Seq<char>>::empty(),
    }
}

/// The member texts of the member `key` with a value whose text is `value`.
pub open spec fn required(key: Seq<char>, value: Seq<char>) -> Seq<Seq<char>> {
    seq![json_member(key, value)]
}

/// The JSON array of `items`, where there are any.
pub open spec fn optional_array<T: Canonical>(items: Option<Vec<T>>) -> Option<Seq<char>> {
    match items {
        Some(v) => Some(json_array(jsons_of(v@))),
        None => None,
    }
}

/// The canonical JSON texts of `items`.
pub open spec fn jsons_of<T: Canonical>(items: Seq<T>) -> Seq<Seq<char>> {
    Seq::new(items.len(), |i: int| items[i].json())
}

/// The views of `texts`.
pub open spec fn texts_of(texts: Seq<Vec<char>>) -> Seq<Seq<char>> {
    Seq::new(texts.len(), |i: int| texts[i]@)
}

/// Appends the characters of the text `s` to `out`.
pub fn push_text(out: &mut Vec<char>, s: &str)
    ensures
        final(out)@ == old(out)@ + s@,
{
    let chars = chars_of(s);
    append_chars(out, &chars);
}

/// Appends the character `c`, as it stands inside a JSON string, to `out`.
pub fn push_escaped_char(out: &mut Vec<char>, c: char)
    ensures
        final(out)@ == old(out)@ + escaped_char(c),
{
    let ghost before = out@;
    if c == '"' {
        out.push('\\');
        out.push('"');
    } else if c == '\\' {
        out.push('\\');
        out.push('\\');
    } else if c == '\u{8}' {
        out.push('\\');
        out.push('b');
    } else if c == '\u{9}' {
        out.push('\\');
        out.push('t');
    } else if c == '\u{a}' {
        out.push('\\');
        out.push('n');
    } else if c == '\u{c}' {
        out.push('\\');
        out.push('f');
    } else if c == '\u{d}' {
        out.push('\\');
        out.push('r');
    } else if (c as u32) < 0x20 {
        let code: u32 = c as u32;
        out.push('\\');
        out.push('u');
        out.push('0');
        out.push('0');
        out.push(HEX_DIGITS[(code / 16) as usize]);
        out.push(HEX_DIGITS[(code % 16) as usize]);
    } else {
        out.push(c);
    }
    assert(out@ =~= before + escaped_char(c));
}

/// Appends the JSON string that holds `s` to `out`.
pub fn push_string(out: &mut Vec<char>, s: &str)
    ensures
        final(out)@ == old(out)@ + json_string(s@),
{
    let ghost before = out@;
    let chars = chars_of(s);
    out.push('"');
    let n: usize = chars.len();
    let mut i: usize = 0;
    while i < n
        invariant
            n == chars@.len(),
            i <= n,
            out@ == before + seq!['"'] + escaped(chars@.take(i as int)),
        decreases n - i,
    {
        push_escaped_char(out, chars[i]);
        i += 1;
        assert(chars@.take(i as int).drop_last() == chars@.take(i - 1));
    }
    assert(chars@.take(n as int) == chars@);
    out.push('"');
    assert(out@ =~= before + json_string(s@));
}

/// Appends the decimal digits of `n` to `out`.
pub fn push_decimal(out: &mut Vec<char>, n: u64)
    ensures
        final(out)@ == old(out)@ + decimal(n as nat),
    decreases n,
{
    let ghost before = out@;
    if n >= 10 {
        push_decimal(out, n / 10);
    }
    out.push(HEX_DIGITS[(n % 10) as usize]);
    assert(out@ =~= before + decimal(n as nat));
}

/// Appends the JSON text of the truth value `b` to `out`.
pub fn push_bool(out: &mut Vec<char>, b: bool)
    ensures
        final(out)@ == old(out)@ + json_bool(b),
{
    if b {
        push_text(out, "true");
    } else {
        push_text(out, "false");
    }
}

impl Canonical for String {
    open spec fn json(&self) -> Seq<char> {
        json_string(self@)
    }

    fn push_json(&self, out: &mut Vec<char>) {
        push_string(out, self.as_str());
    }
}

/// The text of the object member `key` with a value whose text is `value`.
pub fn member(key: &str, value: Vec<char>) -> (m: Vec<char>)
    ensures
        m@ == json_member(key@, value@),
{
    let mut m: Vec<char> = Vec::new();
    push_string(&mut m, key);
    m.push(':');
    append_chars(&mut m, &value);
    assert(m@ =~= json_member(key@, value@));
    m
}

/// The canonical JSON text of `value`.
pub fn json_of<T: Canonical>(value: &T) -> (text: Vec<char>)
    ensures
        text@ == value.json(),
{
    let mut text: Vec<char> = Vec::new();
    value.push_json(&mut text);
    assert(text@ =~= value.json());
    text
}

/// The JSON string that holds `s`.
pub fn string_json(s: &str) -> (text: Vec<char>)
    ensures
        text@ == json_string(s@),
{
    let mut text: Vec<char> = Vec::new();
    push_string(&mut text, s);
    assert(text@ =~= json_string(s@));
    text
}

/// Appends the texts `items`, with commas between them, to `out`.
pub fn push_joined(out: &mut Vec<char>, items: &Vec<Vec<char>>)
    ensures
        final(out)@ == old(out)@ + joined_from(texts_of(items@), 0),
{
    let ghost before = out@;
    let ghost texts = texts_of(items@);
    let n: usize = items.len();
    let mut i: usize = 0;
    while i < n
        invariant
            n == items@.len(),
            i <= n,
            texts == texts_of(items@),
            before + joined_from(texts, 0) == out@ + joined_from(texts, i as int),
        decreases n - i,
    {
        let ghost at = out@;
        append_chars(out, &items[i]);
        assert(texts[i as int] == items@[i as int]@);
        if i + 1 < n {
            out.push(',');
        }
        assert(out@ + joined_from(texts, i + 1) =~= at + joined_from(texts, i as int));
        i += 1;
    }
    assert(joined_from(texts, n as int) =~= Seq::<char>::empty());
    assert(out@ + Seq::<char>::empty() =~= out@);
}

/// The JSON object whose members have the texts `members`.
pub fn object(members: &Vec<Vec<char>>) -> (text: Vec<char>)
    ensures
        text@ == json_object(texts_of(members@)),
{
    let mut text: Vec<char> = Vec::new();
    text.push('{');
    push_joined(&mut text, members);
    text.push('}');
    assert(text@ =~= json_object(texts_of(members@)));
    text
}

/// The JSON array of `items`.
pub fn array<T: Canonical>(items: &Vec<T>) -> (text: Vec<char>)
    ensures
        text@ == json_array(jsons_of(items@)),
{
    let mut texts: Vec<Vec<char>> = Vec::new();
    let n: usize = items.len();
    let mut i: usize = 0;
    while i < n
        invariant
            n == items@.len(),
            i <= n,
            texts@.len() == i,
            forall|k: int| 0 <= k < i ==> (#[trigger] texts@[k])@ == items@[k].json(),
        decreases n - i,
    {
        texts.push(json_of(&items[i]));
        i += 1;
    }
    assert(texts_of(texts@) =~= jsons_of(items@));
    let mut text: Vec<char> = Vec::new();
    text.push('[');
    push_joined(&mut text, &texts);
    text.push(']');
    assert(text@ =~= json_array(jsons_of(items@)));
    text
}

/// The decimal digits of `n`.
pub fn decimal_json(n: u64) -> (text: Vec<char>)
    ensures
        text@ == decimal(n as nat),
{
    let mut text: Vec<char> = Vec::new();
    push_decimal(&mut text, n);
    assert(text@ =~= decimal(n as nat));
    text
}

/// The JSON text of the truth value `b`.
pub fn bool_json(b: bool) -> (text: Vec<char>)
    ensures
        text@ == json_bool(b),
{
    let mut text: Vec<char> = Vec::new();
    push_bool(&mut text, b);
    assert(text@ =~= json_bool(b));
    text
}

} // verus!
