//! Canonical JSON text of the library's records: compact, fields in
//! declaration order, strings escaped as `serde_json` escapes them.

use vstd::prelude::*;
use crate::text::{push_char, push_decimal, decimal, str_chars};

verus! {

/// Lower-case hexadecimal digit.
pub open spec fn hex_digit(d: nat) -> char {
    if d < 10 {
        crate::text::digit_char(d)
    } else if d == 10 { 'a' }
    else if d == 11 { 'b' }
    else if d == 12 { 'c' }
    else if d == 13 { 'd' }
    else if d == 14 { 'e' }
    else { 'f' }
}

/// The JSON text that stands for one character inside a string literal:
/// quote and backslash are escaped, the control characters below U+0020
/// use their short escape where JSON has one and `\u00XX` otherwise, and
/// every other character stands for itself.
pub open spec fn json_escape_char(c: char) -> Seq<char> {
    if c == '"' {
        seq!['\\', '"']
    } else if c == '\\' {
        seq!['\\', '\\']
    } else if c == '\u{8}' {
        seq!['\\', 'b']
    } else if c == '\t' {
        seq!['\\', 't']
    } else if c == '\n' {
        seq!['\\', 'n']
    } else if c == '\u{c}' {
        seq!['\\', 'f']
    } else if c == '\r' {
        seq!['\\', 'r']
    } else if (c as nat) < 0x20 {
        seq!['\\', 'u', '0', '0', hex_digit((c as nat) / 16), hex_digit((c as nat) % 16)]
    } else {
        seq![c]
    }
}

/// The escaped body of a JSON string literal.
pub open spec fn json_escape(s: Seq<char>) -> Seq<char>
    decreases s.len(),
{
    if s.len() == 0 {
        Seq::empty()
    } else {
        json_escape(s.drop_last()) + json_escape_char(s.last())
    }
}

/// A JSON string literal.
pub open spec fn json_string(s: Seq<char>) -> Seq<char> {
    seq!['"'] + json_escape(s) + seq!['"']
}

/// The JSON literal `null`.
pub open spec fn json_null() -> Seq<char> {
    seq!['n', 'u', 'l', 'l']
}

/// An optional string: `null` when absent.
pub open spec fn json_opt_string(s: Option<Seq<char>>) -> Seq<char> {
    match s {
        Some(v) => json_string(v),
        None => json_null(),
    }
}

/// One `"name":value` member of a JSON object.
pub open spec fn json_member(name: Seq<char>, value: Seq<char>) -> Seq<char> {
    json_string(name) + seq![':'] + value
}

/// A JSON number for an unsigned integer.
pub open spec fn json_u64(n: u64) -> Seq<char> {
    decimal(n as nat)
}

fn hex_digit_char(d: u32) -> (c: char)
    requires
        d < 16,
    ensures
        c == hex_digit(d as nat),
{
    if d == 0 { '0' }
    else if d == 1 { '1' }
    else if d == 2 { '2' }
    else if d == 3 { '3' }
    else if d == 4 { '4' }
    else if d == 5 { '5' }
    else if d == 6 { '6' }
    else if d == 7 { '7' }
    else if d == 8 { '8' }
    else if d == 9 { '9' }
    else if d == 10 { 'a' }
    else if d == 11 { 'b' }
    else if d == 12 { 'c' }
    else if d == 13 { 'd' }
    else if d == 14 { 'e' }
    else { 'f' }
}

/// Appends the JSON text of one string character.
pub fn push_json_escaped_char(out: &mut String, c: char)
    ensures
        final(out)@ == old(out)@ + json_escape_char(c),
{
    let ghost start = out@;
    if c == '"' {
        push_char(out, '\\');
        push_char(out, '"');
    } else if c == '\\' {
        push_char(out, '\\');
        push_char(out, '\\');
    } else if c == '\u{8}' {
        push_char(out, '\\');
        push_char(out, 'b');
    } else if c == '\t' {
        push_char(out, '\\');
        push_char(out, 't');
    } else if c == '\n' {
        push_char(out, '\\');
        push_char(out, 'n');
    } else if c == '\u{c}' {
        push_char(out, '\\');
        push_char(out, 'f');
    } else if c == '\r' {
        push_char(out, '\\');
        push_char(out, 'r');
    } else if (c as u32) < 0x20 {
        let code = c as u32;
        push_char(out, '\\');
        push_char(out, 'u');
        push_char(out, '0');
        push_char(out, '0');
        push_char(out, hex_digit_char(code / 16));
        push_char(out, hex_digit_char(code % 16));
    } else {
        push_char(out, c);
    }
    assert(out@ =~= start + json_escape_char(c));
}

/// Appends a JSON string literal holding `s`.
pub fn push_json_string(out: &mut String, s: &str)
    ensures
        final(out)@ == old(out)@ + json_string(s@),
{
    let ghost start = out@;
    let chars = str_chars(s);
    push_char(out, '"');
    let mut i: usize = 0;
    while i < chars.len()
        invariant
            i <= chars.len(),
            chars@ == s@,
            out@ == start + seq!['"'] + json_escape(chars@.take(i as int)),
        decreases chars.len() - i,
    {
        let ghost before = out@;
        push_json_escaped_char(out, chars[i]);
        i = i + 1;
        assert(chars@.take(i as int).drop_last() =~= chars@.take(i - 1));
        assert(out@ =~= start + seq!['"'] + json_escape(chars@.take(i as int)));
    }
    assert(chars@.take(chars.len() as int) =~= chars@);
    push_char(out, '"');
    assert(out@ =~= start + json_string(s@));
}

/// Appends an optional JSON string (`null` when absent).
pub fn push_json_opt_string(out: &mut String, s: &Option<String>)
    ensures
        final(out)@ == old(out)@ + json_opt_string(opt_string_view(*s)),
{
    match s {
        Some(v) => push_json_string(out, v.as_str()),
        None => {
            let ghost start = out@;
            push_char(out, 'n');
            push_char(out, 'u');
            push_char(out, 'l');
            push_char(out, 'l');
            assert(out@ =~= start + json_null());
        },
    }
}

/// Appends `"name":` to `out`.
pub fn push_json_key(out: &mut String, name: &str)
    ensures
        final(out)@ == old(out)@ + json_string(name@) + seq![':'],
{
    push_json_string(out, name);
    push_char(out, ':');
}

/// Appends a JSON number.
pub fn push_json_u64(out: &mut String, n: u64)
    ensures
        final(out)@ == old(out)@ + json_u64(n),
{
    push_decimal(out, n);
}

/// Appends the member `"name":n`.
pub fn push_json_member_u64(out: &mut String, name: &str, n: u64)
    ensures
        final(out)@ == old(out)@ + json_member(name@, json_u64(n)),
{
    let ghost start = out@;
    push_json_key(out, name);
    push_json_u64(out, n);
    assert(out@ =~= start + json_member(name@, json_u64(n)));
}

/// Appends the member `"name":"value"`.
pub fn push_json_member_string(out: &mut String, name: &str, value: &str)
    ensures
        final(out)@ == old(out)@ + json_member(name@, json_string(value@)),
{
    let ghost start = out@;
    push_json_key(out, name);
    push_json_string(out, value);
    assert(out@ =~= start + json_member(name@, json_string(value@)));
}

/// Appends the member `"name":value` for an optional string value.
pub fn push_json_member_opt_string(out: &mut String, name: &str, value: &Option<String>)
    ensures
        final(out)@ == old(out)@ + json_member(name@, json_opt_string(opt_string_view(*value))),
{
    let ghost start = out@;
    push_json_key(out, name);
    push_json_opt_string(out, value);
    assert(out@ =~= start + json_member(name@, json_opt_string(opt_string_view(*value))));
}

/// A JSON text that did not parse into the expected record.
#[derive(Clone, Debug)]
pub struct JsonError {
    /// What the parser reported.
    pub message: String,
    /// One-based line of the error (0 when not known).
    pub line: usize,
    /// One-based column of the error (0 when not known).
    pub column: usize,
}

/// A copy of an optional string.
pub fn clone_opt_string(s: &Option<String>) -> (r: Option<String>)
    ensures
        r == *s,
{
    match s {
        Some(v) => Some(v.clone()),
        None => None,
    }
}

/// The view of an optional string.
pub open spec fn opt_string_view(s: Option<String>) -> Option<Seq<char>> {
    match s {
        Some(v) => Some(v@),
        None => None,
    }
}

} // verus!
