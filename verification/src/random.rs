//! Random identifiers: session ids, invoice ids, nonces and mock hashes.

use vstd::prelude::*;
use rand::Rng;
use crate::json::hex_digit;
use crate::text::{push_char, to_ascii_lower, str_chars};

verus! {

/// An ASCII letter or digit.
pub open spec fn is_ascii_alphanumeric(c: char) -> bool {
    ('A' <= c && c <= 'Z') || ('a' <= c && c <= 'z') || ('0' <= c && c <= '9')
}

/// A lower-case ASCII letter or a digit.
pub open spec fn is_lower_alphanumeric(c: char) -> bool {
    ('a' <= c && c <= 'z') || ('0' <= c && c <= '9')
}

/// A lower-case hexadecimal digit.
pub open spec fn is_lower_hex(c: char) -> bool {
    ('a' <= c && c <= 'f') || ('0' <= c && c <= '9')
}

/// `len` random ASCII letters and digits.
///
/// Trusted: `rand::thread_rng().sample_iter(&rand::distributions::Alphanumeric)`,
/// `len` samples turned into characters. Claimed: what holds of every
/// outcome, that there are `len` characters, each an ASCII letter or digit
/// (the distribution's documented range).
#[verifier::external_body]
pub(crate) fn random_alphanumeric(len: usize) -> (s: String)
    ensures
        s@.len() == len,
        forall|i: int| 0 <= i < len ==> is_ascii_alphanumeric(#[trigger] s@[i]),
{
    rand::thread_rng().sample_iter(&rand::distributions::Alphanumeric).take(len).map(char::from).collect()
}

/// `len` random bytes.
///
/// Trusted: `rand::Rng::fill` with `rand::thread_rng()`. Claimed: what holds
/// of every outcome, that there are `len` bytes.
#[verifier::external_body]
pub(crate) fn random_bytes(len: usize) -> (b: Vec<u8>)
    ensures
        b@.len() == len,
{
    let mut b = vec![0u8; len];
    rand::thread_rng().fill(&mut b[..]);
    b
}

/// A random identifier of `len` lower-case letters and digits.
pub fn random_id(len: usize) -> (s: String)
    ensures
        s@.len() == len,
        forall|i: int| 0 <= i < len ==> is_lower_alphanumeric(#[trigger] s@[i]),
{
    let raw = random_alphanumeric(len);
    let chars = str_chars(raw.as_str());
    let mut s = String::new();
    let mut i: usize = 0;
    while i < chars.len()
        invariant
            i <= chars@.len(),
            chars@ == raw@,
            chars@.len() == len,
            forall|j: int| 0 <= j < len ==> is_ascii_alphanumeric(#[trigger] chars@[j]),
            s@.len() == i,
            forall|j: int| 0 <= j < i ==> is_lower_alphanumeric(#[trigger] s@[j]),
        decreases chars.len() - i,
    {
        let c = to_ascii_lower(chars[i]);
        assert(is_ascii_alphanumeric(chars@[i as int]));
        push_char(&mut s, c);
        i = i + 1;
    }
    s
}

/// The lower-case hexadecimal text of some bytes, two digits per byte.
pub open spec fn hex_text(b: Seq<u8>) -> Seq<char>
    decreases b.len(),
{
    if b.len() == 0 {
        Seq::empty()
    } else {
        hex_text(b.drop_last()) + seq![hex_digit((b.last() / 16) as nat), hex_digit((b.last() % 16) as nat)]
    }
}

proof fn lemma_hex_text(b: Seq<u8>)
    ensures
        hex_text(b).len() == 2 * b.len(),
        forall|i: int| 0 <= i < hex_text(b).len() ==> is_lower_hex(#[trigger] hex_text(b)[i]),
    decreases b.len(),
{
    if b.len() > 0 {
        lemma_hex_text(b.drop_last());
        let t = hex_text(b);
        let p = hex_text(b.drop_last());
        assert forall|i: int| 0 <= i < t.len() implies is_lower_hex(#[trigger] t[i]) by {
            if i < p.len() {
                assert(t[i] == p[i]);
            }
        }
    }
}

fn hex_char(d: u8) -> (c: char)
    requires
        d < 16,
    ensures
        c == hex_digit(d as nat),
{
    if d < 10 {
        ('0' as u8 + d) as char
    } else {
        ('a' as u8 + (d - 10)) as char
    }
}

/// The lower-case hexadecimal text of some bytes, as `{:02x}` writes each byte.
pub fn to_hex(b: &Vec<u8>) -> (s: String)
    ensures
        s@ == hex_text(b@),
        s@.len() == 2 * b@.len(),
        forall|i: int| 0 <= i < s@.len() ==> is_lower_hex(#[trigger] s@[i]),
{
    let mut s = String::new();
    let mut i: usize = 0;
    while i < b.len()
        invariant
            i <= b@.len(),
            s@ == hex_text(b@.take(i as int)),
        decreases b.len() - i,
    {
        push_char(&mut s, hex_char(b[i] / 16));
        push_char(&mut s, hex_char(b[i] % 16));
        i = i + 1;
        assert(b@.take(i as int).drop_last() =~= b@.take(i - 1));
        assert(s@ =~= hex_text(b@.take(i as int)));
    }
    assert(b@.take(b.len() as int) =~= b@);
    proof { lemma_hex_text(b@); }
    s
}

/// `bytes` random bytes in lower-case hexadecimal (twice as many digits).
pub fn random_hex(bytes: usize) -> (s: String)
    ensures
        s@.len() == 2 * bytes,
        forall|i: int| 0 <= i < s@.len() ==> is_lower_hex(#[trigger] s@[i]),
{
    let b = random_bytes(bytes);
    to_hex(&b)
}

} // verus!
