//! Text of a command: decoding of the received bytes and trimming of the
//! white space around them.

use vstd::prelude::*;
use vstd::std_specs::iter::IteratorSpec;
use vstd::string::*;
use vstd::utf8::*;

verus! {

/// Whether `c` has the Unicode property White_Space, as `char::is_whitespace`
/// reports it.
pub uninterp spec fn is_whitespace(c: char) -> bool;

/// `text` without its leading white space.
pub open spec fn skip_leading(text: Seq<char>) -> Seq<char>
    decreases text.len(),
{
    if text.len() > 0 && is_whitespace(text.first()) {
        skip_leading(text.drop_first())
    } else {
        text
    }
}

/// `text` without its trailing white space.
pub open spec fn skip_trailing(text: Seq<char>) -> Seq<char>
    decreases text.len(),
{
    if text.len() > 0 && is_whitespace(text.last()) {
        skip_trailing(text.drop_last())
    } else {
        text
    }
}

/// `text` with the white space at both ends removed.
pub open spec fn trimmed(text: Seq<char>) -> Seq<char> {
    skip_trailing(skip_leading(text))
}

/// Calls `char::is_whitespace`. Trusted: the answer is the one that the name
/// `is_whitespace` stands for, a function of the character alone.
#[verifier::external_body]
fn char_is_whitespace(c: char) -> (b: bool)
    ensures
        b == is_whitespace(c),
{
    c.is_whitespace()
}

/// Calls `std::str::from_utf8`. Trusted: the bytes are accepted exactly when
/// they are well-formed UTF-8, and the text returned is made of those bytes.
#[verifier::external_body]
fn utf8_text(data: &[u8]) -> (text: Option<&str>)
    ensures
        text is Some <==> valid_utf8(data@),
        text is Some ==> text->0.spec_bytes() == data@,
{
    std::str::from_utf8(data).ok()
}

/// The characters that `data` encodes, or `None` where `data` is not
/// well-formed UTF-8.
pub fn decode(data: &[u8]) -> (text: Option<Vec<char>>)
    ensures
        text is Some <==> valid_utf8(data@),
        text is Some ==> text->0@ == decode_utf8(data@),
{
    match utf8_text(data) {
        None => None,
        Some(s) => {
            proof {
                encode_utf8_decode_utf8(s@);
            }
            Some(chars_of(s))
        },
    }
}

/// The characters of `s`, in order.
pub(crate) fn chars_of(s: &str) -> (chars: Vec<char>)
    ensures
        chars@ == s@,
{
    broadcast use group_string_axioms;

    let mut chars: Vec<char> = Vec::new();
    let mut rest = s.chars();
    loop
        invariant
            chars@ + rest.remaining() == s@,
            rest.obeys_prophetic_iter_laws(),
        decreases s@.len() - chars@.len(),
    {
        let ghost before = rest.remaining();
        match rest.next() {
            Some(c) => {
                chars.push(c);
                assert(chars@ + rest.remaining() =~= s@) by {
                    assert(before =~= seq![c] + before.drop_first());
                }
            },
            None => {
                assert(chars@ =~= s@);
                return chars;
            },
        }
    }
}

/// Removes the white space at both ends of `text`.
pub fn trim(text: &Vec<char>) -> (inner: Vec<char>)
    ensures
        inner@ == trimmed(text@),
{
    let n: usize = text.len();
    let mut lo: usize = 0;
    assert(text@.subrange(0, n as int) =~= text@);
    while lo < n && char_is_whitespace(text[lo])
        invariant
            lo <= n == text.len(),
            skip_leading(text@) == skip_leading(text@.subrange(lo as int, n as int)),
        decreases n - lo,
    {
        assert(text@.subrange(lo as int, n as int).drop_first() =~= text@.subrange(
            lo + 1,
            n as int,
        ));
        lo += 1;
    }
    let mut hi: usize = n;
    while hi > lo && char_is_whitespace(text[hi - 1])
        invariant
            lo <= hi <= n == text.len(),
            skip_leading(text@) == text@.subrange(lo as int, n as int),
            trimmed(text@) == skip_trailing(text@.subrange(lo as int, hi as int)),
        decreases hi - lo,
    {
        assert(text@.subrange(lo as int, hi as int).drop_last() =~= text@.subrange(
            lo as int,
            hi - 1,
        ));
        hi -= 1;
    }
    let mut inner: Vec<char> = Vec::new();
    let mut i: usize = lo;
    while i < hi
        invariant
            lo <= i <= hi <= text.len(),
            inner@ == text@.subrange(lo as int, i as int),
        decreases hi - i,
    {
        inner.push(text[i]);
        assert(inner@ =~= text@.subrange(lo as int, i + 1));
        i += 1;
    }
    inner
}

} // verus!
