//! Small helpers on strings, stated over their character sequences.

use vstd::prelude::*;
use vstd::string::*;
use vstd::utf8::{encode_utf8, encode_utf8_decode_utf8};

verus! {

/// The characters of an optional string.
pub open spec fn text_of(value: Option<String>) -> Option<Seq<char>> {
    match value {
        Some(text) => Some(text@),
        None => None,
    }
}

/// Whether two strings hold the same characters.
pub fn same_text(a: &str, b: &str) -> (same: bool)
    ensures
        same == (a@ == b@),
{
    let x = a.as_bytes();
    let y = b.as_bytes();
    proof {
        encode_utf8_decode_utf8(a@);
        encode_utf8_decode_utf8(b@);
    }
    if x.len() != y.len() {
        return false;
    }
    let mut i: usize = 0;
    while i < x.len()
        invariant
            i <= x.len(),
            x.len() == y.len(),
            x@ == encode_utf8(a@),
            y@ == encode_utf8(b@),
            forall|j: int| 0 <= j < i ==> x@[j] == y@[j],
        decreases x.len() - i,
    {
        if x[i] != y[i] {
            return false;
        }
        i += 1;
    }
    assert(x@ =~= y@);
    true
}

/// The characters of a string, in order.
pub fn chars_of(text: &str) -> (chars: Vec<char>)
    ensures
        chars@ == text@,
{
    let mut chars: Vec<char> = Vec::new();
    for c in it: text.chars()
        invariant
            chars@ == it.seq().take(it.index() as int),
            it.seq() == text@,
    {
        chars.push(c);
    }
    chars
}

/// The lower-case form of a text as `str::to_lowercase` gives it, by the
/// rules of Unicode.
pub uninterp spec fn lowercase(text: Seq<char>) -> Seq<char>;

/// Calls `str::to_lowercase`. Trusted: the result is the one that
/// `lowercase` names.
#[verifier::external_body]
pub(crate) fn to_lowercase(text: &str) -> (lowered: String)
    ensures
        lowered@ == lowercase(text@),
{
    text.to_lowercase()
}

/// `text` without the dots it starts with.
pub open spec fn without_leading_dots(text: Seq<char>) -> Seq<char>
    decreases text.len(),
{
    if text.len() > 0 && text[0] == '.' {
        without_leading_dots(text.skip(1))
    } else {
        text
    }
}

/// Strips the dots that `text` starts with.
pub fn trim_leading_dots(text: &str) -> (trimmed: &str)
    ensures
        trimmed@ == without_leading_dots(text@),
{
    let chars = chars_of(text);
    let mut dots: usize = 0;
    assert(text@.skip(0) =~= text@);
    while dots < chars.len() && chars[dots] == '.'
        invariant
            chars@ == text@,
            dots <= chars.len(),
            without_leading_dots(text@) == without_leading_dots(text@.skip(dots as int)),
        decreases chars.len() - dots,
    {
        assert(text@.skip(dots as int).skip(1) =~= text@.skip(dots + 1));
        dots += 1;
    }
    assert(text@.skip(dots as int) =~= text@.subrange(dots as int, text@.len() as int));
    text.substring_char(dots, chars.len())
}

} // verus!
