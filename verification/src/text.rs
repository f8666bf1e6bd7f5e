//! Text handling on the helper's output: decoding, trimming, searching.

use core::str::Utf8Error;
use vstd::prelude::*;
use vstd::string::StringSliceAdditionalSpecFns;
use vstd::utf8::{decode_utf8, encode_utf8, valid_utf8};

verus! {

/// `core::str::Utf8Error`, carried through as it is: nothing is read from it.
#[verifier::external_type_specification]
#[verifier::external_body]
pub struct ExUtf8Error(Utf8Error);

/// The error that `core::str::from_utf8` reports for bytes that are not
/// valid UTF-8.
pub uninterp spec fn utf8_error(bytes: Seq<u8>) -> Utf8Error;

/// `core::str::from_utf8` accepts exactly the byte strings that are valid
/// UTF-8 and hands back the same bytes as text; for any other input it
/// reports an error that depends on the bytes alone.
pub assume_specification[ core::str::from_utf8 ](v: &[u8]) -> (res: Result<&str, Utf8Error>)
    ensures
        valid_utf8(v@) ==> res is Ok && res->Ok_0.spec_bytes() == v@,
        !valid_utf8(v@) ==> res is Err && res->Err_0 == utf8_error(v@),
;

/// Whether a character has the Unicode property `White_Space`, which is
/// what `str::trim` takes for whitespace.
pub uninterp spec fn is_whitespace(c: char) -> bool;

/// Whether every character of `s` is whitespace.
pub open spec fn all_whitespace(s: Seq<char>) -> bool {
    forall|k: int| 0 <= k < s.len() ==> is_whitespace(#[trigger] s[k])
}

/// Whether `s` is `kept` with the whitespace `front` before it and the
/// whitespace `back` behind it.
pub open spec fn strips(s: Seq<char>, front: Seq<char>, kept: Seq<char>, back: Seq<char>) -> bool {
    s == front + kept + back && all_whitespace(front) && all_whitespace(back)
}

/// A text without its leading whitespace.
pub open spec fn trimmed_start(s: Seq<char>) -> Seq<char>
    decreases s.len(),
{
    if s.len() > 0 && is_whitespace(s.first()) {
        trimmed_start(s.drop_first())
    } else {
        s
    }
}

/// A text without its trailing whitespace.
pub open spec fn trimmed_end(s: Seq<char>) -> Seq<char>
    decreases s.len(),
{
    if s.len() > 0 && is_whitespace(s.last()) {
        trimmed_end(s.drop_last())
    } else {
        s
    }
}

/// A text without its leading and trailing whitespace.
pub open spec fn trimmed(s: Seq<char>) -> Seq<char> {
    trimmed_end(trimmed_start(s))
}

/// `str::trim` hands back a slice of the text: what was cut off in front
/// of it and behind it is whitespace, and the slice itself neither starts
/// nor ends with whitespace.
#[verifier::external_body]
fn str_trim(s: &str) -> (out: &str)
    ensures
        exists|front: Seq<char>, back: Seq<char>| strips(s@, front, out@, back),
        out@.len() > 0 ==> !is_whitespace(out@.first()) && !is_whitespace(out@.last()),
{
    s.trim()
}

/// Whether `needle` occurs in `haystack` as a contiguous run of characters.
pub open spec fn occurs_in(needle: Seq<char>, haystack: Seq<char>) -> bool {
    exists|i: int|
        0 <= i && i + needle.len() <= haystack.len() && #[trigger] haystack.subrange(
            i,
            i + needle.len(),
        ) == needle
}

/// `str::contains` with a string for its pattern tells whether the pattern
/// matches a sub-slice of the text.
#[verifier::external_body]
pub(crate) fn contains(haystack: &str, needle: &str) -> (found: bool)
    ensures
        found == occurs_in(needle@, haystack@),
{
    haystack.contains(needle)
}

/// Whitespace followed by a text that does not start with whitespace:
/// `trimmed_start` keeps that text.
proof fn lemma_trimmed_start(front: Seq<char>, rest: Seq<char>)
    requires
        all_whitespace(front),
        rest.len() > 0 ==> !is_whitespace(rest.first()),
    ensures
        trimmed_start(front + rest) == rest,
    decreases front.len(),
{
    if front.len() == 0 {
        assert(front + rest =~= rest);
    } else {
        assert((front + rest).first() == front[0]);
        assert((front + rest).drop_first() =~= front.drop_first() + rest);
        assert forall|k: int| 0 <= k < front.drop_first().len() implies is_whitespace(
            #[trigger] front.drop_first()[k],
        ) by {
            assert(front.drop_first()[k] == front[k + 1]);
        }
        lemma_trimmed_start(front.drop_first(), rest);
    }
}

/// A text that does not end with whitespace, followed by whitespace:
/// `trimmed_end` keeps that text.
proof fn lemma_trimmed_end(rest: Seq<char>, back: Seq<char>)
    requires
        all_whitespace(back),
        rest.len() > 0 ==> !is_whitespace(rest.last()),
    ensures
        trimmed_end(rest + back) == rest,
    decreases back.len(),
{
    if back.len() == 0 {
        assert(rest + back =~= rest);
    } else {
        assert((rest + back).last() == back.last());
        assert((rest + back).drop_last() =~= rest + back.drop_last());
        lemma_trimmed_end(rest, back.drop_last());
    }
}

/// The text without the whitespace at its start and at its end.
pub(crate) fn trim(s: &str) -> (t: &str)
    ensures
        t@ == trimmed(s@),
{
    let t = str_trim(s);
    proof {
        let (front, back) = choose|front: Seq<char>, back: Seq<char>|
            strips(s@, front, t@, back);
        if t@.len() > 0 {
            assert((t@ + back).first() == t@.first());
            assert(front + t@ + back =~= front + (t@ + back));
            lemma_trimmed_start(front, t@ + back);
            lemma_trimmed_end(t@, back);
        } else {
            let blank = front + back;
            assert(front + t@ + back =~= blank + Seq::<char>::empty());
            assert(all_whitespace(blank));
            lemma_trimmed_start(blank, Seq::<char>::empty());
            assert(t@ =~= Seq::<char>::empty());
        }
    }
    t
}

/// The text that a byte string encodes, where it is valid UTF-8.
pub(crate) fn decode(bytes: &[u8]) -> (res: Result<&str, Utf8Error>)
    ensures
        valid_utf8(bytes@) ==> res is Ok && res->Ok_0@ == decode_utf8(bytes@),
        !valid_utf8(bytes@) ==> res is Err && res->Err_0 == utf8_error(bytes@),
{
    broadcast use vstd::utf8::encode_utf8_decode_utf8;

    core::str::from_utf8(bytes)
}

/// Texts with the same encoding are the same text.
proof fn lemma_encoding_tells_texts_apart(a: Seq<char>, b: Seq<char>)
    requires
        encode_utf8(a) == encode_utf8(b),
    ensures
        a == b,
{
    vstd::utf8::encode_utf8_decode_utf8(a);
    vstd::utf8::encode_utf8_decode_utf8(b);
}

/// Whether two texts are the same, character by character.
pub(crate) fn same_text(a: &str, b: &str) -> (same: bool)
    ensures
        same == (a@ == b@),
{
    let x = a.as_bytes();
    let y = b.as_bytes();
    if x.len() != y.len() {
        return false;
    }
    let mut i: usize = 0;
    while i < x.len()
        invariant
            x@ == encode_utf8(a@),
            y@ == encode_utf8(b@),
            x@.len() == y@.len(),
            i <= x@.len(),
            x@.subrange(0, i as int) == y@.subrange(0, i as int),
        decreases x@.len() - i,
    {
        if x[i] != y[i] {
            assert(x@[i as int] != y@[i as int]);
            return false;
        }
        assert(x@.subrange(0, i + 1) =~= x@.subrange(0, i as int).push(x@[i as int]));
        assert(y@.subrange(0, i + 1) =~= y@.subrange(0, i as int).push(y@[i as int]));
        i += 1;
    }
    proof {
        assert(x@ =~= x@.subrange(0, i as int));
        assert(y@ =~= y@.subrange(0, i as int));
        lemma_encoding_tells_texts_apart(a@, b@);
    }
    true
}

} // verus!
