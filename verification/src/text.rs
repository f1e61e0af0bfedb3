//! Small string helpers shared by the other modules. Strings are viewed as
//! sequences of characters; these helpers move between `&str`, `String` and
//! `Vec<char>` without losing that view.

use vstd::prelude::*;
use vstd::string::StringSliceAdditionalSpecFns;
use vstd::utf8::encode_utf8_decode_utf8;

verus! {

/// The characters of an optional string.
pub open spec fn text_of_option(text: Option<&str>) -> Option<Seq<char>> {
    match text {
        Some(s) => Some(s@),
        None => None,
    }
}

/// The characters of an optional owned string.
pub open spec fn text_of_owned(text: Option<String>) -> Option<Seq<char>> {
    match text {
        Some(s) => Some(s@),
        None => None,
    }
}

/// Whether two strings hold the same characters.
pub fn same_text(a: &str, b: &str) -> (r: bool)
    ensures
        r == (a@ == b@),
{
    let x = a.as_bytes();
    let y = b.as_bytes();
    proof {
        encode_utf8_decode_utf8(a@);
        encode_utf8_decode_utf8(b@);
    }
    if x.len() != y.len() {
        return false;
    }
    let mut i: usize = 0;
    while i < x.len()
        invariant
            x@ == a.spec_bytes(),
            y@ == b.spec_bytes(),
            x@.len() == y@.len(),
            i <= x@.len(),
            forall|j: int| 0 <= j < i ==> x@[j] == y@[j],
        decreases x@.len() - i,
    {
        if x[i] != y[i] {
            return false;
        }
        i += 1;
    }
    assert(x@ =~= y@);
    true
}

/// The characters of a string, in order.
pub fn chars_of(s: &str) -> (v: Vec<char>)
    ensures
        v@ == s@,
{
    let mut v: Vec<char> = Vec::new();
    for c in it: s.chars()
        invariant
            v@ == it.seq().take(it.index() as int),
    {
        v.push(c);
    }
    v
}

/// `text` without `prefix` in front, where it begins with it; else `text`
/// as it is. The prefix is taken off once.
pub open spec fn without_prefix(text: Seq<char>, prefix: Seq<char>) -> Seq<char> {
    if prefix.is_prefix_of(text) {
        text.skip(prefix.len() as int)
    } else {
        text
    }
}

/// Whether `prefix` stands in `text` at position `at`.
fn stands_at(text: &Vec<char>, at: usize, prefix: &Vec<char>) -> (found: bool)
    requires
        at <= text.len(),
    ensures
        found == prefix@.is_prefix_of(text@.skip(at as int)),
{
    if prefix.len() > text.len() - at {
        return false;
    }
    let ghost rest = text@.skip(at as int);
    let mut i: usize = 0;
    while i < prefix.len()
        invariant
            at <= text.len(),
            prefix.len() <= text.len() - at,
            i <= prefix.len(),
            rest == text@.skip(at as int),
            forall|j: int| 0 <= j < i ==> prefix@[j] == rest[j],
        decreases prefix.len() - i,
    {
        if text[at + i] != prefix[i] {
            assert(rest[i as int] == text@[at + i]);
            assert(rest.subrange(0, prefix.len() as int)[i as int] != prefix@[i as int]);
            return false;
        }
        assert(rest[i as int] == text@[at + i]);
        i += 1;
    }
    assert(prefix@ =~= rest.subrange(0, prefix.len() as int));
    true
}

/// Whether `text` begins with `prefix`.
pub fn starts_with(text: &str, prefix: &str) -> (found: bool)
    ensures
        found == prefix@.is_prefix_of(text@),
{
    let text_chars = chars_of(text);
    let prefix_chars = chars_of(prefix);
    assert(text_chars@.skip(0) =~= text_chars@);
    stands_at(&text_chars, 0, &prefix_chars)
}

/// Takes `prefix` off the front of `text` once, where `text` begins with
/// it.
pub fn strip_prefix(text: &str, prefix: &str) -> (rest: String)
    ensures
        rest@ == without_prefix(text@, prefix@),
{
    let text_chars = chars_of(text);
    let prefix_chars = chars_of(prefix);
    assert(text_chars@.skip(0) =~= text_chars@);
    if !stands_at(&text_chars, 0, &prefix_chars) {
        return text.to_owned();
    }
    let from: usize = prefix_chars.len();
    let mut rest: Vec<char> = Vec::new();
    let mut i: usize = from;
    while i < text_chars.len()
        invariant
            from <= i <= text_chars.len(),
            rest@ == text_chars@.subrange(from as int, i as int),
        decreases text_chars.len() - i,
    {
        rest.push(text_chars[i]);
        assert(text_chars@.subrange(from as int, i + 1) =~= text_chars@.subrange(
            from as int,
            i as int,
        ).push(text_chars@[i as int]));
        i += 1;
    }
    string_of(&rest)
}

/// Builds a string from characters with `String::from_iter`, which
/// collects the characters in order and adds or drops none.
#[verifier::external_body]
pub(crate) fn string_of(chars: &Vec<char>) -> (text: String)
    ensures
        text@ == chars@,
{
    String::from_iter(chars.iter())
}

} // verus!
