//! Character-level helpers on string slices.
//!
//! Contracts here speak of a string's view, the sequence of its characters, so callers
//! never have to reason about UTF-8 byte offsets.

use vstd::prelude::*;
use vstd::string::*;

verus! {

/// The view of an optional string.
pub open spec fn optional_text(text: Option<String>) -> Option<Seq<char>> {
    match text {
        Some(t) => Some(t@),
        None => None,
    }
}

/// The characters of `s`, one element per character.
pub fn chars_of(s: &str) -> (out: Vec<char>)
    ensures
        out@ == s@,
{
    let mut out: Vec<char> = Vec::new();
    for c in it: s.chars()
        invariant
            it.seq() == s@,
            out@ == s@.subrange(0, it.index() as int),
    {
        out.push(c);
    }
    out
}

/// Whether `haystack` begins with all of `needle`.
pub fn chars_start_with(haystack: &Vec<char>, needle: &Vec<char>) -> (r: bool)
    ensures
        r == needle@.is_prefix_of(haystack@),
{
    if needle.len() > haystack.len() {
        return false;
    }
    let mut i: usize = 0;
    while i < needle.len()
        invariant
            i <= needle.len() <= haystack.len(),
            forall|k: int| 0 <= k < i ==> haystack@[k] == needle@[k],
        decreases needle.len() - i,
    {
        if haystack[i] != needle[i] {
            return false;
        }
        i += 1;
    }
    true
}

/// Whether `s` begins with `prefix`.
pub fn starts_with(s: &str, prefix: &str) -> (r: bool)
    ensures
        r == prefix@.is_prefix_of(s@),
{
    let haystack = chars_of(s);
    let needle = chars_of(prefix);
    chars_start_with(&haystack, &needle)
}

/// What follows `prefix` in `s`, or `None` when `s` does not begin with `prefix`.
pub fn strip_prefix<'a>(s: &'a str, prefix: &str) -> (r: Option<&'a str>)
    ensures
        r is Some <==> prefix@.is_prefix_of(s@),
        r matches Some(rest) ==> rest@ == s@.skip(prefix@.len() as int),
{
    let haystack = chars_of(s);
    let needle = chars_of(prefix);
    if chars_start_with(&haystack, &needle) {
        Some(s.substring_char(needle.len(), haystack.len()))
    } else {
        None
    }
}

/// A prefix followed by the rest is the whole, and the prefix can be taken off again.
pub proof fn lemma_prefix_then_rest(prefix: Seq<char>, rest: Seq<char>)
    ensures
        prefix.is_prefix_of(prefix + rest),
        (prefix + rest).skip(prefix.len() as int) == rest,
{
}

} // verus!
