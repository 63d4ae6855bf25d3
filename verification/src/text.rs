//! Text as sequences of characters: building strings piece by piece, and what
//! it means for one text to occur inside another.

use vstd::prelude::*;

verus! {

/// `String::push_str` of the standard library: the string afterwards is the
/// string before followed by the characters of `string`.
pub assume_specification[ String::push_str ](s: &mut String, string: &str)
    ensures
        final(s)@ == old(s)@ + string@,
;

/// `needle` occurs in `hay` as a run of consecutive characters starting at `at`.
pub open spec fn occurs_at(hay: Seq<char>, needle: Seq<char>, at: int) -> bool {
    &&& 0 <= at
    &&& at + needle.len() <= hay.len()
    &&& hay.subrange(at, at + needle.len()) == needle
}

/// `needle` occurs somewhere in `hay`.
pub open spec fn contains(hay: Seq<char>, needle: Seq<char>) -> bool {
    exists|at: int| occurs_at(hay, needle, at)
}

/// A text occurs in whatever is built by putting something before it and
/// something after it.
pub proof fn lemma_contains_between(before: Seq<char>, needle: Seq<char>, after: Seq<char>)
    ensures
        contains(before + needle + after, needle),
{
    let hay = before + needle + after;
    let at = before.len() as int;
    assert(hay.subrange(at, at + needle.len()) =~= needle);
    assert(occurs_at(hay, needle, at));
}

/// A copy of `s` with `tail` behind it.
pub fn joined(s: &str, tail: &str) -> (r: String)
    ensures
        r@ == s@ + tail@,
{
    let mut r = s.to_owned();
    r.push_str(tail);
    r
}

} // verus!
