//! Key patterns: the wildcard that selects every key, and substring
//! containment for every other pattern.

use vstd::prelude::*;

verus! {

/// The pattern that selects every key: the one-character string `*`.
pub open spec fn wildcard() -> Seq<char> {
    seq!['*']
}

/// `needle` is found in `hay` starting at position `at`.
pub open spec fn occurs_at(needle: Seq<char>, hay: Seq<char>, at: int) -> bool {
    &&& 0 <= at
    &&& at + needle.len() <= hay.len()
    &&& hay.subrange(at, at + needle.len()) == needle
}

/// `needle` is a contiguous part of `hay`. Characters are compared as they
/// are: no case folding, no metacharacters.
pub open spec fn occurs_in(needle: Seq<char>, hay: Seq<char>) -> bool {
    exists|at: int| occurs_at(needle, hay, at)
}

/// `pattern` selects `key`: the wildcard selects every key, any other
/// pattern selects the keys it occurs in.
pub open spec fn selects(pattern: Seq<char>, key: Seq<char>) -> bool {
    pattern == wildcard() || occurs_in(pattern, key)
}

/// Tells whether `pattern` is the wildcard.
pub fn is_wildcard(pattern: &str) -> (yes: bool)
    ensures
        yes == (pattern@ == wildcard()),
{
    let yes = pattern.unicode_len() == 1 && pattern.get_char(0) == '*';
    proof {
        if yes {
            assert(pattern@ =~= wildcard());
        }
    }
    yes
}

/// Substring search as `str::contains` performs it for a string pattern:
/// the answer is `true` exactly when the characters of `needle` appear, in
/// order and without gaps, somewhere in `hay`. The empty needle is found in
/// every string.
#[verifier::external_body]
pub(crate) fn contains_str(hay: &str, needle: &str) -> (found: bool)
    ensures
        found == occurs_in(needle@, hay@),
{
    hay.contains(needle)
}

} // verus!
