//! Regular expressions. Patterns are written by server admins, so their
//! compiled size and the size of their matcher's cache are capped.

use vstd::prelude::*;

verus! {

/// Cap on the compiled size of a pattern, in bytes.
pub const SIZE_LIMIT: usize = 1_048_576;

/// Cap on the matcher's cache, in bytes.
pub const DFA_SIZE_LIMIT: usize = 1_048_576;

/// Whether `regex::RegexBuilder::build` accepts a pattern under the given caps.
/// The size that it holds against the cap counts pointers, so it depends on
/// their width as well.
pub uninterp spec fn regex_compiles(pattern: Seq<char>, size_limit: nat, dfa_size_limit: nat, pointer_bits: nat) -> bool;

/// Whether `regex::Regex::is_match` finds the pattern somewhere in the text.
pub uninterp spec fn regex_finds(pattern: Seq<char>, haystack: Seq<char>) -> bool;

/// True for the patterns that a rule may hold.
pub open spec fn acceptable(pattern: Seq<char>) -> bool {
    regex_compiles(pattern, SIZE_LIMIT as nat, DFA_SIZE_LIMIT as nat, usize::BITS as nat)
}

/// True when the text holds a match of an acceptable pattern.
pub open spec fn found(pattern: Seq<char>, haystack: Seq<char>) -> bool {
    acceptable(pattern) && regex_finds(pattern, haystack)
}

/// `regex::RegexBuilder::new(pattern)` with `size_limit` and `dfa_size_limit`,
/// then `build`: says whether a regex came out. Which patterns those are is the
/// crate's own grammar, and is only named here.
#[verifier::external_body]
fn build(pattern: &str, size_limit: usize, dfa_size_limit: usize) -> (r: bool)
    ensures
        r == regex_compiles(
            pattern@,
            size_limit as nat,
            dfa_size_limit as nat,
            usize::BITS as nat,
        ),
{
    regex::RegexBuilder::new(pattern)
        .size_limit(size_limit)
        .dfa_size_limit(dfa_size_limit)
        .build()
        .is_ok()
}

/// The same build, then `regex::Regex::is_match` on the text. Nothing comes out
/// where the pattern does not build; otherwise what comes out depends on the
/// pattern and the text alone.
#[verifier::external_body]
fn build_and_search(
    pattern: &str,
    size_limit: usize,
    dfa_size_limit: usize,
    haystack: &str,
) -> (r: Option<bool>)
    ensures
        r is Some == regex_compiles(
            pattern@,
            size_limit as nat,
            dfa_size_limit as nat,
            usize::BITS as nat,
        ),
        r is Some ==> r->0 == regex_finds(pattern@, haystack@),
{
    regex::RegexBuilder::new(pattern)
        .size_limit(size_limit)
        .dfa_size_limit(dfa_size_limit)
        .build()
        .ok()
        .map(|re| re.is_match(haystack))
}

/// Tests a pattern at save time, so that a bad one cannot surface only at
/// evaluation.
pub fn compiles(pattern: &str) -> (r: bool)
    ensures
        r == acceptable(pattern@),
{
    build(pattern, SIZE_LIMIT, DFA_SIZE_LIMIT)
}

/// Searches the text for the pattern. A pattern that does not compile is found
/// nowhere.
pub fn search(pattern: &str, haystack: &str) -> (r: bool)
    ensures
        r == found(pattern@, haystack@),
{
    verdict(build_and_search(pattern, SIZE_LIMIT, DFA_SIZE_LIMIT, haystack))
}

/// What a search says: nothing is found with a pattern that does not compile.
pub fn verdict(outcome: Option<bool>) -> (r: bool)
    ensures
        r == (outcome == Some(true)),
{
    match outcome {
        Some(hit) => hit,
        None => false,
    }
}

} // verus!
