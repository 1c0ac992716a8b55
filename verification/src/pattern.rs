//! Pattern filters, compiled by the `regex` crate.

use regex::Regex;
use vstd::prelude::*;

verus! {

/// A compiled pattern of the `regex` crate.
#[verifier::external_type_specification]
#[verifier::external_body]
pub struct ExRegex(regex::Regex);

/// The error with which the `regex` crate rejects a pattern.
#[verifier::external_type_specification]
#[verifier::external_body]
pub struct ExRegexError(regex::Error);

/// Whether `Regex::new` compiles a pattern text.
pub uninterp spec fn regex_accepts(pattern: Seq<char>) -> bool;

/// The pattern text that a compiled pattern was made from: what
/// `Regex::as_str` returns.
pub uninterp spec fn regex_source(re: Regex) -> Seq<char>;

/// Whether a compiled pattern finds a match anywhere in a text: what
/// `Regex::is_match` returns.
pub uninterp spec fn regex_matches(re: Regex, haystack: Seq<char>) -> bool;

/// `Regex::new` compiles a pattern or rejects it, and a compiled pattern
/// remembers the text it was made from.
pub assume_specification[ Regex::new ](pattern: &str) -> (r: Result<Regex, regex::Error>)
    ensures
        r is Ok <==> regex_accepts(pattern@),
        r matches Ok(re) ==> regex_source(re) == pattern@,
;

/// `Regex::as_str` returns the text that the pattern was compiled from.
pub assume_specification<'a>[ Regex::as_str ](re: &'a Regex) -> (source: &'a str)
    ensures
        source@ == regex_source(*re),
;

/// `Regex::is_match` tells whether the pattern matches anywhere in the text.
pub assume_specification[ Regex::is_match ](re: &Regex, haystack: &str) -> (found: bool)
    ensures
        found == regex_matches(*re, haystack@),
;

/// A clone of a compiled pattern was made from the same text and matches the
/// same texts.
pub assume_specification[ <Regex as Clone>::clone ](re: &Regex) -> (copy: Regex)
    ensures
        regex_source(copy) == regex_source(*re),
        forall|haystack: Seq<char>| #[trigger]
            regex_matches(copy, haystack) == regex_matches(*re, haystack),
;

/// The texts that a list of compiled patterns was made from.
pub open spec fn sources(filters: Seq<Regex>) -> Seq<Seq<char>> {
    Seq::new(filters.len(), |i: int| regex_source(filters[i]))
}

/// Whether one of the patterns matches somewhere in the text.
pub open spec fn any_matches(filters: Seq<Regex>, haystack: Seq<char>) -> bool {
    exists|i: int| 0 <= i < filters.len() && regex_matches(#[trigger] filters[i], haystack)
}

/// Tells whether one of the patterns matches somewhere in the text.
pub fn any_match(filters: &Vec<Regex>, haystack: &str) -> (found: bool)
    ensures
        found == any_matches(filters@, haystack@),
{
    let mut i: usize = 0;
    while i < filters.len()
        invariant
            i <= filters.len(),
            forall|j: int| 0 <= j < i ==> !regex_matches(#[trigger] filters@[j], haystack@),
        decreases filters.len() - i,
    {
        if filters[i].is_match(haystack) {
            return true;
        }
        i = i + 1;
    }
    false
}

/// Copies a list of compiled patterns.
pub fn clone_filters(filters: &Vec<Regex>) -> (copy: Vec<Regex>)
    ensures
        sources(copy@) == sources(filters@),
        forall|haystack: Seq<char>| #[trigger]
            any_matches(copy@, haystack) == any_matches(filters@, haystack),
{
    let mut copy: Vec<Regex> = Vec::new();
    let mut i: usize = 0;
    while i < filters.len()
        invariant
            i <= filters.len(),
            copy@.len() == i,
            forall|j: int|
                0 <= j < i ==> regex_source(#[trigger] copy@[j]) == regex_source(filters@[j]),
            forall|j: int, haystack: Seq<char>|
                0 <= j < i ==> #[trigger] regex_matches(copy@[j], haystack) == regex_matches(
                    filters@[j],
                    haystack,
                ),
        decreases filters.len() - i,
    {
        copy.push(filters[i].clone());
        i = i + 1;
    }
    proof {
        assert(sources(copy@) =~= sources(filters@));
        assert forall|haystack: Seq<char>| #[trigger]
            any_matches(copy@, haystack) == any_matches(filters@, haystack) by {
            if any_matches(copy@, haystack) {
                let k = choose|k: int|
                    0 <= k < copy@.len() && regex_matches(#[trigger] copy@[k], haystack);
                assert(regex_matches(filters@[k], haystack));
            }
            if any_matches(filters@, haystack) {
                let k = choose|k: int|
                    0 <= k < filters@.len() && regex_matches(#[trigger] filters@[k], haystack);
                assert(regex_matches(copy@[k], haystack));
            }
        }
    }
    copy
}

} // verus!
