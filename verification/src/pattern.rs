//! The boundary to the `regex` crate.
//!
//! A compiled [`Regex`] is opaque to the verifier. What the rest of the library
//! knows about one is the pattern text it was compiled from, and that what
//! matching yields depends on the regex and the haystack alone.

use regex::Regex;
use vstd::prelude::*;

verus! {

/// `regex::Regex`, a compiled regular expression: carried as an opaque value.
#[verifier::external_type_specification]
#[verifier::external_body]
pub struct ExRegex(regex::Regex);

/// `regex::Error`, why a pattern did not compile: carried as an opaque value.
#[verifier::external_type_specification]
#[verifier::external_body]
pub struct ExRegexError(regex::Error);

/// The pattern text that `Regex::as_str` reports: the text the regex was compiled from.
pub uninterp spec fn regex_source(re: Regex) -> Seq<char>;

/// Whether `Regex::is_match` finds a match of the regex anywhere in the haystack.
pub uninterp spec fn regex_matches(re: Regex, haystack: Seq<char>) -> bool;

/// What `Regex::captures` finds for the regex in the haystack: `None` without a
/// match, else one entry per capture group of the leftmost match, in group order
/// with the overall match at index 0, each holding the text the group matched or
/// `None` where the group took no part in the match.
pub uninterp spec fn regex_captures(re: Regex, haystack: Seq<char>) -> Option<
    Seq<Option<Seq<char>>>,
>;

/// `Regex::new`: compiles a pattern. Nothing is promised about which patterns
/// compile (that rests on the syntax and on a size limit measured in the memory
/// layout of the machine); a regex that comes back reports the given pattern as
/// its source.
pub assume_specification[ regex::Regex::new ](re: &str) -> (r: Result<Regex, regex::Error>)
    ensures
        r matches Ok(compiled) ==> regex_source(compiled) == re@,
;

/// `Regex::is_match`: the answer depends on the regex and the haystack alone.
pub assume_specification[ regex::Regex::is_match ](re: &Regex, haystack: &str) -> (found: bool)
    ensures
        found == regex_matches(*re, haystack@),
;

/// `Regex::captures`, with each group of the match copied out as an owned string.
/// The groups depend on the regex and the haystack alone.
#[verifier::external_body]
pub(crate) fn capture_groups(re: &Regex, haystack: &str) -> (groups: Option<Vec<Option<String>>>)
    ensures
        groups.deep_view() == regex_captures(*re, haystack@),
{
    re.captures(haystack).map(
        |caps| caps.iter().map(|group| group.map(|m| m.as_str().to_string())).collect(),
    )
}

/// The text of group `index` among `groups`, or `None` where there is no such
/// group or it took no part in the match.
pub open spec fn group_text(groups: Seq<Option<Seq<char>>>, index: int) -> Option<Seq<char>> {
    if 0 <= index < groups.len() {
        groups[index]
    } else {
        None
    }
}

} // verus!
