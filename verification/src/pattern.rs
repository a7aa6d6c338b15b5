//! Regular expressions, as far as the log parser needs them: a pattern is
//! compiled once and then searched for in a line, giving the text of each of
//! its groups. The matching itself is the `regex` crate's and is not proved
//! here; contracts speak of it through the two names below.

use vstd::prelude::*;

verus! {

/// `regex::Regex`, a compiled pattern. Nothing of its inside is used here.
#[verifier::external_type_specification]
#[verifier::external_body]
pub struct ExRegex(regex::Regex);

/// `regex::Error`, the reason why a pattern was refused. It is handed on,
/// never looked into.
#[verifier::external_type_specification]
#[verifier::external_body]
pub struct ExRegexError(regex::Error);

/// What `Regex::new` makes of a pattern: the compiled expression, or nothing
/// where the pattern is refused.
pub uninterp spec fn compiled_pattern(pattern: Seq<char>) -> Option<regex::Regex>;

/// What `Regex::captures` finds of an expression in a text: nothing where
/// the expression matches nowhere, else for the leftmost match the text of
/// the whole match and of each group, in the order of their opening
/// brackets, a group that took no part being absent.
pub uninterp spec fn pattern_captures(re: regex::Regex, text: Seq<char>) -> Option<
    Seq<Option<Seq<char>>>,
>;

/// The groups of a match as sequences of characters.
pub open spec fn group_texts(groups: Seq<Option<String>>) -> Seq<Option<Seq<char>>> {
    groups.map_values(
        |g: Option<String>|
            match g {
                Some(s) => Some(s@),
                None => None,
            },
    )
}

/// What searching the pattern `pattern` in `text` gives: the groups of the
/// leftmost match, if the pattern compiles and matches.
pub open spec fn captures_of(pattern: Seq<char>, text: Seq<char>) -> Option<
    Seq<Option<Seq<char>>>,
> {
    match compiled_pattern(pattern) {
        Some(re) => pattern_captures(re, text),
        None => None,
    }
}

/// Calls `regex::Regex::new`. Whether a pattern compiles, and to what,
/// depends on the pattern alone; the contract says no more than that.
#[verifier::external_body]
pub(crate) fn compile(pattern: &str) -> (r: Result<regex::Regex, regex::Error>)
    ensures
        r matches Ok(re) ==> compiled_pattern(pattern@) == Some(re),
        r is Err ==> compiled_pattern(pattern@) is None,
{
    regex::Regex::new(pattern)
}

/// Calls `regex::Regex::captures` and copies the text of each group out of
/// the match, as `Captures::iter` hands them over.
#[verifier::external_body]
pub(crate) fn captures(re: &regex::Regex, text: &str) -> (r: Option<Vec<Option<String>>>)
    ensures
        match r {
            Some(groups) => pattern_captures(*re, text@) == Some(group_texts(groups@)),
            None => pattern_captures(*re, text@) is None,
        },
{
    match re.captures(text) {
        Some(found) => Some(found.iter().map(|g| g.map(|m| m.as_str().to_string())).collect()),
        None => None,
    }
}

} // verus!
