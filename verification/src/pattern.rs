//! Regular expressions, as the `regex` crate matches them.

use vstd::prelude::*;

verus! {

/// The error with which the `regex` crate rejects a pattern.
#[verifier::external_type_specification]
#[verifier::external_body]
pub struct ExRegexError(regex::Error);

/// Whether the regular expression `pattern` matches anywhere in `text`, as
/// the `regex` crate decides it; `None` if the crate rejects the pattern.
pub uninterp spec fn regex_matches(pattern: Seq<char>, text: Seq<char>) -> Option<bool>;

/// The matches of the regular expression `pattern` in `text`, from left to
/// right and without overlap, as the `regex` crate finds them; `None` if the
/// crate rejects the pattern. Each match is the list of its capture groups,
/// the whole match first: the text that the group matched, or `None` for a
/// group that took no part in the match.
pub uninterp spec fn regex_captures(pattern: Seq<char>, text: Seq<char>) -> Option<
    Seq<Seq<Option<Seq<char>>>>,
>;

/// Trusted: `regex::Regex::new`, then `Regex::is_match`. Claims only that
/// the answer is the one named `regex_matches`: an error where the crate
/// rejects the pattern, and otherwise whether it finds a match.
#[verifier::external_body]
pub(crate) fn is_match(pattern: &str, text: &str) -> (r: Result<bool, regex::Error>)
    ensures
        match r {
            Ok(found) => regex_matches(pattern@, text@) == Some(found),
            Err(_) => regex_matches(pattern@, text@) is None,
        },
{
    let re = regex::Regex::new(pattern)?;
    Ok(re.is_match(text))
}

/// Trusted: `regex::Regex::new`, then `Regex::captures_iter`, each match
/// copied out group by group with `Captures::iter` and `Match::as_str`.
/// Claims only that the answer is the one named `regex_captures`.
#[verifier::external_body]
pub(crate) fn captures(pattern: &str, text: &str) -> (r: Result<
    Vec<Vec<Option<String>>>,
    regex::Error,
>)
    ensures
        match r {
            Ok(found) => regex_captures(pattern@, text@) == Some(found.deep_view()),
            Err(_) => regex_captures(pattern@, text@) is None,
        },
{
    let re = regex::Regex::new(pattern)?;
    Ok(
        re.captures_iter(text).map(
            |found| found.iter().map(|group| group.map(|m| m.as_str().to_string())).collect(),
        ).collect(),
    )
}

} // verus!
