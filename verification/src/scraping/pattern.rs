//! Regular expressions, as the `regex` crate reads them.

use vstd::prelude::*;

verus! {

/// Whether the pattern matches somewhere in the text; `None` where the
/// pattern does not compile.
pub uninterp spec fn regex_matches(pattern: Seq<char>, case_insensitive: bool, text: Seq<char>) -> Option<bool>;

/// What the pattern's first group holds in the leftmost match: the outer
/// `None` where the pattern does not compile, the inner where nothing
/// matches or the group took no part.
pub uninterp spec fn regex_first_group(pattern: Seq<char>, text: Seq<char>) -> Option<Option<Seq<char>>>;

/// Compiles the pattern with `regex::RegexBuilder`, case-insensitive on
/// request, and asks `Regex::is_match` of the text. The answer is the one
/// the crate gives for these arguments; a pattern it rejects gives `None`.
#[verifier::external_body]
pub(crate) fn is_match(pattern: &str, case_insensitive: bool, text: &str) -> (found: Option<bool>)
    ensures
        found == regex_matches(pattern@, case_insensitive, text@),
{
    match regex::RegexBuilder::new(pattern).case_insensitive(case_insensitive).build() {
        Ok(expression) => Some(expression.is_match(text)),
        Err(_) => None,
    }
}

/// Compiles the pattern with `regex::Regex::new` and takes the first group
/// of `Regex::captures` on the text. The answer is the one the crate gives
/// for these arguments; a pattern it rejects gives the outer `None`.
#[verifier::external_body]
pub(crate) fn first_group(pattern: &str, text: &str) -> (group: Option<Option<String>>)
    ensures
        match group {
            Some(Some(found)) => regex_first_group(pattern@, text@) == Some(Some(found@)),
            Some(None) => regex_first_group(pattern@, text@) == Some(None::<Seq<char>>),
            None => regex_first_group(pattern@, text@) is None,
        },
{
    match regex::Regex::new(pattern) {
        Ok(expression) => match expression.captures(text) {
            Some(found) => match found.get(1) {
                Some(group) => Some(Some(group.as_str().to_string())),
                None => Some(None),
            },
            None => Some(None),
        },
        Err(_) => None,
    }
}

} // verus!
