//! Pattern replacement, done by the `regex` crate.

use vstd::prelude::*;

verus! {

/// What `Regex::new(pattern)` followed by `replace_all(text, replacement)`
/// gives: `None` where the pattern does not compile, else the text with each
/// leftmost-first, non-overlapping match replaced.
pub uninterp spec fn regex_replaced(pattern: Seq<char>, text: Seq<char>, replacement: Seq<char>) -> Option<Seq<char>>;

/// Compiles `pattern` with `regex::Regex::new` and applies `Regex::replace_all`.
/// Trusted: the outcome is `regex_replaced` of the three arguments; nothing
/// more of the regex semantics is stated.
#[verifier::external_body]
pub(crate) fn replace_all(pattern: &str, text: &str, replacement: &str) -> (r: Option<String>)
    ensures
        r is Some <==> regex_replaced(pattern@, text@, replacement@) is Some,
        r matches Some(s) ==> regex_replaced(pattern@, text@, replacement@) == Some(s@),
{
    match regex::Regex::new(pattern) {
        Ok(re) => Some(re.replace_all(text, replacement).into_owned()),
        Err(_) => None,
    }
}

} // verus!
