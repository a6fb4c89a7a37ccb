//! Edit distance between titles, computed by `strsim`.

use vstd::prelude::*;

verus! {

pub open spec fn min2(a: nat, b: nat) -> nat {
    if a <= b { a } else { b }
}

/// The Levenshtein distance: the least number of single-character insertions,
/// deletions and substitutions that turn `a` into `b`.
pub open spec fn edit_distance(a: Seq<char>, b: Seq<char>) -> nat
    decreases a.len() + b.len(),
{
    if a.len() == 0 {
        b.len()
    } else if b.len() == 0 {
        a.len()
    } else {
        let substitution: nat = if a.last() == b.last() { 0 } else { 1 };
        min2(
            min2(edit_distance(a.drop_last(), b) + 1, edit_distance(a, b.drop_last()) + 1),
            edit_distance(a.drop_last(), b.drop_last()) + substitution,
        )
    }
}

/// A text is at distance zero from itself, and from no other text.
pub proof fn law_edit_distance_zero_iff_equal(a: Seq<char>, b: Seq<char>)
    ensures
        edit_distance(a, b) == 0 <==> a == b,
    decreases a.len() + b.len(),
{
    if a.len() > 0 && b.len() > 0 {
        law_edit_distance_zero_iff_equal(a.drop_last(), b.drop_last());
        if a == b {
            assert(a.drop_last() == b.drop_last());
        }
        if edit_distance(a, b) == 0 {
            assert(a =~= a.drop_last().push(a.last()));
            assert(b =~= b.drop_last().push(b.last()));
        }
    } else if a.len() == 0 && b.len() == 0 {
        assert(a =~= b);
    }
}

/// Calls `strsim::levenshtein`. Trusted: it returns the Levenshtein distance
/// between the characters of the two strings, as its documentation says.
#[verifier::external_body]
pub(crate) fn levenshtein(a: &str, b: &str) -> (d: usize)
    ensures
        d == edit_distance(a@, b@),
{
    strsim::levenshtein(a, b)
}

} // verus!
