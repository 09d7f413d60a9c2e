//! Small helpers on strings.

use vstd::prelude::*;

verus! {

/// Compares two strings through `str::eq`. Trusted: the result says whether
/// they hold the same characters.
#[verifier::external_body]
pub(crate) fn str_eq(left: &str, right: &str) -> (same: bool)
    ensures
        same == (left@ == right@),
{
    left == right
}

/// The text inside an optional string.
pub open spec fn text_of(value: Option<String>) -> Option<Seq<char>> {
    match value {
        Some(text) => Some(text@),
        None => None,
    }
}

} // verus!
