//! Comparing text.

use vstd::prelude::*;

verus! {

/// Tells whether two string slices hold the same text. Calls the `==` of
/// `str`, which compares the two slices character by character.
#[verifier::external_body]
pub(crate) fn same_text(first: &str, second: &str) -> (same: bool)
    ensures
        same == (first@ == second@),
{
    first == second
}

} // verus!
