//! String operations of the standard library that the crate takes on trust.

use vstd::prelude::*;

verus! {

/// `str::starts_with` of the standard library, called with a string slice as
/// the pattern: true exactly when the characters of `prefix` are the first
/// characters of `text`.
#[verifier::external_body]
pub(crate) fn starts_with(text: &str, prefix: &str) -> (found: bool)
    ensures
        found == prefix@.is_prefix_of(text@),
{
    text.starts_with(prefix)
}

/// `==` of the standard library on string slices: true exactly when both
/// hold the same characters.
#[verifier::external_body]
pub(crate) fn same_text(left: &str, right: &str) -> (same: bool)
    ensures
        same == (left@ == right@),
{
    left == right
}

} // verus!
