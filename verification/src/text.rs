//! Two operations on texts that the standard library offers and the
//! verifier knows nothing about.

use vstd::prelude::*;

verus! {

/// Calls `str::eq`.
///
/// Trusted: two texts compare equal exactly when they hold the same
/// characters in the same order.
#[verifier::external_body]
pub(crate) fn same_text(left: &str, right: &str) -> (same: bool)
    ensures
        same == (left@ == right@),
{
    left == right
}

/// Calls `str::strip_prefix`.
///
/// Trusted: where `text` starts with `prefix`, the rest of `text` behind the
/// prefix is returned; otherwise nothing is.
#[verifier::external_body]
pub(crate) fn strip_prefix<'a>(text: &'a str, prefix: &str) -> (rest: Option<&'a str>)
    ensures
        match rest {
            Some(tail) => text@ == prefix@ + tail@,
            None => !prefix@.is_prefix_of(text@),
        },
{
    text.strip_prefix(prefix)
}

} // verus!
