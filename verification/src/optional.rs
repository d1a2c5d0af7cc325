//! Texts that may be missing. The transit provider leaves out what it does
//! not know, and the user has not always said what the server would like to
//! know.

use vstd::prelude::*;
use vstd::string::*;

verus! {

/// A text that may be missing, read with `fallback` in its place.
pub open spec fn text_or(text: Option<Seq<char>>, fallback: Seq<char>) -> Seq<char> {
    match text {
        Some(t) => t,
        None => fallback,
    }
}

/// Reads an optional text, with `fallback` where it is missing.
pub fn text_or_else<'a>(text: &'a Option<String>, fallback: &'a str) -> (read: &'a str)
    ensures
        read@ == text_or(text.deep_view(), fallback@),
{
    match text {
        Some(t) => t.as_str(),
        None => fallback,
    }
}

/// Copies an optional text.
pub fn copy_text(text: &Option<String>) -> (copy: Option<String>)
    ensures
        copy.deep_view() == text.deep_view(),
{
    match text {
        Some(t) => Some(t.clone()),
        None => None,
    }
}

} // verus!
