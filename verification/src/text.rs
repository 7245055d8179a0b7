//! Optional text fields: their view, their copy and their comparison.

use vstd::prelude::*;

verus! {

/// The view of an optional text: the characters it holds, if any.
pub open spec fn opt_text(field: Option<String>) -> Option<Seq<char>> {
    match field {
        Some(s) => Some(s@),
        None => None,
    }
}

/// A copy of an optional text.
pub fn clone_text(field: &Option<String>) -> (res: Option<String>)
    ensures
        res == *field,
{
    match field {
        Some(s) => Some(s.clone()),
        None => None,
    }
}

/// Whether the optional text is present and reads `wanted`.
pub fn text_is(field: &Option<String>, wanted: &String) -> (yes: bool)
    ensures
        yes == (opt_text(*field) == Some(wanted@)),
{
    match field {
        Some(s) => *s == *wanted,
        None => false,
    }
}

/// An owned copy of `s`.
pub fn owned(s: &str) -> (res: String)
    ensures
        res@ == s@,
{
    s.to_owned()
}

} // verus!
