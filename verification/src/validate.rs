//! The validation that every caller-supplied string passes before any table
//! is touched.

use vstd::prelude::*;
use crate::error::{Error, ErrorView};

verus! {

/// Checks a display name. Only the empty name is refused; any other string
/// comes back exactly as it was given, with no trimming and no normalising.
pub fn validate_name(name: String) -> (r: Result<String, Error>)
    ensures
        name@.len() == 0 ==> r is Err && r->Err_0@ == ErrorView::empty_name(),
        name@.len() > 0 ==> r == Ok::<String, Error>(name),
{
    if name.as_str().is_empty() {
        Err(Error::empty_name())
    } else {
        Ok(name)
    }
}

/// Checks a message text. Only the empty text is refused; any other string,
/// of any length and content, comes back exactly as it was given.
pub fn validate_message(text: String) -> (r: Result<String, Error>)
    ensures
        text@.len() == 0 ==> r is Err && r->Err_0@ == ErrorView::empty_message(),
        text@.len() > 0 ==> r == Ok::<String, Error>(text),
{
    if text.as_str().is_empty() {
        Err(Error::empty_message())
    } else {
        Ok(text)
    }
}

} // verus!
