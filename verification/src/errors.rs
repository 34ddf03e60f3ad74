//! The validation of inbound content.

use vstd::prelude::*;
use vstd::string::*;

verus! {

/// A required field is missing from the content.
#[derive(Debug)]
pub struct ValidationError {
    pub field: String,
}

impl ValidationError {
    /// The error for a required field that was left empty.
    pub fn missing(field: &str) -> (e: ValidationError)
        ensures
            e.field@ == field@,
    {
        ValidationError { field: String::from_str(field) }
    }
}

/// Whether a text is empty.
pub fn is_blank(s: &String) -> (b: bool)
    ensures
        b == (s@.len() == 0),
{
    s.as_str().unicode_len() == 0
}

} // verus!
