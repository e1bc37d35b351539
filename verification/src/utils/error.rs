//! Errors as text.

use std::fmt::Debug;
use std::fmt::Display;
use vstd::prelude::*;
use vstd::string::to_string_from_display_ensures;

verus! {

/// The text that an error displays, as it is handed to the window.
pub fn error_to_string<E: Debug + Display>(error: E) -> (text: String)
    ensures
        to_string_from_display_ensures::<E>(&error, text),
{
    error.to_string()
}

} // verus!
