//! Saving a file.

use vstd::prelude::*;

verus! {

/// The answer to a request to save a file.
#[derive(Debug, Clone, PartialEq, Eq)]
pub struct SaveFileToResponse {
    pub status: bool,
    pub message: String,
}

impl SaveFileToResponse {
    /// The answer after the file was saved.
    pub fn success() -> (response: SaveFileToResponse)
        ensures
            response.status,
            response.message@ == "Success"@,
    {
        SaveFileToResponse { status: true, message: "Success".to_string() }
    }
}

} // verus!
