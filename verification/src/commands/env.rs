//! What the window learns about the environment.

use vstd::prelude::*;

verus! {

/// The environment of the application.
#[derive(Debug, Clone, PartialEq, Eq)]
pub struct EnvResponse {
    /// The directory that the platform sets aside for the application.
    pub app_dir_path: Option<String>,
}

impl EnvResponse {
    /// The answer that holds the application's directory, if there is one.
    pub fn new(app_dir_path: Option<String>) -> (response: EnvResponse)
        ensures
            response.app_dir_path == app_dir_path,
    {
        EnvResponse { app_dir_path }
    }
}

} // verus!
