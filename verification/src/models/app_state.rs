//! The state that every command works on.

use vstd::prelude::*;
use crate::models::app_dir_paths::AppDirPaths;
use crate::utils::sync_state_manager::SyncCoordinator;

verus! {

/// State of the application.
#[derive(Debug, Clone)]
pub struct AppState {
    /// Filesystem paths of the application's own directories.
    pub dir_paths: AppDirPaths,
    /// The flags that admit one sync-class operation at a time.
    pub sync_flags: SyncCoordinator,
}

} // verus!
