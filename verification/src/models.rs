//! The data that the commands and the sync engine work on.

pub mod app_dir_paths;
pub mod app_state;
pub mod cloud_sync;
pub mod git;
pub mod server_error;
pub mod sync_error;
