//! Building blocks shared by the commands and the sync engine.

pub mod error;
pub mod fsutils;
pub mod git_utils;
pub mod sync_state_manager;
pub mod text;
pub mod time;
pub mod window_event_manager;
