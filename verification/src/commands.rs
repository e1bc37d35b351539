//! What the commands of the application decide and answer.

pub mod cloud_sync;
pub mod docs;
pub mod env;
pub mod fs;
pub mod md_parser;
pub mod test_commands;
