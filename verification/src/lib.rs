//! A local-first document store with an optional cloud sync engine.
//!
//! The library holds the rules of the sync engine: admission control over the
//! two sync flags, the pull / commit / push decision tree, progress events and
//! the results handed back to callers. Network, disk and window I/O are left to
//! the program around it, which performs the commands the engine hands out and
//! reports back what happened.

pub mod commands;
pub mod constants;
pub mod models;
pub mod utils;
