//! Names that are fixed once and for all.

pub mod paths;
