//! Helpers that work on what was found on disk.

pub mod fs;
