//! Helpers for file names and stored files.

pub mod file;
pub mod string;
