//! Services the handlers call on.

pub mod file_scanner;
