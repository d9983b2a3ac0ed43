//! What the handlers decide, apart from the database and the wire.
//!
//! A handler looks things up, asks the functions here what to do with what
//! it found, and stores or sends the result.

pub mod auth;
pub mod categories;
pub mod users;
