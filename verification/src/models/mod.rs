//! The records the forum keeps, as plain values.

pub mod category;
pub mod subcategory;
pub mod user;
