//! Identity and access control for a web forum: password hashing, signed
//! identity tokens, the request pipeline built on them, and the small
//! helpers the rest of the server leans on.

pub mod api;
pub mod auth;
pub mod config;
pub mod error;
pub mod ids;
pub mod middleware;
pub mod models;
pub mod services;
pub mod text;
pub mod time;
pub mod utils;
pub mod validation;
