//! The stages a request passes before it reaches a protected handler.

pub mod auth;

pub use auth::{AdminMiddleware, AdminMiddlewareService, AuthMiddleware, AuthMiddlewareService};
