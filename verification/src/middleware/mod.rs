//! What stands between a request and the protected handlers.

pub mod auth;
