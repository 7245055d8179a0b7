//! Authentication and session lifecycle for an apiary management backend:
//! password hashing, signed bearer tokens, server-side sessions with explicit
//! and time-based revocation, and the request gate that ties them together.

pub mod clock;
pub mod config;
pub mod error;
pub mod models;
pub mod password;
pub mod text;
pub mod token;
pub mod services;
pub mod middleware;
pub mod table;
pub mod controllers;
