//! The stores and the operations on them.

pub mod session_service;
pub mod utilisateur_service;
