//! The records of the subsystem and their mathematical views.

pub mod session_models;
pub mod utilisateur_models;
