//! The endpoints: each runs a service and states the status and body of the
//! answer.

pub mod reply;
pub mod session_controller;
pub mod utilisateur_controller;
