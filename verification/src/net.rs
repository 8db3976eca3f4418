//! The command protocol and the engine that serves it.

pub mod channel;
pub mod client;
pub mod command;
pub mod event;
pub mod laws;
