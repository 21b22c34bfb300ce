//! The request and response messages, and the handlers that map them to commands.

pub mod handlers;
pub mod models;
pub mod server;
