//! The rules of a privileged host agent: what it accepts, what it writes and
//! which steps it takes, stated and proved apart from the system calls.

pub mod app;
pub mod boundary;
pub mod commands;
pub mod config;
pub mod deploy;
pub mod error;
pub mod grpc;
pub mod messages;
pub mod server;
pub mod sys;
pub mod text;
