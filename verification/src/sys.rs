//! The managers of host facilities: each turns a typed request into the files
//! and the commands that carry it out.

pub mod apache;
pub mod builder;
pub mod cleanup;
pub mod environment;
pub mod firewall;
pub mod git;
pub mod jail;
pub mod logs;
pub mod names;
pub mod nginx;
pub mod scheduler;
pub mod secrets;
pub mod ssl;
pub mod systemd;
