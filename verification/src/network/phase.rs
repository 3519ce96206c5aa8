//! The phases of a connection, one module each.
//!
//! A phase does not read or write. It is told what the client sent and says
//! what the server has to do about it.

pub mod configuration;
pub mod game;
pub mod handshake;
pub mod login;
pub mod status;
