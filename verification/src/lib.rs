//! A limbo server's connection logic: the phases a connection walks through,
//! the check of an identity that a trusted proxy forwards, and the registry of
//! the players that are logged in.
//!
//! Nothing here touches a socket. Each phase is a function from what was read
//! to what has to be written, so that the transport stays with the caller.

pub mod config;
pub mod network;
pub mod player;
pub mod utils;
