//! The settings of the process. They are read once, before the server starts,
//! and handed to whatever needs them.

use vstd::prelude::*;
use crate::config::ty::GameMode;

pub mod ty;

verus! {

/// The settings of the process.
#[derive(Debug, Clone, PartialEq, Eq)]
pub struct Config {
    /// IP address to bind to
    pub host: String,
    /// Port to bind to
    pub port: u16,
    /// Maximum number of players allowed on the server
    pub max_players: i32,
    /// Message of the day to display in the server list
    pub motd: String,
    /// Version to display in the server list
    pub version: String,
    /// Server brand to display in the debug screen
    pub brand: String,
    /// Whether the server is behind a proxy that forwards the players' identities
    pub uses_velocity_modern: bool,
    /// The secret to verify what the proxy forwards, if it does
    pub velocity_forwarding_secret: String,
    /// Whether the players' addresses are kept out of what the server prints
    pub hide_player_ips: bool,
    /// The mode in which players join
    pub default_gamemode: GameMode,
    /// Whether players may fly
    pub allow_flight: bool,
}

} // verus!
