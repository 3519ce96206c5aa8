//! The connection: its phases, and how it fails.

use vstd::prelude::*;
use vstd::string::*;

pub mod connection;
pub mod ext;
pub mod phase;
pub mod server;

verus! {

/// The version of the game that the server speaks.
pub const VERSION: &'static str = "1.20.4";

/// The number of the protocol of that version.
pub const PROTOCOL_VERSION: i32 = 765;

/// The stage a connection is in. A connection only ever moves forward through
/// these.
#[derive(Debug, Clone, Copy, PartialEq, Eq, Structural)]
pub enum ConnectionPhase {
    Handshake,
    Status,
    Login,
    Configuration,
    Game,
}

/// What a client asks for in its handshake.
#[derive(Debug, Clone, Copy, PartialEq, Eq, Structural)]
pub enum ClientIntention {
    Status,
    Login,
}

/// Why a connection ended.
#[derive(Debug, Clone, PartialEq, Eq)]
pub enum ConnectionError {
    /// The server ended the connection, for this reason.
    Disconnect(String),
    /// The transport failed.
    Io {
        /// Whether the peer had closed the pipe that was written to.
        broken_pipe: bool,
        /// What the transport said.
        message: String,
    },
    /// What arrived was no packet of the phase.
    ReadPacket {
        /// Whether the peer had closed the stream.
        connection_closed: bool,
        /// What the decoder said.
        message: String,
    },
    /// No packet arrived in time.
    ReadTimeout(ConnectionPhase),
}

/// A failure as plain values.
pub enum ConnectionErrorView {
    Disconnect(Seq<char>),
    Io { broken_pipe: bool, message: Seq<char> },
    ReadPacket { connection_closed: bool, message: Seq<char> },
    ReadTimeout(ConnectionPhase),
}

impl View for ConnectionError {
    type V = ConnectionErrorView;

    open spec fn view(&self) -> ConnectionErrorView {
        match self {
            ConnectionError::Disconnect(reason) => ConnectionErrorView::Disconnect(reason@),
            ConnectionError::Io { broken_pipe, message } => ConnectionErrorView::Io {
                broken_pipe: *broken_pipe,
                message: message@,
            },
            ConnectionError::ReadPacket {
                connection_closed,
                message,
            } => ConnectionErrorView::ReadPacket {
                connection_closed: *connection_closed,
                message: message@,
            },
            ConnectionError::ReadTimeout(phase) => ConnectionErrorView::ReadTimeout(*phase),
        }
    }
}

/// The name of a phase.
pub open spec fn phase_name(phase: ConnectionPhase) -> Seq<char> {
    match phase {
        ConnectionPhase::Handshake => "Handshake"@,
        ConnectionPhase::Status => "Status"@,
        ConnectionPhase::Login => "Login"@,
        ConnectionPhase::Configuration => "Configuration"@,
        ConnectionPhase::Game => "Game"@,
    }
}

/// The text of each failure.
pub open spec fn connection_error_text(e: ConnectionErrorView) -> Seq<char> {
    match e {
        ConnectionErrorView::Disconnect(reason) => "client disconnected: "@ + reason,
        ConnectionErrorView::Io { broken_pipe, message } => "io error: "@ + message,
        ConnectionErrorView::ReadPacket { connection_closed, message } =>
            "error while reading packet: "@ + message,
        ConnectionErrorView::ReadTimeout(phase) => "read timeout while reading packet in phase "@
            + phase_name(phase),
    }
}

impl ConnectionPhase {
    /// The name of the phase.
    pub fn name(&self) -> (s: &'static str)
        ensures
            s@ == phase_name(*self),
    {
        match self {
            ConnectionPhase::Handshake => "Handshake",
            ConnectionPhase::Status => "Status",
            ConnectionPhase::Login => "Login",
            ConnectionPhase::Configuration => "Configuration",
            ConnectionPhase::Game => "Game",
        }
    }
}

impl ConnectionError {
    /// Whether the client closed the connection: the one failure that is the
    /// client's to cause at any time.
    pub fn connection_closed(&self) -> (closed: bool)
        ensures
            closed == (self@ matches ConnectionErrorView::ReadPacket {
                connection_closed: true,
                ..
            }),
    {
        match self {
            ConnectionError::ReadPacket { connection_closed, .. } => *connection_closed,
            _ => false,
        }
    }

    /// Says in words why the connection ended.
    pub fn message(&self) -> (s: String)
        ensures
            s@ == connection_error_text(self@),
    {
        match self {
            ConnectionError::Disconnect(reason) => String::from_str("client disconnected: ").concat(
                reason.as_str(),
            ),
            ConnectionError::Io { message, .. } => String::from_str("io error: ").concat(
                message.as_str(),
            ),
            ConnectionError::ReadPacket { message, .. } => String::from_str(
                "error while reading packet: ",
            ).concat(message.as_str()),
            ConnectionError::ReadTimeout(phase) => String::from_str(
                "read timeout while reading packet in phase ",
            ).concat(phase.name()),
        }
    }
}

} // verus!
