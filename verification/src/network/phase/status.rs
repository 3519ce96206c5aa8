//! The status phase: what the server list shows.
//!
//! The client asks for the status and may then send a ping, which is echoed
//! and ends the connection. A client that hangs up in place of the ping has
//! done nothing wrong.

use vstd::prelude::*;
use vstd::string::*;
use crate::config::Config;
use crate::network::server::{player_count, Server};
use crate::network::{ConnectionError, ConnectionErrorView, PROTOCOL_VERSION};

verus! {

/// What a client can send in the status phase.
#[derive(Debug, Clone, Copy, PartialEq, Eq, Structural)]
pub enum StatusPacket {
    /// The client asks for the status.
    StatusRequest,
    /// The client sends a time stamp to have it echoed.
    PingRequest { time: u64 },
}

/// The version that a status names.
#[derive(Debug, PartialEq, Eq)]
pub struct Version {
    pub name: String,
    pub protocol: i32,
}

/// A player whom a status names as an example.
#[derive(Debug, PartialEq, Eq)]
pub struct SamplePlayer {
    pub id: String,
    pub name: String,
}

/// The player counts of a status.
#[derive(Debug, PartialEq, Eq)]
pub struct Players {
    pub max: i32,
    pub online: i32,
    pub sample: Vec<SamplePlayer>,
}

/// The status of the server.
#[derive(Debug, PartialEq, Eq)]
pub struct StatusResponse {
    pub description: String,
    pub favicon: Option<String>,
    pub players: Players,
    pub version: Version,
    pub enforces_secure_chat: Option<bool>,
}

/// A status as plain values. No status of this server has an icon or names
/// players, so the view holds neither.
pub struct StatusResponseView {
    pub description: Seq<char>,
    pub has_favicon: bool,
    pub max: i32,
    pub online: i32,
    pub samples: nat,
    pub version_name: Seq<char>,
    pub protocol: i32,
    pub enforces_secure_chat: Option<bool>,
}

impl View for StatusResponse {
    type V = StatusResponseView;

    open spec fn view(&self) -> StatusResponseView {
        StatusResponseView {
            description: self.description@,
            has_favicon: self.favicon is Some,
            max: self.players.max,
            online: self.players.online,
            samples: self.players.sample@.len(),
            version_name: self.version.name@,
            protocol: self.version.protocol,
            enforces_secure_chat: self.enforces_secure_chat,
        }
    }
}

/// The echo of a ping.
#[derive(Debug, Clone, Copy, PartialEq, Eq, Structural)]
pub struct PongResponse {
    pub time: u64,
}

/// What the server has to do after a read.
#[derive(Debug, PartialEq, Eq)]
pub enum StatusAction {
    /// Send this status, and read on.
    Respond(StatusResponse),
    /// Send this echo, and close the connection: the phase is over.
    Pong(PongResponse),
    /// Close the connection: the phase is over.
    Close,
    /// End the connection with this failure.
    Fail(ConnectionError),
}

/// What the server has to do, as plain values.
pub enum StatusActionView {
    Respond(StatusResponseView),
    Pong(PongResponse),
    Close,
    Fail(ConnectionErrorView),
}

impl View for StatusAction {
    type V = StatusActionView;

    open spec fn view(&self) -> StatusActionView {
        match self {
            StatusAction::Respond(response) => StatusActionView::Respond(response@),
            StatusAction::Pong(pong) => StatusActionView::Pong(*pong),
            StatusAction::Close => StatusActionView::Close,
            StatusAction::Fail(e) => StatusActionView::Fail(e@),
        }
    }
}

/// The status that the server shows: its version and description, how many
/// players it has and takes, no icon, no names, and no enforced chat signing.
pub open spec fn spec_status(
    version: Seq<char>,
    description: Seq<char>,
    online_players: i32,
    max_players: i32,
) -> StatusResponseView {
    StatusResponseView {
        description,
        has_favicon: false,
        max: max_players,
        online: online_players,
        samples: 0,
        version_name: version,
        protocol: PROTOCOL_VERSION,
        enforces_secure_chat: Some(false),
    }
}

/// The echo of a ping: its time stamp, unchanged.
pub fn respond_ping_req(time: u64) -> (pong: PongResponse)
    ensures
        pong.time == time,
{
    PongResponse { time }
}

/// Builds the status that the server shows.
pub fn respond_status_ping(
    version: &str,
    description: &str,
    online_players: i32,
    max_players: i32,
) -> (response: StatusResponse)
    ensures
        response@ == spec_status(version@, description@, online_players, max_players),
{
    StatusResponse {
        description: String::from_str(description),
        favicon: None,
        players: Players { max: max_players, online: online_players, sample: Vec::new() },
        version: Version { name: String::from_str(version), protocol: PROTOCOL_VERSION },
        enforces_secure_chat: Some(false),
    }
}

/// What a read leads to: a request is answered with the status, a ping is
/// echoed and ends the phase. A client that closed the connection ends the
/// phase too, without a failure; any other failure ends the connection.
pub open spec fn spec_status_step(
    read: Result<StatusPacket, ConnectionError>,
    version: Seq<char>,
    motd: Seq<char>,
    online_players: i32,
    max_players: i32,
) -> StatusActionView {
    match read {
        Ok(StatusPacket::StatusRequest) => StatusActionView::Respond(
            spec_status(version, motd, online_players, max_players),
        ),
        Ok(StatusPacket::PingRequest { time }) => StatusActionView::Pong(PongResponse { time }),
        Err(e) => if e@ matches ConnectionErrorView::ReadPacket { connection_closed: true, .. } {
            StatusActionView::Close
        } else {
            StatusActionView::Fail(e@)
        },
    }
}

/// Takes the status phase one read further.
pub fn try_handle(read: Result<StatusPacket, ConnectionError>, config: &Config, server: &Server) -> (action:
    StatusAction)
    ensures
        action@ == spec_status_step(
            read,
            config.version@,
            config.motd@,
            player_count(server.players()),
            config.max_players,
        ),
{
    match read {
        Ok(StatusPacket::StatusRequest) => {
            let player_count = server.get_player_count();
            StatusAction::Respond(
                respond_status_ping(
                    config.version.as_str(),
                    config.motd.as_str(),
                    player_count,
                    config.max_players,
                ),
            )
        },
        Ok(StatusPacket::PingRequest { time }) => StatusAction::Pong(respond_ping_req(time)),
        Err(err) => {
            if err.connection_closed() {
                StatusAction::Close
            } else {
                StatusAction::Fail(err)
            }
        },
    }
}

} // verus!
