//! A connection as a whole: the order of its phases, and what is noted when it
//! ends.

use vstd::prelude::*;
use vstd::string::*;
use crate::network::server::Server;
use crate::network::{
    connection_error_text, ClientIntention, ConnectionError, ConnectionErrorView, ConnectionPhase,
};

verus! {

/// The place of a phase in the order of the phases.
pub open spec fn phase_rank(phase: ConnectionPhase) -> nat {
    match phase {
        ConnectionPhase::Handshake => 0,
        ConnectionPhase::Status => 1,
        ConnectionPhase::Login => 2,
        ConnectionPhase::Configuration => 3,
        ConnectionPhase::Game => 4,
    }
}

/// The phase that follows a phase, if one does. The handshake leads where the
/// client's intention says; login leads to configuration, and configuration to
/// the game. Status and game are the last phases of their connections.
pub open spec fn spec_next_phase(
    phase: ConnectionPhase,
    intention: Option<ClientIntention>,
) -> Option<ConnectionPhase> {
    match phase {
        ConnectionPhase::Handshake => match intention {
            Some(ClientIntention::Status) => Some(ConnectionPhase::Status),
            Some(ClientIntention::Login) => Some(ConnectionPhase::Login),
            None => None,
        },
        ConnectionPhase::Login => Some(ConnectionPhase::Configuration),
        ConnectionPhase::Configuration => Some(ConnectionPhase::Game),
        ConnectionPhase::Status => None,
        ConnectionPhase::Game => None,
    }
}

/// The phase in which a connection is after `steps` changes of phase, if it
/// gets that far.
pub open spec fn phase_after(
    start: ConnectionPhase,
    intention: Option<ClientIntention>,
    steps: nat,
) -> Option<ConnectionPhase>
    decreases steps,
{
    if steps == 0 {
        Some(start)
    } else {
        match phase_after(start, intention, (steps - 1) as nat) {
            Some(phase) => spec_next_phase(phase, intention),
            None => None,
        }
    }
}

impl ConnectionPhase {
    /// The phase that follows this one, if one does.
    pub fn next(self, intention: Option<ClientIntention>) -> (next: Option<ConnectionPhase>)
        ensures
            next == spec_next_phase(self, intention),
            next matches Some(phase) ==> phase_rank(self) < phase_rank(phase),
    {
        match self {
            ConnectionPhase::Handshake => match intention {
                Some(ClientIntention::Status) => Some(ConnectionPhase::Status),
                Some(ClientIntention::Login) => Some(ConnectionPhase::Login),
                None => None,
            },
            ConnectionPhase::Login => Some(ConnectionPhase::Configuration),
            ConnectionPhase::Configuration => Some(ConnectionPhase::Game),
            ConnectionPhase::Status => None,
            ConnectionPhase::Game => None,
        }
    }
}

/// A connection only moves forward: each change of phase leads to a phase
/// that comes later in the order.
pub proof fn lemma_phase_moves_forward(phase: ConnectionPhase, intention: Option<ClientIntention>)
    ensures
        spec_next_phase(phase, intention) matches Some(next) ==> phase_rank(phase) < phase_rank(
            next,
        ),
{
}

/// No phase is visited twice: the phases that a connection is in after
/// different numbers of changes are different phases.
pub proof fn lemma_no_phase_twice(
    start: ConnectionPhase,
    intention: Option<ClientIntention>,
    i: nat,
    j: nat,
)
    requires
        i < j,
        phase_after(start, intention, j) is Some,
    ensures
        phase_after(start, intention, i) is Some,
        phase_rank(phase_after(start, intention, i).unwrap()) < phase_rank(
            phase_after(start, intention, j).unwrap(),
        ),
    decreases j,
{
    let before = phase_after(start, intention, (j - 1) as nat);
    assert(before is Some);
    lemma_phase_moves_forward(before.unwrap(), intention);
    if i < j - 1 {
        lemma_no_phase_twice(start, intention, i, (j - 1) as nat);
    }
}

/// How much weight a note has.
#[derive(Debug, Clone, Copy, PartialEq, Eq, Structural)]
pub enum LogLevel {
    Debug,
    Error,
}

/// What is noted when a connection has ended.
#[derive(Debug, PartialEq, Eq)]
pub struct Outcome {
    pub level: LogLevel,
    pub message: String,
}

/// What is noted of each end of a connection. That the server or the client
/// ended it is worth a remark; any other failure is an error.
pub open spec fn spec_outcome(result: Result<(), ConnectionError>) -> (LogLevel, Seq<char>) {
    match result {
        Ok(_) => (LogLevel::Debug, "Connection closed by server"@),
        Err(e) => match e@ {
            ConnectionErrorView::Disconnect(reason) => (
                LogLevel::Debug,
                "Player disconnected: "@ + reason,
            ),
            ConnectionErrorView::ReadPacket { connection_closed: true, .. } => (
                LogLevel::Debug,
                "Connection closed by client"@,
            ),
            _ => (LogLevel::Error, "Error while handling connection: "@ + connection_error_text(e@)),
        },
    }
}

impl Server {
    /// Says what is to be noted of the end of a connection.
    pub fn handle_connection(result: &Result<(), ConnectionError>) -> (outcome: Outcome)
        ensures
            (outcome.level, outcome.message@) == spec_outcome(*result),
    {
        match result {
            Ok(_) => Outcome {
                level: LogLevel::Debug,
                message: String::from_str("Connection closed by server"),
            },
            Err(err) => match err {
                ConnectionError::Disconnect(reason) => Outcome {
                    level: LogLevel::Debug,
                    message: String::from_str("Player disconnected: ").concat(reason.as_str()),
                },
                _ => {
                    if err.connection_closed() {
                        Outcome {
                            level: LogLevel::Debug,
                            message: String::from_str("Connection closed by client"),
                        }
                    } else {
                        Outcome {
                            level: LogLevel::Error,
                            message: String::from_str("Error while handling connection: ").concat(
                                err.message().as_str(),
                            ),
                        }
                    }
                },
            },
        }
    }
}

} // verus!
