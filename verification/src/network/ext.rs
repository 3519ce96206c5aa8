//! What reading and writing can come to.

use vstd::prelude::*;
use crate::network::{ConnectionError, ConnectionErrorView, ConnectionPhase};

verus! {

/// How long the server waits for a packet, in seconds.
pub const READ_TIMEOUT_SECS: u64 = 5;

/// The failure of a read that took too long in a phase.
pub fn read_timed_out(phase: ConnectionPhase) -> (e: ConnectionError)
    ensures
        e@ == ConnectionErrorView::ReadTimeout(phase),
{
    ConnectionError::ReadTimeout(phase)
}

/// Whether the writing side has to be shut down after a write failed: it has
/// if the peer closed the pipe.
pub fn shuts_down_writer(failure: &ConnectionError) -> (shut_down: bool)
    ensures
        shut_down == (failure@ matches ConnectionErrorView::Io { broken_pipe: true, .. }),
{
    match failure {
        ConnectionError::Io { broken_pipe, .. } => *broken_pipe,
        _ => false,
    }
}

/// Whether a phase has a packet by which the client is told why it is
/// disconnected.
pub fn has_disconnect_packet(phase: ConnectionPhase) -> (has_packet: bool)
    ensures
        has_packet == (phase == ConnectionPhase::Login || phase == ConnectionPhase::Configuration
            || phase == ConnectionPhase::Game),
{
    match phase {
        ConnectionPhase::Login => true,
        ConnectionPhase::Configuration => true,
        ConnectionPhase::Game => true,
        _ => false,
    }
}

} // verus!
