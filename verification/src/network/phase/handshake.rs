//! The handshake: what the client wants.
//!
//! A client of today opens with a packet that names its intention. A client
//! from before that protocol opens with the byte `0xFE`; it is sent a status in
//! the old framing, which tells it which version to use, and is then dropped.

use vstd::prelude::*;
use vstd::string::*;
use crate::network::{ClientIntention, VERSION};
use crate::utils::text::{signed_decimal_string, signed_decimal_text};

verus! {

/// The byte that a legacy client opens with.
pub const LEGACY_PING_MARKER: u8 = 0xFE;

/// The byte that the reply to a legacy client opens with.
pub const LEGACY_KICK_MARKER: u8 = 0xFF;

/// The protocol number that the reply to a legacy client names.
pub const LEGACY_PROTOCOL: i8 = 127;

/// The phases that an intention can name.
#[derive(Debug, Clone, Copy, PartialEq, Eq, Structural)]
pub enum ConnectionProtocol {
    Handshake,
    Game,
    Status,
    Login,
    Configuration,
}

/// The packet that a client opens with.
#[derive(Debug, PartialEq, Eq)]
pub struct ClientIntentionPacket {
    pub protocol_version: i32,
    pub hostname: String,
    pub port: u16,
    pub intention: ConnectionProtocol,
}

/// What happened on the connection.
#[derive(Debug, PartialEq, Eq)]
pub enum HandshakeEvent {
    /// The first byte was looked at without being taken: these are the bytes
    /// seen, one at most.
    Peeked(Vec<u8>),
    /// The client's opening packet was read.
    Intention(ClientIntentionPacket),
}

/// What the server has to do after an event.
#[derive(Debug, PartialEq, Eq)]
pub enum HandshakeAction {
    /// Read the client's opening packet.
    ReadIntention,
    /// Write these bytes as they are, and end the connection with this reason.
    RejectLegacyPing { response: Vec<u8>, reason: String },
    /// Go on to the phase that the client asked for.
    Proceed(ClientIntention),
    /// End the connection with this reason, without a word to the client.
    Disconnect(String),
}

/// What the server has to do, as plain values.
pub enum HandshakeActionView {
    ReadIntention,
    RejectLegacyPing { response: Seq<u8>, reason: Seq<char> },
    Proceed(ClientIntention),
    Disconnect(Seq<char>),
}

impl View for HandshakeAction {
    type V = HandshakeActionView;

    open spec fn view(&self) -> HandshakeActionView {
        match self {
            HandshakeAction::ReadIntention => HandshakeActionView::ReadIntention,
            HandshakeAction::RejectLegacyPing {
                response,
                reason,
            } => HandshakeActionView::RejectLegacyPing { response: response@, reason: reason@ },
            HandshakeAction::Proceed(intention) => HandshakeActionView::Proceed(*intention),
            HandshakeAction::Disconnect(reason) => HandshakeActionView::Disconnect(reason@),
        }
    }
}

// ---------------------------------------------------------------------------
// UTF-16
// ---------------------------------------------------------------------------

/// A character in UTF-16, each code unit with its high byte first: one unit
/// for a character of the basic plane, a surrogate pair for any other.
pub open spec fn utf16_be_char(c: char) -> Seq<u8> {
    let v = c as u32;
    if v < 0x1_0000 {
        seq![(v / 0x100) as u8, (v % 0x100) as u8]
    } else {
        let high = 0xD800 + (v - 0x1_0000) / 0x400;
        let low = 0xDC00 + (v - 0x1_0000) % 0x400;
        seq![
            (high / 0x100) as u8,
            (high % 0x100) as u8,
            (low / 0x100) as u8,
            (low % 0x100) as u8,
        ]
    }
}

/// A text in UTF-16, each code unit with its high byte first.
pub open spec fn utf16_be(text: Seq<char>) -> Seq<u8>
    decreases text.len(),
{
    if text.len() == 0 {
        Seq::empty()
    } else {
        utf16_be(text.drop_last()) + utf16_be_char(text.last())
    }
}

/// The number of UTF-16 code units of a text.
pub open spec fn utf16_units(text: Seq<char>) -> nat {
    utf16_be(text).len() / 2
}

/// A text takes a whole number of code units, two at most for a character.
pub proof fn lemma_utf16_length(text: Seq<char>)
    ensures
        utf16_be(text).len() % 2 == 0,
        text.len() <= utf16_units(text) <= 2 * text.len(),
    decreases text.len(),
{
    if text.len() > 0 {
        lemma_utf16_length(text.drop_last());
    }
}

/// A text has at least as many code units as each of its beginnings.
pub proof fn lemma_utf16_prefix(text: Seq<char>, k: int)
    requires
        0 <= k <= text.len(),
    ensures
        utf16_units(text.subrange(0, k)) <= utf16_units(text),
    decreases text.len(),
{
    if k == text.len() {
        assert(text.subrange(0, k) =~= text);
    } else {
        assert(text.subrange(0, k) =~= text.drop_last().subrange(0, k));
        lemma_utf16_prefix(text.drop_last(), k);
        lemma_utf16_length(text.drop_last());
        lemma_utf16_length(text);
    }
}

/// Appends a text in UTF-16.
fn write_utf16_be(buf: &mut Vec<u8>, text: &str)
    ensures
        final(buf)@ == old(buf)@ + utf16_be(text@),
{
    let len = text.unicode_len();
    let mut i: usize = 0;
    assert(text@.subrange(0, 0) =~= Seq::<char>::empty());
    assert(buf@ =~= old(buf)@ + utf16_be(text@.subrange(0, 0)));
    while i < len
        invariant
            len == text@.len(),
            i <= len,
            buf@ == old(buf)@ + utf16_be(text@.subrange(0, i as int)),
        decreases len - i,
    {
        let c = text.get_char(i);
        let v = c as u32;
        let ghost before = buf@;
        let ghost read = text@.subrange(0, i as int);
        let ghost next = text@.subrange(0, i + 1);
        assert(next.drop_last() =~= read);
        assert(next.last() == c);
        if v < 0x1_0000 {
            buf.push((v / 0x100) as u8);
            buf.push((v % 0x100) as u8);
        } else {
            assert(v <= 0x10_FFFF) by {
                vstd::utf8::char_is_scalar(c);
            }
            let high = 0xD800 + (v - 0x1_0000) / 0x400;
            let low = 0xDC00 + (v - 0x1_0000) % 0x400;
            buf.push((high / 0x100) as u8);
            buf.push((high % 0x100) as u8);
            buf.push((low / 0x100) as u8);
            buf.push((low % 0x100) as u8);
        }
        assert(buf@ =~= before + utf16_be_char(c));
        assert(buf@ =~= old(buf)@ + utf16_be(next));
        i = i + 1;
    }
    assert(text@.subrange(0, len as int) =~= text@);
}

// ---------------------------------------------------------------------------
// The legacy ping
// ---------------------------------------------------------------------------

/// Whether what was seen of a connection's first byte marks a legacy client.
pub fn is_legacy_ping(peeked: &[u8]) -> (legacy: bool)
    ensures
        legacy == (peeked@.len() == 1 && peeked@[0] == LEGACY_PING_MARKER),
{
    peeked.len() == 1 && peeked[0] == LEGACY_PING_MARKER
}

/// The text of the reply to a legacy client: the marker of the format, then
/// the protocol number, the version, the description and the two player
/// counts, each field behind a NUL.
pub open spec fn legacy_ping_text(
    version: Seq<char>,
    description: Seq<char>,
    online_players: i32,
    max_players: i32,
) -> Seq<char> {
    "\u{a7}1\0"@ + "127"@ + "\0"@ + version + "\0"@ + description + "\0"@ + signed_decimal_text(
        online_players as int,
    ) + "\0"@ + signed_decimal_text(max_players as int)
}

/// The reply to a legacy client: the marker byte, the number of UTF-16 code
/// units that follow, in 16 bits with the high byte first, then the text in
/// UTF-16.
pub open spec fn legacy_ping_response(text: Seq<char>) -> Seq<u8> {
    seq![
        LEGACY_KICK_MARKER,
        (utf16_units(text) / 0x100) as u8,
        (utf16_units(text) % 0x100) as u8,
    ] + utf16_be(text)
}

/// Frames a text as the reply to a legacy client. The frame counts the code
/// units in 16 bits, so the text may not have more than 65535 of them.
pub fn frame_legacy_ping(text: &str) -> (buf: Vec<u8>)
    requires
        utf16_units(text@) <= 0xFFFF,
    ensures
        buf@ == legacy_ping_response(text@),
        buf@.len() >= 3,
        (buf@.len() - 3) % 2 == 0,
        buf@[1] * 0x100 + buf@[2] == (buf@.len() - 3) / 2,
{
    let mut buf: Vec<u8> = Vec::new();
    buf.push(LEGACY_KICK_MARKER);
    buf.push(0);
    buf.push(0);
    write_utf16_be(&mut buf, text);
    proof {
        lemma_utf16_length(text@);
    }
    let chars: usize = (buf.len() - 3) / 2;
    buf.set(1, (chars / 0x100) as u8);
    buf.set(2, (chars % 0x100) as u8);
    assert(buf@ =~= legacy_ping_response(text@));
    buf
}

/// Whether a text fits the frame of the reply to a legacy client: it has at
/// most 65535 UTF-16 code units.
pub fn frame_fits(text: &str) -> (fits: bool)
    ensures
        fits == (utf16_units(text@) <= 0xFFFF),
{
    let len = text.unicode_len();
    let mut units: usize = 0;
    let mut i: usize = 0;
    assert(text@.subrange(0, 0) =~= Seq::<char>::empty());
    while i < len
        invariant
            len == text@.len(),
            i <= len,
            units == utf16_units(text@.subrange(0, i as int)),
            units <= 0xFFFF,
        decreases len - i,
    {
        let c = text.get_char(i);
        let ghost read = text@.subrange(0, i as int);
        let ghost next = text@.subrange(0, i + 1);
        proof {
            assert(next.drop_last() =~= read);
            assert(next.last() == c);
            lemma_utf16_length(read);
            lemma_utf16_length(next);
        }
        if (c as u32) < 0x1_0000 {
            units = units + 1;
        } else {
            units = units + 2;
        }
        assert(units == utf16_units(next));
        if units > 0xFFFF {
            proof {
                lemma_utf16_prefix(text@, i + 1);
            }
            return false;
        }
        i = i + 1;
    }
    assert(text@.subrange(0, len as int) =~= text@);
    true
}

/// Writes the text of the reply to a legacy client.
pub fn write_legacy_ping_text(
    version: &str,
    description: &str,
    online_players: i32,
    max_players: i32,
) -> (text: String)
    ensures
        text@ == legacy_ping_text(version@, description@, online_players, max_players),
{
    let text = String::from_str("\u{a7}1\0");
    let text = text.concat("127");
    let text = text.concat("\0");
    let text = text.concat(version);
    let text = text.concat("\0");
    let text = text.concat(description);
    let text = text.concat("\0");
    let text = text.concat(signed_decimal_string(online_players as i64).as_str());
    let text = text.concat("\0");
    text.concat(signed_decimal_string(max_players as i64).as_str())
}

/// Whether the reply to a legacy client fits its frame.
pub fn legacy_ping_fits(
    version: &str,
    description: &str,
    online_players: i32,
    max_players: i32,
) -> (fits: bool)
    ensures
        fits == (utf16_units(
            legacy_ping_text(version@, description@, online_players, max_players),
        ) <= 0xFFFF),
{
    let text = write_legacy_ping_text(version, description, online_players, max_players);
    frame_fits(text.as_str())
}

/// Builds the reply to a legacy client.
pub fn respond_legacy_ping(
    version: &str,
    description: &str,
    online_players: i32,
    max_players: i32,
) -> (buf: Vec<u8>)
    requires
        utf16_units(legacy_ping_text(version@, description@, online_players, max_players))
            <= 0xFFFF,
    ensures
        buf@ == legacy_ping_response(
            legacy_ping_text(version@, description@, online_players, max_players),
        ),
        buf@.len() >= 3,
        (buf@.len() - 3) % 2 == 0,
        buf@[1] * 0x100 + buf@[2] == (buf@.len() - 3) / 2,
{
    let text = write_legacy_ping_text(version, description, online_players, max_players);
    frame_legacy_ping(text.as_str())
}

/// What a legacy client is told in place of a description.
pub open spec fn legacy_description() -> Seq<char> {
    "Unsupported client version. Please use "@ + "1.20.4"@ + " instead."@
}

/// The reason with which the connection of a legacy client ends.
pub open spec fn legacy_reason() -> Seq<char> {
    "Unsupported client version"@
}

/// The reason with which a connection ends whose client asks for a phase that
/// no handshake leads to.
pub open spec fn unsupported_intention_text() -> Seq<char> {
    "Unsupported client intention"@
}

/// What an event leads to. A legacy client is answered and dropped; any other
/// client is asked for its intention, and goes on to the status or the login
/// phase if it asks for one of them.
pub open spec fn spec_handshake_step(event: HandshakeEvent) -> HandshakeActionView {
    match event {
        HandshakeEvent::Peeked(bytes) => if bytes@.len() == 1 && bytes@[0] == LEGACY_PING_MARKER {
            HandshakeActionView::RejectLegacyPing {
                response: legacy_ping_response(
                    legacy_ping_text("1.20.4"@, legacy_description(), 0, 0),
                ),
                reason: legacy_reason(),
            }
        } else {
            HandshakeActionView::ReadIntention
        },
        HandshakeEvent::Intention(packet) => match packet.intention {
            ConnectionProtocol::Status => HandshakeActionView::Proceed(ClientIntention::Status),
            ConnectionProtocol::Login => HandshakeActionView::Proceed(ClientIntention::Login),
            _ => HandshakeActionView::Disconnect(unsupported_intention_text()),
        },
    }
}

/// The frame of a text declares as many code units as it holds.
pub proof fn lemma_frame_declares_what_it_holds(text: Seq<char>)
    requires
        utf16_units(text) <= 0xFFFF,
    ensures
        ({
            let frame = legacy_ping_response(text);
            &&& frame.len() == 3 + 2 * utf16_units(text)
            &&& frame[0] == LEGACY_KICK_MARKER
            &&& frame[1] * 0x100 + frame[2] == utf16_units(text)
        }),
{
    lemma_utf16_length(text);
}

/// The reply to a legacy client of this server fits its frame.
proof fn lemma_legacy_reply_fits()
    ensures
        utf16_units(legacy_ping_text("1.20.4"@, legacy_description(), 0, 0)) <= 0xFFFF,
{
    reveal_strlit("\u{a7}1\0");
    reveal_strlit("127");
    reveal_strlit("\0");
    reveal_strlit("1.20.4");
    reveal_strlit("Unsupported client version. Please use ");
    reveal_strlit(" instead.");
    reveal_with_fuel(crate::utils::text::decimal_text, 2);
    let text = legacy_ping_text("1.20.4"@, legacy_description(), 0, 0);
    assert(text.len() <= 100);
    lemma_utf16_length(text);
}

/// A client that opens with the legacy marker is sent a reply that declares
/// as many code units as it holds, and its connection ends for the
/// unsupported version of the client.
pub proof fn lemma_legacy_ping_is_answered(seen: Vec<u8>)
    requires
        seen@.len() == 1,
        seen@[0] == LEGACY_PING_MARKER,
    ensures
        spec_handshake_step(HandshakeEvent::Peeked(seen)) matches HandshakeActionView::RejectLegacyPing {
            response,
            reason,
        } && response.len() >= 3 && (response.len() - 3) % 2 == 0 && response[1] * 0x100
            + response[2] == (response.len() - 3) / 2 && reason == "Unsupported client version"@,
{
    lemma_legacy_reply_fits();
    lemma_frame_declares_what_it_holds(legacy_ping_text("1.20.4"@, legacy_description(), 0, 0));
}

/// Takes the handshake one event further.
pub fn try_handle(event: HandshakeEvent) -> (action: HandshakeAction)
    ensures
        action@ == spec_handshake_step(event),
{
    match event {
        HandshakeEvent::Peeked(bytes) => {
            if is_legacy_ping(bytes.as_slice()) {
                let description = String::from_str("Unsupported client version. Please use ");
                let description = description.concat(VERSION);
                let description = description.concat(" instead.");
                proof {
                    lemma_legacy_reply_fits();
                }
                let response = respond_legacy_ping(VERSION, description.as_str(), 0, 0);
                HandshakeAction::RejectLegacyPing {
                    response,
                    reason: String::from_str("Unsupported client version"),
                }
            } else {
                HandshakeAction::ReadIntention
            }
        },
        HandshakeEvent::Intention(packet) => match packet.intention {
            ConnectionProtocol::Status => HandshakeAction::Proceed(ClientIntention::Status),
            ConnectionProtocol::Login => HandshakeAction::Proceed(ClientIntention::Login),
            _ => HandshakeAction::Disconnect(String::from_str("Unsupported client intention")),
        },
    }
}

} // verus!
