use limbo::network::phase::handshake::{
    frame_fits, frame_legacy_ping, is_legacy_ping, legacy_ping_fits, respond_legacy_ping,
    try_handle, write_legacy_ping_text, ClientIntentionPacket, ConnectionProtocol,
    HandshakeAction, HandshakeEvent, LEGACY_KICK_MARKER, LEGACY_PING_MARKER, LEGACY_PROTOCOL,
};
use limbo::network::{ClientIntention, PROTOCOL_VERSION, VERSION};

fn utf16_be_of(text: &str) -> Vec<u8> {
    text.encode_utf16().flat_map(|unit| unit.to_be_bytes()).collect()
}

fn framed(text: &str) -> Vec<u8> {
    let units = text.encode_utf16().count() as u16;
    let mut expected = vec![0xff];
    expected.extend_from_slice(&units.to_be_bytes());
    expected.extend_from_slice(&utf16_be_of(text));
    expected
}

fn intention(intention: ConnectionProtocol) -> HandshakeEvent {
    HandshakeEvent::Intention(ClientIntentionPacket {
        protocol_version: 765,
        hostname: "limbo.example".to_string(),
        port: 25565,
        intention,
    })
}

#[test]
fn handshake_constants() {
    assert_eq!(LEGACY_PING_MARKER, 0xfe);
    assert_eq!(LEGACY_KICK_MARKER, 0xff);
    assert_eq!(LEGACY_PROTOCOL, 127);
    assert_eq!(VERSION, "1.20.4");
    assert_eq!(PROTOCOL_VERSION, 765);
}

#[test]
fn legacy_ping_is_one_byte_0xfe() {
    assert!(is_legacy_ping(&[0xfe]));
    assert!(!is_legacy_ping(&[]));
    assert!(!is_legacy_ping(&[0x10]));
    assert!(!is_legacy_ping(&[0xff]));
    assert!(!is_legacy_ping(&[0xfe, 0x01]));
}

#[test]
fn legacy_reply_is_framed_with_its_count_of_code_units() {
    let reply = respond_legacy_ping("1.20.4", "A limbo", 3, 20);
    let text = "\u{a7}1\u{0}127\u{0}1.20.4\u{0}A limbo\u{0}3\u{0}20";
    assert_eq!(reply, framed(text));
    assert_eq!(reply[0], 0xff);
    assert_eq!(&reply[1..3], &[0x00, 26]);
    assert_eq!(&reply[3..9], &[0x00, 0xa7, 0x00, 0x31, 0x00, 0x00]);
    assert_eq!((reply.len() - 3) / 2, 26);
}

#[test]
fn legacy_reply_counts_surrogate_pairs_as_two_units() {
    let reply = respond_legacy_ping("v", "\u{1f600}\u{e9}\u{20ac}", -1, 0);
    let text = "\u{a7}1\u{0}127\u{0}v\u{0}\u{1f600}\u{e9}\u{20ac}\u{0}-1\u{0}0";
    assert_eq!(reply, framed(text));
    let declared = u16::from_be_bytes([reply[1], reply[2]]) as usize;
    assert_eq!(declared, (reply.len() - 3) / 2);
    assert_eq!(declared, text.chars().count() + 1);
}

#[test]
fn legacy_frame_of_a_long_text_has_a_two_byte_count() {
    let text = "x".repeat(300);
    let reply = frame_legacy_ping(&text);
    assert_eq!(&reply[..3], &[0xff, 0x01, 0x2c]);
    assert_eq!(reply.len(), 3 + 600);
    let empty = frame_legacy_ping("");
    assert_eq!(empty, vec![0xff, 0x00, 0x00]);
    let most = "y".repeat(65535);
    let reply = frame_legacy_ping(&most);
    assert_eq!(&reply[..3], &[0xff, 0xff, 0xff]);
    assert_eq!(reply.len(), 3 + 2 * 65535);
}

#[test]
fn frame_takes_up_to_65535_code_units() {
    assert!(frame_fits(""));
    assert!(frame_fits("limbo"));
    assert!(frame_fits(&"y".repeat(65535)));
    assert!(!frame_fits(&"y".repeat(65536)));
    assert!(frame_fits(&"\u{1f600}".repeat(32767)));
    assert!(!frame_fits(&"\u{1f600}".repeat(32768)));
    let mut odd = "\u{1f600}".repeat(32767);
    odd.push('y');
    assert!(frame_fits(&odd));
    odd.push('y');
    assert!(!frame_fits(&odd));
}

#[test]
fn legacy_reply_fits_unless_its_text_is_too_long() {
    assert!(legacy_ping_fits("1.20.4", "A limbo", 3, 20));
    let text = write_legacy_ping_text("1.20.4", "A limbo", 3, 20);
    assert_eq!(text, "\u{a7}1\u{0}127\u{0}1.20.4\u{0}A limbo\u{0}3\u{0}20");
    let fixed = "\u{a7}1\u{0}127\u{0}\u{0}\u{0}0\u{0}0".chars().count();
    let most = "d".repeat(65535 - fixed);
    assert!(legacy_ping_fits("", &most, 0, 0));
    assert_eq!(respond_legacy_ping("", &most, 0, 0).len(), 3 + 2 * 65535);
    assert!(!legacy_ping_fits("v", &most, 0, 0));
    assert!(!legacy_ping_fits("", &most, 10, 0));
}

#[test]
fn legacy_client_is_answered_and_dropped() {
    let action = try_handle(HandshakeEvent::Peeked(vec![0xfe]));
    let text = "\u{a7}1\u{0}127\u{0}1.20.4\u{0}Unsupported client version. Please use 1.20.4 instead.\u{0}0\u{0}0";
    match action {
        HandshakeAction::RejectLegacyPing { response, reason } => {
            assert_eq!(response, framed(text));
            let declared = u16::from_be_bytes([response[1], response[2]]) as usize;
            assert_eq!(declared * 2, response.len() - 3);
            assert_eq!(reason, "Unsupported client version");
            assert!(reason.contains("Unsupported client version"));
        }
        other => panic!("unexpected action {other:?}"),
    }
}

#[test]
fn other_first_bytes_lead_to_the_intention() {
    assert_eq!(try_handle(HandshakeEvent::Peeked(vec![0x10])), HandshakeAction::ReadIntention);
    assert_eq!(try_handle(HandshakeEvent::Peeked(vec![])), HandshakeAction::ReadIntention);
    assert_eq!(try_handle(HandshakeEvent::Peeked(vec![0x00])), HandshakeAction::ReadIntention);
}

#[test]
fn status_and_login_intentions_are_accepted() {
    assert_eq!(
        try_handle(intention(ConnectionProtocol::Status)),
        HandshakeAction::Proceed(ClientIntention::Status)
    );
    assert_eq!(
        try_handle(intention(ConnectionProtocol::Login)),
        HandshakeAction::Proceed(ClientIntention::Login)
    );
}

#[test]
fn other_intentions_are_turned_down() {
    for protocol in [
        ConnectionProtocol::Handshake,
        ConnectionProtocol::Game,
        ConnectionProtocol::Configuration,
    ] {
        assert_eq!(
            try_handle(intention(protocol)),
            HandshakeAction::Disconnect("Unsupported client intention".to_string())
        );
    }
}
