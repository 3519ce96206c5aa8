use limbo::config::ty::GameMode;
use limbo::config::Config;
use limbo::network::phase::login::{
    notify_velocity_forwarding, signal_login_success, try_handle, try_handle_address,
    validate_player_name, verify_velocity_forwarding, CustomQuery, LoginAction, LoginPacket,
    LoginSession, State,
};
use limbo::network::server::Server;
use limbo::network::ConnectionError;
use limbo::player::addr::PlayerAddr;
use limbo::player::profile::{GameProfile, Property};
use limbo::player::skin::{PlayerSkin, SkinLayers};
use limbo::player::Player;
use limbo::utils::uuid::generate_uuid;

const ID: u128 = 0x6536bfed869548fd83a1ecd24cf2a0fd;

fn config(forwarding: bool) -> Config {
    Config {
        host: "0.0.0.0".to_string(),
        port: 25565,
        max_players: 20,
        motd: "A limbo".to_string(),
        version: "1.20.4".to_string(),
        brand: "limbo".to_string(),
        uses_velocity_modern: forwarding,
        velocity_forwarding_secret: "s3cret".to_string(),
        hide_player_ips: false,
        default_gamemode: GameMode::Adventure,
        allow_flight: false,
    }
}

fn peer() -> PlayerAddr {
    PlayerAddr::new("198.51.100.4:50000".to_string())
}

fn hello(name: &str) -> LoginPacket {
    LoginPacket::Hello { name: name.to_string(), profile_id: 0 }
}

fn login_string(buf: &mut Vec<u8>, text: &str) {
    assert!(text.len() < 128);
    buf.push(text.len() as u8);
    buf.extend_from_slice(text.as_bytes());
}

fn forwarded(secret: &[u8], addr: &str, name: &str, with_skin: bool) -> Vec<u8> {
    let mut message = vec![0x01];
    login_string(&mut message, addr);
    message.extend_from_slice(&ID.to_be_bytes());
    login_string(&mut message, name);
    if with_skin {
        message.push(1);
        login_string(&mut message, "textures");
        login_string(&mut message, "dGV4");
        message.push(1);
        login_string(&mut message, "c2ln");
    } else {
        message.push(0);
    }
    let mut payload = hmac_sha256::HMAC::mac(&message, secret).to_vec();
    payload.extend_from_slice(&message);
    payload
}

fn disconnect(reason: &str) -> LoginAction {
    LoginAction::Disconnect(reason.to_string())
}

#[test]
fn login_begins_with_the_hello() {
    let session = LoginSession::begin();
    assert_eq!(session.state(), State::Hello);
    assert_eq!(session.player(), None);
    let session = LoginSession::with_transaction_id(77);
    assert_eq!(session.state(), State::Hello);
    assert_eq!(session.transaction_id(), 77);
    assert_eq!(session.player(), None);
}

#[test]
fn offline_login_registers_the_player_under_the_offline_uuid() {
    let mut server = Server::new();
    let mut session = LoginSession::with_transaction_id(1);
    let action = try_handle(&mut session, hello("Alex"), &config(false), &peer(), &mut server);
    let uuid = generate_uuid("Alex");
    assert_eq!(
        action,
        LoginAction::LoginSuccess(GameProfile {
            uuid,
            name: "Alex".to_string(),
            properties: vec![]
        })
    );
    assert_eq!(session.state(), State::PhaseSwitch);
    let handle = session.player().unwrap();
    assert_eq!(handle.uuid(), uuid);
    assert_eq!(server.get_player_count(), 1);
    assert_eq!(
        server.player(&handle),
        Some(Player::new(peer(), "Alex".to_string(), uuid, None))
    );
    let action = try_handle(
        &mut session,
        LoginPacket::LoginAcknowledged,
        &config(false),
        &peer(),
        &mut server,
    );
    assert_eq!(action, LoginAction::Finish(handle));
    assert_eq!(session.state(), State::PhaseSwitch);
    assert_eq!(server.get_player_count(), 1);
}

#[test]
fn two_offline_logins_under_one_name_are_two_players() {
    let mut server = Server::new();
    let other = PlayerAddr::new("198.51.100.9:50001".to_string());
    let mut first = LoginSession::with_transaction_id(1);
    let mut second = LoginSession::with_transaction_id(2);
    try_handle(&mut first, hello("Alex"), &config(false), &peer(), &mut server);
    try_handle(&mut second, hello("Alex"), &config(false), &other, &mut server);
    let a = first.player().unwrap();
    let b = second.player().unwrap();
    assert_ne!(a, b);
    assert_eq!(a.uuid(), b.uuid());
    assert_eq!(server.get_player_count(), 1);
    assert_eq!(server.player(&a).unwrap().addr().as_str(), "198.51.100.4:50000");
    assert_eq!(server.player(&b).unwrap().addr().as_str(), "198.51.100.9:50001");
    assert_eq!(server.get_player(&a.uuid()), Ok(b));
}

#[test]
fn hello_behind_a_proxy_asks_the_proxy() {
    let mut server = Server::new();
    let mut session = LoginSession::with_transaction_id(0xdead_beef);
    let action = try_handle(&mut session, hello("Alex"), &config(true), &peer(), &mut server);
    assert_eq!(
        action,
        LoginAction::QueryForwarding(CustomQuery {
            transaction_id: 0xdead_beef,
            identifier: "velocity:player_info".to_string(),
            data: vec![1],
        })
    );
    assert_eq!(session.state(), State::QueryAnswer);
    assert_eq!(session.player(), None);
    assert_eq!(server.get_player_count(), 0);
}

#[test]
fn forwarded_login_registers_the_forwarded_player() {
    let mut server = Server::new();
    let mut session = LoginSession::with_transaction_id(9);
    try_handle(&mut session, hello("ignored"), &config(true), &peer(), &mut server);
    let answer = LoginPacket::CustomQueryAnswer {
        transaction_id: 9,
        data: Some(forwarded(b"s3cret", "203.0.113.9:51234", "Alex", true)),
    };
    let action = try_handle(&mut session, answer, &config(true), &peer(), &mut server);
    assert_eq!(action, LoginAction::ParseAddress("203.0.113.9:51234".to_string()));
    assert_eq!(session.state(), State::QueryAnswer);
    assert_eq!(session.player(), None);
    assert_eq!(server.get_player_count(), 0);
    let addr = PlayerAddr::new("203.0.113.9:51234".to_string());
    let action = try_handle_address(&mut session, Some(addr), &mut server);
    assert_eq!(
        action,
        LoginAction::LoginSuccess(GameProfile {
            uuid: ID,
            name: "Alex".to_string(),
            properties: vec![Property {
                name: "textures".to_string(),
                value: "dGV4".to_string(),
                signature: Some("c2ln".to_string()),
            }],
        })
    );
    assert_eq!(session.state(), State::PhaseSwitch);
    let handle = session.player().unwrap();
    assert_eq!(handle.uuid(), ID);
    let skin = PlayerSkin {
        texture: "dGV4".to_string(),
        signature: "c2ln".to_string(),
        layers: SkinLayers::default(),
    };
    assert_eq!(
        server.player(&handle),
        Some(Player::new(
            PlayerAddr::new("203.0.113.9:51234".to_string()),
            "Alex".to_string(),
            ID,
            Some(skin)
        ))
    );
    let action = try_handle(
        &mut session,
        LoginPacket::LoginAcknowledged,
        &config(true),
        &peer(),
        &mut server,
    );
    assert_eq!(action, LoginAction::Finish(handle));
}

#[test]
fn forwarded_address_that_is_no_socket_address_disconnects() {
    let mut server = Server::new();
    let mut session = LoginSession::with_transaction_id(9);
    try_handle(&mut session, hello("Alex"), &config(true), &peer(), &mut server);
    let answer = LoginPacket::CustomQueryAnswer {
        transaction_id: 9,
        data: Some(forwarded(b"s3cret", "203.0.113.9", "Alex", false)),
    };
    let action = try_handle(&mut session, answer, &config(true), &peer(), &mut server);
    assert_eq!(action, LoginAction::ParseAddress("203.0.113.9".to_string()));
    let action = try_handle_address(&mut session, None, &mut server);
    assert_eq!(
        action,
        disconnect(
            "Failed to verify Velocity forwarding: failed to parse addr: invalid socket address syntax"
        )
    );
    assert_eq!(session.state(), State::QueryAnswer);
    assert_eq!(session.player(), None);
    assert_eq!(server.get_player_count(), 0);
}

#[test]
fn address_without_a_forwarded_identity_changes_nothing() {
    let mut server = Server::new();
    let mut session = LoginSession::with_transaction_id(9);
    let action = try_handle_address(&mut session, Some(peer()), &mut server);
    assert_eq!(action, LoginAction::Continue);
    assert_eq!(session.state(), State::Hello);
    try_handle(&mut session, hello("Alex"), &config(true), &peer(), &mut server);
    let action = try_handle_address(&mut session, None, &mut server);
    assert_eq!(action, LoginAction::Continue);
    assert_eq!(session.state(), State::QueryAnswer);
    assert_eq!(server.get_player_count(), 0);
}

#[test]
fn answer_with_another_transaction_id_disconnects_before_the_signature_is_looked_at() {
    let mut server = Server::new();
    let mut session = LoginSession::with_transaction_id(9);
    try_handle(&mut session, hello("Alex"), &config(true), &peer(), &mut server);
    for data in [
        Some(forwarded(b"s3cret", "203.0.113.9:51234", "Alex", false)),
        Some(forwarded(b"wrong", "203.0.113.9:51234", "Alex", false)),
        Some(vec![]),
        None,
    ] {
        let answer = LoginPacket::CustomQueryAnswer { transaction_id: 10, data };
        let action = try_handle(&mut session, answer, &config(true), &peer(), &mut server);
        assert_eq!(action, disconnect("Transaction ID mismatch: expected 9, got 10"));
        assert_eq!(session.state(), State::QueryAnswer);
        assert_eq!(server.get_player_count(), 0);
    }
}

#[test]
fn answer_that_fails_verification_disconnects_with_the_reason() {
    let cases: Vec<(Option<Vec<u8>>, &str)> = vec![
        (None, "Invalid Velocity response data"),
        (Some(vec![0; 32]), "Failed to verify Velocity forwarding: invalid signature length"),
        (
            Some(forwarded(b"wrong", "203.0.113.9:51234", "Alex", false)),
            "Failed to verify Velocity forwarding: invalid signature provided",
        ),
        (
            Some(forwarded(b"s3cret", "203.0.113.9:51234", "Alex", false)[..40].to_vec()),
            "Failed to verify Velocity forwarding: invalid signature provided",
        ),
    ];
    for (data, reason) in cases {
        let mut server = Server::new();
        let mut session = LoginSession::with_transaction_id(9);
        try_handle(&mut session, hello("Alex"), &config(true), &peer(), &mut server);
        let answer = LoginPacket::CustomQueryAnswer { transaction_id: 9, data };
        let action = try_handle(&mut session, answer, &config(true), &peer(), &mut server);
        assert_eq!(action, disconnect(reason));
        assert_eq!(session.state(), State::QueryAnswer);
        assert_eq!(session.player(), None);
        assert_eq!(server.get_player_count(), 0);
    }
}

#[test]
fn answer_in_hello_state_disconnects() {
    for forwarding in [false, true] {
        let mut server = Server::new();
        let mut session = LoginSession::with_transaction_id(9);
        let answer = LoginPacket::CustomQueryAnswer {
            transaction_id: 9,
            data: Some(forwarded(b"s3cret", "203.0.113.9:51234", "Alex", false)),
        };
        let action = try_handle(&mut session, answer, &config(forwarding), &peer(), &mut server);
        assert_eq!(action, disconnect("Unexpected custom query answer packet"));
        assert_eq!(session.state(), State::Hello);
        assert_eq!(server.get_player_count(), 0);
    }
}

#[test]
fn hello_in_query_answer_state_disconnects() {
    let mut server = Server::new();
    let mut session = LoginSession::with_transaction_id(9);
    try_handle(&mut session, hello("Alex"), &config(true), &peer(), &mut server);
    let action = try_handle(&mut session, hello("Alex"), &config(true), &peer(), &mut server);
    assert_eq!(action, disconnect("Unexpected hello packet"));
    assert_eq!(session.state(), State::QueryAnswer);
    assert_eq!(server.get_player_count(), 0);
}

#[test]
fn hello_after_the_login_succeeded_disconnects() {
    let mut server = Server::new();
    let mut session = LoginSession::with_transaction_id(9);
    try_handle(&mut session, hello("Alex"), &config(false), &peer(), &mut server);
    let action = try_handle(&mut session, hello("Sam"), &config(false), &peer(), &mut server);
    assert_eq!(action, disconnect("Unexpected hello packet"));
    assert_eq!(session.state(), State::PhaseSwitch);
    assert_eq!(server.get_player_count(), 1);
}

#[test]
fn acknowledgement_before_phase_switch_disconnects() {
    let mut server = Server::new();
    let mut session = LoginSession::with_transaction_id(9);
    let action = try_handle(
        &mut session,
        LoginPacket::LoginAcknowledged,
        &config(true),
        &peer(),
        &mut server,
    );
    assert_eq!(action, disconnect("Unexpected login acknowledgement packet"));
    assert_eq!(session.state(), State::Hello);
    try_handle(&mut session, hello("Alex"), &config(true), &peer(), &mut server);
    let action = try_handle(
        &mut session,
        LoginPacket::LoginAcknowledged,
        &config(true),
        &peer(),
        &mut server,
    );
    assert_eq!(action, disconnect("Unexpected login acknowledgement packet"));
    assert_eq!(session.state(), State::QueryAnswer);
}

#[test]
fn encryption_response_disconnects_in_every_state() {
    let mut server = Server::new();
    let mut session = LoginSession::with_transaction_id(9);
    let action = try_handle(&mut session, LoginPacket::Key, &config(true), &peer(), &mut server);
    assert_eq!(action, disconnect("Unexpected packet received"));
    try_handle(&mut session, hello("Alex"), &config(true), &peer(), &mut server);
    let action = try_handle(&mut session, LoginPacket::Key, &config(true), &peer(), &mut server);
    assert_eq!(action, disconnect("Unexpected packet received"));
    assert_eq!(session.state(), State::QueryAnswer);
    let mut session = LoginSession::with_transaction_id(9);
    try_handle(&mut session, hello("Alex"), &config(false), &peer(), &mut server);
    let action = try_handle(&mut session, LoginPacket::Key, &config(false), &peer(), &mut server);
    assert_eq!(action, disconnect("Unexpected packet received"));
    assert_eq!(session.state(), State::PhaseSwitch);
}

#[test]
fn query_names_the_forwarding_channel_and_version() {
    assert_eq!(
        notify_velocity_forwarding(5),
        CustomQuery {
            transaction_id: 5,
            identifier: "velocity:player_info".to_string(),
            data: vec![1]
        }
    );
}

#[test]
fn matching_answer_is_verified() {
    let payload = forwarded(b"s3cret", "203.0.113.9:51234", "Alex", false);
    let info = verify_velocity_forwarding(3, 3, Some(&payload), b"s3cret").unwrap();
    assert_eq!(info.name, "Alex");
    assert_eq!(info.uuid, ID);
    assert_eq!(info.addr, "203.0.113.9:51234");
    assert_eq!(
        verify_velocity_forwarding(3, 4, Some(&payload), b"s3cret"),
        Err(ConnectionError::Disconnect("Transaction ID mismatch: expected 3, got 4".to_string()))
    );
    assert_eq!(
        verify_velocity_forwarding(4294967295, 0, None, b"s3cret"),
        Err(ConnectionError::Disconnect(
            "Transaction ID mismatch: expected 4294967295, got 0".to_string()
        ))
    );
    assert_eq!(
        verify_velocity_forwarding(3, 3, None, b"s3cret"),
        Err(ConnectionError::Disconnect("Invalid Velocity response data".to_string()))
    );
}

#[test]
fn login_success_registers_and_gives_the_profile() {
    let mut server = Server::new();
    let player = Player::new(peer(), "Alex".to_string(), 12, None);
    let (profile, handle) = signal_login_success(&mut server, player);
    assert_eq!(profile, GameProfile { uuid: 12, name: "Alex".to_string(), properties: vec![] });
    assert_eq!(handle.uuid(), 12);
    assert_eq!(server.get_player_count(), 1);
    assert_eq!(server.get_player(&12), Ok(handle));
}

#[test]
fn player_names_are_one_to_sixteen_visible_ascii_characters() {
    assert_eq!(validate_player_name("Alex"), Ok(()));
    assert_eq!(validate_player_name("a"), Ok(()));
    assert_eq!(validate_player_name("jeb_"), Ok(()));
    assert_eq!(validate_player_name("sixteen_chars_ok"), Ok(()));
    assert_eq!(validate_player_name("!~"), Ok(()));
    let invalid = Err(ConnectionError::Disconnect("Invalid characters in username".to_string()));
    assert_eq!(validate_player_name(""), invalid);
    assert_eq!(validate_player_name("seventeen_chars__"), invalid);
    assert_eq!(validate_player_name("has space"), invalid);
    assert_eq!(validate_player_name("tab\t"), invalid);
    assert_eq!(validate_player_name("del\u{7f}"), invalid);
    assert_eq!(validate_player_name("\u{e9}t\u{e9}"), invalid);
    assert_eq!(validate_player_name("\u{144}"), invalid);
}
