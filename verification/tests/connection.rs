use limbo::config::ty::GameMode;
use limbo::network::connection::{LogLevel, Outcome};
use limbo::network::ext::{
    has_disconnect_packet, read_timed_out, shuts_down_writer, READ_TIMEOUT_SECS,
};
use limbo::network::server::Server;
use limbo::network::{ClientIntention, ConnectionError, ConnectionPhase};

fn all_phases() -> [ConnectionPhase; 5] {
    [
        ConnectionPhase::Handshake,
        ConnectionPhase::Status,
        ConnectionPhase::Login,
        ConnectionPhase::Configuration,
        ConnectionPhase::Game,
    ]
}

#[test]
fn phase_names_are_the_variant_names() {
    let names: Vec<&str> = all_phases().iter().map(|p| p.name()).collect();
    assert_eq!(names, vec!["Handshake", "Status", "Login", "Configuration", "Game"]);
    for phase in all_phases() {
        assert_eq!(phase.name(), format!("{phase:?}"));
    }
}

#[test]
fn status_connection_ends_after_the_status_phase() {
    let intention = Some(ClientIntention::Status);
    assert_eq!(ConnectionPhase::Handshake.next(intention), Some(ConnectionPhase::Status));
    assert_eq!(ConnectionPhase::Status.next(intention), None);
}

#[test]
fn login_connection_goes_through_configuration_to_the_game() {
    let intention = Some(ClientIntention::Login);
    assert_eq!(ConnectionPhase::Handshake.next(intention), Some(ConnectionPhase::Login));
    assert_eq!(ConnectionPhase::Login.next(intention), Some(ConnectionPhase::Configuration));
    assert_eq!(ConnectionPhase::Configuration.next(intention), Some(ConnectionPhase::Game));
    assert_eq!(ConnectionPhase::Game.next(intention), None);
}

#[test]
fn handshake_without_intention_leads_nowhere() {
    assert_eq!(ConnectionPhase::Handshake.next(None), None);
}

#[test]
fn connection_closed_is_the_read_failure_of_a_closed_stream() {
    let closed = ConnectionError::ReadPacket { connection_closed: true, message: String::new() };
    assert!(closed.connection_closed());
    let others = vec![
        ConnectionError::ReadPacket { connection_closed: false, message: "x".to_string() },
        ConnectionError::Io { broken_pipe: true, message: "x".to_string() },
        ConnectionError::Disconnect("x".to_string()),
        ConnectionError::ReadTimeout(ConnectionPhase::Login),
    ];
    for other in others {
        assert!(!other.connection_closed());
    }
}

#[test]
fn connection_errors_say_what_went_wrong() {
    assert_eq!(
        ConnectionError::Disconnect("bye".to_string()).message(),
        "client disconnected: bye"
    );
    assert_eq!(
        ConnectionError::Io { broken_pipe: false, message: "reset by peer".to_string() }.message(),
        "io error: reset by peer"
    );
    assert_eq!(
        ConnectionError::ReadPacket { connection_closed: false, message: "bad id".to_string() }
            .message(),
        "error while reading packet: bad id"
    );
    assert_eq!(
        ConnectionError::ReadTimeout(ConnectionPhase::Configuration).message(),
        "read timeout while reading packet in phase Configuration"
    );
}

#[test]
fn ends_by_server_or_client_are_remarks_and_failures_are_errors() {
    assert_eq!(
        Server::handle_connection(&Ok(())),
        Outcome { level: LogLevel::Debug, message: "Connection closed by server".to_string() }
    );
    assert_eq!(
        Server::handle_connection(&Err(ConnectionError::Disconnect("bye".to_string()))),
        Outcome { level: LogLevel::Debug, message: "Player disconnected: bye".to_string() }
    );
    assert_eq!(
        Server::handle_connection(&Err(ConnectionError::ReadPacket {
            connection_closed: true,
            message: "eof".to_string()
        })),
        Outcome { level: LogLevel::Debug, message: "Connection closed by client".to_string() }
    );
    assert_eq!(
        Server::handle_connection(&Err(ConnectionError::ReadTimeout(ConnectionPhase::Login))),
        Outcome {
            level: LogLevel::Error,
            message: "Error while handling connection: read timeout while reading packet in phase Login"
                .to_string()
        }
    );
    assert_eq!(
        Server::handle_connection(&Err(ConnectionError::Io {
            broken_pipe: true,
            message: "broken pipe".to_string()
        })),
        Outcome {
            level: LogLevel::Error,
            message: "Error while handling connection: io error: broken pipe".to_string()
        }
    );
}

#[test]
fn read_timeout_names_the_phase() {
    assert_eq!(READ_TIMEOUT_SECS, 5);
    for phase in all_phases() {
        assert_eq!(read_timed_out(phase), ConnectionError::ReadTimeout(phase));
    }
}

#[test]
fn writer_is_shut_down_after_a_broken_pipe_only() {
    assert!(shuts_down_writer(&ConnectionError::Io { broken_pipe: true, message: String::new() }));
    assert!(!shuts_down_writer(&ConnectionError::Io { broken_pipe: false, message: String::new() }));
    assert!(!shuts_down_writer(&ConnectionError::Disconnect(String::new())));
    assert!(!shuts_down_writer(&ConnectionError::ReadPacket {
        connection_closed: true,
        message: String::new()
    }));
}

#[test]
fn disconnect_packet_exists_from_login_on() {
    assert!(!has_disconnect_packet(ConnectionPhase::Handshake));
    assert!(!has_disconnect_packet(ConnectionPhase::Status));
    assert!(has_disconnect_packet(ConnectionPhase::Login));
    assert!(has_disconnect_packet(ConnectionPhase::Configuration));
    assert!(has_disconnect_packet(ConnectionPhase::Game));
}

#[test]
fn game_mode_names_and_numbers() {
    assert_eq!(GameMode::Survival.to_id(), 0);
    assert_eq!(GameMode::Creative.to_id(), 1);
    assert_eq!(GameMode::Adventure.to_id(), 2);
    assert_eq!(GameMode::Spectator.to_id(), 3);
    assert_eq!(GameMode::Survival.name(), "survival");
    assert_eq!(GameMode::Creative.name(), "creative");
    assert_eq!(GameMode::Adventure.name(), "adventure");
    assert_eq!(GameMode::Spectator.name(), "spectator");
}

#[test]
fn game_mode_is_read_from_its_name_in_any_case() {
    assert_eq!(GameMode::from_name("survival"), Ok(GameMode::Survival));
    assert_eq!(GameMode::from_name("CREATIVE"), Ok(GameMode::Creative));
    assert_eq!(GameMode::from_name("Adventure"), Ok(GameMode::Adventure));
    assert_eq!(GameMode::from_name("sPeCtAtOr"), Ok(GameMode::Spectator));
    assert_eq!(
        GameMode::from_name("Hardcore"),
        Err("Unknown game type name: Hardcore".to_string())
    );
    assert_eq!(GameMode::from_name(""), Err("Unknown game type name: ".to_string()));
    assert_eq!(GameMode::parse_lowercase("creative"), Some(GameMode::Creative));
    assert_eq!(GameMode::parse_lowercase("Creative"), None);
}
