use limbo::network::phase::configuration::{
    brand_fits, read_string, send_configurations, send_server_brand, set_skin_layers, try_handle,
    ConfigurationAction, ConfigurationOutput, ConfigurationPacket, ConfigurationSession,
    BRAND_CHANNEL, INTERNAL_ERROR_REASON,
};
use limbo::network::server::{PlayerRef, Server};
use limbo::player::addr::PlayerAddr;
use limbo::player::skin::{PlayerSkin, SkinLayers};
use limbo::player::Player;

fn configured_server() -> (Server, PlayerRef) {
    let mut server = Server::new();
    let skin = PlayerSkin {
        texture: "t".to_string(),
        signature: "s".to_string(),
        layers: SkinLayers::default(),
    };
    let addr = PlayerAddr::new("192.0.2.1:1".to_string());
    let handle = server.add_player(Player::new(addr, "Alex".to_string(), 3, Some(skin))).unwrap();
    (server, handle)
}

fn brand_payload(data: &[u8]) -> ConfigurationPacket {
    ConfigurationPacket::CustomPayload {
        identifier: "minecraft:brand".to_string(),
        data: data.to_vec(),
    }
}

#[test]
fn configuration_constants() {
    assert_eq!(BRAND_CHANNEL, "minecraft:brand");
    assert_eq!(INTERNAL_ERROR_REASON, "Internal error");
}

#[test]
fn server_brand_is_a_length_prefixed_string_on_the_brand_channel() {
    assert_eq!(
        send_server_brand("limbo"),
        ConfigurationOutput::CustomPayload {
            identifier: "minecraft:brand".to_string(),
            data: vec![5, b'l', b'i', b'm', b'b', b'o'],
        }
    );
    assert_eq!(
        send_server_brand(""),
        ConfigurationOutput::CustomPayload {
            identifier: "minecraft:brand".to_string(),
            data: vec![0],
        }
    );
}

#[test]
fn long_brand_has_a_two_byte_length() {
    let brand = "b".repeat(200);
    match send_server_brand(&brand) {
        ConfigurationOutput::CustomPayload { data, .. } => {
            assert_eq!(&data[..2], &[0xc8, 0x01]);
            assert_eq!(data.len(), 202);
        }
        other => panic!("unexpected output {other:?}"),
    }
}

#[test]
fn brand_fits_up_to_the_longest_string() {
    assert!(brand_fits("limbo"));
    assert!(brand_fits(&"b".repeat(32767)));
    assert!(!brand_fits(&"b".repeat(32768)));
    assert!(!brand_fits(&"\u{e9}".repeat(16384)));
}

#[test]
fn configuration_opens_with_brand_registries_and_finish() {
    assert_eq!(
        send_configurations("limbo"),
        vec![
            ConfigurationOutput::CustomPayload {
                identifier: "minecraft:brand".to_string(),
                data: vec![5, b'l', b'i', b'm', b'b', b'o'],
            },
            ConfigurationOutput::RegistryData,
            ConfigurationOutput::FinishConfiguration,
        ]
    );
}

#[test]
fn string_is_read_from_packet_data() {
    assert_eq!(read_string(&[3, b'a', b'b', b'c']), Ok("abc".to_string()));
    assert_eq!(read_string(&[3, b'a', b'b', b'c', 0xff]), Ok("abc".to_string()));
    assert_eq!(
        read_string(&[3, b'a']),
        Err("Failed to read string from packet data: Tried to read 3 bytes but there were only 1"
            .to_string())
    );
    assert_eq!(
        read_string(&[]),
        Err("Failed to read string from packet data: failed to fill whole buffer".to_string())
    );
    assert_eq!(
        read_string(&[1, 0xff]),
        Err("Failed to read string from packet data: Invalid UTF-8".to_string())
    );
}

#[test]
fn client_information_sets_the_skin_layers_of_the_player() {
    let (mut server, handle) = configured_server();
    let mut session = ConfigurationSession::new();
    let shown = SkinLayers { jacket: false, ..SkinLayers::default() };
    let packet = ConfigurationPacket::ClientInformation { model_customization: shown };
    assert_eq!(try_handle(&mut session, packet, &mut server, &handle), ConfigurationAction::Continue);
    assert_eq!(server.player(&handle).unwrap().skin().unwrap().layers, shown);
    assert!(!session.brand_received());
}

#[test]
fn client_information_reaches_the_player_of_the_handle_only() {
    let (mut server, handle) = configured_server();
    let skin = PlayerSkin {
        texture: "t2".to_string(),
        signature: "s2".to_string(),
        layers: SkinLayers::default(),
    };
    let addr = PlayerAddr::new("192.0.2.2:2".to_string());
    let later = server.add_player(Player::new(addr, "Alex".to_string(), 3, Some(skin))).unwrap();
    let mut session = ConfigurationSession::new();
    let shown = SkinLayers { cape: false, ..SkinLayers::default() };
    let packet = ConfigurationPacket::ClientInformation { model_customization: shown };
    assert_eq!(try_handle(&mut session, packet, &mut server, &handle), ConfigurationAction::Continue);
    assert_eq!(server.player(&handle).unwrap().skin().unwrap().layers, shown);
    assert_eq!(server.player(&later).unwrap().skin().unwrap().layers, SkinLayers::default());
    assert_eq!(server.get_player_count(), 1);
}

#[test]
fn client_information_for_a_removed_player_still_reaches_the_player() {
    let (mut server, handle) = configured_server();
    server.remove_player(3);
    let mut session = ConfigurationSession::new();
    let shown = SkinLayers { hat: false, ..SkinLayers::default() };
    let packet = ConfigurationPacket::ClientInformation { model_customization: shown };
    assert_eq!(try_handle(&mut session, packet, &mut server, &handle), ConfigurationAction::Continue);
    assert_eq!(server.player(&handle).unwrap().skin().unwrap().layers, shown);
    assert_eq!(server.get_player_count(), 0);
}

#[test]
fn first_brand_is_noted_and_later_ones_are_not() {
    let (mut server, handle) = configured_server();
    let mut session = ConfigurationSession::new();
    let action = try_handle(&mut session, brand_payload(&[7, b'v', b'a', b'n', b'i', b'l', b'l', b'a']), &mut server, &handle);
    assert_eq!(action, ConfigurationAction::BrandReceived("vanilla".to_string()));
    assert!(session.brand_received());
    let action = try_handle(&mut session, brand_payload(&[5, b'o', b't', b'h', b'e', b'r']), &mut server, &handle);
    assert_eq!(action, ConfigurationAction::Continue);
    let action = try_handle(&mut session, brand_payload(&[9]), &mut server, &handle);
    assert_eq!(action, ConfigurationAction::Continue);
    assert!(session.brand_received());
}

#[test]
fn unreadable_brand_is_an_internal_error() {
    let (mut server, handle) = configured_server();
    let mut session = ConfigurationSession::new();
    let action = try_handle(&mut session, brand_payload(&[9, b'x']), &mut server, &handle);
    assert_eq!(
        action,
        ConfigurationAction::InternalError(
            "Failed to read string from packet data: Tried to read 9 bytes but there were only 1"
                .to_string()
        )
    );
}

#[test]
fn other_channels_are_ignored() {
    let (mut server, handle) = configured_server();
    let mut session = ConfigurationSession::new();
    let packet = ConfigurationPacket::CustomPayload {
        identifier: "minecraft:register".to_string(),
        data: vec![0xff, 0xff],
    };
    assert_eq!(try_handle(&mut session, packet, &mut server, &handle), ConfigurationAction::Continue);
    assert!(!session.brand_received());
}

#[test]
fn acknowledged_packets_change_nothing() {
    let (mut server, handle) = configured_server();
    let mut session = ConfigurationSession::new();
    for packet in [
        ConfigurationPacket::KeepAlive,
        ConfigurationPacket::Pong,
        ConfigurationPacket::ResourcePack,
    ] {
        assert_eq!(try_handle(&mut session, packet, &mut server, &handle), ConfigurationAction::Continue);
    }
    assert!(!session.brand_received());
    assert_eq!(server.player(&handle).unwrap().skin().unwrap().layers, SkinLayers::default());
}

#[test]
fn finish_configuration_ends_the_phase() {
    let (mut server, handle) = configured_server();
    let mut session = ConfigurationSession::new();
    assert_eq!(
        try_handle(&mut session, ConfigurationPacket::FinishConfiguration, &mut server, &handle),
        ConfigurationAction::Finish
    );
}

#[test]
fn skin_layers_are_set_through_the_handle() {
    let (mut server, handle) = configured_server();
    let shown = SkinLayers { hat: false, ..SkinLayers::default() };
    assert!(set_skin_layers(&mut server, &handle, shown));
    assert_eq!(server.player(&handle).unwrap().skin().unwrap().layers, shown);
    server.remove_player(3);
    assert!(set_skin_layers(&mut server, &handle, SkinLayers::default()));
    assert_eq!(server.player(&handle).unwrap().skin().unwrap().layers, SkinLayers::default());
    let mut empty = Server::new();
    assert!(!set_skin_layers(&mut empty, &handle, shown));
}
