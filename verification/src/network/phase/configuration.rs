//! The configuration phase: what the client has to know before it joins.
//!
//! The server opens with its brand, the registries and the signal that it is
//! done. The client sends what it wants to tell, and ends the phase with the
//! same signal.

use vstd::prelude::*;
use vstd::string::*;
use vstd::utf8::*;
use crate::network::server::{
    record_changed, registry_unchanged, with_skin_layers, PlayerRef, Server,
};
use crate::player::skin::SkinLayers;
use crate::utils::buf::{
    read_error_text, read_string as read_buf_string, spec_read_string, spec_write_string,
    write_string, BufReadError, MAX_STRING_LENGTH,
};

verus! {

/// The channel on which a side names its brand.
pub const BRAND_CHANNEL: &'static str = "minecraft:brand";

/// What a client is told when the server fails for a reason of its own.
pub const INTERNAL_ERROR_REASON: &'static str = "Internal error";

/// What a client can send in the configuration phase.
#[derive(Debug, PartialEq, Eq)]
pub enum ConfigurationPacket {
    /// The client's settings; of these the server keeps the parts of the skin
    /// that show.
    ClientInformation { model_customization: SkinLayers },
    /// Data on a named channel.
    CustomPayload { identifier: String, data: Vec<u8> },
    KeepAlive,
    Pong,
    ResourcePack,
    /// The client is done.
    FinishConfiguration,
}

/// What the server sends in the configuration phase.
#[derive(Debug, PartialEq, Eq)]
pub enum ConfigurationOutput {
    /// Data on a named channel.
    CustomPayload { identifier: String, data: Vec<u8> },
    /// The registries of the game.
    RegistryData,
    /// The server is done.
    FinishConfiguration,
}

/// What the server sends, as plain values.
pub enum ConfigurationOutputView {
    CustomPayload { identifier: Seq<char>, data: Seq<u8> },
    RegistryData,
    FinishConfiguration,
}

impl View for ConfigurationOutput {
    type V = ConfigurationOutputView;

    open spec fn view(&self) -> ConfigurationOutputView {
        match self {
            ConfigurationOutput::CustomPayload {
                identifier,
                data,
            } => ConfigurationOutputView::CustomPayload { identifier: identifier@, data: data@ },
            ConfigurationOutput::RegistryData => ConfigurationOutputView::RegistryData,
            ConfigurationOutput::FinishConfiguration => ConfigurationOutputView::FinishConfiguration,
        }
    }
}

/// What the server has to do after a packet.
#[derive(Debug, PartialEq, Eq)]
pub enum ConfigurationAction {
    /// Read on.
    Continue,
    /// Note the brand of the client, and read on.
    BrandReceived(String),
    /// Go on to the game phase.
    Finish,
    /// Tell the client that it is disconnected for [`INTERNAL_ERROR_REASON`],
    /// note the detail, and end the connection.
    InternalError(String),
}

/// What the server has to do, as plain values.
pub enum ConfigurationActionView {
    Continue,
    BrandReceived(Seq<char>),
    Finish,
    InternalError(Seq<char>),
}

impl View for ConfigurationAction {
    type V = ConfigurationActionView;

    open spec fn view(&self) -> ConfigurationActionView {
        match self {
            ConfigurationAction::Continue => ConfigurationActionView::Continue,
            ConfigurationAction::BrandReceived(brand) => ConfigurationActionView::BrandReceived(
                brand@,
            ),
            ConfigurationAction::Finish => ConfigurationActionView::Finish,
            ConfigurationAction::InternalError(detail) => ConfigurationActionView::InternalError(
                detail@,
            ),
        }
    }
}

/// The packet that names the brand of the server: the brand as a
/// length-prefixed string, on the brand channel.
pub open spec fn spec_server_brand(brand: Seq<char>) -> ConfigurationOutputView {
    ConfigurationOutputView::CustomPayload {
        identifier: "minecraft:brand"@,
        data: spec_write_string(brand),
    }
}

/// What the server opens the phase with, in this order: its brand, the
/// registries, and the signal that it is done.
pub open spec fn spec_configurations(brand: Seq<char>) -> Seq<ConfigurationOutputView> {
    seq![
        spec_server_brand(brand),
        ConfigurationOutputView::RegistryData,
        ConfigurationOutputView::FinishConfiguration,
    ]
}

/// Builds the packet that names the brand of the server. The protocol has no
/// encoding for a brand of more than [`MAX_STRING_LENGTH`] bytes.
pub fn send_server_brand(brand: &str) -> (output: ConfigurationOutput)
    requires
        encode_utf8(brand@).len() <= MAX_STRING_LENGTH,
    ensures
        output@ == spec_server_brand(brand@),
{
    let mut data: Vec<u8> = Vec::new();
    write_string(&mut data, brand);
    assert(data@ =~= spec_write_string(brand@));
    ConfigurationOutput::CustomPayload { identifier: String::from_str(BRAND_CHANNEL), data }
}

/// Whether a brand is short enough to be sent.
pub fn brand_fits(brand: &str) -> (fits: bool)
    ensures
        fits == (encode_utf8(brand@).len() <= MAX_STRING_LENGTH),
{
    brand.as_bytes().len() <= MAX_STRING_LENGTH as usize
}

/// Builds what the server opens the phase with.
pub fn send_configurations(brand: &str) -> (outputs: Vec<ConfigurationOutput>)
    requires
        encode_utf8(brand@).len() <= MAX_STRING_LENGTH,
    ensures
        outputs@.len() == 3,
        forall|i: int| 0 <= i < 3 ==> (#[trigger] outputs@[i])@ == spec_configurations(brand@)[i],
{
    let mut outputs: Vec<ConfigurationOutput> = Vec::new();
    outputs.push(send_server_brand(brand));
    outputs.push(ConfigurationOutput::RegistryData);
    outputs.push(ConfigurationOutput::FinishConfiguration);
    outputs
}

/// What is noted when the data of a packet is no string.
pub open spec fn unreadable_string_text(e: BufReadError) -> Seq<char> {
    "Failed to read string from packet data: "@ + read_error_text(e)
}

/// Reads the string that the data of a packet starts with; on failure, the
/// detail of an internal error.
pub fn read_string(data: &[u8]) -> (r: Result<String, String>)
    ensures
        match (r, spec_read_string(data@)) {
            (Ok(s), Ok((chars, _))) => s@ == chars,
            (Err(detail), Err(e)) => detail@ == unreadable_string_text(e),
            _ => false,
        },
{
    assert(data@.skip(0) =~= data@);
    match read_buf_string(data, 0) {
        Ok((s, _)) => Ok(s),
        Err(e) => Err(
            String::from_str("Failed to read string from packet data: ").concat(
                e.message().as_str(),
            ),
        ),
    }
}

/// Sets the parts that show of the skin of the player that a handle stands for.
/// Says whether the handle stands for a player of the registry; nothing
/// changes if it does not.
pub fn set_skin_layers(server: &mut Server, player: &PlayerRef, layers: SkinLayers) -> (found:
    bool)
    ensures
        found == (player.number() < old(server).registrations().len()),
        skin_layers_set(old(server), final(server), *player, layers),
{
    server.set_skin_layers(player, layers)
}

/// Whether a registry has changed by the setting of the parts that show of the
/// skin of the player that a handle stands for, and in nothing else.
pub open spec fn skin_layers_set(
    before: &Server,
    after: &Server,
    player: PlayerRef,
    layers: SkinLayers,
) -> bool {
    if player.number() < before.registrations().len() {
        &&& record_changed(
            before,
            after,
            player,
            with_skin_layers(before.registrations()[player.number() as int]@, layers),
        )
        &&& after.next_id() == before.next_id()
    } else {
        registry_unchanged(before, after)
    }
}

/// The configuration of one connection.
pub struct ConfigurationSession {
    brand_received: bool,
}

impl ConfigurationSession {
    /// Whether the client has named its brand.
    pub closed spec fn spec_brand_received(&self) -> bool {
        self.brand_received
    }

    /// A configuration in which the client has said nothing yet.
    pub fn new() -> (session: ConfigurationSession)
        ensures
            !session.brand_received(),
    {
        ConfigurationSession { brand_received: false }
    }

    /// Whether the client has named its brand.
    #[verifier::when_used_as_spec(spec_brand_received)]
    pub fn brand_received(&self) -> (received: bool)
        ensures
            received == self.spec_brand_received(),
    {
        self.brand_received
    }
}

/// What a packet leads to, and whether the client has named its brand
/// afterwards.
///
/// The client's settings and its signal that it is done are acted on. Of what
/// arrives on the brand channel only the first is read: a client cannot make
/// the server note its brand over and over. Everything else is let pass.
pub open spec fn spec_configuration_step(
    brand_received: bool,
    packet: ConfigurationPacket,
) -> (ConfigurationActionView, bool) {
    match packet {
        ConfigurationPacket::CustomPayload { identifier, data } => if identifier@
            == "minecraft:brand"@ && !brand_received {
            match spec_read_string(data@) {
                Ok((brand, _)) => (ConfigurationActionView::BrandReceived(brand), true),
                Err(e) => (ConfigurationActionView::InternalError(unreadable_string_text(e)), true),
            }
        } else {
            (ConfigurationActionView::Continue, brand_received)
        },
        ConfigurationPacket::FinishConfiguration => (
            ConfigurationActionView::Finish,
            brand_received,
        ),
        _ => (ConfigurationActionView::Continue, brand_received),
    }
}

/// Whether a registry has changed as a packet of the client asks: its
/// settings set the parts that show of the player's skin, and nothing else
/// changes anything.
pub open spec fn configuration_registry_step(
    before: &Server,
    after: &Server,
    player: PlayerRef,
    packet: ConfigurationPacket,
) -> bool {
    match packet {
        ConfigurationPacket::ClientInformation { model_customization } => skin_layers_set(
            before,
            after,
            player,
            model_customization,
        ),
        _ => registry_unchanged(before, after),
    }
}

/// Takes the configuration one packet further.
pub fn try_handle(
    session: &mut ConfigurationSession,
    packet: ConfigurationPacket,
    server: &mut Server,
    player: &PlayerRef,
) -> (action: ConfigurationAction)
    ensures
        action@ == spec_configuration_step(old(session).brand_received(), packet).0,
        final(session).brand_received() == spec_configuration_step(
            old(session).brand_received(),
            packet,
        ).1,
        configuration_registry_step(old(server), final(server), *player, packet),
{
    match packet {
        ConfigurationPacket::ClientInformation { model_customization } => {
            let _ = set_skin_layers(server, player, model_customization);
            ConfigurationAction::Continue
        },
        ConfigurationPacket::CustomPayload { identifier, data } => {
            if is_brand_channel(identifier.as_str()) {
                if session.brand_received {
                    return ConfigurationAction::Continue;
                }
                session.brand_received = true;
                match read_string(data.as_slice()) {
                    Ok(brand) => ConfigurationAction::BrandReceived(brand),
                    Err(detail) => ConfigurationAction::InternalError(detail),
                }
            } else {
                ConfigurationAction::Continue
            }
        },
        ConfigurationPacket::KeepAlive => ConfigurationAction::Continue,
        ConfigurationPacket::Pong => ConfigurationAction::Continue,
        ConfigurationPacket::ResourcePack => ConfigurationAction::Continue,
        ConfigurationPacket::FinishConfiguration => ConfigurationAction::Finish,
    }
}

/// Whether a channel is the one on which a side names its brand.
fn is_brand_channel(identifier: &str) -> (b: bool)
    ensures
        b == (identifier@ == "minecraft:brand"@),
{
    let channel = String::from_str(BRAND_CHANNEL);
    let identifier = String::from_str(identifier);
    identifier == channel
}

} // verus!
