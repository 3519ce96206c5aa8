//! The players.

use vstd::prelude::*;
use vstd::string::*;
use crate::network::server::{following_id, with_skin_layers, Server};
use crate::player::addr::PlayerAddr;
use crate::player::profile::{GameProfile, GameProfileView, Property, PropertyView};
use crate::player::skin::{skin_view, PlayerSkin, PlayerSkinView, SkinLayers, TEXTURE_KEY};
use crate::utils::uuid::{uuid_string, uuid_text};

pub mod addr;
pub mod profile;
pub mod skin;

verus! {

/// A player who is logged in.
#[derive(Debug, PartialEq, Eq)]
pub struct Player {
    addr: PlayerAddr,
    name: String,
    uuid: u128,
    skin: Option<PlayerSkin>,
    entity_id: u32,
}

/// A player as plain values.
pub struct PlayerView {
    /// The address of the player, as it is displayed.
    pub addr: Seq<char>,
    /// The name of the player.
    pub name: Seq<char>,
    /// The identifier of the player.
    pub uuid: u128,
    /// The skin of the player.
    pub skin: Option<PlayerSkinView>,
    /// The number of the player's entity; 0 until the player enters the game.
    pub entity_id: u32,
}

impl View for Player {
    type V = PlayerView;

    closed spec fn view(&self) -> PlayerView {
        PlayerView {
            addr: self.addr@,
            name: self.name@,
            uuid: self.uuid,
            skin: skin_view(self.skin),
            entity_id: self.entity_id,
        }
    }
}

impl Clone for Player {
    fn clone(&self) -> (player: Self)
        ensures
            player == *self,
    {
        Player {
            addr: self.addr.clone(),
            name: self.name.clone(),
            uuid: self.uuid,
            skin: match &self.skin {
                Some(skin) => Some(skin.clone()),
                None => None,
            },
            entity_id: self.entity_id,
        }
    }
}

/// The properties of the profile of a player with this skin: the textures with
/// their signature, if there is a skin, and nothing else.
pub open spec fn skin_properties(skin: Option<PlayerSkinView>) -> Seq<PropertyView> {
    match skin {
        Some(skin) => seq![
            PropertyView {
                name: "textures"@,
                value: skin.texture,
                signature: Some(skin.signature),
            },
        ],
        None => Seq::empty(),
    }
}

/// The text that stands for a player where more than the name is wanted.
pub open spec fn player_debug_text(player: PlayerView) -> Seq<char> {
    "Player("@ + player.name + " / "@ + uuid_text(player.uuid) + ")"@
}

impl Player {
    /// Creates a player who has not entered the game yet.
    pub fn new(addr: PlayerAddr, name: String, uuid: u128, skin: Option<PlayerSkin>) -> (player:
        Self)
        ensures
            player@ == (PlayerView {
                addr: addr@,
                name: name@,
                uuid,
                skin: skin_view(skin),
                entity_id: 0,
            }),
    {
        Player { addr, name, uuid, skin, entity_id: 0 }
    }

    /// Gives the player the next entity number of the server. To be called
    /// once, when the player enters the game.
    pub fn init(&mut self, server: &mut Server)
        ensures
            final(self)@ == (PlayerView { entity_id: old(server).next_id(), ..old(self)@ }),
            final(server).registrations() == old(server).registrations(),
            final(server).latest() == old(server).latest(),
            final(server).next_id() == following_id(old(server).next_id()),
    {
        self.entity_id = server.next_entity_id();
    }

    /// The address of the player.
    pub fn addr(&self) -> (addr: &PlayerAddr)
        ensures
            addr@ == self@.addr,
    {
        &self.addr
    }

    /// The name of the player.
    pub fn name(&self) -> (name: &str)
        ensures
            name@ == self@.name,
    {
        self.name.as_str()
    }

    /// The identifier of the player.
    pub fn uuid(&self) -> (uuid: u128)
        ensures
            uuid == self@.uuid,
    {
        self.uuid
    }

    /// The skin of the player.
    pub fn skin(&self) -> (skin: Option<&PlayerSkin>)
        ensures
            match skin {
                Some(s) => self@.skin == Some(s@),
                None => self@.skin is None,
            },
    {
        self.skin.as_ref()
    }

    /// The number of the player's entity.
    pub fn entity_id(&self) -> (id: u32)
        ensures
            id == self@.entity_id,
    {
        self.entity_id
    }

    /// The profile of the player, with the skin if there is one.
    pub fn game_profile(&self) -> (profile: GameProfile)
        ensures
            profile@ == (GameProfileView {
                uuid: self@.uuid,
                name: self@.name,
                properties: skin_properties(self@.skin),
            }),
    {
        let mut properties: Vec<Property> = Vec::new();
        match &self.skin {
            Some(skin) => {
                properties.push(
                    Property {
                        name: String::from_str(TEXTURE_KEY),
                        value: skin.texture.clone(),
                        signature: Some(skin.signature.clone()),
                    },
                );
            },
            None => {},
        }
        let profile = GameProfile { uuid: self.uuid, name: self.name.clone(), properties };
        assert(profile@.properties =~= skin_properties(self@.skin));
        profile
    }

    /// Sets the parts of the skin that show. A player without a skin stays as
    /// it is.
    pub fn set_skin_layers(&mut self, layers: SkinLayers)
        ensures
            final(self)@ == with_skin_layers(old(self)@, layers),
    {
        match &mut self.skin {
            Some(skin) => {
                skin.layers = layers;
            },
            None => {},
        }
    }

    /// The player as a short text: the name.
    pub fn display(&self) -> (s: String)
        ensures
            s@ == self@.name,
    {
        self.name.clone()
    }

    /// The player as a longer text: the name and the identifier.
    pub fn debug_string(&self) -> (s: String)
        ensures
            s@ == player_debug_text(self@),
    {
        let s = String::from_str("Player(");
        let s = s.concat(self.name.as_str());
        let s = s.concat(" / ");
        let s = s.concat(uuid_string(self.uuid).as_str());
        s.concat(")")
    }
}

} // verus!
