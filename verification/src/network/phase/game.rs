//! The game phase: the player joins.
//!
//! On entry the player gets an entity number, and the client is sent what it
//! needs to show a world: who it is, where it stands, and the chunks around
//! it. After that the server only listens.

use vstd::pervasive::unreached;
use vstd::prelude::*;
use vstd::string::*;
use crate::config::ty::GameMode;
use crate::config::Config;
use crate::network::server::{
    following_id, record_changed, registry_unchanged, PlayerRef, Server, SIMULATION_DISTANCE,
    VIEW_DISTANCE,
};
use crate::player::profile::{GameProfile, GameProfileView};
use crate::player::skin::{layers_bits, SkinLayersExt};
use crate::player::{skin_properties, Player, PlayerView};

verus! {

/// The place of the skin layers among the data of a player's entity.
pub const SKIN_LAYERS_INDEX: u8 = 17;

/// The number under which the first teleport is confirmed.
pub const TELEPORT_ID: u32 = 1;

/// The biome of the placeholder chunks: plains.
pub const PLACEHOLDER_BIOME: u32 = 39;

/// The number of sections of a placeholder chunk.
pub const PLACEHOLDER_SECTIONS: usize = 24;

/// What a client can send in the game phase, as far as the server cares.
#[derive(Debug, Clone, Copy, PartialEq, Eq, Structural)]
pub enum GamePacket {
    Pong,
    Other,
}

/// What the server has to do after a packet.
#[derive(Debug, Clone, Copy, PartialEq, Eq, Structural)]
pub enum GameAction {
    /// Read on.
    Continue,
    /// The phase is over.
    Finish,
}

/// The place of a chunk.
#[derive(Debug, Clone, Copy, PartialEq, Eq, Structural)]
pub struct ChunkPos {
    pub x: i32,
    pub z: i32,
}

/// The events by which the server changes the state of the game.
#[derive(Debug, Clone, Copy, PartialEq, Eq, Structural)]
pub enum EventType {
    NoRespawnBlockAvailable,
    StartRaining,
    StopRaining,
    ChangeGameMode,
    WinGame,
    DemoEvent,
    ArrowHitPlayer,
    RainLevelChange,
    ThunderLevelChange,
    PufferFishSting,
    GuardianElderEffect,
    ImmediateRespawn,
    LimitedCrafting,
    WaitForLevelChunks,
}

/// What a join says of the world that the player spawns in.
#[derive(Debug, PartialEq, Eq)]
pub struct CommonPlayerSpawnInfo {
    pub dimension_type: String,
    pub dimension: String,
    pub seed: i64,
    pub game_type: GameMode,
    pub previous_game_type: Option<GameMode>,
    pub is_debug: bool,
    pub is_flat: bool,
    pub has_last_death_location: bool,
    pub portal_cooldown: u32,
}

/// The packet by which the client is told that it has joined.
#[derive(Debug, PartialEq, Eq)]
pub struct JoinGame {
    pub player_id: u32,
    pub hardcore: bool,
    pub levels: Vec<String>,
    pub max_players: i32,
    pub chunk_radius: u32,
    pub simulation_distance: u32,
    pub reduced_debug_info: bool,
    pub show_death_screen: bool,
    pub do_limited_crafting: bool,
    pub common: CommonPlayerSpawnInfo,
}

/// A join as plain values.
pub struct JoinGameView {
    pub player_id: u32,
    pub hardcore: bool,
    pub levels: Seq<Seq<char>>,
    pub max_players: i32,
    pub chunk_radius: u32,
    pub simulation_distance: u32,
    pub reduced_debug_info: bool,
    pub show_death_screen: bool,
    pub do_limited_crafting: bool,
    pub dimension_type: Seq<char>,
    pub dimension: Seq<char>,
    pub seed: i64,
    pub game_type: GameMode,
    pub previous_game_type: Option<GameMode>,
    pub is_debug: bool,
    pub is_flat: bool,
    pub has_last_death_location: bool,
    pub portal_cooldown: u32,
}

impl View for JoinGame {
    type V = JoinGameView;

    open spec fn view(&self) -> JoinGameView {
        JoinGameView {
            player_id: self.player_id,
            hardcore: self.hardcore,
            levels: Seq::new(self.levels@.len(), |i: int| self.levels@[i]@),
            max_players: self.max_players,
            chunk_radius: self.chunk_radius,
            simulation_distance: self.simulation_distance,
            reduced_debug_info: self.reduced_debug_info,
            show_death_screen: self.show_death_screen,
            do_limited_crafting: self.do_limited_crafting,
            dimension_type: self.common.dimension_type@,
            dimension: self.common.dimension@,
            seed: self.common.seed,
            game_type: self.common.game_type,
            previous_game_type: self.common.previous_game_type,
            is_debug: self.common.is_debug,
            is_flat: self.common.is_flat,
            has_last_death_location: self.common.has_last_death_location,
            portal_cooldown: self.common.portal_cooldown,
        }
    }
}

/// What an update of the player list tells of each player.
#[derive(Debug, Clone, Copy, PartialEq, Eq, Structural)]
pub struct ActionEnumSet {
    pub add_player: bool,
    pub initialize_chat: bool,
    pub update_game_mode: bool,
    pub update_listed: bool,
    pub update_latency: bool,
    pub update_display_name: bool,
}

/// A player in an update of the player list. No player of this server has a
/// chat session.
#[derive(Debug, PartialEq, Eq)]
pub struct PlayerInfoEntry {
    pub profile: GameProfile,
    pub listed: bool,
    pub latency: i32,
    pub game_mode: GameMode,
    pub display_name: Option<String>,
}

/// An update of the player list.
#[derive(Debug, PartialEq, Eq)]
pub struct PlayerInfoUpdate {
    pub actions: ActionEnumSet,
    pub entries: Vec<PlayerInfoEntry>,
}

/// An update of the player list that tells of one player, as plain values.
pub struct PlayerInfoUpdateView {
    pub actions: ActionEnumSet,
    pub entries: nat,
    pub profile: GameProfileView,
    pub listed: bool,
    pub latency: i32,
    pub game_mode: GameMode,
    pub has_display_name: bool,
}

impl View for PlayerInfoUpdate {
    type V = PlayerInfoUpdateView;

    open spec fn view(&self) -> PlayerInfoUpdateView {
        PlayerInfoUpdateView {
            actions: self.actions,
            entries: self.entries@.len(),
            profile: self.entries@[0].profile@,
            listed: self.entries@[0].listed,
            latency: self.entries@[0].latency,
            game_mode: self.entries@[0].game_mode,
            has_display_name: self.entries@[0].display_name is Some,
        }
    }
}

/// What a player is able to do.
#[derive(Debug, Clone, Copy, PartialEq, Eq, Structural)]
pub struct PlayerAbilitiesFlags {
    pub invulnerable: bool,
    pub flying: bool,
    pub can_fly: bool,
    pub instant_break: bool,
}

/// One item of the data of an entity: a byte at a place.
#[derive(Debug, Clone, Copy, PartialEq, Eq, Structural)]
pub struct SetEntityData {
    pub id: u32,
    pub index: u8,
    pub value: u8,
}

/// What the server sends in the game phase. Where a packet holds coordinates
/// or angles, they are the ones of the spawn location in the settings, which
/// the sender fills in.
#[derive(Debug, PartialEq, Eq)]
pub enum GameOutput {
    /// The client has joined.
    Login(JoinGame),
    /// The player list changes.
    PlayerInfoUpdate(PlayerInfoUpdate),
    /// Where players spawn: the block and the angle of the spawn location.
    SetDefaultSpawnPosition,
    /// The player is moved to the spawn location, with none of the
    /// coordinates relative, and confirms the move under this number.
    PlayerPosition { id: u32 },
    /// The data of an entity changes.
    SetEntityData(SetEntityData),
    /// The state of the game changes, with the parameter 0.
    GameEvent(EventType),
    /// The chunk around which the client keeps chunks.
    SetChunkCacheCenter { x: i32, z: i32 },
    /// A batch of chunks begins.
    ChunkBatchStart,
    /// A placeholder chunk at this place: flat, of one biome, without light.
    LevelChunk(ChunkPos),
    /// A batch of so many chunks has ended.
    ChunkBatchFinished { batch_size: u32 },
}

/// What the server sends, as plain values.
pub enum GameOutputView {
    Login(JoinGameView),
    PlayerInfoUpdate(PlayerInfoUpdateView),
    SetDefaultSpawnPosition,
    PlayerPosition { id: u32 },
    SetEntityData(SetEntityData),
    GameEvent(EventType),
    SetChunkCacheCenter { x: i32, z: i32 },
    ChunkBatchStart,
    LevelChunk(ChunkPos),
    ChunkBatchFinished { batch_size: u32 },
}

impl View for GameOutput {
    type V = GameOutputView;

    open spec fn view(&self) -> GameOutputView {
        match self {
            GameOutput::Login(join) => GameOutputView::Login(join@),
            GameOutput::PlayerInfoUpdate(update) => GameOutputView::PlayerInfoUpdate(update@),
            GameOutput::SetDefaultSpawnPosition => GameOutputView::SetDefaultSpawnPosition,
            GameOutput::PlayerPosition { id } => GameOutputView::PlayerPosition { id: *id },
            GameOutput::SetEntityData(data) => GameOutputView::SetEntityData(*data),
            GameOutput::GameEvent(event) => GameOutputView::GameEvent(*event),
            GameOutput::SetChunkCacheCenter { x, z } => GameOutputView::SetChunkCacheCenter {
                x: *x,
                z: *z,
            },
            GameOutput::ChunkBatchStart => GameOutputView::ChunkBatchStart,
            GameOutput::LevelChunk(pos) => GameOutputView::LevelChunk(*pos),
            GameOutput::ChunkBatchFinished { batch_size } => GameOutputView::ChunkBatchFinished {
                batch_size: *batch_size,
            },
        }
    }
}

/// The packets of a list as plain values.
pub open spec fn outputs_view(outputs: Seq<GameOutput>) -> Seq<GameOutputView> {
    Seq::new(outputs.len(), |i: int| outputs[i]@)
}

// ---------------------------------------------------------------------------
// The packets
// ---------------------------------------------------------------------------

/// The join of a player: the one flat world of the server, in the mode of the
/// settings, with the death screen and without limits on crafting.
pub open spec fn spec_join(
    player_id: u32,
    max_players: i32,
    game_type: GameMode,
    reduced_debug_info: bool,
) -> JoinGameView {
    JoinGameView {
        player_id,
        hardcore: false,
        levels: seq!["minecraft:world"@],
        max_players,
        chunk_radius: VIEW_DISTANCE,
        simulation_distance: SIMULATION_DISTANCE,
        reduced_debug_info,
        show_death_screen: true,
        do_limited_crafting: false,
        dimension_type: "minecraft:overworld"@,
        dimension: "minecraft:world"@,
        seed: 0,
        game_type,
        previous_game_type: None,
        is_debug: false,
        is_flat: true,
        has_last_death_location: false,
        portal_cooldown: 0,
    }
}

/// Builds the packet by which the client is told that it has joined.
pub fn signal_game_start(
    player_id: u32,
    max_players: i32,
    game_type: GameMode,
    reduced_debug_info: bool,
) -> (join: JoinGame)
    ensures
        join@ == spec_join(player_id, max_players, game_type, reduced_debug_info),
{
    let mut levels: Vec<String> = Vec::new();
    levels.push(String::from_str("minecraft:world"));
    let join = JoinGame {
        player_id,
        hardcore: false,
        levels,
        max_players,
        chunk_radius: VIEW_DISTANCE,
        simulation_distance: SIMULATION_DISTANCE,
        reduced_debug_info,
        show_death_screen: true,
        do_limited_crafting: false,
        common: CommonPlayerSpawnInfo {
            dimension_type: String::from_str("minecraft:overworld"),
            dimension: String::from_str("minecraft:world"),
            seed: 0,
            game_type,
            previous_game_type: None,
            is_debug: false,
            is_flat: true,
            has_last_death_location: false,
            portal_cooldown: 0,
        },
    };
    assert(join@.levels =~= seq!["minecraft:world"@]);
    join
}

/// The update that announces a player: listed, without latency, in the mode of
/// the settings, under the player's own name.
pub open spec fn spec_player_update(
    profile: GameProfileView,
    game_mode: GameMode,
) -> PlayerInfoUpdateView {
    PlayerInfoUpdateView {
        actions: ActionEnumSet {
            add_player: true,
            initialize_chat: false,
            update_game_mode: true,
            update_listed: true,
            update_latency: true,
            update_display_name: true,
        },
        entries: 1,
        profile,
        listed: true,
        latency: 0,
        game_mode,
        has_display_name: false,
    }
}

/// Builds the update of the player list that announces a player.
pub fn signal_player_update(profile: GameProfile, game_mode: GameMode) -> (update:
    PlayerInfoUpdate)
    ensures
        update@ == spec_player_update(profile@, game_mode),
{
    let mut entries: Vec<PlayerInfoEntry> = Vec::new();
    entries.push(
        PlayerInfoEntry { profile, listed: true, latency: 0, game_mode, display_name: None },
    );
    PlayerInfoUpdate {
        actions: ActionEnumSet {
            add_player: true,
            initialize_chat: false,
            update_game_mode: true,
            update_listed: true,
            update_latency: true,
            update_display_name: true,
        },
        entries,
    }
}

/// What a player is able to do: fly if the settings allow it, break blocks at
/// once in creative mode, and neither fly already nor be invulnerable.
pub fn signal_player_abilities(game_mode: GameMode, allow_flight: bool) -> (flags:
    PlayerAbilitiesFlags)
    ensures
        flags == (PlayerAbilitiesFlags {
            invulnerable: false,
            flying: false,
            can_fly: allow_flight,
            instant_break: game_mode == GameMode::Creative,
        }),
{
    let creative_mode = match game_mode {
        GameMode::Creative => true,
        _ => false,
    };
    PlayerAbilitiesFlags {
        invulnerable: false,
        flying: false,
        can_fly: allow_flight,
        instant_break: creative_mode,
    }
}

/// The packet that tells which parts of a player's skin show: none for a
/// player without a skin.
pub open spec fn spec_skin_layers_data(player: PlayerView) -> Option<SetEntityData> {
    match player.skin {
        Some(skin) => Some(
            SetEntityData {
                id: player.entity_id,
                index: SKIN_LAYERS_INDEX,
                value: layers_bits(skin.layers),
            },
        ),
        None => None,
    }
}

/// Builds the packet that tells which parts of a player's skin show.
pub fn signal_player_skin_layers(player: &Player) -> (data: Option<SetEntityData>)
    ensures
        data == spec_skin_layers_data(player@),
{
    match player.skin() {
        Some(skin) => Some(
            SetEntityData {
                id: player.entity_id(),
                index: SKIN_LAYERS_INDEX,
                value: skin.layers.to_bits(),
            },
        ),
        None => None,
    }
}

/// The packet by which the state of the game changes.
pub fn signal_game_state_change(event: EventType) -> (output: GameOutput)
    ensures
        output@ == GameOutputView::GameEvent(event),
{
    GameOutput::GameEvent(event)
}

/// The chunk around which the client keeps chunks: the one at the origin.
pub fn signal_center_chunk() -> (output: GameOutput)
    ensures
        output@ == (GameOutputView::SetChunkCacheCenter { x: 0, z: 0 }),
{
    GameOutput::SetChunkCacheCenter { x: 0, z: 0 }
}

/// The places of the placeholder chunks: the square of twelve by twelve chunks
/// around the origin, column by column.
pub open spec fn placeholder_chunks() -> Seq<ChunkPos> {
    Seq::new(144, |k: int| ChunkPos { x: (k / 12 - 6) as i32, z: (k % 12 - 6) as i32 })
}

/// Lists the places of the placeholder chunks.
pub fn placeholder_chunk_positions() -> (chunks: Vec<ChunkPos>)
    ensures
        chunks@ == placeholder_chunks(),
{
    let mut chunks: Vec<ChunkPos> = Vec::new();
    let mut x: i32 = -6;
    while x < 6
        invariant
            -6 <= x <= 6,
            chunks@.len() == (x + 6) * 12,
            forall|k: int| 0 <= k < chunks@.len() ==> chunks@[k] == placeholder_chunks()[k],
        decreases 6 - x,
    {
        let mut z: i32 = -6;
        while z < 6
            invariant
                -6 <= x < 6,
                -6 <= z <= 6,
                chunks@.len() == (x + 6) * 12 + (z + 6),
                forall|k: int| 0 <= k < chunks@.len() ==> chunks@[k] == placeholder_chunks()[k],
            decreases 6 - z,
        {
            chunks.push(ChunkPos { x, z });
            z = z + 1;
        }
        x = x + 1;
    }
    assert(chunks@ =~= placeholder_chunks());
    chunks
}

/// A batch of chunks: its start, a chunk for each place, and its end with the
/// number of chunks, counted in 32 bits.
pub open spec fn spec_chunk_batch(chunks: Seq<ChunkPos>) -> Seq<GameOutputView> {
    seq![GameOutputView::ChunkBatchStart] + Seq::new(
        chunks.len(),
        |i: int| GameOutputView::LevelChunk(chunks[i]),
    ) + seq![
        GameOutputView::ChunkBatchFinished { batch_size: (chunks.len() % 0x1_0000_0000) as u32 },
    ]
}

/// Appends a batch of chunks to what is sent.
pub fn signal_chunk_batch_update(outputs: &mut Vec<GameOutput>, chunks: &Vec<ChunkPos>)
    ensures
        outputs_view(final(outputs)@) == outputs_view(old(outputs)@) + spec_chunk_batch(chunks@),
{
    let batch_size: u32 = (chunks.len() as u64 % 0x1_0000_0000) as u32;
    let ghost before = outputs_view(outputs@);
    outputs.push(GameOutput::ChunkBatchStart);
    let mut i: usize = 0;
    while i < chunks.len()
        invariant
            i <= chunks@.len(),
            outputs_view(outputs@) == before + seq![GameOutputView::ChunkBatchStart] + Seq::new(
                i as nat,
                |k: int| GameOutputView::LevelChunk(chunks@[k]),
            ),
        decreases chunks@.len() - i,
    {
        let ghost sent = outputs_view(outputs@);
        outputs.push(GameOutput::LevelChunk(chunks[i]));
        assert(outputs_view(outputs@) =~= sent.push(GameOutputView::LevelChunk(chunks@[i as int])));
        assert(outputs_view(outputs@) =~= before + seq![GameOutputView::ChunkBatchStart]
            + Seq::new((i + 1) as nat, |k: int| GameOutputView::LevelChunk(chunks@[k])));
        i = i + 1;
    }
    let ghost sent = outputs_view(outputs@);
    outputs.push(GameOutput::ChunkBatchFinished { batch_size });
    assert(outputs_view(outputs@) =~= sent.push(
        GameOutputView::ChunkBatchFinished { batch_size },
    ));
    assert(outputs_view(outputs@) =~= before + spec_chunk_batch(chunks@));
}

// ---------------------------------------------------------------------------
// The phase
// ---------------------------------------------------------------------------

/// What a player who enters the game is sent, in this order: the join, the
/// player's own entry in the player list, where players spawn, the move to
/// the spawn location, the parts of the skin that show, if the player has a
/// skin, the wait for chunks, the centre of the chunks, and the placeholder
/// chunks as one batch.
pub open spec fn spec_game_start(
    player: PlayerView,
    max_players: i32,
    game_mode: GameMode,
    reduced_debug_info: bool,
) -> Seq<GameOutputView> {
    seq![
        GameOutputView::Login(
            spec_join(player.entity_id, max_players, game_mode, reduced_debug_info),
        ),
        GameOutputView::PlayerInfoUpdate(
            spec_player_update(
                GameProfileView {
                    uuid: player.uuid,
                    name: player.name,
                    properties: skin_properties(player.skin),
                },
                game_mode,
            ),
        ),
        GameOutputView::SetDefaultSpawnPosition,
        GameOutputView::PlayerPosition { id: TELEPORT_ID },
    ] + (match spec_skin_layers_data(player) {
        Some(data) => seq![GameOutputView::SetEntityData(data)],
        None => Seq::empty(),
    }) + seq![
        GameOutputView::GameEvent(EventType::WaitForLevelChunks),
        GameOutputView::SetChunkCacheCenter { x: 0, z: 0 },
    ] + spec_chunk_batch(placeholder_chunks())
}

/// Lets the player that a handle stands for enter the game: the player gets
/// the next entity number, and what the client has to be sent comes back.
/// Nothing happens for a handle that stands for no player of the registry.
pub fn start(server: &mut Server, player: &PlayerRef, config: &Config, reduced_debug_info: bool) -> (outputs:
    Option<Vec<GameOutput>>)
    ensures
        match outputs {
            Some(outputs) => {
                &&& final(server).next_id() == following_id(old(server).next_id())
                &&& record_changed(
                    old(server),
                    final(server),
                    *player,
                    PlayerView {
                        entity_id: old(server).next_id(),
                        ..old(server).registrations()[player.number() as int]@
                    },
                )
                &&& outputs_view(outputs@) == spec_game_start(
                    final(server).registrations()[player.number() as int]@,
                    config.max_players,
                    config.default_gamemode,
                    reduced_debug_info,
                )
            },
            None => {
                &&& player.number() >= old(server).registrations().len()
                &&& registry_unchanged(old(server), final(server))
            },
        },
{
    if server.init_player(player).is_none() {
        return None;
    }
    let joined = match server.player(player) {
        Some(joined) => joined,
        None => unreached(),
    };
    let mut outputs: Vec<GameOutput> = Vec::new();
    outputs.push(
        GameOutput::Login(
            signal_game_start(
                joined.entity_id(),
                config.max_players,
                config.default_gamemode,
                reduced_debug_info,
            ),
        ),
    );
    outputs.push(
        GameOutput::PlayerInfoUpdate(
            signal_player_update(joined.game_profile(), config.default_gamemode),
        ),
    );
    outputs.push(GameOutput::SetDefaultSpawnPosition);
    outputs.push(GameOutput::PlayerPosition { id: TELEPORT_ID });
    match signal_player_skin_layers(&joined) {
        Some(data) => {
            outputs.push(GameOutput::SetEntityData(data));
        },
        None => {},
    }
    outputs.push(signal_game_state_change(EventType::WaitForLevelChunks));
    outputs.push(signal_center_chunk());
    let ghost head = outputs_view(outputs@);
    assert(head + spec_chunk_batch(placeholder_chunks()) =~= spec_game_start(
        joined@,
        config.max_players,
        config.default_gamemode,
        reduced_debug_info,
    ));
    let chunks = placeholder_chunk_positions();
    signal_chunk_batch_update(&mut outputs, &chunks);
    Some(outputs)
}

/// Takes the game one packet further: a pong ends the phase, everything else
/// is let pass.
pub fn try_handle(packet: GamePacket) -> (action: GameAction)
    ensures
        action == (match packet {
            GamePacket::Pong => GameAction::Finish,
            GamePacket::Other => GameAction::Continue,
        }),
{
    match packet {
        GamePacket::Pong => GameAction::Finish,
        GamePacket::Other => GameAction::Continue,
    }
}

} // verus!
