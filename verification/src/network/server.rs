//! The registry of the players that are logged in, and the counter that
//! numbers their entities.

use dashmap::DashMap;
use std::collections::HashMap;
use vstd::prelude::*;
use vstd::string::*;
use crate::network::{ConnectionError, ConnectionErrorView};
use crate::player::skin::{PlayerSkinView, SkinLayers};
use crate::player::{Player, PlayerView};
use crate::utils::buf::as_signed;
use crate::utils::uuid::{uuid_string, uuid_text};

verus! {

/// How far a client may see, in chunks.
pub const VIEW_DISTANCE: u32 = 8;

/// How far around a player the world is simulated, in chunks.
pub const SIMULATION_DISTANCE: u32 = 8;

/// [`dashmap::DashMap`], a hash map that the library reads and changes only
/// through the functions below.
#[verifier::external_type_specification]
#[verifier::external_body]
#[verifier::reject_recursive_types(K)]
#[verifier::reject_recursive_types(V)]
#[verifier::reject_recursive_types(S)]
pub struct ExDashMap<K, V, S>(DashMap<K, V, S>);

/// The entries of a map of players: the player under each number that has one.
pub uninterp spec fn record_entries(map: DashMap<usize, Player>) -> Map<usize, Player>;

/// Makes a map with [`DashMap::new`]: it has no entries.
#[verifier::external_body]
fn records_new() -> (map: DashMap<usize, Player>)
    ensures
        record_entries(map) =~= Map::empty(),
{
    DashMap::new()
}

/// Puts an entry with [`DashMap::insert`]: afterwards the key has this value,
/// whether or not it had one before, and every other key is as it was. The
/// call does not unwind.
#[verifier::external_body]
fn records_insert(map: &mut DashMap<usize, Player>, key: usize, value: Player)
    ensures
        record_entries(*final(map)) == record_entries(*old(map)).insert(key, value),
    no_unwind
{
    map.insert(key, value);
}

/// Looks a key up with [`DashMap::get`] and copies the value out: the value of
/// the key, if it has one.
#[verifier::external_body]
fn records_get(map: &DashMap<usize, Player>, key: usize) -> (found: Option<Player>)
    ensures
        found == (if record_entries(*map).contains_key(key) {
            Some(record_entries(*map)[key])
        } else {
            None
        }),
{
    map.get(&key).map(|entry| entry.value().clone())
}

/// Counts the entries with [`DashMap::len`].
#[verifier::external_body]
fn records_len(map: &DashMap<usize, Player>) -> (n: usize)
    ensures
        n == record_entries(*map).len(),
{
    map.len()
}

/// A handle to a player: it stands for the player that it was handed out for,
/// whoever is registered under the player's identifier later.
#[derive(Debug, Clone, Copy, PartialEq, Eq, Structural)]
pub struct PlayerRef {
    number: usize,
    uuid: u128,
}

impl PlayerRef {
    /// The number of the registration that the handle stands for.
    pub closed spec fn spec_number(&self) -> usize {
        self.number
    }

    /// The identifier of the player that the handle was handed out for.
    pub closed spec fn spec_uuid(&self) -> u128 {
        self.uuid
    }

    /// The number of the registration that the handle stands for.
    #[verifier::when_used_as_spec(spec_number)]
    pub fn number(&self) -> (number: usize)
        ensures
            number == self.spec_number(),
    {
        self.number
    }

    /// The identifier of the player that the handle was handed out for.
    #[verifier::when_used_as_spec(spec_uuid)]
    pub fn uuid(&self) -> (uuid: u128)
        ensures
            uuid == self.spec_uuid(),
    {
        self.uuid
    }
}

/// The registry of a server: every player that was registered, by the number
/// of the registration; under each identifier the number of the latest
/// registration; and the number that the next entity gets.
///
/// The map of the identifiers is taken out of the registry while it is
/// changed, and put back changed: in between the registry has no identifiers,
/// which is a state that it may be in.
pub struct Server {
    records: DashMap<usize, Player>,
    index: HashMap<u128, usize>,
    entity_id_counter: u32,
}

/// The number of players as the protocol counts them: in 32 bits, signed.
pub open spec fn player_count(players: Map<u128, Player>) -> i32 {
    as_signed((players.len() % 0x1_0000_0000) as u32)
}

/// The entity number that follows `id`: one more, and 0 after the last number
/// of 32 bits.
pub open spec fn following_id(id: u32) -> u32 {
    if id == u32::MAX {
        0
    } else {
        (id + 1) as u32
    }
}

/// The number that the call at place `k` gets, counted from 0, when the first
/// of the calls gets `first`.
pub open spec fn nth_entity_id(first: u32, k: nat) -> u32
    decreases k,
{
    if k == 0 {
        first
    } else {
        nth_entity_id(following_id(first), (k - 1) as nat)
    }
}

/// The registry after some players were added to an empty one, in this order.
pub open spec fn registered(players: Seq<Player>) -> Map<u128, Player>
    decreases players.len(),
{
    if players.len() == 0 {
        Map::empty()
    } else {
        registered(players.drop_last()).insert(players.last()@.uuid, players.last())
    }
}

/// As long as the numbers of 32 bits last, the entity numbers that are handed
/// out count up one by one: the call at place `k` gets `first + k`. So they
/// rise from call to call, and no two calls get the same.
pub proof fn lemma_entity_ids_contiguous(first: u32, n: nat)
    requires
        first + n <= u32::MAX + 1,
    ensures
        forall|k: nat| k < n ==> #[trigger] nth_entity_id(first, k) == first + k,
        forall|j: nat, k: nat|
            j < k < n ==> #[trigger] nth_entity_id(first, j) < #[trigger] nth_entity_id(first, k),
        forall|j: nat, k: nat|
            j < n && k < n && j != k ==> #[trigger] nth_entity_id(first, j) != #[trigger] nth_entity_id(
                first,
                k,
            ),
{
    assert forall|k: nat| k < n implies #[trigger] nth_entity_id(first, k) == first + k by {
        lemma_nth_entity_id(first, k);
    }
}

/// The call at place `k` gets `first + k`, if that is a number of 32 bits.
proof fn lemma_nth_entity_id(first: u32, k: nat)
    requires
        first + k <= u32::MAX,
    ensures
        nth_entity_id(first, k) == first + k,
    decreases k,
{
    if k > 0 {
        lemma_nth_entity_id(following_id(first), (k - 1) as nat);
    }
}

/// After players with pairwise different identifiers were added to an empty
/// registry, it holds as many players as were added.
pub proof fn lemma_count_of_distinct(players: Seq<Player>)
    requires
        forall|i: int, j: int|
            0 <= i < j < players.len() ==> (#[trigger] players[i])@.uuid != (
            #[trigger] players[j])@.uuid,
    ensures
        registered(players).dom().finite(),
        registered(players).len() == players.len(),
        players.len() <= i32::MAX ==> player_count(registered(players)) == players.len(),
        forall|i: int|
            0 <= i < players.len() ==> registered(players).contains_key(
                (#[trigger] players[i])@.uuid,
            ),
        forall|k: u128|
            registered(players).contains_key(k) ==> exists|i: int|
                0 <= i < players.len() && (#[trigger] players[i])@.uuid == k,
    decreases players.len(),
{
    if players.len() > 0 {
        let before = players.drop_last();
        let last = players.last();
        lemma_count_of_distinct(before);
        assert(!registered(before).contains_key(last@.uuid)) by {
            if registered(before).contains_key(last@.uuid) {
                let i = choose|i: int| 0 <= i < before.len() && (#[trigger] before[i])@.uuid
                    == last@.uuid;
                assert(before[i] == players[i]);
                assert(players[players.len() - 1] == last);
            }
        }
        assert forall|i: int| 0 <= i < players.len() implies registered(players).contains_key(
            (#[trigger] players[i])@.uuid,
        ) by {
            if i < before.len() {
                assert(before[i] == players[i]);
            }
        }
        assert forall|k: u128| registered(players).contains_key(k) implies exists|i: int|
            0 <= i < players.len() && (#[trigger] players[i])@.uuid == k by {
            if k == last@.uuid {
                assert(players[players.len() - 1]@.uuid == k);
            } else {
                let i = choose|i: int| 0 <= i < before.len() && (#[trigger] before[i])@.uuid == k;
                assert(before[i] == players[i]);
            }
        }
    }
}

/// A registration touches no earlier one. The handles that were handed out
/// before it still stand for their players, each as it was, also where the
/// new player takes the place of an earlier one under the same identifier. In
/// that case the number of players stays; otherwise it grows by one. Either
/// way the new player is the one found under the identifier.
pub proof fn lemma_registration_keeps_handles(
    before: &Server,
    after: &Server,
    player: PlayerView,
    handle: PlayerRef,
    earlier: PlayerRef,
)
    requires
        registered_as(before, after, player, handle),
        earlier.number() < before.registrations().len(),
        before.players().dom().finite(),
    ensures
        earlier.number() != handle.number(),
        after.registrations()[earlier.number() as int] == before.registrations()[earlier.number() as int],
        after.registrations()[handle.number() as int]@ == player,
        after.players()[player.uuid]@ == player,
        after.latest()[player.uuid] == handle.number(),
        after.players().len() == (if before.players().contains_key(player.uuid) {
            before.players().len()
        } else {
            before.players().len() + 1
        }),
{
}

/// What is said of an identifier that no player has.
pub open spec fn not_found_text(uuid: u128) -> Seq<char> {
    "Player data not found for UUID "@ + uuid_text(uuid)
}

/// Whether nothing of a registry has changed.
pub open spec fn registry_unchanged(before: &Server, after: &Server) -> bool {
    &&& after.registrations() == before.registrations()
    &&& after.latest() == before.latest()
    &&& after.next_id() == before.next_id()
}

/// Whether a registry has changed by the registration of a player, for which
/// `handle` was handed out: the player got the next registration number and is
/// the latest under the player's identifier. Every earlier registration is as
/// it was, under its number.
pub open spec fn registered_as(
    before: &Server,
    after: &Server,
    player: PlayerView,
    handle: PlayerRef,
) -> bool {
    &&& handle.number() == before.registrations().len()
    &&& handle.uuid() == player.uuid
    &&& after.registrations().len() == before.registrations().len() + 1
    &&& after.registrations()[handle.number() as int]@ == player
    &&& forall|n: int|
        0 <= n < before.registrations().len() ==> after.registrations()[n]
            == before.registrations()[n]
    &&& after.latest() == before.latest().insert(player.uuid, handle.number())
    &&& after.players().dom() == before.players().dom().insert(player.uuid)
    &&& after.players()[player.uuid]@ == player
    &&& forall|k: u128| k != player.uuid ==> after.players()[k] == before.players()[k]
    &&& after.next_id() == before.next_id()
}

/// Whether a registry has changed in the one player that a handle stands
/// for, who is now `player`. Every other registration is as it was, and so is
/// what is registered under each identifier.
pub open spec fn record_changed(
    before: &Server,
    after: &Server,
    handle: PlayerRef,
    player: PlayerView,
) -> bool {
    &&& handle.number() < before.registrations().len()
    &&& after.registrations().len() == before.registrations().len()
    &&& after.registrations()[handle.number() as int]@ == player
    &&& forall|n: int|
        0 <= n < before.registrations().len() && n != handle.number()
            ==> after.registrations()[n] == before.registrations()[n]
    &&& after.latest() == before.latest()
}

/// A player with other parts of the skin shown. A player without a skin stays
/// as it is.
pub open spec fn with_skin_layers(player: PlayerView, layers: SkinLayers) -> PlayerView {
    PlayerView {
        skin: match player.skin {
            Some(skin) => Some(PlayerSkinView { layers, ..skin }),
            None => None,
        },
        ..player
    }
}

impl Server {
    #[verifier::type_invariant]
    spec fn well_formed(self) -> bool {
        &&& record_entries(self.records).dom().finite()
        &&& record_entries(self.records).len() <= usize::MAX + 1
        &&& forall|n: usize|
            record_entries(self.records).contains_key(n) <==> n < record_entries(
                self.records,
            ).len()
        &&& forall|k: u128| #[trigger]
            self.index@.contains_key(k) ==> {
                &&& self.index@[k] < record_entries(self.records).len()
                &&& record_entries(self.records)[self.index@[k]]@.uuid == k
            }
    }

    /// Every player that was registered, as the player is now, by the number
    /// of the registration. A registration stays for good: what is registered
    /// or removed later does not touch it.
    pub closed spec fn registrations(&self) -> Seq<Player> {
        Seq::new(
            record_entries(self.records).len(),
            |n: int| record_entries(self.records)[n as usize],
        )
    }

    /// Under each identifier that has a player, the number of the latest
    /// registration under it.
    pub closed spec fn latest(&self) -> Map<u128, usize> {
        self.index@
    }

    /// The players that are registered, each under its identifier: the latest
    /// registration under it.
    pub open spec fn players(&self) -> Map<u128, Player> {
        Map::new(
            |k: u128| self.latest().contains_key(k),
            |k: u128| self.registrations()[self.latest()[k] as int],
        )
    }

    /// The number that the next entity gets.
    pub closed spec fn next_id(&self) -> u32 {
        self.entity_id_counter
    }

    /// A registry without players, which numbers entities from 0.
    pub fn new() -> (server: Server)
        ensures
            server.registrations() == Seq::<Player>::empty(),
            server.latest() == Map::<u128, usize>::empty(),
            server.players() == Map::<u128, Player>::empty(),
            server.next_id() == 0,
    {
        let server = Server { records: records_new(), index: HashMap::new(), entity_id_counter: 0 };
        assert(server.registrations() =~= Seq::<Player>::empty());
        assert(server.players() =~= Map::<u128, Player>::empty());
        server
    }

    /// Registers a player under the player's identifier, and hands out the
    /// handle for the player. A player who was registered under the
    /// identifier before is no longer found under it, but the handles that
    /// were handed out for that player still stand for that player.
    pub fn add_player(&mut self, player: Player) -> (r: Result<PlayerRef, ConnectionError>)
        ensures
            r matches Ok(handle) && registered_as(old(self), final(self), player@, handle),
            final(self).registrations() == old(self).registrations().push(player),
            final(self).players() == old(self).players().insert(player@.uuid, player),
    {
        proof {
            use_type_invariant(&*self);
        }
        let uuid = player.uuid();
        let number = records_len(&self.records);
        let ghost before = record_entries(self.records);
        records_insert(&mut self.records, number, player);
        assert(record_entries(self.records).dom() =~= before.dom().insert(number));
        let mut index: HashMap<u128, usize> = HashMap::new();
        core::mem::swap(&mut self.index, &mut index);
        index.insert(uuid, number);
        core::mem::swap(&mut self.index, &mut index);
        assert(final(self).registrations() =~= old(self).registrations().push(player));
        assert(final(self).players() =~= old(self).players().insert(uuid, player));
        Ok(PlayerRef { number, uuid })
    }

    /// The handle for the player who is registered under an identifier; a
    /// disconnect if there is none.
    pub fn get_player(&self, uuid: &u128) -> (r: Result<PlayerRef, ConnectionError>)
        ensures
            match r {
                Ok(handle) => {
                    &&& self.latest().contains_key(*uuid)
                    &&& handle.number() == self.latest()[*uuid]
                    &&& handle.uuid() == *uuid
                    &&& handle.number() < self.registrations().len()
                    &&& self.registrations()[handle.number() as int] == self.players()[*uuid]
                    &&& self.players()[*uuid]@.uuid == *uuid
                },
                Err(e) => !self.latest().contains_key(*uuid) && e@
                    == ConnectionErrorView::Disconnect(not_found_text(*uuid)),
            },
    {
        proof {
            use_type_invariant(self);
        }
        match self.index.get(uuid) {
            Some(number) => Ok(PlayerRef { number: *number, uuid: *uuid }),
            None => {
                let reason = String::from_str("Player data not found for UUID ").concat(
                    uuid_string(*uuid).as_str(),
                );
                Err(ConnectionError::Disconnect(reason))
            },
        }
    }

    /// Takes the player who is registered under an identifier out of the
    /// registry, if there is one: the identifier has no player afterwards. The
    /// handles that were handed out still stand for their players.
    pub fn remove_player(&mut self, uuid: u128)
        ensures
            final(self).latest() == old(self).latest().remove(uuid),
            final(self).players() == old(self).players().remove(uuid),
            final(self).registrations() == old(self).registrations(),
            final(self).next_id() == old(self).next_id(),
    {
        proof {
            use_type_invariant(&*self);
        }
        let mut index: HashMap<u128, usize> = HashMap::new();
        core::mem::swap(&mut self.index, &mut index);
        index.remove(&uuid);
        core::mem::swap(&mut self.index, &mut index);
        assert(final(self).players() =~= old(self).players().remove(uuid));
    }

    /// The number of players that are registered.
    pub fn get_player_count(&self) -> (count: i32)
        ensures
            count == player_count(self.players()),
            self.players().len() <= i32::MAX ==> count == self.players().len(),
            self.players().dom().finite(),
    {
        proof {
            use_type_invariant(self);
            assert(self.players().dom() =~= self.latest().dom());
        }
        let n = self.index.len();
        let low: u32 = (n as u64 % 0x1_0000_0000) as u32;
        if low < 0x8000_0000 {
            low as i32
        } else {
            (low as i64 - 0x1_0000_0000) as i32
        }
    }

    /// Whether as many players are registered as the server takes.
    pub fn is_full(&self, max_players: i32) -> (full: bool)
        ensures
            full == (player_count(self.players()) >= max_players),
    {
        self.get_player_count() >= max_players
    }

    /// Hands out the number for the next entity. Numbers go up by one from
    /// call to call, and start again at 0 after the last number of 32 bits.
    pub fn next_entity_id(&mut self) -> (id: u32)
        ensures
            id == old(self).next_id(),
            final(self).next_id() == following_id(old(self).next_id()),
            final(self).registrations() == old(self).registrations(),
            final(self).latest() == old(self).latest(),
    {
        proof {
            use_type_invariant(&*self);
        }
        let id = self.entity_id_counter;
        self.entity_id_counter = id.wrapping_add(1);
        id
    }

    /// A copy of the player that a handle stands for, as the player is now;
    /// nothing for a handle of another registry that has not come as far.
    pub fn player(&self, handle: &PlayerRef) -> (found: Option<Player>)
        ensures
            found == (if handle.number() < self.registrations().len() {
                Some(self.registrations()[handle.number() as int])
            } else {
                None
            }),
    {
        proof {
            use_type_invariant(self);
        }
        records_get(&self.records, handle.number)
    }

    /// Gives the player that a handle stands for the next entity number, and
    /// returns it. Nothing changes for a handle that stands for no player of
    /// this registry.
    pub fn init_player(&mut self, handle: &PlayerRef) -> (id: Option<u32>)
        ensures
            match id {
                Some(id) => {
                    &&& id == old(self).next_id()
                    &&& final(self).next_id() == following_id(old(self).next_id())
                    &&& record_changed(
                        old(self),
                        final(self),
                        *handle,
                        PlayerView {
                            entity_id: id,
                            ..old(self).registrations()[handle.number() as int]@
                        },
                    )
                },
                None => {
                    &&& handle.number() >= old(self).registrations().len()
                    &&& registry_unchanged(old(self), final(self))
                },
            },
    {
        proof {
            use_type_invariant(&*self);
        }
        match records_get(&self.records, handle.number) {
            Some(mut player) => {
                player.init(self);
                let id = player.entity_id();
                proof {
                    use_type_invariant(&*self);
                    assert(self.registrations().len() == old(self).registrations().len());
                    assert(self.registrations().len() == record_entries(self.records).len());
                }
                let ghost before = record_entries(self.records);
                let ghost listed = self.registrations();
                assert(before.contains_key(handle.number));
                records_insert(&mut self.records, handle.number, player);
                assert(record_entries(self.records).dom() =~= before.dom());
                assert(self.registrations() =~= listed.update(handle.number as int, player));
                Some(id)
            },
            None => None,
        }
    }

    /// Sets which parts show of the skin of the player that a handle stands
    /// for. Says whether the handle stands for a player of this registry;
    /// nothing changes if it does not.
    pub fn set_skin_layers(&mut self, handle: &PlayerRef, layers: SkinLayers) -> (found: bool)
        ensures
            found == (handle.number() < old(self).registrations().len()),
            final(self).next_id() == old(self).next_id(),
            found ==> record_changed(
                old(self),
                final(self),
                *handle,
                with_skin_layers(old(self).registrations()[handle.number() as int]@, layers),
            ),
            !found ==> registry_unchanged(old(self), final(self)),
    {
        proof {
            use_type_invariant(&*self);
        }
        match records_get(&self.records, handle.number) {
            Some(mut player) => {
                player.set_skin_layers(layers);
                let ghost before = record_entries(self.records);
                let ghost listed = self.registrations();
                records_insert(&mut self.records, handle.number, player);
                assert(record_entries(self.records).dom() =~= before.dom());
                assert(self.registrations() =~= listed.update(handle.number as int, player));
                true
            },
            None => false,
        }
    }
}

} // verus!
