//! The login phase: who the player is.
//!
//! The server waits for the client's hello. Without a proxy it takes the
//! player at the client's word and derives the identifier from the name. Behind
//! a proxy it asks the proxy, and takes the identity from the proxy's signed
//! answer. Either way it then tells the client that the login succeeded and
//! waits for the acknowledgement, which ends the phase.

use rand::Rng;
use vstd::pervasive::unreached;
use vstd::prelude::*;
use vstd::string::*;
use vstd::utf8::*;
use crate::config::Config;
use crate::network::server::{registered_as, registry_unchanged, PlayerRef, Server};
use crate::network::{ConnectionError, ConnectionErrorView};
use crate::player::addr::PlayerAddr;
use crate::player::profile::{GameProfile, GameProfileView};
use crate::player::{skin_properties, Player, PlayerView};
use crate::utils::text::{decimal_string, decimal_text};
use crate::utils::uuid::{generate_uuid, offline_uuid};
use crate::utils::velocity::{
    forwarding_version_bytes, spec_verify_forwarding_info, velocity_error_text,
    verify_forwarding_info, ForwardingInfo, ForwardingInfoView, VelocityError, FORWARDING_VERSION,
    VELOCITY_CHANNEL,
};

verus! {

/// Where a login stands.
#[derive(Debug, Clone, Copy, PartialEq, Eq, Structural)]
pub enum State {
    /// The client has yet to say hello.
    Hello,
    /// The proxy has yet to answer the server's query.
    QueryAnswer,
    /// The client has yet to acknowledge that it is logged in.
    PhaseSwitch,
}

impl Default for State {
    /// A login starts with the hello.
    fn default() -> (state: Self)
        ensures
            state == State::Hello,
    {
        State::Hello
    }
}

/// What a client can send during login.
#[derive(Debug, PartialEq, Eq)]
pub enum LoginPacket {
    /// The client gives its name.
    Hello { name: String, profile_id: u128 },
    /// The client answers a request for encryption, which the server never
    /// makes.
    Key,
    /// The answer to a query of the server.
    CustomQueryAnswer { transaction_id: u32, data: Option<Vec<u8>> },
    /// The client acknowledges that it is logged in.
    LoginAcknowledged,
}

/// What a client can send, as plain values.
pub enum LoginPacketView {
    Hello { name: Seq<char>, profile_id: u128 },
    Key,
    CustomQueryAnswer { transaction_id: u32, data: Option<Seq<u8>> },
    LoginAcknowledged,
}

/// Optional bytes as plain values.
pub open spec fn bytes_view(data: Option<Vec<u8>>) -> Option<Seq<u8>> {
    match data {
        Some(d) => Some(d@),
        None => None,
    }
}

impl View for LoginPacket {
    type V = LoginPacketView;

    open spec fn view(&self) -> LoginPacketView {
        match self {
            LoginPacket::Hello { name, profile_id } => LoginPacketView::Hello {
                name: name@,
                profile_id: *profile_id,
            },
            LoginPacket::Key => LoginPacketView::Key,
            LoginPacket::CustomQueryAnswer {
                transaction_id,
                data,
            } => LoginPacketView::CustomQueryAnswer {
                transaction_id: *transaction_id,
                data: bytes_view(*data),
            },
            LoginPacket::LoginAcknowledged => LoginPacketView::LoginAcknowledged,
        }
    }
}

/// A query that the server sends during login.
#[derive(Debug, PartialEq, Eq)]
pub struct CustomQuery {
    /// The number by which the answer is told from others.
    pub transaction_id: u32,
    /// The channel that the query is about.
    pub identifier: String,
    /// What the query says.
    pub data: Vec<u8>,
}

/// What the server has to do after a packet.
#[derive(Debug, PartialEq, Eq)]
pub enum LoginAction {
    /// Send this query, and read on.
    QueryForwarding(CustomQuery),
    /// Tell the client that it is logged in under this profile, and read on.
    LoginSuccess(GameProfile),
    /// Read on.
    Continue,
    /// Read this text as a socket address, and hand what comes of it to
    /// [`try_handle_address`].
    ParseAddress(String),
    /// Go on to the configuration phase, with this player.
    Finish(PlayerRef),
    /// Tell the client that it is disconnected for this reason, and end the
    /// connection with that reason.
    Disconnect(String),
}

/// What the server has to do, as plain values.
pub enum LoginActionView {
    QueryForwarding { transaction_id: u32, identifier: Seq<char>, data: Seq<u8> },
    LoginSuccess(GameProfileView),
    Continue,
    ParseAddress(Seq<char>),
    Finish(PlayerRef),
    Disconnect(Seq<char>),
}

impl View for LoginAction {
    type V = LoginActionView;

    open spec fn view(&self) -> LoginActionView {
        match self {
            LoginAction::QueryForwarding(query) => LoginActionView::QueryForwarding {
                transaction_id: query.transaction_id,
                identifier: query.identifier@,
                data: query.data@,
            },
            LoginAction::LoginSuccess(profile) => LoginActionView::LoginSuccess(profile@),
            LoginAction::Continue => LoginActionView::Continue,
            LoginAction::ParseAddress(text) => LoginActionView::ParseAddress(text@),
            LoginAction::Finish(player) => LoginActionView::Finish(*player),
            LoginAction::Disconnect(reason) => LoginActionView::Disconnect(reason@),
        }
    }
}

/// The login of one connection.
pub struct LoginSession {
    state: State,
    transaction_id: u32,
    player: Option<PlayerRef>,
    pending: Option<ForwardingInfo>,
}

/// Draws a number from [`rand::thread_rng`]. It may be any number.
#[verifier::external_body]
fn random_transaction_id() -> u32 {
    rand::thread_rng().gen()
}

impl LoginSession {
    #[verifier::type_invariant]
    spec fn well_formed(self) -> bool {
        &&& self.state == State::PhaseSwitch ==> self.player is Some
        &&& self.pending is Some ==> self.state == State::QueryAnswer
    }

    /// Where the login stands.
    pub closed spec fn spec_state(&self) -> State {
        self.state
    }

    /// The number that the server's query carries, and that the answer has to
    /// carry.
    pub closed spec fn spec_transaction_id(&self) -> u32 {
        self.transaction_id
    }

    /// The player who is logged in: there is one from the moment that the
    /// login waits for the client's acknowledgement.
    pub closed spec fn spec_player(&self) -> Option<PlayerRef> {
        self.player
    }

    /// The identity that the proxy forwarded and whose address has yet to be
    /// read. There is one only while the login waits for the proxy.
    pub closed spec fn pending(&self) -> Option<ForwardingInfoView> {
        match self.pending {
            Some(info) => Some(info@),
            None => None,
        }
    }

    /// A login that waits for the client's hello, with a transaction number
    /// drawn at random.
    pub fn begin() -> (session: LoginSession)
        ensures
            session.state() == State::Hello,
            session.player() is None,
            session.pending() is None,
    {
        LoginSession::with_transaction_id(random_transaction_id())
    }

    /// A login that waits for the client's hello, with the given transaction
    /// number.
    pub fn with_transaction_id(transaction_id: u32) -> (session: LoginSession)
        ensures
            session.state() == State::Hello,
            session.transaction_id() == transaction_id,
            session.player() is None,
            session.pending() is None,
    {
        LoginSession { state: State::Hello, transaction_id, player: None, pending: None }
    }

    /// Where the login stands.
    #[verifier::when_used_as_spec(spec_state)]
    pub fn state(&self) -> (state: State)
        ensures
            state == self.spec_state(),
            state == State::PhaseSwitch ==> self.spec_player() is Some,
    {
        proof {
            use_type_invariant(self);
        }
        self.state
    }

    /// The number that the server's query carries.
    #[verifier::when_used_as_spec(spec_transaction_id)]
    pub fn transaction_id(&self) -> (id: u32)
        ensures
            id == self.spec_transaction_id(),
    {
        self.transaction_id
    }

    /// The player who is logged in, if the login has come that far.
    #[verifier::when_used_as_spec(spec_player)]
    pub fn player(&self) -> (player: Option<PlayerRef>)
        ensures
            player == self.spec_player(),
    {
        self.player
    }
}

// ---------------------------------------------------------------------------
// What a step has to do
// ---------------------------------------------------------------------------

/// The reason for which a packet is turned down that arrives out of turn.
pub open spec fn unexpected_hello_text() -> Seq<char> {
    "Unexpected hello packet"@
}

/// The reason for which an answer is turned down that was not asked for.
pub open spec fn unexpected_answer_text() -> Seq<char> {
    "Unexpected custom query answer packet"@
}

/// The reason for which an acknowledgement is turned down that comes before
/// the login succeeded.
pub open spec fn unexpected_acknowledgement_text() -> Seq<char> {
    "Unexpected login acknowledgement packet"@
}

/// The reason for which an encryption response is turned down.
pub open spec fn unexpected_packet_text() -> Seq<char> {
    "Unexpected packet received"@
}

/// The reason for which an answer is turned down that carries another number
/// than the query.
pub open spec fn transaction_mismatch_text(want: u32, have: u32) -> Seq<char> {
    "Transaction ID mismatch: expected "@ + decimal_text(want as nat) + ", got "@ + decimal_text(
        have as nat,
    )
}

/// The identity in the proxy's answer, or the reason for which the answer is
/// turned down. The number of the answer is looked at first: an answer to
/// another query is turned down whatever it holds.
pub open spec fn spec_velocity_answer(
    want_tid: u32,
    have_tid: u32,
    data: Option<Seq<u8>>,
    secret: Seq<u8>,
) -> Result<ForwardingInfoView, Seq<char>> {
    if want_tid != have_tid {
        Err(transaction_mismatch_text(want_tid, have_tid))
    } else {
        match data {
            None => Err("Invalid Velocity response data"@),
            Some(data) => match spec_verify_forwarding_info(data, secret) {
                Ok(info) => Ok(info),
                Err(e) => Err("Failed to verify Velocity forwarding: "@ + velocity_error_text(e)),
            },
        }
    }
}

/// The outcome of a step of the login.
pub struct LoginStep {
    /// Where the login stands afterwards.
    pub state: State,
    /// What the server has to do.
    pub action: LoginActionView,
    /// The player that the step registers, if it registers one.
    pub registered: Option<PlayerView>,
    /// The identity whose address has yet to be read, if there is one
    /// afterwards.
    pub pending: Option<ForwardingInfoView>,
}

/// A step that turns the packet down and leaves the login where it stands.
pub open spec fn refuse(
    state: State,
    pending: Option<ForwardingInfoView>,
    reason: Seq<char>,
) -> LoginStep {
    LoginStep { state, action: LoginActionView::Disconnect(reason), registered: None, pending }
}

/// A step that logs a player in: the player is registered, the client is told
/// the player's profile, and the login waits for the acknowledgement.
pub open spec fn log_in(player: PlayerView) -> LoginStep {
    LoginStep {
        state: State::PhaseSwitch,
        action: LoginActionView::LoginSuccess(
            GameProfileView {
                uuid: player.uuid,
                name: player.name,
                properties: skin_properties(player.skin),
            },
        ),
        registered: Some(player),
        pending: None,
    }
}

/// What a packet leads to.
///
/// Each packet has its turn: the hello comes first, the answer to a query
/// after the query, the acknowledgement after the login succeeded. A packet
/// out of turn is turned down, and so is every encryption response.
pub open spec fn spec_login_step(
    state: State,
    transaction_id: u32,
    player: Option<PlayerRef>,
    pending: Option<ForwardingInfoView>,
    packet: LoginPacketView,
    forwarding: bool,
    secret: Seq<u8>,
    addr: Seq<char>,
) -> LoginStep {
    match packet {
        LoginPacketView::Hello { name, profile_id } => if state != State::Hello {
            refuse(state, pending, unexpected_hello_text())
        } else if forwarding {
            LoginStep {
                state: State::QueryAnswer,
                action: LoginActionView::QueryForwarding {
                    transaction_id,
                    identifier: "velocity:player_info"@,
                    data: seq![FORWARDING_VERSION],
                },
                registered: None,
                pending,
            }
        } else {
            log_in(PlayerView { addr, name, uuid: offline_uuid(name), skin: None, entity_id: 0 })
        },
        LoginPacketView::Key => refuse(state, pending, unexpected_packet_text()),
        LoginPacketView::CustomQueryAnswer { transaction_id: have, data } => if state
            != State::QueryAnswer {
            refuse(state, pending, unexpected_answer_text())
        } else if !forwarding {
            LoginStep { state, action: LoginActionView::Continue, registered: None, pending }
        } else {
            match spec_velocity_answer(transaction_id, have, data, secret) {
                Err(reason) => refuse(state, pending, reason),
                Ok(info) => LoginStep {
                    state,
                    action: LoginActionView::ParseAddress(info.addr),
                    registered: None,
                    pending: Some(info),
                },
            }
        },
        LoginPacketView::LoginAcknowledged => match (state, player) {
            (State::PhaseSwitch, Some(player)) => LoginStep {
                state,
                action: LoginActionView::Finish(player),
                registered: None,
                pending,
            },
            _ => refuse(state, pending, unexpected_acknowledgement_text()),
        },
    }
}

/// The reason for which a forwarded identity is turned down whose address is
/// no socket address.
pub open spec fn malformed_address_text() -> Seq<char> {
    "Failed to verify Velocity forwarding: "@ + velocity_error_text(VelocityError::AddrParse)
}

/// What the reading of a forwarded address leads to: with the address, the
/// forwarded player is logged in from it; without, the client is turned down.
/// Where no identity waits for its address, nothing happens.
pub open spec fn spec_address_step(
    state: State,
    pending: Option<ForwardingInfoView>,
    addr: Option<Seq<char>>,
) -> LoginStep {
    match pending {
        None => LoginStep {
            state,
            action: LoginActionView::Continue,
            registered: None,
            pending: None,
        },
        Some(info) => match addr {
            None => refuse(state, None, malformed_address_text()),
            Some(addr) => log_in(
                PlayerView {
                    addr,
                    name: info.name,
                    uuid: info.uuid,
                    skin: info.skin,
                    entity_id: 0,
                },
            ),
        },
    }
}

/// Whether a login and the registry went from one state to the next as a step
/// says, with `action` as what is to be done. A player that the step registers
/// is the player of the login from then on.
pub open spec fn login_stepped(
    before: &LoginSession,
    after: &LoginSession,
    registry_before: &Server,
    registry_after: &Server,
    action: LoginAction,
    step: LoginStep,
) -> bool {
    &&& action@ == step.action
    &&& after.state() == step.state
    &&& after.pending() == step.pending
    &&& after.transaction_id() == before.transaction_id()
    &&& match step.registered {
        Some(player) => (after.player() matches Some(handle) && registered_as(
            registry_before,
            registry_after,
            player,
            handle,
        )),
        None => after.player() == before.player() && registry_unchanged(
            registry_before,
            registry_after,
        ),
    }
}

// ---------------------------------------------------------------------------
// The steps
// ---------------------------------------------------------------------------

/// Whether a name is one that a player may have: 1 to 16 characters, each a
/// printable ASCII character other than the space.
pub open spec fn valid_player_name(name: Seq<char>) -> bool {
    &&& 1 <= name.len() <= 16
    &&& forall|i: int| 0 <= i < name.len() ==> 32 < (#[trigger] name[i]) as u32 && (name[i] as u32) < 127
}

/// Turns down a name that no player may have.
pub fn validate_player_name(name: &str) -> (r: Result<(), ConnectionError>)
    ensures
        match r {
            Ok(_) => valid_player_name(name@),
            Err(e) => !valid_player_name(name@) && e@ == ConnectionErrorView::Disconnect(
                "Invalid characters in username"@,
            ),
        },
{
    let len = name.unicode_len();
    if len < 1 || len > 16 {
        return Err(ConnectionError::Disconnect(String::from_str("Invalid characters in username")));
    }
    let mut i: usize = 0;
    while i < len
        invariant
            len == name@.len(),
            1 <= len <= 16,
            i <= len,
            forall|j: int|
                0 <= j < i ==> 32 < (#[trigger] name@[j]) as u32 && (name@[j] as u32) < 127,
        decreases len - i,
    {
        let c = name.get_char(i) as u32;
        if c <= 32 || c >= 127 {
            return Err(
                ConnectionError::Disconnect(String::from_str("Invalid characters in username")),
            );
        }
        i = i + 1;
    }
    Ok(())
}

/// The query by which the server asks the proxy who the player is.
pub fn notify_velocity_forwarding(transaction_id: u32) -> (query: CustomQuery)
    ensures
        query.transaction_id == transaction_id,
        query.identifier@ == "velocity:player_info"@,
        query.data@ == seq![FORWARDING_VERSION],
{
    CustomQuery {
        transaction_id,
        identifier: String::from_str(VELOCITY_CHANNEL),
        data: forwarding_version_bytes(),
    }
}

/// Whether the outcome of [`verify_velocity_forwarding`] is the one that was
/// asked for.
pub open spec fn answer_is(r: Result<ForwardingInfo, ConnectionError>, expected: Result<
    ForwardingInfoView,
    Seq<char>,
>) -> bool {
    match (r, expected) {
        (Ok(info), Ok(view)) => info@ == view,
        (Err(e), Err(reason)) => e@ == ConnectionErrorView::Disconnect(reason),
        _ => false,
    }
}

/// Reads the player's identity from the proxy's answer to the query with the
/// number `want_tid`, or says why the client is disconnected.
pub fn verify_velocity_forwarding(
    want_tid: u32,
    have_tid: u32,
    data: Option<&[u8]>,
    secret: &[u8],
) -> (r: Result<ForwardingInfo, ConnectionError>)
    ensures
        answer_is(
            r,
            spec_velocity_answer(
                want_tid,
                have_tid,
                match data {
                    Some(d) => Some(d@),
                    None => None,
                },
                secret@,
            ),
        ),
        want_tid != have_tid ==> (r matches Err(e) && e@ == ConnectionErrorView::Disconnect(
            transaction_mismatch_text(want_tid, have_tid),
        )),
{
    if want_tid != have_tid {
        let reason = String::from_str("Transaction ID mismatch: expected ");
        let reason = reason.concat(decimal_string(want_tid as u64).as_str());
        let reason = reason.concat(", got ");
        let reason = reason.concat(decimal_string(have_tid as u64).as_str());
        return Err(ConnectionError::Disconnect(reason));
    }
    match data {
        Some(data) => match verify_forwarding_info(data, secret) {
            Ok(info) => Ok(info),
            Err(err) => {
                let reason = String::from_str("Failed to verify Velocity forwarding: ");
                let reason = reason.concat(err.message().as_str());
                Err(ConnectionError::Disconnect(reason))
            },
        },
        None => Err(ConnectionError::Disconnect(String::from_str("Invalid Velocity response data"))),
    }
}

/// Registers a player who has logged in, and gives the profile under which
/// the client is told so.
pub fn signal_login_success(server: &mut Server, player: Player) -> (r: (GameProfile, PlayerRef))
    ensures
        registered_as(old(server), final(server), player@, r.1),
        final(server).registrations() == old(server).registrations().push(player),
        final(server).players() == old(server).players().insert(player@.uuid, player),
        r.0@ == (GameProfileView {
            uuid: player@.uuid,
            name: player@.name,
            properties: skin_properties(player@.skin),
        }),
{
    let profile = player.game_profile();
    match server.add_player(player) {
        Ok(handle) => (profile, handle),
        Err(_) => unreached(),
    }
}

/// Takes the login one packet further.
///
/// `addr` is the address that the connection comes from; a player who logs in
/// without a proxy is registered under it.
pub fn try_handle(
    session: &mut LoginSession,
    packet: LoginPacket,
    config: &Config,
    addr: &PlayerAddr,
    server: &mut Server,
) -> (action: LoginAction)
    ensures
        login_stepped(
            old(session),
            final(session),
            old(server),
            final(server),
            action,
            spec_login_step(
                old(session).state(),
                old(session).transaction_id(),
                old(session).player(),
                old(session).pending(),
                packet@,
                config.uses_velocity_modern,
                encode_utf8(config.velocity_forwarding_secret@),
                addr@,
            ),
        ),
{
    proof {
        use_type_invariant(&*session);
    }
    match packet {
        LoginPacket::Hello { name, profile_id } => {
            if session.state != State::Hello {
                return LoginAction::Disconnect(String::from_str("Unexpected hello packet"));
            }
            if config.uses_velocity_modern {
                session.state = State::QueryAnswer;
                return LoginAction::QueryForwarding(
                    notify_velocity_forwarding(session.transaction_id),
                );
            }
            let uuid = generate_uuid(name.as_str());
            let player = Player::new(addr.clone(), name, uuid, None);
            let (profile, handle) = signal_login_success(server, player);
            session.player = Some(handle);
            session.state = State::PhaseSwitch;
            LoginAction::LoginSuccess(profile)
        },
        LoginPacket::Key => LoginAction::Disconnect(String::from_str("Unexpected packet received")),
        LoginPacket::CustomQueryAnswer { transaction_id, data } => {
            if session.state != State::QueryAnswer {
                return LoginAction::Disconnect(
                    String::from_str("Unexpected custom query answer packet"),
                );
            }
            if !config.uses_velocity_modern {
                return LoginAction::Continue;
            }
            let payload: Option<&[u8]> = match &data {
                Some(d) => Some(d.as_slice()),
                None => None,
            };
            let info = match verify_velocity_forwarding(
                session.transaction_id,
                transaction_id,
                payload,
                config.velocity_forwarding_secret.as_str().as_bytes(),
            ) {
                Ok(info) => info,
                Err(e) => {
                    return match e {
                        ConnectionError::Disconnect(reason) => LoginAction::Disconnect(reason),
                        _ => unreached(),
                    };
                },
            };
            let text = info.addr.clone();
            session.pending = Some(info);
            LoginAction::ParseAddress(text)
        },
        LoginPacket::LoginAcknowledged => {
            match (session.state, session.player) {
                (State::PhaseSwitch, Some(player)) => LoginAction::Finish(player),
                _ => LoginAction::Disconnect(
                    String::from_str("Unexpected login acknowledgement packet"),
                ),
            }
        },
    }
}

/// Takes the login further once the address of a forwarded identity was read:
/// `addr` is the address, or nothing if the text was no socket address.
pub fn try_handle_address(
    session: &mut LoginSession,
    addr: Option<PlayerAddr>,
    server: &mut Server,
) -> (action: LoginAction)
    ensures
        login_stepped(
            old(session),
            final(session),
            old(server),
            final(server),
            action,
            spec_address_step(
                old(session).state(),
                old(session).pending(),
                match addr {
                    Some(addr) => Some(addr@),
                    None => None,
                },
            ),
        ),
{
    proof {
        use_type_invariant(&*session);
    }
    let mut pending: Option<ForwardingInfo> = None;
    core::mem::swap(&mut session.pending, &mut pending);
    let info = match pending {
        Some(info) => info,
        None => {
            return LoginAction::Continue;
        },
    };
    let addr = match addr {
        Some(addr) => addr,
        None => {
            let reason = String::from_str("Failed to verify Velocity forwarding: ");
            let reason = reason.concat(VelocityError::AddrParse.message().as_str());
            return LoginAction::Disconnect(reason);
        },
    };
    let ghost uuid = info.uuid;
    let player = Player::new(addr, info.name, info.uuid, info.skin);
    let (profile, handle) = signal_login_success(server, player);
    session.player = Some(handle);
    session.state = State::PhaseSwitch;
    LoginAction::LoginSuccess(profile)
}

/// A packet that arrives out of turn ends the login, with the reason that
/// names the packet, and changes nothing: a hello after the first, an answer
/// where no query is open, an acknowledgement before the login succeeded. An
/// encryption response does so whenever it arrives.
pub proof fn lemma_out_of_turn_is_refused(
    state: State,
    transaction_id: u32,
    player: Option<PlayerRef>,
    pending: Option<ForwardingInfoView>,
    packet: LoginPacketView,
    forwarding: bool,
    secret: Seq<u8>,
    addr: Seq<char>,
)
    ensures
        ({
            let step = spec_login_step(
                state,
                transaction_id,
                player,
                pending,
                packet,
                forwarding,
                secret,
                addr,
            );
            &&& packet is Hello && state != State::Hello ==> step == refuse(
                state,
                pending,
                unexpected_hello_text(),
            )
            &&& packet is CustomQueryAnswer && state != State::QueryAnswer ==> step == refuse(
                state,
                pending,
                unexpected_answer_text(),
            )
            &&& packet is LoginAcknowledged && state != State::PhaseSwitch ==> step == refuse(
                state,
                pending,
                unexpected_acknowledgement_text(),
            )
            &&& packet is Key ==> step == refuse(state, pending, unexpected_packet_text())
        }),
{
}

/// An answer that carries another number than the server's query is turned
/// down for that, whatever it holds and whatever the secret: its signature
/// plays no part.
pub proof fn lemma_mismatched_answer_is_refused(
    want_tid: u32,
    have_tid: u32,
    data: Option<Seq<u8>>,
    secret: Seq<u8>,
)
    requires
        want_tid != have_tid,
    ensures
        spec_velocity_answer(want_tid, have_tid, data, secret) == Err::<
            ForwardingInfoView,
            Seq<char>,
        >(transaction_mismatch_text(want_tid, have_tid)),
{
}

} // verus!
