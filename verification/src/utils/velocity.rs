//! The identity that a trusted proxy forwards for a player, and the check
//! that it comes from that proxy.
//!
//! The proxy answers the server's query with a payload: a 32-byte HMAC-SHA256
//! signature, then the signed message. The message holds a version, the
//! player's true address, identifier and name, and the properties of the
//! player's profile. The server shares a secret with the proxy and accepts the
//! payload only if the signature is the one that the secret gives.

use vstd::prelude::*;
use vstd::slice::*;
use vstd::string::*;
use vstd::utf8::*;
use crate::player::profile::{text_view, Property, PropertyView};
use crate::player::skin::{
    all_layers, skin_view, PlayerSkin, PlayerSkinView, SkinLayers, TEXTURE_KEY,
};
use crate::utils::buf::{
    lemma_read_written_bool, lemma_read_written_string, lemma_read_written_uuid,
    lemma_read_written_varint, read_bool, read_error_text, read_string, read_uuid, read_varint,
    spec_read_bool, spec_read_string, spec_read_uuid, spec_read_varint, spec_write_bool,
    spec_write_string, spec_write_uuid, spec_write_varint, BufReadError, MAX_STRING_BYTES,
};
use crate::utils::text::{signed_decimal_string, signed_decimal_text};

verus! {

/// The channel on which the server asks the proxy for a player's identity.
pub const VELOCITY_CHANNEL: &'static str = "velocity:player_info";

/// The one version of the forwarding format that the server reads.
pub const FORWARDING_VERSION: u8 = 1;

/// The length of the signature that a payload starts with.
pub const SIGNATURE_LENGTH: usize = 32;

/// What the server sends with its query: the version it asks for.
pub fn forwarding_version_bytes() -> (bytes: Vec<u8>)
    ensures
        bytes@ == seq![FORWARDING_VERSION],
{
    let mut bytes = Vec::new();
    bytes.push(FORWARDING_VERSION);
    bytes
}

/// A player's identity as a verified payload gives it.
#[derive(Debug, PartialEq, Eq)]
pub struct ForwardingInfo {
    /// The address that the player connected to the proxy from, as the proxy
    /// wrote it.
    pub addr: String,
    /// The player's name.
    pub name: String,
    /// The player's identifier.
    pub uuid: u128,
    /// The player's skin, if the profile has one.
    pub skin: Option<PlayerSkin>,
}

/// A forwarded identity as plain values.
pub struct ForwardingInfoView {
    pub addr: Seq<char>,
    pub name: Seq<char>,
    pub uuid: u128,
    pub skin: Option<PlayerSkinView>,
}

impl View for ForwardingInfo {
    type V = ForwardingInfoView;

    open spec fn view(&self) -> ForwardingInfoView {
        ForwardingInfoView {
            addr: self.addr@,
            name: self.name@,
            uuid: self.uuid,
            skin: skin_view(self.skin),
        }
    }
}

/// Why a payload was turned down.
#[derive(Debug, Clone, Copy, PartialEq, Eq, Structural)]
pub enum VelocityError {
    /// The payload is too short to hold a signature and a message.
    InvalidSignatureLength,
    /// The signature is not the one that the secret gives for the message.
    InvalidSignature,
    /// The message is written in a version that the server does not read.
    UnsupportedVersion(i32),
    /// The address in the message is no socket address. Whether it is one is
    /// for the caller to find out, once the payload has been verified.
    AddrParse,
    /// A field of the message could not be read.
    Read(BufReadError),
}

/// The text of each failure.
pub open spec fn velocity_error_text(e: VelocityError) -> Seq<char> {
    match e {
        VelocityError::InvalidSignatureLength => "invalid signature length"@,
        VelocityError::InvalidSignature => "invalid signature provided"@,
        VelocityError::UnsupportedVersion(version) => "unsupported version: "@
            + signed_decimal_text(version as int) + " (expected 1)"@,
        VelocityError::AddrParse => "failed to parse addr: invalid socket address syntax"@,
        VelocityError::Read(e) => "read error: "@ + read_error_text(e),
    }
}

impl VelocityError {
    /// Says in words why the payload was turned down.
    pub fn message(&self) -> (s: String)
        ensures
            s@ == velocity_error_text(*self),
    {
        match self {
            VelocityError::InvalidSignatureLength => String::from_str("invalid signature length"),
            VelocityError::InvalidSignature => String::from_str("invalid signature provided"),
            VelocityError::UnsupportedVersion(version) => {
                let s = String::from_str("unsupported version: ");
                let s = s.concat(signed_decimal_string(*version as i64).as_str());
                s.concat(" (expected 1)")
            },
            VelocityError::AddrParse => String::from_str(
                "failed to parse addr: invalid socket address syntax",
            ),
            VelocityError::Read(e) => {
                let s = String::from_str("read error: ");
                s.concat(e.message().as_str())
            },
        }
    }
}

// ---------------------------------------------------------------------------
// The signature
// ---------------------------------------------------------------------------

/// The HMAC-SHA256 code of a message under a key.
pub uninterp spec fn hmac_sha256_of(message: Seq<u8>, key: Seq<u8>) -> [u8; 32];

/// Computes the code with [`hmac_sha256::HMAC::mac`]: 32 bytes that depend on
/// the message and the key alone.
#[verifier::external_body]
fn hmac_sha256_mac(message: &[u8], key: &[u8]) -> (mac: [u8; 32])
    ensures
        mac == hmac_sha256_of(message@, key@),
{
    hmac_sha256::HMAC::mac(message, key)
}

/// The message of a payload whose signature is `mac`; a failure for a payload
/// that is too short or signed otherwise.
pub open spec fn spec_check_signature(data: Seq<u8>, mac: Seq<u8>) -> Result<
    Seq<u8>,
    VelocityError,
> {
    if data.len() <= SIGNATURE_LENGTH {
        Err(VelocityError::InvalidSignatureLength)
    } else if data.subrange(0, SIGNATURE_LENGTH as int) != mac {
        Err(VelocityError::InvalidSignature)
    } else {
        Ok(data.skip(SIGNATURE_LENGTH as int))
    }
}

/// The message of a payload that is signed with `secret`.
pub open spec fn spec_verify(data: Seq<u8>, secret: Seq<u8>) -> Result<Seq<u8>, VelocityError> {
    spec_check_signature(data, hmac_sha256_of(data.skip(SIGNATURE_LENGTH as int), secret)@)
}

/// Whether the message that came out is the one that was asked for.
pub open spec fn message_is(r: Result<&[u8], VelocityError>, expected: Result<
    Seq<u8>,
    VelocityError,
>) -> bool {
    match (r, expected) {
        (Ok(message), Ok(bytes)) => message@ == bytes,
        (Err(e), Err(f)) => e == f,
        _ => false,
    }
}

/// Splits a payload into signature and message and compares the signature with
/// the code that was computed for the message.
pub fn check_signature<'a>(data: &'a [u8], mac: &[u8; 32]) -> (r: Result<&'a [u8], VelocityError>)
    ensures
        message_is(r, spec_check_signature(data@, mac@)),
{
    if data.len() <= SIGNATURE_LENGTH {
        return Err(VelocityError::InvalidSignatureLength);
    }
    let mut i: usize = 0;
    while i < SIGNATURE_LENGTH
        invariant
            i <= SIGNATURE_LENGTH < data@.len(),
            data@.subrange(0, i as int) == mac@.subrange(0, i as int),
        decreases SIGNATURE_LENGTH - i,
    {
        if data[i] != mac[i] {
            assert(data@.subrange(0, SIGNATURE_LENGTH as int)[i as int] != mac@[i as int]);
            return Err(VelocityError::InvalidSignature);
        }
        assert(data@.subrange(0, i + 1) =~= data@.subrange(0, i as int).push(data@[i as int]));
        assert(mac@.subrange(0, i + 1) =~= mac@.subrange(0, i as int).push(mac@[i as int]));
        i = i + 1;
    }
    assert(mac@.subrange(0, SIGNATURE_LENGTH as int) =~= mac@);
    Ok(slice_subrange(data, SIGNATURE_LENGTH, data.len()))
}

/// Checks that a payload is signed with `secret` and hands out its message.
pub fn verify<'a>(data: &'a [u8], secret: &[u8]) -> (r: Result<&'a [u8], VelocityError>)
    ensures
        message_is(r, spec_verify(data@, secret@)),
        data@.len() <= SIGNATURE_LENGTH ==> r == Err::<&[u8], VelocityError>(
            VelocityError::InvalidSignatureLength,
        ),
{
    if data.len() <= SIGNATURE_LENGTH {
        return Err(VelocityError::InvalidSignatureLength);
    }
    let message = slice_subrange(data, SIGNATURE_LENGTH, data.len());
    let mac = hmac_sha256_mac(message, secret);
    check_signature(data, &mac)
}

// ---------------------------------------------------------------------------
// The message
// ---------------------------------------------------------------------------

/// The signature that follows a property's flag, if the flag is set.
pub open spec fn spec_read_property_signature(bytes: Seq<u8>) -> Result<
    (Option<Seq<char>>, nat),
    BufReadError,
> {
    match spec_read_bool(bytes) {
        None => Err(BufReadError::Io),
        Some((false, n)) => Ok((None, n)),
        Some((true, n)) => match spec_read_string(bytes.skip(n as int)) {
            Err(e) => Err(e),
            Ok((signature, m)) => Ok((Some(signature), n + m)),
        },
    }
}

/// The property at the front of `bytes`, with the number of bytes it takes: a
/// name, a value, a flag, and a signature if the flag is set.
pub open spec fn spec_read_property(bytes: Seq<u8>) -> Result<(PropertyView, nat), BufReadError> {
    match spec_read_string(bytes) {
        Err(e) => Err(e),
        Ok((name, n)) => match spec_read_string(bytes.skip(n as int)) {
            Err(e) => Err(e),
            Ok((value, m)) => match spec_read_property_signature(bytes.skip((n + m) as int)) {
                Err(e) => Err(e),
                Ok((signature, k)) => Ok((PropertyView { name, value, signature }, n + m + k)),
            },
        },
    }
}

/// The skin that a property holds, if it is the one that carries the textures:
/// its value is the texture, its signature the texture's, empty if it has none.
/// Every layer shows until the client says otherwise.
pub open spec fn skin_of_property(p: PropertyView) -> Option<PlayerSkinView> {
    if p.name == "textures"@ {
        Some(
            PlayerSkinView {
                texture: p.value,
                signature: match p.signature {
                    Some(s) => s,
                    None => Seq::empty(),
                },
                layers: all_layers(),
            },
        )
    } else {
        None
    }
}

/// The skin in the first of up to `count` properties that carries one. The
/// properties before it must be well-formed; what follows it is not looked at.
pub open spec fn spec_find_skin_among(bytes: Seq<u8>, count: int) -> Result<
    Option<PlayerSkinView>,
    BufReadError,
>
    decreases count,
{
    if count <= 0 {
        Ok(None)
    } else {
        match spec_read_property(bytes) {
            Err(e) => Err(e),
            Ok((p, n)) => match skin_of_property(p) {
                Some(skin) => Ok(Some(skin)),
                None => spec_find_skin_among(bytes.skip(n as int), count - 1),
            },
        }
    }
}

/// The skin in a list of properties: a count, then that many properties.
pub open spec fn spec_find_skin_data(bytes: Seq<u8>) -> Result<
    Option<PlayerSkinView>,
    BufReadError,
> {
    match spec_read_varint(bytes) {
        None => Err(BufReadError::Io),
        Some((count, n)) => spec_find_skin_among(bytes.skip(n as int), count as int),
    }
}

/// The fields of a message: the version, which must be the one that the server
/// reads, the address, the identifier, the name, and the properties. A
/// message may go on after its properties.
pub open spec fn spec_parse_forwarding(bytes: Seq<u8>) -> Result<
    ForwardingInfoView,
    VelocityError,
> {
    match spec_read_varint(bytes) {
        None => Err(VelocityError::Read(BufReadError::Io)),
        Some((version, n0)) => if version != FORWARDING_VERSION {
            Err(VelocityError::UnsupportedVersion(version))
        } else {
            match spec_read_string(bytes.skip(n0 as int)) {
                Err(e) => Err(VelocityError::Read(e)),
                Ok((addr, n1)) => match spec_read_uuid(bytes.skip((n0 + n1) as int)) {
                    None => Err(VelocityError::Read(BufReadError::Io)),
                    Some((uuid, n2)) => match spec_read_string(bytes.skip((n0 + n1 + n2) as int)) {
                        Err(e) => Err(VelocityError::Read(e)),
                        Ok((name, n3)) => match spec_find_skin_data(
                            bytes.skip((n0 + n1 + n2 + n3) as int),
                        ) {
                            Err(e) => Err(VelocityError::Read(e)),
                            Ok(skin) => Ok(ForwardingInfoView { addr, name, uuid, skin }),
                        },
                    },
                },
            }
        },
    }
}

/// The identity that a payload carries if it is signed with `secret`, and why
/// it is turned down if not. The signature is checked before the message is
/// read.
pub open spec fn spec_verify_forwarding_info(data: Seq<u8>, secret: Seq<u8>) -> Result<
    ForwardingInfoView,
    VelocityError,
> {
    match spec_verify(data, secret) {
        Err(e) => Err(e),
        Ok(message) => spec_parse_forwarding(message),
    }
}

/// Whether the skin that was found is the one that was asked for.
pub open spec fn skin_is(r: Result<Option<PlayerSkin>, VelocityError>, expected: Result<
    Option<PlayerSkinView>,
    BufReadError,
>) -> bool {
    match (r, expected) {
        (Ok(skin), Ok(view)) => skin_view(skin) == view,
        (Err(e), Err(f)) => e == VelocityError::Read(f),
        _ => false,
    }
}

/// Whether the identity that came out is the one that was asked for.
pub open spec fn info_is(r: Result<ForwardingInfo, VelocityError>, expected: Result<
    ForwardingInfoView,
    VelocityError,
>) -> bool {
    match (r, expected) {
        (Ok(info), Ok(view)) => info@ == view,
        (Err(e), Err(f)) => e == f,
        _ => false,
    }
}

/// Whether a property's name is the one that carries the textures.
fn is_texture_key(name: &str) -> (b: bool)
    ensures
        b == (name@ == "textures"@),
{
    let key = String::from_str(TEXTURE_KEY);
    let name = String::from_str(name);
    name == key
}

/// Whether the property that was read is the one that was asked for, read at
/// `pos`.
pub open spec fn property_read_as(
    r: Result<(Property, usize), BufReadError>,
    pos: usize,
    expected: Result<(PropertyView, nat), BufReadError>,
) -> bool {
    match (r, expected) {
        (Ok((property, next)), Ok((view, n))) => property@ == view && next == pos + n,
        (Err(e), Err(f)) => e == f,
        _ => false,
    }
}

/// Reads the signature of a property: a flag, and a string if the flag is set.
fn read_property_signature(data: &[u8], pos: usize) -> (r: Result<
    (Option<String>, usize),
    BufReadError,
>)
    requires
        pos <= data@.len(),
    ensures
        match (r, spec_read_property_signature(data@.skip(pos as int))) {
            (Ok((signature, next)), Ok((view, n))) => text_view(signature) == view && next == pos
                + n,
            (Err(e), Err(f)) => e == f,
            _ => false,
        },
        r matches Ok((_, next)) ==> pos < next <= data@.len(),
{
    let ghost rest = data@.skip(pos as int);
    let (has_signature, after_flag) = match read_bool(data, pos) {
        Ok(found) => found,
        Err(e) => {
            return Err(e);
        },
    };
    if !has_signature {
        return Ok((None, after_flag));
    }
    assert(data@.skip(after_flag as int) =~= rest.skip(1));
    match read_string(data, after_flag) {
        Ok((text, next)) => Ok((Some(text), next)),
        Err(e) => Err(e),
    }
}

/// Reads one property of a profile.
pub fn read_property(data: &[u8], pos: usize) -> (r: Result<(Property, usize), BufReadError>)
    requires
        pos <= data@.len(),
    ensures
        property_read_as(r, pos, spec_read_property(data@.skip(pos as int))),
        r matches Ok((_, next)) ==> pos < next <= data@.len(),
{
    let ghost rest = data@.skip(pos as int);
    let (name, after_name) = match read_string(data, pos) {
        Ok(found) => found,
        Err(e) => {
            return Err(e);
        },
    };
    assert(data@.skip(after_name as int) =~= rest.skip(after_name - pos));
    let (value, after_value) = match read_string(data, after_name) {
        Ok(found) => found,
        Err(e) => {
            return Err(e);
        },
    };
    assert(data@.skip(after_value as int) =~= rest.skip(after_value - pos));
    let (signature, next) = match read_property_signature(data, after_value) {
        Ok(found) => found,
        Err(e) => {
            return Err(e);
        },
    };
    Ok((Property { name, value, signature }, next))
}

/// Looks through the properties at `pos` for the player's skin.
pub fn find_skin_data(data: &[u8], pos: usize) -> (r: Result<Option<PlayerSkin>, VelocityError>)
    requires
        pos <= data@.len(),
    ensures
        skin_is(r, spec_find_skin_data(data@.skip(pos as int))),
{
    let ghost all = data@.skip(pos as int);
    let (count, first) = match read_varint(data, pos) {
        Ok(found) => found,
        Err(e) => {
            return Err(VelocityError::Read(e));
        },
    };
    let ghost listed = data@.skip(first as int);
    assert(listed =~= all.skip(first - pos));
    let mut at: usize = first;
    let mut i: i32 = 0;
    while i < count
        invariant
            at <= data@.len(),
            0 <= i,
            spec_find_skin_data(data@.skip(pos as int)) == spec_find_skin_among(
                listed,
                count as int,
            ),
            spec_find_skin_among(listed, count as int) == spec_find_skin_among(
                data@.skip(at as int),
                count - i,
            ),
        decreases count - i,
    {
        let ghost rest = data@.skip(at as int);
        let (property, next) = match read_property(data, at) {
            Ok(found) => found,
            Err(e) => {
                return Err(VelocityError::Read(e));
            },
        };
        if is_texture_key(property.name.as_str()) {
            let signature = match property.signature {
                Some(s) => s,
                None => String::new(),
            };
            return Ok(
                Some(
                    PlayerSkin {
                        texture: property.value,
                        signature,
                        layers: SkinLayers::default(),
                    },
                ),
            );
        }
        assert(data@.skip(next as int) =~= rest.skip(next - at));
        at = next;
        i = i + 1;
    }
    Ok(None)
}

/// Reads the fields of a signed message.
pub fn parse_forwarding_message(message: &[u8]) -> (r: Result<ForwardingInfo, VelocityError>)
    ensures
        info_is(r, spec_parse_forwarding(message@)),
{
    let ghost bytes = message@;
    assert(bytes.skip(0) =~= bytes);
    let (version, after_version) = match read_varint(message, 0) {
        Ok(found) => found,
        Err(e) => {
            return Err(VelocityError::Read(e));
        },
    };
    if version != FORWARDING_VERSION as i32 {
        return Err(VelocityError::UnsupportedVersion(version));
    }
    let (addr, after_addr) = match read_string(message, after_version) {
        Ok(found) => found,
        Err(e) => {
            return Err(VelocityError::Read(e));
        },
    };
    let (uuid, after_uuid) = match read_uuid(message, after_addr) {
        Ok(found) => found,
        Err(e) => {
            return Err(VelocityError::Read(e));
        },
    };
    let (name, after_name) = match read_string(message, after_uuid) {
        Ok(found) => found,
        Err(e) => {
            return Err(VelocityError::Read(e));
        },
    };
    let skin = match find_skin_data(message, after_name) {
        Ok(found) => found,
        Err(e) => {
            return Err(e);
        },
    };
    Ok(ForwardingInfo { addr, name, uuid, skin })
}

/// Checks a payload against the secret that the server shares with the proxy
/// and reads the player's identity from it.
pub fn verify_forwarding_info(data: &[u8], secret: &[u8]) -> (r: Result<
    ForwardingInfo,
    VelocityError,
>)
    ensures
        info_is(r, spec_verify_forwarding_info(data@, secret@)),
        data@.len() <= SIGNATURE_LENGTH ==> r == Err::<ForwardingInfo, VelocityError>(
            VelocityError::InvalidSignatureLength,
        ),
{
    let message = match verify(data, secret) {
        Ok(message) => message,
        Err(e) => {
            return Err(e);
        },
    };
    parse_forwarding_message(message)
}

// ---------------------------------------------------------------------------
// What a proxy writes
// ---------------------------------------------------------------------------

/// Whether a string is short enough to be read back: its UTF-8 form has at
/// most [`MAX_STRING_BYTES`] bytes.
pub open spec fn string_fits(s: Seq<char>) -> bool {
    encode_utf8(s).len() <= MAX_STRING_BYTES
}

/// Whether every string of a property is short enough to be read back.
pub open spec fn property_fits(p: PropertyView) -> bool {
    &&& string_fits(p.name)
    &&& string_fits(p.value)
    &&& match p.signature {
        Some(s) => string_fits(s),
        None => true,
    }
}

/// The encoding of a property.
pub open spec fn spec_write_property(p: PropertyView) -> Seq<u8> {
    spec_write_string(p.name) + spec_write_string(p.value) + match p.signature {
        Some(s) => spec_write_bool(true) + spec_write_string(s),
        None => spec_write_bool(false),
    }
}

/// The encodings of some properties, one after the other.
pub open spec fn spec_write_properties(properties: Seq<PropertyView>) -> Seq<u8>
    decreases properties.len(),
{
    if properties.len() == 0 {
        Seq::empty()
    } else {
        spec_write_property(properties[0]) + spec_write_properties(properties.drop_first())
    }
}

/// The message that a proxy writes for a player.
pub open spec fn spec_write_forwarding(
    addr: Seq<char>,
    uuid: u128,
    name: Seq<char>,
    properties: Seq<PropertyView>,
) -> Seq<u8> {
    spec_write_varint(FORWARDING_VERSION as i32) + spec_write_string(addr) + spec_write_uuid(uuid)
        + spec_write_string(name) + spec_write_varint(properties.len() as i32)
        + spec_write_properties(properties)
}

/// The payload that a proxy sends: the message behind its code under the
/// proxy's secret.
pub open spec fn spec_sign(message: Seq<u8>, secret: Seq<u8>) -> Seq<u8> {
    hmac_sha256_of(message, secret)@ + message
}

/// The skin of the first property that carries one.
pub open spec fn first_skin(properties: Seq<PropertyView>) -> Option<PlayerSkinView>
    decreases properties.len(),
{
    if properties.len() == 0 {
        None
    } else {
        match skin_of_property(properties[0]) {
            Some(skin) => Some(skin),
            None => first_skin(properties.drop_first()),
        }
    }
}

/// A property is read back from its encoding, whatever follows it.
pub proof fn lemma_read_written_property(p: PropertyView, rest: Seq<u8>)
    requires
        property_fits(p),
    ensures
        spec_read_property(spec_write_property(p) + rest) == Ok::<
            (PropertyView, nat),
            BufReadError,
        >((p, spec_write_property(p).len())),
{
    let name = spec_write_string(p.name);
    let value = spec_write_string(p.value);
    let tail = match p.signature {
        Some(s) => spec_write_bool(true) + spec_write_string(s),
        None => spec_write_bool(false),
    };
    let bytes = spec_write_property(p) + rest;
    assert(bytes =~= name + (value + tail + rest));
    lemma_read_written_string(p.name, value + tail + rest);
    assert(bytes.skip(name.len() as int) =~= value + (tail + rest));
    lemma_read_written_string(p.value, tail + rest);
    let behind = bytes.skip((name.len() + value.len()) as int);
    assert(behind =~= tail + rest);
    match p.signature {
        Some(s) => {
            assert(behind =~= spec_write_bool(true) + (spec_write_string(s) + rest));
            lemma_read_written_bool(true, spec_write_string(s) + rest);
            assert(behind.skip(1) =~= spec_write_string(s) + rest);
            lemma_read_written_string(s, rest);
        },
        None => {
            lemma_read_written_bool(false, rest);
        },
    }
}

/// Among the encodings of some properties the reader finds the skin of the
/// first that carries one, whatever follows them.
pub proof fn lemma_find_skin_among_written(properties: Seq<PropertyView>, rest: Seq<u8>)
    requires
        forall|i: int| 0 <= i < properties.len() ==> property_fits(#[trigger] properties[i]),
    ensures
        spec_find_skin_among(spec_write_properties(properties) + rest, properties.len() as int)
            == Ok::<Option<PlayerSkinView>, BufReadError>(first_skin(properties)),
    decreases properties.len(),
{
    if properties.len() > 0 {
        let head = spec_write_property(properties[0]);
        let others = properties.drop_first();
        let bytes = spec_write_properties(properties) + rest;
        assert(bytes =~= head + (spec_write_properties(others) + rest));
        lemma_read_written_property(properties[0], spec_write_properties(others) + rest);
        assert(bytes.skip(head.len() as int) =~= spec_write_properties(others) + rest);
        assert forall|i: int| 0 <= i < others.len() implies property_fits(
            #[trigger] others[i],
        ) by {
            assert(others[i] == properties[i + 1]);
        }
        lemma_find_skin_among_written(others, rest);
    }
}

/// A list that announces more properties than it holds is turned down for
/// the input that is missing, unless a property that it does hold carries a
/// skin.
pub proof fn lemma_missing_properties_are_refused(properties: Seq<PropertyView>, count: int)
    requires
        forall|i: int| 0 <= i < properties.len() ==> property_fits(#[trigger] properties[i]),
        first_skin(properties) is None,
        count > properties.len(),
    ensures
        spec_find_skin_among(spec_write_properties(properties), count) == Err::<
            Option<PlayerSkinView>,
            BufReadError,
        >(BufReadError::Io),
    decreases properties.len(),
{
    let none = Seq::<u8>::empty();
    if properties.len() > 0 {
        let head = spec_write_property(properties[0]);
        let others = properties.drop_first();
        let bytes = spec_write_properties(properties);
        assert(bytes =~= head + spec_write_properties(others));
        lemma_read_written_property(properties[0], spec_write_properties(others));
        assert(bytes.skip(head.len() as int) =~= spec_write_properties(others));
        assert forall|i: int| 0 <= i < others.len() implies property_fits(
            #[trigger] others[i],
        ) by {
            assert(others[i] == properties[i + 1]);
        }
        lemma_missing_properties_are_refused(others, count - 1);
    }
}

/// In a written list of properties the reader finds the skin of the first that
/// carries one.
pub proof fn lemma_find_skin_data_written(properties: Seq<PropertyView>)
    requires
        properties.len() <= i32::MAX,
        forall|i: int| 0 <= i < properties.len() ==> property_fits(#[trigger] properties[i]),
    ensures
        spec_find_skin_data(
            spec_write_varint(properties.len() as i32) + spec_write_properties(properties),
        ) == Ok::<Option<PlayerSkinView>, BufReadError>(first_skin(properties)),
{
    let count = spec_write_varint(properties.len() as i32);
    let listed = spec_write_properties(properties);
    let none = Seq::<u8>::empty();
    lemma_read_written_varint(properties.len() as i32, listed);
    assert((count + listed).skip(count.len() as int) =~= listed + none);
    lemma_find_skin_among_written(properties, none);
}

/// What a message gives whose fields up to the name are read as `addr`, `uuid`
/// and `name`: these, with the skin that its properties hold.
proof fn lemma_parse_in_stages(
    bytes: Seq<u8>,
    n0: nat,
    addr: Seq<char>,
    n1: nat,
    uuid: u128,
    n2: nat,
    name: Seq<char>,
    n3: nat,
    skin: Option<PlayerSkinView>,
)
    requires
        spec_read_varint(bytes) == Some((FORWARDING_VERSION as i32, n0)),
        spec_read_string(bytes.skip(n0 as int)) == Ok::<(Seq<char>, nat), BufReadError>(
            (addr, n1),
        ),
        spec_read_uuid(bytes.skip((n0 + n1) as int)) == Some((uuid, n2)),
        spec_read_string(bytes.skip((n0 + n1 + n2) as int)) == Ok::<
            (Seq<char>, nat),
            BufReadError,
        >((name, n3)),
        spec_find_skin_data(bytes.skip((n0 + n1 + n2 + n3) as int)) == Ok::<
            Option<PlayerSkinView>,
            BufReadError,
        >(skin),
    ensures
        spec_parse_forwarding(bytes) == Ok::<ForwardingInfoView, VelocityError>(
            ForwardingInfoView { addr, name, uuid, skin },
        ),
{
}

/// The fields of a message that a proxy wrote are read back: the address, the
/// identifier and the name as they were written, and the skin of the first
/// property that carries one.
pub proof fn lemma_parse_written_forwarding(
    addr: Seq<char>,
    uuid: u128,
    name: Seq<char>,
    properties: Seq<PropertyView>,
)
    requires
        string_fits(addr),
        string_fits(name),
        properties.len() <= i32::MAX,
        forall|i: int| 0 <= i < properties.len() ==> property_fits(#[trigger] properties[i]),
    ensures
        spec_parse_forwarding(spec_write_forwarding(addr, uuid, name, properties)) == Ok::<
            ForwardingInfoView,
            VelocityError,
        >(ForwardingInfoView { addr, name, uuid, skin: first_skin(properties) }),
        spec_write_forwarding(addr, uuid, name, properties).len() > 0,
{
    let a = spec_write_varint(FORWARDING_VERSION as i32);
    let b = spec_write_string(addr);
    let c = spec_write_uuid(uuid);
    let d = spec_write_string(name);
    let ef = spec_write_varint(properties.len() as i32) + spec_write_properties(properties);
    let bytes = spec_write_forwarding(addr, uuid, name, properties);
    assert(bytes =~= a + (b + c + d + ef));
    assert(bytes.skip(a.len() as int) =~= b + (c + d + ef));
    assert(bytes.skip((a.len() + b.len()) as int) =~= c + (d + ef));
    assert(bytes.skip((a.len() + b.len() + 16) as int) =~= d + ef);
    assert(bytes.skip((a.len() + b.len() + 16 + d.len()) as int) =~= ef);
    lemma_read_written_varint(FORWARDING_VERSION as i32, b + c + d + ef);
    lemma_read_written_string(addr, c + d + ef);
    lemma_read_written_uuid(uuid, d + ef);
    lemma_read_written_string(name, ef);
    lemma_find_skin_data_written(properties);
    lemma_parse_in_stages(
        bytes,
        a.len(),
        addr,
        b.len(),
        uuid,
        16,
        name,
        d.len(),
        first_skin(properties),
    );
}

/// A payload that a proxy signed with the server's secret verifies, and the
/// identity that comes out is the one that the proxy wrote: the address, the
/// identifier and the name as they were written, and the skin of the first
/// property that carries one.
pub proof fn lemma_signed_payload_verifies(
    addr: Seq<char>,
    uuid: u128,
    name: Seq<char>,
    properties: Seq<PropertyView>,
    secret: Seq<u8>,
)
    requires
        string_fits(addr),
        string_fits(name),
        properties.len() <= i32::MAX,
        forall|i: int| 0 <= i < properties.len() ==> property_fits(#[trigger] properties[i]),
    ensures
        spec_verify_forwarding_info(
            spec_sign(spec_write_forwarding(addr, uuid, name, properties), secret),
            secret,
        ) == Ok::<ForwardingInfoView, VelocityError>(
            ForwardingInfoView { addr, name, uuid, skin: first_skin(properties) },
        ),
{
    let message = spec_write_forwarding(addr, uuid, name, properties);
    lemma_parse_written_forwarding(addr, uuid, name, properties);
    lemma_signed_message_is_accepted(message, secret);
}

/// The signature check lets through every message that is not empty and was
/// signed with the secret it is checked against.
pub proof fn lemma_signed_message_is_accepted(message: Seq<u8>, secret: Seq<u8>)
    requires
        message.len() > 0,
    ensures
        spec_verify(spec_sign(message, secret), secret) == Ok::<Seq<u8>, VelocityError>(message),
{
    let mac = hmac_sha256_of(message, secret)@;
    let data = spec_sign(message, secret);
    assert(mac.len() == 32);
    assert(data.skip(SIGNATURE_LENGTH as int) =~= message);
    assert(data.subrange(0, SIGNATURE_LENGTH as int) =~= mac);
}

/// A payload that was signed with another secret is turned down for its
/// signature, whatever its message says: the message is never read. This holds
/// wherever the two secrets give different codes for the message.
pub proof fn lemma_other_secret_is_refused(
    message: Seq<u8>,
    signing_secret: Seq<u8>,
    secret: Seq<u8>,
)
    requires
        message.len() > 0,
        hmac_sha256_of(message, signing_secret)@ != hmac_sha256_of(message, secret)@,
    ensures
        spec_verify_forwarding_info(spec_sign(message, signing_secret), secret) == Err::<
            ForwardingInfoView,
            VelocityError,
        >(VelocityError::InvalidSignature),
{
    let mac = hmac_sha256_of(message, signing_secret)@;
    let data = spec_sign(message, signing_secret);
    assert(mac.len() == 32);
    assert(data.skip(SIGNATURE_LENGTH as int) =~= message);
    assert(data.subrange(0, SIGNATURE_LENGTH as int) =~= mac);
}

/// A payload of 32 bytes or fewer is turned down as too short, whatever it
/// holds and whatever the secret.
pub proof fn lemma_short_payload_is_refused(data: Seq<u8>, secret: Seq<u8>)
    requires
        data.len() <= SIGNATURE_LENGTH,
    ensures
        spec_verify_forwarding_info(data, secret) == Err::<ForwardingInfoView, VelocityError>(
            VelocityError::InvalidSignatureLength,
        ),
{
}

} // verus!
