//! Player identifiers: 128-bit numbers, written as UUIDs.
//!
//! The library holds an identifier as a `u128`, the most significant byte being
//! the first byte of the UUID.

use md5::{Digest, Md5};
use vstd::arithmetic::power::pow;
use vstd::prelude::*;
use vstd::string::*;
use vstd::utf8::*;
use crate::utils::buf::be_u128;

verus! {

/// The MD5 digest of a byte string.
pub uninterp spec fn md5_of(data: Seq<u8>) -> [u8; 16];

/// Hashes with [`md5::Md5::digest`]: the digest depends on the bytes alone.
#[verifier::external_body]
fn md5_digest(data: &[u8]) -> (digest: [u8; 16])
    ensures
        digest == md5_of(data@),
{
    Md5::digest(data).into()
}

/// Sixteen digest bytes marked as a name-based UUID: the high half of byte 6
/// holds the version, 3, and the two high bits of byte 8 the variant, binary 10.
pub open spec fn md5_uuid_bytes(digest: Seq<u8>) -> Seq<u8> {
    digest.update(6, (digest[6] % 16 + 0x30) as u8).update(8, (digest[8] % 64 + 0x80) as u8)
}

/// Builds the identifier with [`uuid::Builder::from_md5_bytes`], which sets the
/// version and variant bits in the digest and changes nothing else.
#[verifier::external_body]
fn uuid_from_md5_bytes(digest: [u8; 16]) -> (id: u128)
    ensures
        id == be_u128(md5_uuid_bytes(digest@)),
{
    uuid::Builder::from_md5_bytes(digest).into_uuid().as_u128()
}

/// The name-based identifier that a digest makes: the digest with the version
/// and the variant of such an identifier marked in it.
pub fn uuid_from_md5(digest: [u8; 16]) -> (id: u128)
    ensures
        id == be_u128(md5_uuid_bytes(digest@)),
{
    uuid_from_md5_bytes(digest)
}

/// The identifier of a player who logs in without an identity authority: the
/// name-based UUID of the text `OfflinePlayer:` followed by the name.
pub open spec fn offline_uuid(username: Seq<char>) -> u128 {
    be_u128(md5_uuid_bytes(md5_of(encode_utf8("OfflinePlayer:"@ + username))@)) as u128
}

/// Derives a player's identifier from the name alone. The same name gives the
/// same identifier, in every run.
pub fn generate_uuid(username: &str) -> (id: u128)
    ensures
        id == offline_uuid(username@),
{
    let text = String::from_str("OfflinePlayer:").concat(username);
    let digest = md5_digest(text.as_str().as_bytes());
    uuid_from_md5(digest)
}

/// The lower-case character of a hexadecimal digit.
pub open spec fn hex_char(d: nat) -> char {
    if d == 0 {
        '0'
    } else if d == 1 {
        '1'
    } else if d == 2 {
        '2'
    } else if d == 3 {
        '3'
    } else if d == 4 {
        '4'
    } else if d == 5 {
        '5'
    } else if d == 6 {
        '6'
    } else if d == 7 {
        '7'
    } else if d == 8 {
        '8'
    } else if d == 9 {
        '9'
    } else if d == 10 {
        'a'
    } else if d == 11 {
        'b'
    } else if d == 12 {
        'c'
    } else if d == 13 {
        'd'
    } else if d == 14 {
        'e'
    } else {
        'f'
    }
}

/// The hexadecimal digit at place `k` of the 32 digits of an identifier, the
/// most significant at place 0.
pub open spec fn uuid_digit(id: u128, k: int) -> nat {
    ((id as nat) / (pow(16, (31 - k) as nat) as nat)) % 16
}

/// How many hyphens stand before place `i` of the written form.
pub open spec fn hyphens_before(i: int) -> int {
    if i < 8 {
        0
    } else if i < 13 {
        1
    } else if i < 18 {
        2
    } else if i < 23 {
        3
    } else {
        4
    }
}

/// The written form of an identifier: 32 lower-case hexadecimal digits in
/// groups of 8, 4, 4, 4 and 12, with a hyphen between the groups.
pub open spec fn uuid_text(id: u128) -> Seq<char> {
    Seq::new(
        36,
        |i: int|
            if i == 8 || i == 13 || i == 18 || i == 23 {
                '-'
            } else {
                hex_char(uuid_digit(id, i - hyphens_before(i)))
            },
    )
}

/// Writes an identifier as [`uuid::Uuid`] displays it: hyphenated, in lower
/// case.
#[verifier::external_body]
fn uuid_display(id: u128) -> (s: String)
    ensures
        s@ == uuid_text(id),
{
    uuid::Uuid::from_u128(id).to_string()
}

/// The written form of an identifier.
pub fn uuid_string(id: u128) -> (s: String)
    ensures
        s@ == uuid_text(id),
        s@.len() == 36,
{
    uuid_display(id)
}

} // verus!
