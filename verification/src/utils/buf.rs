//! The primitive fields of the wire format: variable-length integers,
//! length-prefixed UTF-8 strings, flags and 128-bit identifiers.
//!
//! Every reader takes the whole input and the position to read at, and gives
//! back the value with the position behind it. What a reader accepts is stated
//! over the bytes that are still unread, `data@.skip(pos)`.

use vstd::prelude::*;
use vstd::slice::*;
use vstd::string::*;
use vstd::utf8::*;
use crate::utils::text::{decimal_string, decimal_text};

verus! {

/// The longest string, in characters, that the protocol lets a field hold.
pub const MAX_STRING_LENGTH: u32 = 32767;

/// The longest encoding, in bytes, that a string field is read with: four
/// bytes for each character.
pub const MAX_STRING_BYTES: u32 = 131068;

/// Why a field could not be read.
#[derive(Debug, Clone, Copy, PartialEq, Eq, Structural)]
pub enum BufReadError {
    /// The input ended inside a field of fixed or self-delimiting size.
    Io,
    /// A string announced more bytes than a string may have.
    StringLengthTooLong { length: u32, max_length: u32 },
    /// A string announced more bytes than the input still holds.
    UnexpectedEof { attempted_read: usize, actual_read: usize },
    /// The bytes of a string are not UTF-8.
    InvalidUtf8,
}

/// The text of each failure.
pub open spec fn read_error_text(e: BufReadError) -> Seq<char> {
    match e {
        BufReadError::Io => "failed to fill whole buffer"@,
        BufReadError::StringLengthTooLong { length, max_length } =>
            "The received encoded string buffer length is longer than maximum allowed ("@
                + decimal_text(length as nat) + " > "@ + decimal_text(max_length as nat) + ")"@,
        BufReadError::UnexpectedEof { attempted_read, actual_read } => "Tried to read "@
            + decimal_text(attempted_read as nat) + " bytes but there were only "@ + decimal_text(
            actual_read as nat,
        ),
        BufReadError::InvalidUtf8 => "Invalid UTF-8"@,
    }
}

impl BufReadError {
    /// Says in words what went wrong.
    pub fn message(&self) -> (s: String)
        ensures
            s@ == read_error_text(*self),
    {
        match self {
            BufReadError::Io => String::from_str("failed to fill whole buffer"),
            BufReadError::StringLengthTooLong { length, max_length } => {
                let s = String::from_str(
                    "The received encoded string buffer length is longer than maximum allowed (",
                );
                let s = s.concat(decimal_string(*length as u64).as_str());
                let s = s.concat(" > ");
                let s = s.concat(decimal_string(*max_length as u64).as_str());
                s.concat(")")
            },
            BufReadError::UnexpectedEof { attempted_read, actual_read } => {
                let s = String::from_str("Tried to read ");
                let s = s.concat(decimal_string(*attempted_read as u64).as_str());
                let s = s.concat(" bytes but there were only ");
                s.concat(decimal_string(*actual_read as u64).as_str())
            },
            BufReadError::InvalidUtf8 => String::from_str("Invalid UTF-8"),
        }
    }
}

/// Whether an outcome of a reader is the one that the format asks for, read at
/// `pos`: the value with the position behind it, or the failure of an input
/// that ends too early.
pub open spec fn read_as<T>(
    r: Result<(T, usize), BufReadError>,
    pos: usize,
    expected: Option<(T, nat)>,
) -> bool {
    match expected {
        Some((v, n)) => r matches Ok((found, next)) && found == v && next == pos + n,
        None => r == Err::<(T, usize), BufReadError>(BufReadError::Io),
    }
}

// ---------------------------------------------------------------------------
// Variable-length integers
// ---------------------------------------------------------------------------

/// What the byte at place `k` of a variable-length integer counts for: 128 to
/// the power `k`.
pub open spec fn varint_weight(k: nat) -> nat {
    if k == 0 {
        1
    } else if k == 1 {
        0x80
    } else if k == 2 {
        0x4000
    } else if k == 3 {
        0x20_0000
    } else if k == 4 {
        0x1000_0000
    } else {
        0x8_0000_0000
    }
}

/// The sum of the low seven bits of the first `n` bytes, each at its weight.
pub open spec fn varint_partial(bytes: Seq<u8>, n: nat) -> nat
    decreases n,
{
    if n == 0 {
        0
    } else {
        varint_partial(bytes, (n - 1) as nat) + (bytes[n - 1] % 128) as nat * varint_weight(
            (n - 1) as nat,
        )
    }
}

/// Where a variable-length integer that has gone on up to byte `i` ends: behind
/// the first byte from there whose high bit is clear, and after five bytes at
/// the latest. `None` if the input ends before that.
pub open spec fn varint_end(bytes: Seq<u8>, i: nat) -> Option<nat>
    decreases 5 - i,
{
    if i >= bytes.len() {
        None
    } else if bytes[i as int] < 128 || i >= 4 {
        Some(i + 1)
    } else {
        varint_end(bytes, i + 1)
    }
}

/// The unsigned 32-bit value of the variable-length integer at the front of
/// `bytes`, with the number of bytes it takes. Bits beyond the 32nd are dropped.
pub open spec fn spec_read_var_u32(bytes: Seq<u8>) -> Option<(u32, nat)> {
    match varint_end(bytes, 0) {
        None => None,
        Some(n) => Some(((varint_partial(bytes, n) % 0x1_0000_0000) as u32, n)),
    }
}

/// A 32-bit pattern read as a signed number in two's complement.
pub open spec fn as_signed(raw: u32) -> i32 {
    if raw < 0x8000_0000 {
        raw as i32
    } else {
        (raw - 0x1_0000_0000) as i32
    }
}

/// A signed number's 32-bit pattern in two's complement.
pub open spec fn as_unsigned(v: i32) -> u32 {
    if v >= 0 {
        v as u32
    } else {
        (v + 0x1_0000_0000) as u32
    }
}

/// The signed value of the variable-length integer at the front of `bytes`.
pub open spec fn spec_read_varint(bytes: Seq<u8>) -> Option<(i32, nat)> {
    match spec_read_var_u32(bytes) {
        None => None,
        Some((raw, n)) => Some((as_signed(raw), n)),
    }
}

/// The encoding of an unsigned value: seven bits to a byte, the lowest first,
/// the high bit set on every byte but the last.
pub open spec fn spec_write_var_u32(v: nat) -> Seq<u8>
    decreases v,
{
    if v < 128 {
        seq![v as u8]
    } else {
        seq![(128 + v % 128) as u8] + spec_write_var_u32(v / 128)
    }
}

/// The encoding of a signed value: that of its two's complement pattern.
pub open spec fn spec_write_varint(v: i32) -> Seq<u8> {
    spec_write_var_u32(as_unsigned(v) as nat)
}

/// Reads an unsigned variable-length integer.
pub fn read_var_u32(data: &[u8], pos: usize) -> (r: Result<(u32, usize), BufReadError>)
    requires
        pos <= data@.len(),
    ensures
        read_as(r, pos, spec_read_var_u32(data@.skip(pos as int))),
        r matches Ok((_, next)) ==> pos < next <= data@.len() && next <= pos + 5,
{
    let ghost rest = data@.skip(pos as int);
    let len = data.len();
    let mut acc: u64 = 0;
    let mut weight: u64 = 1;
    let mut i: usize = 0;
    while i < 5
        invariant
            i <= 5,
            pos + i <= len == data@.len(),
            rest == data@.skip(pos as int),
            weight == varint_weight(i as nat),
            acc == varint_partial(rest, i as nat),
            acc < varint_weight(i as nat),
            i < 5 ==> varint_end(rest, 0) == varint_end(rest, i as nat),
            i == 5 ==> varint_end(rest, 0) == Some(5nat),
        decreases 5 - i,
    {
        if i >= len - pos {
            return Err(BufReadError::Io);
        }
        let b = data[pos + i];
        assert(rest[i as int] == b);
        let group: u64 = (b % 128) as u64;
        assert(group * weight == group * varint_weight(i as nat));
        assert(group * varint_weight(i as nat) <= 127 * varint_weight(i as nat)) by (nonlinear_arith)
            requires
                group <= 127,
        ;
        acc = acc + group * weight;
        i = i + 1;
        if b < 128 {
            return Ok(((acc % 0x1_0000_0000) as u32, pos + i));
        }
        weight = weight * 128;
    }
    Ok(((acc % 0x1_0000_0000) as u32, pos + i))
}

/// Reads a signed variable-length integer.
pub fn read_varint(data: &[u8], pos: usize) -> (r: Result<(i32, usize), BufReadError>)
    requires
        pos <= data@.len(),
    ensures
        read_as(r, pos, spec_read_varint(data@.skip(pos as int))),
        r matches Ok((_, next)) ==> pos < next <= data@.len() && next <= pos + 5,
{
    match read_var_u32(data, pos) {
        Ok((raw, next)) => {
            let v: i32 = if raw < 0x8000_0000 {
                raw as i32
            } else {
                (raw as i64 - 0x1_0000_0000) as i32
            };
            Ok((v, next))
        },
        Err(e) => Err(e),
    }
}

/// Appends the encoding of an unsigned value.
pub fn write_var_u32(buf: &mut Vec<u8>, value: u32)
    ensures
        final(buf)@ == old(buf)@ + spec_write_var_u32(value as nat),
{
    let mut v: u32 = value;
    while v >= 128
        invariant
            buf@ + spec_write_var_u32(v as nat) == old(buf)@ + spec_write_var_u32(value as nat),
        decreases v,
    {
        let ghost before = buf@;
        buf.push((128 + v % 128) as u8);
        assert(buf@ + spec_write_var_u32((v / 128) as nat) =~= before + spec_write_var_u32(
            v as nat,
        ));
        v = v / 128;
    }
    let ghost before = buf@;
    buf.push(v as u8);
    assert(buf@ =~= before + spec_write_var_u32(v as nat));
}

/// Appends the encoding of a signed value.
pub fn write_varint(buf: &mut Vec<u8>, value: i32)
    ensures
        final(buf)@ == old(buf)@ + spec_write_varint(value),
{
    let raw: u32 = if value >= 0 {
        value as u32
    } else {
        (value as i64 + 0x1_0000_0000) as u32
    };
    write_var_u32(buf, raw);
}

// ---------------------------------------------------------------------------
// Strings
// ---------------------------------------------------------------------------

/// The string at the front of `bytes`, with the number of bytes it takes: a
/// length in bytes as a variable-length integer, then that many bytes of UTF-8.
pub open spec fn spec_read_string(bytes: Seq<u8>) -> Result<(Seq<char>, nat), BufReadError> {
    match spec_read_var_u32(bytes) {
        None => Err(BufReadError::Io),
        Some((length, n)) => {
            let left = (bytes.len() - n) as nat;
            if length > MAX_STRING_BYTES {
                Err(BufReadError::StringLengthTooLong { length, max_length: MAX_STRING_BYTES })
            } else if length > left {
                Err(
                    BufReadError::UnexpectedEof {
                        attempted_read: length as usize,
                        actual_read: left as usize,
                    },
                )
            } else if !valid_utf8(bytes.subrange(n as int, n + length)) {
                Err(BufReadError::InvalidUtf8)
            } else {
                Ok((decode_utf8(bytes.subrange(n as int, n + length)), (n + length) as nat))
            }
        },
    }
}

/// The encoding of a string: the length of its UTF-8 form, then that form.
pub open spec fn spec_write_string(chars: Seq<char>) -> Seq<u8> {
    spec_write_var_u32(encode_utf8(chars).len()) + encode_utf8(chars)
}

/// Whether an outcome of [`read_string`] is the one that the format asks for,
/// read at `pos`.
pub open spec fn string_read_as(
    r: Result<(String, usize), BufReadError>,
    pos: usize,
    expected: Result<(Seq<char>, nat), BufReadError>,
) -> bool {
    match (r, expected) {
        (Ok((s, next)), Ok((chars, n))) => s@ == chars && next == pos + n,
        (Err(e), Err(f)) => e == f,
        _ => false,
    }
}

/// Decodes UTF-8 with [`String::from_utf8`]: a string comes back exactly for
/// well-formed UTF-8, and holds the characters that the bytes encode.
#[verifier::external_body]
fn string_from_utf8(bytes: &[u8]) -> (r: Option<String>)
    ensures
        r is Some <==> valid_utf8(bytes@),
        r is Some ==> r.unwrap()@ == decode_utf8(bytes@),
{
    String::from_utf8(bytes.to_vec()).ok()
}

/// Reads a length-prefixed string.
pub fn read_string(data: &[u8], pos: usize) -> (r: Result<(String, usize), BufReadError>)
    requires
        pos <= data@.len(),
    ensures
        string_read_as(r, pos, spec_read_string(data@.skip(pos as int))),
        r matches Ok((_, next)) ==> pos < next <= data@.len(),
{
    let ghost rest = data@.skip(pos as int);
    let (length, start) = match read_var_u32(data, pos) {
        Ok(found) => found,
        Err(e) => {
            return Err(e);
        },
    };
    let left = data.len() - start;
    let ghost n = (start - pos) as nat;
    assert(spec_read_var_u32(rest) == Some((length, n)));
    assert(rest.len() - n == left);
    if length > MAX_STRING_BYTES {
        return Err(BufReadError::StringLengthTooLong { length, max_length: MAX_STRING_BYTES });
    }
    if length as usize > left {
        return Err(
            BufReadError::UnexpectedEof { attempted_read: length as usize, actual_read: left },
        );
    }
    let end = start + length as usize;
    let body = slice_subrange(data, start, end);
    assert(body@ =~= rest.subrange(start - pos, start - pos + length));
    match string_from_utf8(body) {
        Some(s) => Ok((s, end)),
        None => Err(BufReadError::InvalidUtf8),
    }
}

/// Appends a length-prefixed string. The protocol has no encoding for a
/// string of more than [`MAX_STRING_LENGTH`] bytes.
pub fn write_string(buf: &mut Vec<u8>, s: &str)
    requires
        s.spec_bytes().len() <= MAX_STRING_LENGTH,
    ensures
        final(buf)@ == old(buf)@ + spec_write_string(s@),
{
    let bytes = s.as_bytes();
    write_var_u32(buf, bytes.len() as u32);
    let ghost before = buf@;
    buf.extend_from_slice(bytes);
    assert(buf@ =~= before + bytes@);
    assert(buf@ =~= old(buf)@ + spec_write_string(s@));
}

// ---------------------------------------------------------------------------
// Flags and identifiers
// ---------------------------------------------------------------------------

/// The flag at the front of `bytes`: one byte, set unless it is zero.
pub open spec fn spec_read_bool(bytes: Seq<u8>) -> Option<(bool, nat)> {
    if bytes.len() == 0 {
        None
    } else {
        Some((bytes[0] != 0, 1))
    }
}

/// The encoding of a flag.
pub open spec fn spec_write_bool(b: bool) -> Seq<u8> {
    if b {
        seq![1u8]
    } else {
        seq![0u8]
    }
}

/// Reads a one-byte flag.
pub fn read_bool(data: &[u8], pos: usize) -> (r: Result<(bool, usize), BufReadError>)
    requires
        pos <= data@.len(),
    ensures
        read_as(r, pos, spec_read_bool(data@.skip(pos as int))),
        r matches Ok((_, next)) ==> pos < next <= data@.len(),
{
    if pos >= data.len() {
        return Err(BufReadError::Io);
    }
    Ok((data[pos] != 0, pos + 1))
}

/// The four bytes from `at` on as one number, the first byte the most
/// significant.
pub open spec fn be_u32(bytes: Seq<u8>, at: int) -> nat {
    (bytes[at] as nat) * 0x100_0000 + (bytes[at + 1] as nat) * 0x1_0000 + (bytes[at + 2] as nat)
        * 0x100 + (bytes[at + 3] as nat)
}

/// Sixteen bytes as one 128-bit number, the first byte the most significant.
pub open spec fn be_u128(bytes: Seq<u8>) -> nat {
    be_u32(bytes, 0) * 0x1_0000_0000_0000_0000_0000_0000 + be_u32(bytes, 4)
        * 0x1_0000_0000_0000_0000 + be_u32(bytes, 8) * 0x1_0000_0000 + be_u32(bytes, 12)
}

/// The identifier at the front of `bytes`: sixteen bytes, the most significant
/// first.
pub open spec fn spec_read_uuid(bytes: Seq<u8>) -> Option<(u128, nat)> {
    if bytes.len() < 16 {
        None
    } else {
        Some((be_u128(bytes) as u128, 16))
    }
}

/// The 32-bit word at place `k` of a 128-bit number, the most significant word
/// at place 0.
pub open spec fn be_word(v: u128, k: int) -> nat {
    if k == 0 {
        (v / 0x1_0000_0000_0000_0000_0000_0000) as nat
    } else if k == 1 {
        (v / 0x1_0000_0000_0000_0000 % 0x1_0000_0000) as nat
    } else if k == 2 {
        (v / 0x1_0000_0000 % 0x1_0000_0000) as nat
    } else {
        (v % 0x1_0000_0000) as nat
    }
}

/// The byte at place `j` of a 32-bit word, the most significant byte at place 0.
pub open spec fn be_byte(w: nat, j: int) -> u8 {
    if j == 0 {
        (w / 0x100_0000 % 0x100) as u8
    } else if j == 1 {
        (w / 0x1_0000 % 0x100) as u8
    } else if j == 2 {
        (w / 0x100 % 0x100) as u8
    } else {
        (w % 0x100) as u8
    }
}

/// The encoding of an identifier: its sixteen bytes, the most significant first.
pub open spec fn spec_write_uuid(v: u128) -> Seq<u8> {
    Seq::new(16, |i: int| be_byte(be_word(v, i / 4), i % 4))
}

fn read_be_u32(data: &[u8], at: usize) -> (v: u32)
    requires
        at + 4 <= data@.len(),
    ensures
        v == be_u32(data@, at as int),
{
    (data[at] as u32) * 0x100_0000 + (data[at + 1] as u32) * 0x1_0000 + (data[at + 2] as u32)
        * 0x100 + (data[at + 3] as u32)
}

/// Reads a 128-bit identifier.
pub fn read_uuid(data: &[u8], pos: usize) -> (r: Result<(u128, usize), BufReadError>)
    requires
        pos <= data@.len(),
    ensures
        read_as(r, pos, spec_read_uuid(data@.skip(pos as int))),
        r matches Ok((_, next)) ==> pos < next <= data@.len(),
{
    if data.len() - pos < 16 {
        return Err(BufReadError::Io);
    }
    let ghost rest = data@.skip(pos as int);
    let a = read_be_u32(data, pos);
    let b = read_be_u32(data, pos + 4);
    let c = read_be_u32(data, pos + 8);
    let d = read_be_u32(data, pos + 12);
    assert(a == be_u32(rest, 0) && b == be_u32(rest, 4) && c == be_u32(rest, 8) && d == be_u32(
        rest,
        12,
    ));
    let v: u128 = (a as u128) * 0x1_0000_0000_0000_0000_0000_0000 + (b as u128)
        * 0x1_0000_0000_0000_0000 + (c as u128) * 0x1_0000_0000 + (d as u128);
    Ok((v, pos + 16))
}

// ---------------------------------------------------------------------------
// Reading what was written
// ---------------------------------------------------------------------------

/// The value whose encoding starts with a byte that announces more.
proof fn lemma_varint_more(bytes: Seq<u8>, i: nat, n: nat)
    requires
        i < 4,
        i < bytes.len(),
        bytes[i as int] >= 128,
        varint_end(bytes, i + 1) == Some(n),
    ensures
        varint_end(bytes, i) == Some(n),
{
}

/// The encoding of `v`, laid at place `i` of a variable-length integer, ends
/// where the reader stops, and adds `v` at the weight of that place.
proof fn lemma_read_written_from(bytes: Seq<u8>, i: nat, v: nat)
    requires
        i <= 4,
        v * varint_weight(i) < 0x1_0000_0000,
        bytes.len() >= i + spec_write_var_u32(v).len(),
        bytes.subrange(i as int, (i + spec_write_var_u32(v).len()) as int) == spec_write_var_u32(v),
    ensures
        varint_end(bytes, i) == Some(i + spec_write_var_u32(v).len()),
        varint_partial(bytes, i + spec_write_var_u32(v).len()) == varint_partial(bytes, i) + v
            * varint_weight(i),
        i + spec_write_var_u32(v).len() <= 5,
    decreases v,
{
    let written = spec_write_var_u32(v);
    let end = i + written.len();
    assert(bytes[i as int] == written[0]);
    if v < 128 {
        assert(written.len() == 1);
        assert(varint_partial(bytes, i + 1) == varint_partial(bytes, i) + (bytes[i as int]
            % 128) as nat * varint_weight(i));
    } else {
        let tail = spec_write_var_u32(v / 128);
        assert(written =~= seq![(128 + v % 128) as u8] + tail);
        assert(i < 4) by {
            if i == 4 {
                assert(v * 0x1000_0000 >= 128 * 0x1000_0000) by (nonlinear_arith)
                    requires
                        v >= 128,
                ;
            }
        }
        assert(varint_weight(i + 1) == 128 * varint_weight(i));
        assert((v / 128) * varint_weight(i + 1) <= v * varint_weight(i)) by (nonlinear_arith)
            requires
                varint_weight(i + 1) == 128 * varint_weight(i),
                varint_weight(i) >= 0,
                v >= 0,
        ;
        assert forall|j: int| 0 <= j < tail.len() implies bytes[i + 1 + j] == tail[j] by {
            assert(bytes.subrange(i as int, end as int)[1 + j] == written[1 + j]);
        }
        assert(bytes.subrange((i + 1) as int, (i + 1 + tail.len()) as int) =~= tail);
        lemma_read_written_from(bytes, i + 1, v / 128);
        lemma_varint_more(bytes, i, end);
        assert(varint_partial(bytes, i + 1) == varint_partial(bytes, i) + (bytes[i as int]
            % 128) as nat * varint_weight(i));
        assert((v % 128) * varint_weight(i) + (v / 128) * varint_weight(i + 1) == v
            * varint_weight(i)) by (nonlinear_arith)
            requires
                varint_weight(i + 1) == 128 * varint_weight(i),
        ;
    }
}

/// An unsigned value is read back from its encoding, whatever follows it.
pub proof fn lemma_read_written_var_u32(v: u32, rest: Seq<u8>)
    ensures
        spec_read_var_u32(spec_write_var_u32(v as nat) + rest) == Some(
            (v, spec_write_var_u32(v as nat).len()),
        ),
        1 <= spec_write_var_u32(v as nat).len() <= 5,
{
    let written = spec_write_var_u32(v as nat);
    let bytes = written + rest;
    assert(bytes.subrange(0, written.len() as int) =~= written);
    lemma_read_written_from(bytes, 0, v as nat);
}

/// A signed value is read back from its encoding, whatever follows it.
pub proof fn lemma_read_written_varint(v: i32, rest: Seq<u8>)
    ensures
        spec_read_varint(spec_write_varint(v) + rest) == Some((v, spec_write_varint(v).len())),
        1 <= spec_write_varint(v).len() <= 5,
{
    lemma_read_written_var_u32(as_unsigned(v), rest);
}

/// A string whose UTF-8 form is within the limit is read back from its
/// encoding, whatever follows it.
pub proof fn lemma_read_written_string(chars: Seq<char>, rest: Seq<u8>)
    requires
        encode_utf8(chars).len() <= MAX_STRING_BYTES,
    ensures
        spec_read_string(spec_write_string(chars) + rest) == Ok::<(Seq<char>, nat), BufReadError>(
            (chars, spec_write_string(chars).len()),
        ),
{
    let body = encode_utf8(chars);
    let head = spec_write_var_u32(body.len());
    let bytes = spec_write_string(chars) + rest;
    assert(bytes =~= head + (body + rest));
    lemma_read_written_var_u32(body.len() as u32, body + rest);
    assert(bytes.subrange(head.len() as int, (head.len() + body.len()) as int) =~= body);
    encode_utf8_valid_utf8(chars);
    encode_utf8_decode_utf8(chars);
}

/// A flag is read back from its encoding, whatever follows it.
pub proof fn lemma_read_written_bool(b: bool, rest: Seq<u8>)
    ensures
        spec_read_bool(spec_write_bool(b) + rest) == Some((b, 1nat)),
        spec_write_bool(b).len() == 1,
{
}

/// An identifier is read back from its encoding, whatever follows it.
pub proof fn lemma_read_written_uuid(v: u128, rest: Seq<u8>)
    ensures
        spec_read_uuid(spec_write_uuid(v) + rest) == Some((v, 16nat)),
        spec_write_uuid(v).len() == 16,
{
    let bytes = spec_write_uuid(v) + rest;
    lemma_words_make_value(v);
    assert(be_u32(bytes, 0) == be_word(v, 0)) by {
        assert(bytes[0] == be_byte(be_word(v, 0), 0) && bytes[1] == be_byte(be_word(v, 0), 1)
            && bytes[2] == be_byte(be_word(v, 0), 2) && bytes[3] == be_byte(be_word(v, 0), 3));
        lemma_bytes_make_word(be_word(v, 0));
    }
    assert(be_u32(bytes, 4) == be_word(v, 1)) by {
        assert(bytes[4] == be_byte(be_word(v, 1), 0) && bytes[5] == be_byte(be_word(v, 1), 1)
            && bytes[6] == be_byte(be_word(v, 1), 2) && bytes[7] == be_byte(be_word(v, 1), 3));
        lemma_bytes_make_word(be_word(v, 1));
    }
    assert(be_u32(bytes, 8) == be_word(v, 2)) by {
        assert(bytes[8] == be_byte(be_word(v, 2), 0) && bytes[9] == be_byte(be_word(v, 2), 1)
            && bytes[10] == be_byte(be_word(v, 2), 2) && bytes[11] == be_byte(be_word(v, 2), 3));
        lemma_bytes_make_word(be_word(v, 2));
    }
    assert(be_u32(bytes, 12) == be_word(v, 3)) by {
        assert(bytes[12] == be_byte(be_word(v, 3), 0) && bytes[13] == be_byte(be_word(v, 3), 1)
            && bytes[14] == be_byte(be_word(v, 3), 2) && bytes[15] == be_byte(be_word(v, 3), 3));
        lemma_bytes_make_word(be_word(v, 3));
    }
}

/// The four words of a 128-bit number, each at its weight, make the number.
proof fn lemma_words_make_value(v: u128)
    ensures
        be_word(v, 0) * 0x1_0000_0000_0000_0000_0000_0000 + be_word(v, 1)
            * 0x1_0000_0000_0000_0000 + be_word(v, 2) * 0x1_0000_0000 + be_word(v, 3) == v,
        forall|k: int| be_word(v, k) < 0x1_0000_0000,
{
    let hi = v / 0x1_0000_0000_0000_0000;
    let lo = v % 0x1_0000_0000_0000_0000;
    assert(v == hi * 0x1_0000_0000_0000_0000 + lo);
    assert(hi / 0x1_0000_0000 == v / 0x1_0000_0000_0000_0000_0000_0000);
    assert(lo / 0x1_0000_0000 == v / 0x1_0000_0000 % 0x1_0000_0000);
    assert(lo % 0x1_0000_0000 == v % 0x1_0000_0000);
}

/// The four bytes of a 32-bit word, each at its weight, make the word.
proof fn lemma_bytes_make_word(w: nat)
    requires
        w < 0x1_0000_0000,
    ensures
        (be_byte(w, 0) as nat) * 0x100_0000 + (be_byte(w, 1) as nat) * 0x1_0000 + (be_byte(
            w,
            2,
        ) as nat) * 0x100 + (be_byte(w, 3) as nat) == w,
{
}

} // verus!
