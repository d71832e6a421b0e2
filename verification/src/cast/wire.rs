//! Protobuf wire-format primitives used by the cast channel message.
//!
//! Encoding and decoding of single fields is done by the `protobuf` crate's
//! `CodedOutputStream` and `CodedInputStream`; the functions here state what
//! those calls produce in terms of the protobuf wire format.
use vstd::prelude::*;

use protobuf::{CodedInputStream, CodedOutputStream};

verus! {

/// Largest field number that protobuf allows in a tag.
pub const FIELD_NUMBER_MAX: u32 = 0x1fff_ffff;

/// Wire type of varint-encoded scalars (integers, enums, bools).
pub const WIRE_VARINT: u8 = 0;

/// Wire type of 8-byte little-endian scalars.
pub const WIRE_FIXED64: u8 = 1;

/// Wire type of length-delimited values (strings, bytes, messages).
pub const WIRE_LENGTH_DELIMITED: u8 = 2;

/// Wire type that opens a group.
pub const WIRE_START_GROUP: u8 = 3;

/// Wire type that closes a group.
pub const WIRE_END_GROUP: u8 = 4;

/// Wire type of 4-byte little-endian scalars.
pub const WIRE_FIXED32: u8 = 5;

/// Base-128 varint encoding of `v`: seven bits per byte, least significant
/// group first, the high bit set on every byte but the last.
pub open spec fn varint(v: nat) -> Seq<u8>
    decreases v,
{
    if v < 128 {
        seq![v as u8]
    } else {
        seq![(v % 128 + 128) as u8] + varint(v / 128)
    }
}

/// Numeric value of a field key: field number and wire type packed together.
pub open spec fn key_value(field: nat, wire_type: nat) -> nat {
    field * 8 + wire_type
}

/// Encoded key of a field.
pub open spec fn key(field: nat, wire_type: nat) -> Seq<u8> {
    varint(key_value(field, wire_type))
}

/// A varint-typed field: key, then the value as a varint.
pub open spec fn varint_field(field: nat, v: nat) -> Seq<u8> {
    key(field, WIRE_VARINT as nat) + varint(v)
}

/// A length-delimited field: key, length, then the bytes themselves.
pub open spec fn length_delimited_field(field: nat, bytes: Seq<u8>) -> Seq<u8> {
    key(field, WIRE_LENGTH_DELIMITED as nat) + varint(bytes.len()) + bytes
}

/// Decoding of a varint that starts at index `i` of `b`, where `acc` holds the
/// value of the groups already read and `mult` is `128^i`. At most ten bytes
/// are read; the value wraps modulo 2^64 as in the decoder.
pub open spec fn read_varint_from(b: Seq<u8>, i: nat, acc: nat, mult: nat) -> Option<(u64, nat)>
    decreases 10 - i,
{
    if i >= 10 || i >= b.len() {
        None
    } else {
        let byte = b[i as int];
        let acc2 = acc + (byte % 128) as nat * mult;
        if byte < 128 {
            Some(((acc2 % 0x1_0000_0000_0000_0000) as u64, i + 1))
        } else {
            read_varint_from(b, i + 1, acc2, mult * 128)
        }
    }
}

/// A varint at the start of `b`: its value and the number of bytes it takes.
pub open spec fn read_varint(b: Seq<u8>) -> Option<(u64, nat)> {
    read_varint_from(b, 0, 0, 1)
}

/// A field key at the start of `b`: field number, wire type and length. The
/// key is read as a varint truncated to 32 bits; wire types above 5 and field
/// number 0 are refused.
pub open spec fn read_key(b: Seq<u8>) -> Option<(u32, u8, nat)> {
    match read_varint(b) {
        None => None,
        Some((v, n)) => {
            let t = v as nat % 0x1_0000_0000;
            if t % 8 > 5 || t / 8 == 0 {
                None
            } else {
                Some(((t / 8) as u32, (t % 8) as u8, n))
            }
        },
    }
}

/// A varint at the start of `b`, truncated to 32 bits.
pub open spec fn read_varint32(b: Seq<u8>) -> Option<(u32, nat)> {
    match read_varint(b) {
        None => None,
        Some((v, n)) => Some(((v as nat % 0x1_0000_0000) as u32, n)),
    }
}

/// A length-delimited value at the start of `b`: the bytes and the total
/// number of bytes taken by length and contents.
pub open spec fn read_length_delimited(b: Seq<u8>) -> Option<(Seq<u8>, nat)> {
    match read_varint32(b) {
        None => None,
        Some((len, n)) => if n + len <= b.len() {
            Some((b.subrange(n as int, n + len), (n + len) as nat))
        } else {
            None
        },
    }
}

/// Number of bytes taken by the value of a field of wire type `wire_type` at
/// the start of `b`. Groups cannot be skipped this way.
pub open spec fn skip_value(b: Seq<u8>, wire_type: u8) -> Option<nat> {
    if wire_type == WIRE_VARINT {
        match read_varint(b) {
            None => None,
            Some((_, n)) => Some(n),
        }
    } else if wire_type == WIRE_FIXED64 {
        if 8 <= b.len() { Some(8) } else { None }
    } else if wire_type == WIRE_LENGTH_DELIMITED {
        match read_length_delimited(b) {
            None => None,
            Some((_, n)) => Some(n),
        }
    } else if wire_type == WIRE_FIXED32 {
        if 4 <= b.len() { Some(4) } else { None }
    } else {
        None
    }
}

/// Writes a varint-typed field (an enum value) to `buf`.
///
/// Calls `CodedOutputStream::write_enum` on a stream over `buf` and flushes
/// it. The contract claims that the stream appends the field key (field number
/// times eight plus wire type 0) and the value, both as base-128 varints, and
/// that writing to a `Vec` does not fail.
#[verifier::external_body]
pub(crate) fn write_enum_field(buf: &mut Vec<u8>, field: u32, value: i32)
    requires
        1 <= field <= FIELD_NUMBER_MAX,
        0 <= value,
    ensures
        final(buf)@ == old(buf)@ + varint_field(field as nat, value as nat),
{
    let mut os = CodedOutputStream::vec(buf);
    let _ = os.write_enum(field, value);
    let _ = os.flush();
}

/// Writes a length-delimited field holding the UTF-8 bytes of `s` to `buf`.
///
/// Calls `CodedOutputStream::write_string` on a stream over `buf` and flushes
/// it. The contract claims that the stream appends the key (wire type 2), the
/// byte length as a varint and the UTF-8 bytes of `s`, and that writing to a
/// `Vec` does not fail.
#[verifier::external_body]
pub(crate) fn write_string_field(buf: &mut Vec<u8>, field: u32, s: &str)
    requires
        1 <= field <= FIELD_NUMBER_MAX,
        vstd::utf8::encode_utf8(s@).len() <= u32::MAX,
    ensures
        final(buf)@ == old(buf)@ + length_delimited_field(field as nat, vstd::utf8::encode_utf8(s@)),
{
    let mut os = CodedOutputStream::vec(buf);
    let _ = os.write_string(field, s);
    let _ = os.flush();
}

/// Writes a length-delimited field holding `bytes` to `buf`.
///
/// Calls `CodedOutputStream::write_bytes` on a stream over `buf` and flushes
/// it. The contract claims that the stream appends the key (wire type 2), the
/// length as a varint and the bytes, and that writing to a `Vec` does not fail.
#[verifier::external_body]
pub(crate) fn write_bytes_field(buf: &mut Vec<u8>, field: u32, bytes: &[u8])
    requires
        1 <= field <= FIELD_NUMBER_MAX,
        bytes@.len() <= u32::MAX,
    ensures
        final(buf)@ == old(buf)@ + length_delimited_field(field as nat, bytes@),
{
    let mut os = CodedOutputStream::vec(buf);
    let _ = os.write_bytes(field, bytes);
    let _ = os.flush();
}

/// Reads a field key from `bytes` at `pos`.
///
/// Calls `CodedInputStream::read_tag_unpack` on a stream over `bytes[pos..]`.
/// The contract claims that it reads a varint of at most ten bytes, truncates
/// it to 32 bits, and refuses wire types above 5 and field number 0; the
/// result carries the position after the key.
#[verifier::external_body]
pub(crate) fn read_key_at(bytes: &[u8], pos: usize) -> (r: Option<(u32, u8, usize)>)
    requires
        pos <= bytes@.len(),
    ensures
        match read_key(bytes@.skip(pos as int)) {
            None => r is None,
            Some((f, w, n)) => r matches Some((f2, w2, p)) && f2 == f && w2 == w && p == pos + n,
        },
{
    let mut is = CodedInputStream::from_bytes(&bytes[pos..]);
    match is.read_tag_unpack() {
        Ok((field, wire_type)) => Some((field, wire_type as u8, pos + is.pos() as usize)),
        Err(_) => None,
    }
}

/// Reads a varint from `bytes` at `pos`, truncated to 32 bits.
///
/// Calls `CodedInputStream::read_raw_varint32` on a stream over
/// `bytes[pos..]`. The contract claims that it reads a varint of at most ten
/// bytes and keeps its low 32 bits; the result carries the position after it.
#[verifier::external_body]
pub(crate) fn read_varint32_at(bytes: &[u8], pos: usize) -> (r: Option<(u32, usize)>)
    requires
        pos <= bytes@.len(),
    ensures
        match read_varint32(bytes@.skip(pos as int)) {
            None => r is None,
            Some((v, n)) => r matches Some((v2, p)) && v2 == v && p == pos + n,
        },
{
    let mut is = CodedInputStream::from_bytes(&bytes[pos..]);
    match is.read_raw_varint32() {
        Ok(v) => Some((v, pos + is.pos() as usize)),
        Err(_) => None,
    }
}

/// Reads a length-delimited value from `bytes` at `pos`.
///
/// Calls `CodedInputStream::read_bytes` on a stream over `bytes[pos..]`. The
/// contract claims that it reads the length as a 32-bit varint and then that
/// many bytes, failing when fewer remain.
#[verifier::external_body]
pub(crate) fn read_bytes_at(bytes: &[u8], pos: usize) -> (r: Option<(Vec<u8>, usize)>)
    requires
        pos <= bytes@.len(),
    ensures
        match read_length_delimited(bytes@.skip(pos as int)) {
            None => r is None,
            Some((v, n)) => r matches Some((w, end)) && w@ == v && end == pos + n,
        },
{
    let mut is = CodedInputStream::from_bytes(&bytes[pos..]);
    match is.read_bytes() {
        Ok(v) => Some((v, pos + is.pos() as usize)),
        Err(_) => None,
    }
}

/// Reads a length-delimited UTF-8 string from `bytes` at `pos`.
///
/// Calls `CodedInputStream::read_string` on a stream over `bytes[pos..]`. The
/// contract claims that it reads the value as `read_bytes_at` does and then
/// fails unless the bytes are valid UTF-8, in which case the string holds the
/// characters they encode.
#[verifier::external_body]
pub(crate) fn read_string_at(bytes: &[u8], pos: usize) -> (r: Option<(String, usize)>)
    requires
        pos <= bytes@.len(),
    ensures
        match read_length_delimited(bytes@.skip(pos as int)) {
            None => r is None,
            Some((v, n)) => if vstd::utf8::valid_utf8(v) {
                r matches Some((s, end)) && s@ == vstd::utf8::decode_utf8(v) && end == pos + n
            } else {
                r is None
            },
        },
{
    let mut is = CodedInputStream::from_bytes(&bytes[pos..]);
    match is.read_string() {
        Ok(s) => Some((s, pos + is.pos() as usize)),
        Err(_) => None,
    }
}

/// Skips the value of a field of wire type `wire_type` in `bytes` at `pos`.
///
/// Calls `CodedInputStream::skip_field` on a stream over `bytes[pos..]`. The
/// contract claims that varints, fixed 4- and 8-byte values and
/// length-delimited values are skipped, and that group wire types are refused.
#[verifier::external_body]
pub(crate) fn skip_value_at(bytes: &[u8], pos: usize, wire_type: u8) -> (r: Option<usize>)
    requires
        pos <= bytes@.len(),
        wire_type <= 5,
    ensures
        match skip_value(bytes@.skip(pos as int), wire_type) {
            None => r is None,
            Some(n) => r matches Some(p) && p == pos + n,
        },
{
    let wt = match wire_type {
        0 => protobuf::wire_format::WireTypeVarint,
        1 => protobuf::wire_format::WireTypeFixed64,
        2 => protobuf::wire_format::WireTypeLengthDelimited,
        3 => protobuf::wire_format::WireTypeStartGroup,
        4 => protobuf::wire_format::WireTypeEndGroup,
        _ => protobuf::wire_format::WireTypeFixed32,
    };
    let mut is = CodedInputStream::from_bytes(&bytes[pos..]);
    match is.skip_field(wt) {
        Ok(()) => Some(pos + is.pos() as usize),
        Err(_) => None,
    }
}

/// `128^k`.
pub open spec fn pow128(k: nat) -> nat
    decreases k,
{
    if k == 0 {
        1
    } else {
        128 * pow128((k - 1) as nat)
    }
}

/// A value below `128^k` takes between one and `k` bytes as a varint.
pub proof fn lemma_varint_len(v: nat, k: nat)
    requires
        1 <= k,
        v < pow128(k),
    ensures
        1 <= varint(v).len() <= k,
    decreases v,
{
    if v >= 128 {
        reveal_with_fuel(pow128, 2);
        assert(k >= 2);
        let p = pow128((k - 1) as nat);
        assert(v / 128 < p) by (nonlinear_arith)
            requires
                v < 128 * p,
        ;
        lemma_varint_len(v / 128, (k - 1) as nat);
    }
}

/// A 64-bit value takes at most ten bytes as a varint.
pub proof fn lemma_varint_len_u64(v: nat)
    requires
        v < 0x1_0000_0000_0000_0000,
    ensures
        1 <= varint(v).len() <= 10,
{
    reveal_with_fuel(pow128, 11);
    assert(pow128(10) == 0x40_0000_0000_0000_0000);
    lemma_varint_len(v, 10);
}

/// Reading the varint encoding of `v` placed after `prefix` gives back `v`
/// (added to what was read before it) and stops at its last byte.
pub proof fn lemma_read_varint_from_varint(prefix: Seq<u8>, v: nat, rest: Seq<u8>, acc: nat, mult: nat)
    requires
        prefix.len() + varint(v).len() <= 10,
    ensures
        read_varint_from(prefix + varint(v) + rest, prefix.len(), acc, mult) == Some(
            (((acc + v * mult) % 0x1_0000_0000_0000_0000) as u64, prefix.len() + varint(v).len()),
        ),
    decreases v,
{
    let b = prefix + varint(v) + rest;
    let i = prefix.len();
    if v < 128 {
        assert(b[i as int] == v as u8);
    } else {
        let byte = (v % 128 + 128) as u8;
        assert(b[i as int] == byte);
        let acc2 = acc + (byte % 128) as nat * mult;
        assert(byte % 128 == v % 128);
        let prefix2 = prefix.push(byte);
        assert(b =~= prefix2 + varint(v / 128) + rest);
        lemma_read_varint_from_varint(prefix2, v / 128, rest, acc2, mult * 128);
        let q = v / 128;
        let r = v % 128;
        assert(acc2 + q * (mult * 128) == acc + v * mult) by (nonlinear_arith)
            requires
                acc2 == acc + r * mult,
                v == 128 * q + r,
        ;
    }
}

/// Reading the varint encoding of a 64-bit value gives back the value and
/// the length of its encoding.
pub proof fn lemma_read_varint(v: nat, rest: Seq<u8>)
    requires
        v < 0x1_0000_0000_0000_0000,
    ensures
        read_varint(varint(v) + rest) == Some((v as u64, varint(v).len())),
        read_varint32(varint(v) + rest) == Some(((v % 0x1_0000_0000) as u32, varint(v).len())),
{
    lemma_varint_len_u64(v);
    lemma_read_varint_from_varint(Seq::empty(), v, rest, 0, 1);
    assert(Seq::<u8>::empty() + varint(v) + rest =~= varint(v) + rest);
}

/// Reading an encoded field key gives back its field number and wire type.
pub proof fn lemma_read_key(field: nat, wire_type: nat, rest: Seq<u8>)
    requires
        1 <= field <= FIELD_NUMBER_MAX,
        wire_type <= 5,
    ensures
        read_key(key(field, wire_type) + rest) == Some((field as u32, wire_type as u8, key(field, wire_type).len())),
        1 <= key(field, wire_type).len(),
{
    let v = key_value(field, wire_type);
    lemma_read_varint(v, rest);
    lemma_varint_len_u64(v);
    assert(v % 0x1_0000_0000 == v);
    assert(v % 8 == wire_type);
    assert(v / 8 == field);
}

/// Reading a length-prefixed value gives back the bytes and the length of
/// prefix and bytes together.
pub proof fn lemma_read_length_delimited(bytes: Seq<u8>, rest: Seq<u8>)
    requires
        bytes.len() <= u32::MAX,
    ensures
        read_length_delimited(varint(bytes.len()) + bytes + rest) == Some(
            (bytes, varint(bytes.len()).len() + bytes.len()),
        ),
{
    let s = varint(bytes.len()) + bytes + rest;
    lemma_read_varint(bytes.len(), bytes + rest);
    assert(varint(bytes.len()) + (bytes + rest) =~= s);
    let n = varint(bytes.len()).len();
    assert(s.subrange(n as int, (n + bytes.len()) as int) =~= bytes);
}

} // verus!
