//! The cast channel message, `CastMessage` of the cast channel protobuf
//! schema, with its wire encoding and decoding.
#![allow(non_camel_case_types)]

use vstd::prelude::*;
use vstd::utf8::{decode_utf8, encode_utf8, valid_utf8};

use crate::cast::wire::{
    read_bytes_at, read_key_at, read_string_at, read_varint, read_varint32_at, read_varint_from,
    skip_value_at, WIRE_FIXED32, WIRE_FIXED64,
    length_delimited_field, read_key, read_length_delimited, read_varint32, skip_value, varint_field,
    write_bytes_field, write_enum_field, write_string_field, key, varint, lemma_read_key,
    lemma_read_varint, lemma_read_length_delimited, FIELD_NUMBER_MAX, WIRE_END_GROUP,
    WIRE_LENGTH_DELIMITED, WIRE_START_GROUP, WIRE_VARINT,
};

verus! {

broadcast use vstd::utf8::group_utf8_lib;

/// Version of the cast channel protocol (field 1 of `CastMessage`).
#[derive(Clone, Copy, Debug, PartialEq, Eq, Structural)]
pub enum CastMessage_ProtocolVersion {
    CASTV2_1_0,
}

/// Kind of payload carried by a `CastMessage` (field 5).
#[derive(Clone, Copy, Debug, PartialEq, Eq, Structural)]
pub enum CastMessage_PayloadType {
    STRING,
    BINARY,
}

/// Numeric value of a protocol version on the wire.
pub open spec fn protocol_version_value(v: CastMessage_ProtocolVersion) -> nat {
    match v {
        CastMessage_ProtocolVersion::CASTV2_1_0 => 0,
    }
}

/// Numeric value of a payload type on the wire.
pub open spec fn payload_type_value(v: CastMessage_PayloadType) -> nat {
    match v {
        CastMessage_PayloadType::STRING => 0,
        CastMessage_PayloadType::BINARY => 1,
    }
}

/// A cast channel message. Every field is optional on the wire; the first
/// five are required for the message to be complete.
#[derive(Debug)]
pub struct CastMessage {
    protocol_version: Option<CastMessage_ProtocolVersion>,
    source_id: Option<String>,
    destination_id: Option<String>,
    namespace: Option<String>,
    payload_type: Option<CastMessage_PayloadType>,
    payload_utf8: Option<String>,
    payload_binary: Option<Vec<u8>>,
}

/// Mathematical model of a `CastMessage`.
pub struct CastMessageView {
    pub protocol_version: Option<CastMessage_ProtocolVersion>,
    pub source_id: Option<Seq<char>>,
    pub destination_id: Option<Seq<char>>,
    pub namespace: Option<Seq<char>>,
    pub payload_type: Option<CastMessage_PayloadType>,
    pub payload_utf8: Option<Seq<char>>,
    pub payload_binary: Option<Seq<u8>>,
}

pub open spec fn opt_string_view(s: Option<String>) -> Option<Seq<char>> {
    match s {
        Some(s) => Some(s@),
        None => None,
    }
}

impl View for CastMessage {
    type V = CastMessageView;

    closed spec fn view(&self) -> CastMessageView {
        CastMessageView {
            protocol_version: self.protocol_version,
            source_id: opt_string_view(self.source_id),
            destination_id: opt_string_view(self.destination_id),
            namespace: opt_string_view(self.namespace),
            payload_type: self.payload_type,
            payload_utf8: opt_string_view(self.payload_utf8),
            payload_binary: match self.payload_binary {
                Some(b) => Some(b@),
                None => None,
            },
        }
    }
}

/// The message with no field set.
pub open spec fn empty_message() -> CastMessageView {
    CastMessageView {
        protocol_version: None,
        source_id: None,
        destination_id: None,
        namespace: None,
        payload_type: None,
        payload_utf8: None,
        payload_binary: None,
    }
}

/// Whether every required field is set.
pub open spec fn is_initialized(m: CastMessageView) -> bool {
    &&& m.protocol_version is Some
    &&& m.source_id is Some
    &&& m.destination_id is Some
    &&& m.namespace is Some
    &&& m.payload_type is Some
}

/// Whether every string and byte field fits the 32-bit length prefix.
pub open spec fn fits_length_prefix(m: CastMessageView) -> bool {
    &&& (m.source_id matches Some(s) ==> encode_utf8(s).len() <= u32::MAX)
    &&& (m.destination_id matches Some(s) ==> encode_utf8(s).len() <= u32::MAX)
    &&& (m.namespace matches Some(s) ==> encode_utf8(s).len() <= u32::MAX)
    &&& (m.payload_utf8 matches Some(s) ==> encode_utf8(s).len() <= u32::MAX)
    &&& (m.payload_binary matches Some(b) ==> b.len() <= u32::MAX)
}

pub open spec fn opt_string_field(field: nat, s: Option<Seq<char>>) -> Seq<u8> {
    match s {
        Some(s) => length_delimited_field(field, encode_utf8(s)),
        None => Seq::empty(),
    }
}

/// Wire encoding of a message: its set fields in field-number order.
pub open spec fn encode_message(m: CastMessageView) -> Seq<u8> {
    (match m.protocol_version {
        Some(v) => varint_field(1, protocol_version_value(v)),
        None => Seq::empty(),
    }) + opt_string_field(2, m.source_id) + opt_string_field(3, m.destination_id)
        + opt_string_field(4, m.namespace) + (match m.payload_type {
        Some(v) => varint_field(5, payload_type_value(v)),
        None => Seq::empty(),
    }) + opt_string_field(6, m.payload_utf8) + (match m.payload_binary {
        Some(b) => length_delimited_field(7, b),
        None => Seq::empty(),
    })
}

/// Reads one string field value at the start of `s` into `acc`.
pub open spec fn merge_string(s: Seq<u8>, field: u32, acc: CastMessageView) -> Option<(CastMessageView, Seq<u8>)> {
    match read_length_delimited(s) {
        None => None,
        Some((bytes, n)) => if !valid_utf8(bytes) {
            None
        } else {
            let v = Some(decode_utf8(bytes));
            let acc2 = if field == 2 {
                CastMessageView { source_id: v, ..acc }
            } else if field == 3 {
                CastMessageView { destination_id: v, ..acc }
            } else if field == 4 {
                CastMessageView { namespace: v, ..acc }
            } else {
                CastMessageView { payload_utf8: v, ..acc }
            };
            Some((acc2, s.skip(n as int)))
        },
    }
}

/// Skips the fields of a group up to and including its closing key.
pub open spec fn skip_group(s: Seq<u8>) -> Option<Seq<u8>>
    decreases s.len(),
{
    match read_key(s) {
        None => None,
        Some((_, w, n)) => if n == 0 || n > s.len() {
            None
        } else if w == WIRE_END_GROUP {
            Some(s.skip(n as int))
        } else {
            match skip_value(s.skip(n as int), w) {
                None => None,
                Some(m) => if n + m > s.len() {
                    None
                } else {
                    skip_group(s.skip((n + m) as int))
                },
            }
        },
    }
}

/// Reads the value of one field (its key already read) at the start of `s`
/// into `acc`, returning the updated message and the rest of the input.
pub open spec fn merge_field(s: Seq<u8>, field: u32, wire: u8, acc: CastMessageView) -> Option<(CastMessageView, Seq<u8>)> {
    if field == 1 || field == 5 {
        if wire != WIRE_VARINT {
            None
        } else {
            match read_varint32(s) {
                None => None,
                Some((v, n)) => {
                    let acc2 = if field == 1 {
                        if v == 0 {
                            CastMessageView { protocol_version: Some(CastMessage_ProtocolVersion::CASTV2_1_0), ..acc }
                        } else {
                            acc
                        }
                    } else {
                        if v == 0 {
                            CastMessageView { payload_type: Some(CastMessage_PayloadType::STRING), ..acc }
                        } else if v == 1 {
                            CastMessageView { payload_type: Some(CastMessage_PayloadType::BINARY), ..acc }
                        } else {
                            acc
                        }
                    };
                    Some((acc2, s.skip(n as int)))
                },
            }
        }
    } else if field == 2 || field == 3 || field == 4 || field == 6 {
        if wire != WIRE_LENGTH_DELIMITED {
            None
        } else {
            merge_string(s, field, acc)
        }
    } else if field == 7 {
        if wire != WIRE_LENGTH_DELIMITED {
            None
        } else {
            match read_length_delimited(s) {
                None => None,
                Some((bytes, n)) => Some((CastMessageView { payload_binary: Some(bytes), ..acc }, s.skip(n as int))),
            }
        }
    } else if wire == WIRE_START_GROUP {
        match skip_group(s) {
            None => None,
            Some(rest) => Some((acc, rest)),
        }
    } else {
        match skip_value(s, wire) {
            None => None,
            Some(n) => Some((acc, s.skip(n as int))),
        }
    }
}

/// Reads fields from `s` into `acc` until the input ends.
pub open spec fn merge_fields(s: Seq<u8>, acc: CastMessageView) -> Option<CastMessageView>
    decreases s.len(),
{
    if s.len() == 0 {
        Some(acc)
    } else {
        match read_key(s) {
            None => None,
            Some((f, w, n)) => if n == 0 || n > s.len() {
                None
            } else {
                match merge_field(s.skip(n as int), f, w, acc) {
                    None => None,
                    Some((acc2, rest)) => if rest.len() >= s.len() {
                        None
                    } else {
                        merge_fields(rest, acc2)
                    },
                }
            },
        }
    }
}

/// Decoding of a complete message from `b`; `None` when the input is
/// malformed or a required field is missing.
pub open spec fn parse_message(b: Seq<u8>) -> Option<CastMessageView> {
    match merge_fields(b, empty_message()) {
        Some(m) => if is_initialized(m) { Some(m) } else { None },
        None => None,
    }
}

/// Failure to encode or decode a `CastMessage`.
#[derive(Clone, Copy, Debug, PartialEq, Eq, Structural)]
pub enum ProtoError {
    /// A required field is not set.
    NotInitialized,
    /// The input is not a well-formed message.
    Malformed,
}

impl CastMessage {
    pub fn new() -> (m: CastMessage)
        ensures
            m@ == empty_message(),
    {
        CastMessage {
            protocol_version: None,
            source_id: None,
            destination_id: None,
            namespace: None,
            payload_type: None,
            payload_utf8: None,
            payload_binary: None,
        }
    }

    pub fn set_protocol_version(&mut self, v: CastMessage_ProtocolVersion)
        ensures
            final(self)@ == (CastMessageView { protocol_version: Some(v), ..old(self)@ }),
    {
        self.protocol_version = Some(v);
    }

    pub fn set_source_id(&mut self, v: String)
        ensures
            final(self)@ == (CastMessageView { source_id: Some(v@), ..old(self)@ }),
    {
        self.source_id = Some(v);
    }

    pub fn set_destination_id(&mut self, v: String)
        ensures
            final(self)@ == (CastMessageView { destination_id: Some(v@), ..old(self)@ }),
    {
        self.destination_id = Some(v);
    }

    pub fn set_namespace(&mut self, v: String)
        ensures
            final(self)@ == (CastMessageView { namespace: Some(v@), ..old(self)@ }),
    {
        self.namespace = Some(v);
    }

    pub fn set_payload_type(&mut self, v: CastMessage_PayloadType)
        ensures
            final(self)@ == (CastMessageView { payload_type: Some(v), ..old(self)@ }),
    {
        self.payload_type = Some(v);
    }

    pub fn set_payload_utf8(&mut self, v: String)
        ensures
            final(self)@ == (CastMessageView { payload_utf8: Some(v@), ..old(self)@ }),
    {
        self.payload_utf8 = Some(v);
    }

    pub fn set_payload_binary(&mut self, v: Vec<u8>)
        ensures
            final(self)@ == (CastMessageView { payload_binary: Some(v@), ..old(self)@ }),
    {
        self.payload_binary = Some(v);
    }

    /// The namespace, or the empty string when it is not set.
    pub fn get_namespace(&self) -> (r: &str)
        ensures
            r@ == (match self@.namespace {
                Some(s) => s,
                None => Seq::empty(),
            }),
    {
        match &self.namespace {
            Some(s) => s.as_str(),
            None => {
                proof {
                    reveal_strlit("");
                }
                ""
            },
        }
    }

    /// The source id, or the empty string when it is not set.
    pub fn get_source_id(&self) -> (r: &str)
        ensures
            r@ == (match self@.source_id {
                Some(s) => s,
                None => Seq::empty(),
            }),
    {
        match &self.source_id {
            Some(s) => s.as_str(),
            None => {
                proof {
                    reveal_strlit("");
                }
                ""
            },
        }
    }

    /// The destination id, or the empty string when it is not set.
    pub fn get_destination_id(&self) -> (r: &str)
        ensures
            r@ == (match self@.destination_id {
                Some(s) => s,
                None => Seq::empty(),
            }),
    {
        match &self.destination_id {
            Some(s) => s.as_str(),
            None => {
                proof {
                    reveal_strlit("");
                }
                ""
            },
        }
    }

    /// The UTF-8 payload, or the empty string when it is not set.
    pub fn get_payload_utf8(&self) -> (r: &str)
        ensures
            r@ == (match self@.payload_utf8 {
                Some(s) => s,
                None => Seq::empty(),
            }),
    {
        match &self.payload_utf8 {
            Some(s) => s.as_str(),
            None => {
                proof {
                    reveal_strlit("");
                }
                ""
            },
        }
    }

    pub fn get_protocol_version(&self) -> (r: Option<CastMessage_ProtocolVersion>)
        ensures
            r == self@.protocol_version,
    {
        self.protocol_version
    }

    pub fn get_payload_type(&self) -> (r: Option<CastMessage_PayloadType>)
        ensures
            r == self@.payload_type,
    {
        self.payload_type
    }

    /// Whether every required field is set.
    pub fn is_initialized(&self) -> (r: bool)
        ensures
            r == is_initialized(self@),
    {
        self.protocol_version.is_some() && self.source_id.is_some()
            && self.destination_id.is_some() && self.namespace.is_some()
            && self.payload_type.is_some()
    }
}

fn write_opt_string(buf: &mut Vec<u8>, field: u32, s: &Option<String>)
    requires
        1 <= field <= FIELD_NUMBER_MAX,
        s matches Some(s) ==> encode_utf8(s@).len() <= u32::MAX,
    ensures
        final(buf)@ == old(buf)@ + opt_string_field(field as nat, opt_string_view(*s)),
{
    match s {
        Some(s) => {
            write_string_field(buf, field, s.as_str());
        },
        None => {
            assert(buf@ == buf@ + Seq::<u8>::empty());
        },
    }
}

impl CastMessage {
    /// Appends the wire encoding of the message to `buf`. A message with a
    /// required field unset is refused and nothing is written.
    pub fn write_to(&self, buf: &mut Vec<u8>) -> (r: Result<(), ProtoError>)
        requires
            fits_length_prefix(self@),
        ensures
            is_initialized(self@) ==> r is Ok && final(buf)@ == old(buf)@ + encode_message(self@),
            !is_initialized(self@) ==> r == Err::<(), ProtoError>(ProtoError::NotInitialized)
                && final(buf)@ == old(buf)@,
    {
        if !self.is_initialized() {
            return Err(ProtoError::NotInitialized);
        }
        let ghost start = buf@;
        match self.protocol_version {
            Some(v) => {
                let value: i32 = match v {
                    CastMessage_ProtocolVersion::CASTV2_1_0 => 0,
                };
                write_enum_field(buf, 1, value);
            },
            None => {},
        }
        let ghost after1 = buf@;
        write_opt_string(buf, 2, &self.source_id);
        let ghost after2 = buf@;
        write_opt_string(buf, 3, &self.destination_id);
        let ghost after3 = buf@;
        write_opt_string(buf, 4, &self.namespace);
        let ghost after4 = buf@;
        match self.payload_type {
            Some(v) => {
                let value: i32 = match v {
                    CastMessage_PayloadType::STRING => 0,
                    CastMessage_PayloadType::BINARY => 1,
                };
                write_enum_field(buf, 5, value);
            },
            None => {},
        }
        let ghost after5 = buf@;
        write_opt_string(buf, 6, &self.payload_utf8);
        let ghost after6 = buf@;
        match &self.payload_binary {
            Some(b) => {
                write_bytes_field(buf, 7, b.as_slice());
            },
            None => {},
        }
        assert(buf@ =~= start + encode_message(self@));
        Ok(())
    }
}

/// A varint read from index `i` ends within the input and within ten bytes.
pub proof fn lemma_read_varint_from_bounds(b: Seq<u8>, i: nat, acc: nat, mult: nat)
    ensures
        read_varint_from(b, i, acc, mult) matches Some((_, n)) ==> i < n <= b.len() && n <= 10,
    decreases 10 - i,
{
    if i < 10 && i < b.len() && b[i as int] >= 128 {
        lemma_read_varint_from_bounds(b, i + 1, acc + (b[i as int] % 128) as nat * mult, mult * 128);
    }
}

/// Every successful read of a key, varint, length-delimited value or
/// skipped value consumes at least one byte and stays within the input.
pub proof fn lemma_read_bounds(b: Seq<u8>)
    ensures
        read_varint(b) matches Some((_, n)) ==> 1 <= n <= b.len(),
        read_key(b) matches Some((_, _, n)) ==> 1 <= n <= b.len(),
        read_varint32(b) matches Some((_, n)) ==> 1 <= n <= b.len(),
        read_length_delimited(b) matches Some((v, n)) ==> 1 <= n <= b.len() && v.len() <= n,
        forall|w: u8| #[trigger] skip_value(b, w) matches Some(n) ==> 1 <= n <= b.len(),
{
    lemma_read_varint_from_bounds(b, 0, 0, 1);
}

/// Skips a group at `pos` of `bytes`, returning the position after its
/// closing key.
fn skip_group_at(bytes: &[u8], pos: usize) -> (r: Option<usize>)
    requires
        pos <= bytes@.len(),
    ensures
        match skip_group(bytes@.skip(pos as int)) {
            None => r is None,
            Some(rest) => r matches Some(p) && pos <= p <= bytes@.len() && bytes@.skip(p as int) == rest,
        },
    decreases bytes@.len() - pos,
{
    let ghost s = bytes@.skip(pos as int);
    proof {
        lemma_read_bounds(s);
    }
    let (_, wire, p) = match read_key_at(bytes, pos) {
        Some(k) => k,
        None => return None,
    };
    assert(bytes@.skip(p as int) =~= s.skip(p - pos));
    if wire == WIRE_END_GROUP {
        return Some(p);
    }
    proof {
        lemma_read_bounds(bytes@.skip(p as int));
    }
    match skip_value_at(bytes, p, wire) {
        None => None,
        Some(p2) => {
            assert(bytes@.skip(p2 as int) =~= s.skip(p2 - pos));
            skip_group_at(bytes, p2)
        },
    }
}

/// Reads one field value (its key already read) at `pos` of `bytes` into
/// `msg`, returning the position after it.
fn merge_field_at(bytes: &[u8], pos: usize, field: u32, wire: u8, msg: &mut CastMessage) -> (r: Option<usize>)
    requires
        pos <= bytes@.len(),
        wire <= 5,
    ensures
        match merge_field(bytes@.skip(pos as int), field, wire, old(msg)@) {
            None => r is None,
            Some((acc, rest)) => r matches Some(p) && pos <= p <= bytes@.len()
                && bytes@.skip(p as int) == rest && final(msg)@ == acc,
        },
{
    let ghost s = bytes@.skip(pos as int);
    proof {
        lemma_read_bounds(s);
    }
    if field == 1 || field == 5 {
        if wire != WIRE_VARINT {
            return None;
        }
        let (v, p) = match read_varint32_at(bytes, pos) {
            Some(x) => x,
            None => return None,
        };
        assert(bytes@.skip(p as int) =~= s.skip(p - pos));
        if field == 1 {
            if v == 0 {
                msg.set_protocol_version(CastMessage_ProtocolVersion::CASTV2_1_0);
            }
        } else {
            if v == 0 {
                msg.set_payload_type(CastMessage_PayloadType::STRING);
            } else if v == 1 {
                msg.set_payload_type(CastMessage_PayloadType::BINARY);
            }
        }
        Some(p)
    } else if field == 2 || field == 3 || field == 4 || field == 6 {
        if wire != WIRE_LENGTH_DELIMITED {
            return None;
        }
        let (v, p) = match read_string_at(bytes, pos) {
            Some(x) => x,
            None => return None,
        };
        assert(bytes@.skip(p as int) =~= s.skip(p - pos));
        if field == 2 {
            msg.set_source_id(v);
        } else if field == 3 {
            msg.set_destination_id(v);
        } else if field == 4 {
            msg.set_namespace(v);
        } else {
            msg.set_payload_utf8(v);
        }
        Some(p)
    } else if field == 7 {
        if wire != WIRE_LENGTH_DELIMITED {
            return None;
        }
        let (v, p) = match read_bytes_at(bytes, pos) {
            Some(x) => x,
            None => return None,
        };
        assert(bytes@.skip(p as int) =~= s.skip(p - pos));
        msg.set_payload_binary(v);
        Some(p)
    } else if wire == WIRE_START_GROUP {
        skip_group_at(bytes, pos)
    } else {
        match skip_value_at(bytes, pos, wire) {
            None => None,
            Some(p) => {
                assert(bytes@.skip(p as int) =~= s.skip(p - pos));
                Some(p)
            },
        }
    }
}

impl CastMessage {
    /// Decodes a message from its wire encoding. Malformed input is refused
    /// with `Malformed`; a well-formed message that misses a required field
    /// is refused with `NotInitialized`.
    pub fn parse_from_bytes(bytes: &[u8]) -> (r: Result<CastMessage, ProtoError>)
        ensures
            match merge_fields(bytes@, empty_message()) {
                None => r == Err::<CastMessage, ProtoError>(ProtoError::Malformed),
                Some(m) => if is_initialized(m) {
                    r matches Ok(msg) && msg@ == m
                } else {
                    r == Err::<CastMessage, ProtoError>(ProtoError::NotInitialized)
                },
            },
            r matches Ok(msg) ==> parse_message(bytes@) == Some(msg@),
            r is Err ==> parse_message(bytes@) is None,
    {
        let mut msg = CastMessage::new();
        let mut pos: usize = 0;
        assert(bytes@.skip(0) =~= bytes@);
        while pos < bytes.len()
            invariant
                pos <= bytes@.len(),
                merge_fields(bytes@, empty_message()) == merge_fields(bytes@.skip(pos as int), msg@),
            decreases bytes@.len() - pos,
        {
            let ghost s = bytes@.skip(pos as int);
            proof {
                lemma_read_bounds(s);
            }
            let (field, wire, p) = match read_key_at(bytes, pos) {
                Some(k) => k,
                None => return Err(ProtoError::Malformed),
            };
            assert(bytes@.skip(p as int) =~= s.skip(p - pos));
            let ghost before = msg@;
            match merge_field_at(bytes, p, field, wire, &mut msg) {
                None => return Err(ProtoError::Malformed),
                Some(p2) => {
                    assert(merge_fields(s, before) == merge_fields(bytes@.skip(p2 as int), msg@));
                    pos = p2;
                },
            }
        }
        assert(bytes@.skip(pos as int).len() == 0);
        if msg.is_initialized() {
            Ok(msg)
        } else {
            Err(ProtoError::NotInitialized)
        }
    }
}

/// A varint field followed by `tail` is read into `acc` and reading goes on
/// with `tail`.
proof fn lemma_merge_varint_field(field: nat, v: nat, tail: Seq<u8>, acc: CastMessageView)
    requires
        field == 1 || field == 5,
        v <= 1,
        field == 1 ==> v == 0,
    ensures
        merge_fields(varint_field(field, v) + tail, acc) == merge_fields(
            tail,
            if field == 1 {
                CastMessageView { protocol_version: Some(CastMessage_ProtocolVersion::CASTV2_1_0), ..acc }
            } else if v == 0 {
                CastMessageView { payload_type: Some(CastMessage_PayloadType::STRING), ..acc }
            } else {
                CastMessageView { payload_type: Some(CastMessage_PayloadType::BINARY), ..acc }
            },
        ),
{
    let k = key(field, WIRE_VARINT as nat);
    let s = varint_field(field, v) + tail;
    lemma_read_key(field, WIRE_VARINT as nat, varint(v) + tail);
    assert(k + (varint(v) + tail) =~= s);
    assert(s.skip(k.len() as int) =~= varint(v) + tail);
    lemma_read_varint(v, tail);
    assert((varint(v) + tail).skip(varint(v).len() as int) =~= tail);
}

/// A string field followed by `tail` is read into `acc` and reading goes on
/// with `tail`.
proof fn lemma_merge_string_field(field: nat, v: Seq<char>, tail: Seq<u8>, acc: CastMessageView)
    requires
        field == 2 || field == 3 || field == 4 || field == 6,
        encode_utf8(v).len() <= u32::MAX,
    ensures
        merge_fields(length_delimited_field(field, encode_utf8(v)) + tail, acc) == merge_fields(
            tail,
            if field == 2 {
                CastMessageView { source_id: Some(v), ..acc }
            } else if field == 3 {
                CastMessageView { destination_id: Some(v), ..acc }
            } else if field == 4 {
                CastMessageView { namespace: Some(v), ..acc }
            } else {
                CastMessageView { payload_utf8: Some(v), ..acc }
            },
        ),
{
    let bytes = encode_utf8(v);
    let k = key(field, WIRE_LENGTH_DELIMITED as nat);
    let body = varint(bytes.len()) + bytes;
    let s = length_delimited_field(field, bytes) + tail;
    lemma_read_key(field, WIRE_LENGTH_DELIMITED as nat, body + tail);
    assert(k + (body + tail) =~= s);
    assert(s.skip(k.len() as int) =~= body + tail);
    lemma_read_length_delimited(bytes, tail);
    assert(body + tail =~= varint(bytes.len()) + bytes + tail);
    assert((body + tail).skip(body.len() as int) =~= tail);
    vstd::utf8::encode_utf8_valid_utf8(v);
    vstd::utf8::encode_utf8_decode_utf8(v);
}

/// A bytes field followed by `tail` is read into `acc` and reading goes on
/// with `tail`.
proof fn lemma_merge_bytes_field(v: Seq<u8>, tail: Seq<u8>, acc: CastMessageView)
    requires
        v.len() <= u32::MAX,
    ensures
        merge_fields(length_delimited_field(7, v) + tail, acc) == merge_fields(
            tail,
            CastMessageView { payload_binary: Some(v), ..acc },
        ),
{
    let k = key(7, WIRE_LENGTH_DELIMITED as nat);
    let body = varint(v.len()) + v;
    let s = length_delimited_field(7, v) + tail;
    lemma_read_key(7, WIRE_LENGTH_DELIMITED as nat, body + tail);
    assert(k + (body + tail) =~= s);
    assert(s.skip(k.len() as int) =~= body + tail);
    lemma_read_length_delimited(v, tail);
    assert(body + tail =~= varint(v.len()) + v + tail);
    assert((body + tail).skip(body.len() as int) =~= tail);
}

/// Decoding the encoding of a complete message gives back the message.
#[verifier::spinoff_prover]
#[verifier::rlimit(40)]
pub proof fn lemma_parse_encode_roundtrip(m: CastMessageView)
    requires
        is_initialized(m),
        fits_length_prefix(m),
    ensures
        parse_message(encode_message(m)) == Some(m),
{
    let pv = m.protocol_version.unwrap();
    let pt = m.payload_type.unwrap();
    let e1 = varint_field(1, protocol_version_value(pv));
    let e2 = opt_string_field(2, m.source_id);
    let e3 = opt_string_field(3, m.destination_id);
    let e4 = opt_string_field(4, m.namespace);
    let e5 = varint_field(5, payload_type_value(pt));
    let e6 = opt_string_field(6, m.payload_utf8);
    let e7 = match m.payload_binary {
        Some(b) => length_delimited_field(7, b),
        None => Seq::empty(),
    };
    let t7 = e7;
    let t6 = e6 + t7;
    let t5 = e5 + t6;
    let t4 = e4 + t5;
    let t3 = e3 + t4;
    let t2 = e2 + t3;
    let t1 = e1 + t2;
    assert(encode_message(m) =~= t1);
    let a0 = empty_message();
    let a1 = CastMessageView { protocol_version: m.protocol_version, ..a0 };
    let a2 = CastMessageView { source_id: m.source_id, ..a1 };
    let a3 = CastMessageView { destination_id: m.destination_id, ..a2 };
    let a4 = CastMessageView { namespace: m.namespace, ..a3 };
    let a5 = CastMessageView { payload_type: m.payload_type, ..a4 };
    let a6 = CastMessageView { payload_utf8: m.payload_utf8, ..a5 };
    let a7 = CastMessageView { payload_binary: m.payload_binary, ..a6 };
    lemma_merge_varint_field(1, protocol_version_value(pv), t2, a0);
    lemma_merge_string_field(2, m.source_id.unwrap(), t3, a1);
    lemma_merge_string_field(3, m.destination_id.unwrap(), t4, a2);
    lemma_merge_string_field(4, m.namespace.unwrap(), t5, a3);
    lemma_merge_varint_field(5, payload_type_value(pt), t6, a4);
    match m.payload_utf8 {
        Some(v) => lemma_merge_string_field(6, v, t7, a5),
        None => assert(t6 =~= t7),
    }
    match m.payload_binary {
        Some(b) => {
            lemma_merge_bytes_field(b, Seq::empty(), a6);
            assert(e7 + Seq::<u8>::empty() =~= e7);
        },
        None => {},
    }
    assert(merge_fields(Seq::<u8>::empty(), a7) == Some(a7));
    assert(a7 == m);
}

} // verus!
