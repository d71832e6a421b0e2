//! Framing of cast messages on the wire: each message is a protobuf
//! preceded by its length as a 4-byte big-endian integer.
use vstd::prelude::*;

use byteorder::{BigEndian, ByteOrder};
use bytes::BytesMut;

use crate::cast::message::{connection, heartbeat, media, message_view, receiver, DEFAULT_DESTINATION_ID, DEFAULT_SENDER_ID};
use crate::cast::payload;
use crate::cast::payload::media::StreamType;
use crate::cast::proto::{
    encode_message, fits_length_prefix, is_initialized, lemma_parse_encode_roundtrip, parse_message, CastMessage,
    CastMessageView,
};
use crate::cast::provider::{Command, Error, MediaConnection, ReceiverConnection};
use crate::cast::ChannelMessage;
use crate::util::str_eq;

verus! {

/// Length of the frame header.
pub const CAST_MESSAGE_HEADER_LENGTH: usize = 4;

#[verifier::external_type_specification]
#[verifier::external_body]
pub struct ExBytesMut(BytesMut);

/// The bytes held by a `BytesMut`.
pub uninterp spec fn bytes_mut_contents(b: BytesMut) -> Seq<u8>;

/// An empty buffer.
///
/// Calls `BytesMut::new`, which makes a buffer of capacity zero holding no
/// bytes.
#[verifier::external_body]
fn bytes_new() -> (r: BytesMut)
    ensures
        bytes_mut_contents(r) == Seq::<u8>::empty(),
{
    BytesMut::new()
}

/// An empty buffer for frames to be encoded into or decoded from.
pub fn frame_buffer() -> (b: BytesMut)
    ensures
        bytes_mut_contents(b) == Seq::<u8>::empty(),
{
    bytes_new()
}

/// Number of bytes held by `b`.
///
/// Calls `BytesMut::len`, which returns the number of bytes in the buffer.
#[verifier::external_body]
fn bytes_len(b: &BytesMut) -> (r: usize)
    ensures
        r == bytes_mut_contents(*b).len(),
{
    b.len()
}

/// Splits off the first `at` bytes of `b`.
///
/// Calls `BytesMut::split_to`, which returns the bytes `[0, at)` and leaves
/// `[at, len)` in `b`; it panics when `at` exceeds the length.
#[verifier::external_body]
fn bytes_split_to(b: &mut BytesMut, at: usize) -> (r: BytesMut)
    requires
        at <= bytes_mut_contents(*old(b)).len(),
    ensures
        bytes_mut_contents(r) == bytes_mut_contents(*old(b)).take(at as int),
        bytes_mut_contents(*final(b)) == bytes_mut_contents(*old(b)).skip(at as int),
{
    b.split_to(at)
}

/// Appends `data` to `b`.
///
/// Calls `BytesMut::extend_from_slice`, which appends the bytes and grows the
/// buffer as needed; growth panics only when the capacity overflows `usize`.
#[verifier::external_body]
fn bytes_extend(b: &mut BytesMut, data: &[u8])
    requires
        bytes_mut_contents(*old(b)).len() + data@.len() <= usize::MAX,
    ensures
        bytes_mut_contents(*final(b)) == bytes_mut_contents(*old(b)) + data@,
{
    b.extend_from_slice(data)
}

/// The bytes of `b` as a slice.
///
/// Dereferences the `BytesMut` to `[u8]`, which views its contents.
#[verifier::external_body]
fn bytes_as_slice(b: &BytesMut) -> (r: &[u8])
    ensures
        r@ == bytes_mut_contents(*b),
{
    &b[..]
}

/// Big-endian value of the first four bytes of `b`.
pub open spec fn be_u32(b: Seq<u8>) -> nat {
    b[0] as nat * 0x100_0000 + b[1] as nat * 0x1_0000 + b[2] as nat * 0x100 + b[3] as nat
}

/// The four big-endian bytes of `n`, taken modulo 2^32.
pub open spec fn u32_be_bytes(n: nat) -> Seq<u8> {
    seq![
        (n / 0x100_0000 % 0x100) as u8,
        (n / 0x1_0000 % 0x100) as u8,
        (n / 0x100 % 0x100) as u8,
        (n % 0x100) as u8,
    ]
}

/// Reads a big-endian `u32` from the first four bytes of `buf`.
///
/// Calls `byteorder::BigEndian::read_u32`, which panics when `buf` is
/// shorter than four bytes.
#[verifier::external_body]
fn read_u32_be(buf: &[u8]) -> (r: u32)
    requires
        buf@.len() >= 4,
    ensures
        r as nat == be_u32(buf@),
{
    BigEndian::read_u32(buf)
}

/// The big-endian bytes of `n`.
///
/// Calls `byteorder::BigEndian::write_u32` on a four-byte buffer.
#[verifier::external_body]
fn write_u32_be(n: u32) -> (r: Vec<u8>)
    ensures
        r@ == u32_be_bytes(n as nat),
{
    let mut header = [0u8; 4];
    BigEndian::write_u32(&mut header, n);
    header.to_vec()
}

/// A frame: the 4-byte big-endian length (modulo 2^32) then the payload.
pub open spec fn frame(payload: Seq<u8>) -> Seq<u8> {
    u32_be_bytes(payload.len() % 0x1_0000_0000) + payload
}

/// Whether `cm` is the channel message for a message on namespace `ns` with
/// UTF-8 payload `body`.
pub open spec fn channel_message_is(cm: ChannelMessage, ns: Seq<char>, body: Seq<char>) -> bool {
    if ns == connection::NAMESPACE@ {
        cm matches ChannelMessage::Connection(p) && p@ == body
    } else if ns == heartbeat::NAMESPACE@ {
        cm matches ChannelMessage::Heartbeat(p) && p@ == body
    } else if ns == media::NAMESPACE@ {
        cm matches ChannelMessage::Media(p) && p@ == body
    } else {
        cm matches ChannelMessage::Receiver(p) && p@ == body
    }
}

/// Whether `ns` is the namespace of one of the four channels.
pub open spec fn is_known_namespace(ns: Seq<char>) -> bool {
    ns == connection::NAMESPACE@ || ns == heartbeat::NAMESPACE@ || ns == media::NAMESPACE@
        || ns == receiver::NAMESPACE@
}

/// What decoding the payload of a frame gives: the message sorted by its
/// channel, an error naming an unknown namespace, or an error for a payload
/// that is not a complete cast message.
pub open spec fn decoded(payload: Seq<u8>, r: Result<Option<ChannelMessage>, Error>) -> bool {
    match parse_message(payload) {
        None => r matches Err(Error::InvalidMessage(_)),
        Some(m) => {
            let ns = m.namespace.unwrap();
            let body = match m.payload_utf8 {
                Some(s) => s,
                None => Seq::empty(),
            };
            if is_known_namespace(ns) {
                r matches Ok(Some(cm)) && channel_message_is(cm, ns, body)
            } else {
                r matches Err(Error::UnknownChannel(c)) && c@ == ns
            }
        },
    }
}

/// Sorts a decoded cast message by the channel it arrived on.
fn channel_message(payload: &[u8]) -> (r: Result<Option<ChannelMessage>, Error>)
    ensures
        decoded(payload@, r),
{
    let message = match CastMessage::parse_from_bytes(payload) {
        Ok(m) => m,
        Err(e) => return Err(Error::InvalidMessage(e)),
    };
    let ns = message.get_namespace();
    let body = message.get_payload_utf8().to_string();
    if str_eq(ns, connection::NAMESPACE) {
        Ok(Some(ChannelMessage::Connection(body)))
    } else if str_eq(ns, heartbeat::NAMESPACE) {
        Ok(Some(ChannelMessage::Heartbeat(body)))
    } else if str_eq(ns, media::NAMESPACE) {
        Ok(Some(ChannelMessage::Media(body)))
    } else if str_eq(ns, receiver::NAMESPACE) {
        Ok(Some(ChannelMessage::Receiver(body)))
    } else {
        Err(Error::UnknownChannel(ns.to_string()))
    }
}

/// Phase of decoding: waiting for a header, or for a payload of a known
/// length whose header was already taken from the input.
enum DecodeState {
    Header,
    Payload(usize),
}

/// Encoder and decoder of framed cast messages. The decoder keeps track of
/// the decoding phase so that no input bytes are dropped between calls.
pub struct CastMessageCodec {
    state: DecodeState,
    encode_counter: i32,
}

/// Model of the codec: the length of the payload being waited for, if its
/// header was already read, and the number of messages encoded so far
/// (wrapping).
pub struct CodecView {
    pub pending_payload: Option<nat>,
    pub encode_counter: i32,
}

impl View for CastMessageCodec {
    type V = CodecView;

    closed spec fn view(&self) -> CodecView {
        CodecView {
            pending_payload: match self.state {
                DecodeState::Header => None,
                DecodeState::Payload(n) => Some(n as nat),
            },
            encode_counter: self.encode_counter,
        }
    }
}

/// Effect of taking the payload of length `n` from `input`.
pub open spec fn payload_step(
    n: nat,
    input: Seq<u8>,
    after: CodecView,
    rest: Seq<u8>,
    r: Result<Option<ChannelMessage>, Error>,
) -> bool {
    if input.len() < n {
        &&& r matches Ok(None)
        &&& after.pending_payload == Some(n)
        &&& rest == input
    } else {
        &&& after.pending_payload is None
        &&& rest == input.skip(n as int)
        &&& decoded(input.take(n as int), r)
    }
}

/// Effect of one call of `decode` on a codec in state `before` with input
/// `input`, leaving the codec in state `after` and `rest` in the input.
pub open spec fn decode_step(
    before: CodecView,
    input: Seq<u8>,
    after: CodecView,
    rest: Seq<u8>,
    r: Result<Option<ChannelMessage>, Error>,
) -> bool {
    &&& after.encode_counter == before.encode_counter
    &&& match before.pending_payload {
        None => if input.len() < 4 {
            &&& r matches Ok(None)
            &&& after.pending_payload is None
            &&& rest == input
        } else {
            payload_step(be_u32(input), input.skip(4), after, rest, r)
        },
        Some(n) => payload_step(n, input, after, rest, r),
    }
}

impl CastMessageCodec {
    pub fn new() -> (c: Self)
        ensures
            c@.pending_payload is None,
            c@.encode_counter == 0,
    {
        CastMessageCodec { state: DecodeState::Header, encode_counter: 0 }
    }

    /// Takes the header of the next frame from `src` when it holds one.
    fn decode_header(&mut self, src: &mut BytesMut) -> (r: Option<usize>)
        ensures
            *final(self) == *old(self),
            bytes_mut_contents(*old(src)).len() < 4 ==> r is None && bytes_mut_contents(*final(src))
                == bytes_mut_contents(*old(src)),
            bytes_mut_contents(*old(src)).len() >= 4 ==> (r matches Some(n) && n == be_u32(
                bytes_mut_contents(*old(src)),
            ) && bytes_mut_contents(*final(src)) == bytes_mut_contents(*old(src)).skip(4)),
    {
        if bytes_len(src) < CAST_MESSAGE_HEADER_LENGTH {
            return None;
        }
        let header = bytes_split_to(src, CAST_MESSAGE_HEADER_LENGTH);
        let length = read_u32_be(bytes_as_slice(&header)) as usize;
        Some(length)
    }

    /// Takes a payload of `n` bytes from `src` when it holds one.
    fn decode_payload(&self, n: usize, src: &mut BytesMut) -> (r: Option<BytesMut>)
        ensures
            bytes_mut_contents(*old(src)).len() < n ==> r is None && bytes_mut_contents(*final(src))
                == bytes_mut_contents(*old(src)),
            bytes_mut_contents(*old(src)).len() >= n ==> (r matches Some(p) && bytes_mut_contents(p)
                == bytes_mut_contents(*old(src)).take(n as int) && bytes_mut_contents(*final(src))
                == bytes_mut_contents(*old(src)).skip(n as int)),
    {
        if bytes_len(src) < n {
            return None;
        }
        Some(bytes_split_to(src, n))
    }

    /// Decodes the next frame from `src`. Returns `Ok(None)` when `src` does
    /// not hold a whole frame yet; the bytes read so far are kept (a header
    /// already taken is remembered in the codec), so the next call goes on
    /// where this one stopped.
    pub fn decode(&mut self, src: &mut BytesMut) -> (r: Result<Option<ChannelMessage>, Error>)
        ensures
            decode_step(old(self)@, bytes_mut_contents(*old(src)), final(self)@, bytes_mut_contents(*final(src)), r),
    {
        let n = match self.state {
            DecodeState::Header => match self.decode_header(src) {
                Some(n) => {
                    self.state = DecodeState::Payload(n);
                    n
                },
                None => return Ok(None),
            },
            DecodeState::Payload(n) => n,
        };
        match self.decode_payload(n, src) {
            Some(payload) => {
                self.state = DecodeState::Header;
                channel_message(bytes_as_slice(&payload))
            },
            None => Ok(None),
        }
    }
}

/// Whether the encoder handles the command; media status, pause and mute
/// have no message.
pub open spec fn is_supported(item: Command) -> bool {
    match item {
        Command::MediaStatus { .. } | Command::Pause | Command::VolumeMute(_) => false,
        _ => true,
    }
}

/// The message that encodes `item` with request id `id`.
pub open spec fn command_message(item: Command, id: i32) -> CastMessageView {
    match item {
        Command::Close { .. } => message_view(
            connection::NAMESPACE@,
            DEFAULT_DESTINATION_ID@,
            payload::connection::request_json(payload::connection::Request::Close),
        ),
        Command::Connect { .. } => message_view(
            connection::NAMESPACE@,
            DEFAULT_DESTINATION_ID@,
            payload::connection::request_json(payload::connection::Request::Connect),
        ),
        Command::Heartbeat => message_view(
            heartbeat::NAMESPACE@,
            DEFAULT_DESTINATION_ID@,
            payload::heartbeat::request_json(payload::heartbeat::Request::Ping),
        ),
        Command::Pong => message_view(
            heartbeat::NAMESPACE@,
            DEFAULT_DESTINATION_ID@,
            payload::heartbeat::request_json(payload::heartbeat::Request::Pong),
        ),
        Command::Launch { app_id } => message_view(
            receiver::NAMESPACE@,
            DEFAULT_DESTINATION_ID@,
            payload::receiver::launch_json(id as int, app_id@),
        ),
        Command::Load { session, transport, media } => message_view(
            media::NAMESPACE@,
            transport@,
            payload::media::load_json(
                id as int,
                session@,
                payload::media::media_json(media.url@, StreamType::Unspecified, media.content_type@),
            ),
        ),
        Command::Play { media_session, transport } => message_view(
            media::NAMESPACE@,
            transport@,
            payload::media::play_json(id as int, media_session as int),
        ),
        Command::ReceiverStatus => message_view(
            receiver::NAMESPACE@,
            DEFAULT_DESTINATION_ID@,
            payload::receiver::get_status_json(id as int),
        ),
        Command::Stop { media_session, .. } => message_view(
            receiver::NAMESPACE@,
            DEFAULT_DESTINATION_ID@,
            payload::receiver::stop_json(id as int, media_session@),
        ),
        _ => message_view(Seq::empty(), Seq::empty(), Seq::empty()),
    }
}

/// The cast message for a supported command.
fn command_to_message(item: Command, id: i32) -> (m: CastMessage)
    requires
        is_supported(item),
    ensures
        m@ == command_message(item, id),
{
    match item {
        Command::Close { .. } => connection::close(),
        Command::Connect { .. } => connection::connect(),
        Command::Heartbeat => heartbeat::ping(),
        Command::Pong => heartbeat::pong(),
        Command::Launch { app_id } => receiver::launch(id as i64, app_id.as_str()),
        Command::Load { session, transport, media } => {
            let connect = ReceiverConnection { session, transport };
            media::load(id, &connect, media)
        },
        Command::Play { media_session, transport } => {
            let connect = MediaConnection {
                receiver: ReceiverConnection { session: String::new(), transport },
                session: media_session,
            };
            media::play(id, &connect)
        },
        Command::ReceiverStatus => receiver::status(id as i64),
        Command::Stop { media_session, .. } => receiver::stop(id as i64, media_session.as_str()),
        _ => {
            assert(false);
            connection::close()
        },
    }
}

/// The low 32 bits of `n`.
fn length_header_value(n: usize) -> (r: u32)
    ensures
        r as nat == n as nat % 0x1_0000_0000,
{
    assert((n as u32) as nat == n as nat % 0x1_0000_0000) by (bit_vector);
    n as u32
}

impl CastMessageCodec {
    /// Appends the frame of the message for `item` to `dst`. Each call uses
    /// the number of earlier calls (wrapping at 32 bits) as the request id.
    pub fn encode(&mut self, item: Command, dst: &mut BytesMut) -> (r: Result<(), Error>)
        requires
            is_supported(item),
            fits_length_prefix(command_message(item, old(self)@.encode_counter)),
            bytes_mut_contents(*old(dst)).len() + 4 + encode_message(
                command_message(item, old(self)@.encode_counter),
            ).len() <= usize::MAX,
        ensures
            r is Ok,
            final(self)@.encode_counter == old(self)@.encode_counter.wrapping_add(1),
            final(self)@.pending_payload == old(self)@.pending_payload,
            bytes_mut_contents(*final(dst)) == bytes_mut_contents(*old(dst)) + frame(
                encode_message(command_message(item, old(self)@.encode_counter)),
            ),
    {
        let counter = self.encode_counter;
        self.encode_counter = counter.wrapping_add(1);
        let message = command_to_message(item, counter);
        let mut buf: Vec<u8> = Vec::new();
        let _ = crate::cast::message::encode(&message, &mut buf);
        assert(buf@ =~= encode_message(message@));
        let header = write_u32_be(length_header_value(buf.len()));
        bytes_extend(dst, header.as_slice());
        bytes_extend(dst, buf.as_slice());
        assert(bytes_mut_contents(*dst) =~= bytes_mut_contents(*old(dst)) + frame(encode_message(message@)));
        Ok(())
    }
}

/// The header bytes of a length give back the length.
pub proof fn lemma_be_u32_of_bytes(n: nat)
    requires
        n < 0x1_0000_0000,
    ensures
        be_u32(u32_be_bytes(n)) == n,
{
    let b = u32_be_bytes(n);
    let b0 = n / 0x100_0000 % 0x100;
    let b1 = n / 0x1_0000 % 0x100;
    let b2 = n / 0x100 % 0x100;
    let b3 = n % 0x100;
    assert(b0 * 0x100_0000 + b1 * 0x1_0000 + b2 * 0x100 + b3 == n) by (nonlinear_arith)
        requires
            n < 0x1_0000_0000,
            b0 == n / 0x100_0000 % 0x100,
            b1 == n / 0x1_0000 % 0x100,
            b2 == n / 0x100 % 0x100,
            b3 == n % 0x100,
    ;
}

/// The length read from four header bytes gives back those bytes.
pub proof fn lemma_bytes_of_be_u32(b: Seq<u8>)
    requires
        b.len() >= 4,
    ensures
        u32_be_bytes(be_u32(b)) =~= b.take(4),
        be_u32(b) < 0x1_0000_0000,
{
    let b0 = b[0] as nat;
    let b1 = b[1] as nat;
    let b2 = b[2] as nat;
    let b3 = b[3] as nat;
    let n = be_u32(b);
    assert(n / 0x100_0000 % 0x100 == b0 && n / 0x1_0000 % 0x100 == b1 && n / 0x100 % 0x100 == b2 && n
        % 0x100 == b3 && n < 0x1_0000_0000) by (nonlinear_arith)
        requires
            b0 < 256,
            b1 < 256,
            b2 < 256,
            b3 < 256,
            n == b0 * 0x100_0000 + b1 * 0x1_0000 + b2 * 0x100 + b3,
    ;
}

/// The header bytes already taken from the input and kept in the codec.
pub open spec fn held_bytes(c: CodecView) -> Seq<u8> {
    match c.pending_payload {
        None => Seq::empty(),
        Some(n) => u32_be_bytes(n),
    }
}

/// Decoding drops no bytes: when a call finds no complete frame, the bytes
/// held by the codec and left in the input are those it started with.
pub proof fn lemma_decode_keeps_bytes(
    before: CodecView,
    input: Seq<u8>,
    after: CodecView,
    rest: Seq<u8>,
    r: Result<Option<ChannelMessage>, Error>,
)
    requires
        before.pending_payload matches Some(n) ==> n < 0x1_0000_0000,
        decode_step(before, input, after, rest, r),
        r matches Ok(None),
    ensures
        held_bytes(after) + rest =~= held_bytes(before) + input,
{
    if before.pending_payload is None && input.len() >= 4 {
        lemma_bytes_of_be_u32(input);
        assert(input =~= input.take(4) + input.skip(4));
    }
}

/// Input may arrive in pieces: a call that finds no complete frame, followed
/// by a call on what it left plus more bytes, ends as one call on all the
/// bytes would.
pub proof fn lemma_decode_resumes(
    before: CodecView,
    first: Seq<u8>,
    more: Seq<u8>,
    mid: CodecView,
    left: Seq<u8>,
    r1: Result<Option<ChannelMessage>, Error>,
    after: CodecView,
    rest: Seq<u8>,
    r: Result<Option<ChannelMessage>, Error>,
)
    requires
        decode_step(before, first, mid, left, r1),
        r1 matches Ok(None),
        decode_step(mid, left + more, after, rest, r),
    ensures
        decode_step(before, first + more, after, rest, r),
{
    if before.pending_payload is None && first.len() >= 4 {
        assert((first + more).skip(4) =~= first.skip(4) + more);
        assert(be_u32(first + more) == be_u32(first));
    }
}

/// Decoding a frame that holds the encoding of a complete message, followed
/// by any bytes, yields that message sorted by its channel (or the unknown
/// namespace as an error) and leaves exactly the following bytes.
#[verifier::spinoff_prover]
#[verifier::rlimit(40)]
pub proof fn lemma_decode_frame(
    before: CodecView,
    m: CastMessageView,
    more: Seq<u8>,
    after: CodecView,
    rest: Seq<u8>,
    r: Result<Option<ChannelMessage>, Error>,
)
    requires
        before.pending_payload is None,
        crate::cast::proto::is_initialized(m),
        fits_length_prefix(m),
        encode_message(m).len() < 0x1_0000_0000,
        decode_step(before, frame(encode_message(m)) + more, after, rest, r),
    ensures
        after.pending_payload is None,
        rest == more,
        is_known_namespace(m.namespace.unwrap()) ==> (r matches Ok(Some(cm)) && channel_message_is(
            cm,
            m.namespace.unwrap(),
            match m.payload_utf8 {
                Some(s) => s,
                None => Seq::empty(),
            },
        )),
        !is_known_namespace(m.namespace.unwrap()) ==> (r matches Err(Error::UnknownChannel(c)) && c@
            == m.namespace.unwrap()),
{
    let p = encode_message(m);
    let h = u32_be_bytes(p.len());
    let input = frame(p) + more;
    assert(p.len() % 0x1_0000_0000 == p.len());
    assert(input =~= h + (p + more));
    lemma_be_u32_of_bytes(p.len());
    assert(input[0] == h[0] && input[1] == h[1] && input[2] == h[2] && input[3] == h[3]);
    assert(be_u32(input) == be_u32(h));
    assert(input.skip(4) =~= p + more);
    assert((p + more).take(p.len() as int) =~= p);
    assert((p + more).skip(p.len() as int) =~= more);
    assert(payload_step(p.len(), p + more, after, rest, r));
    assert(decoded(p, r));
    crate::cast::proto::lemma_parse_encode_roundtrip(m);
}

/// The request id of the command encoded `k`-th (counting from zero): `k`
/// wrapped to a 32-bit signed integer.
pub open spec fn request_id(k: nat) -> int {
    let r = k % 0x1_0000_0000;
    if r <= i32::MAX {
        r as int
    } else {
        r - 0x1_0000_0000
    }
}

/// One more command moves the request id on by one, wrapping.
proof fn lemma_request_id_step(c: i32, k: nat)
    requires
        c as int == request_id(k),
    ensures
        c.wrapping_add(1) as int == request_id(k + 1),
{
    let m: int = 0x1_0000_0000;
    let q = k as int / m;
    let r = k as int % m;
    vstd::arithmetic::div_mod::lemma_fundamental_div_mod(k as int, m);
    vstd::arithmetic::div_mod::lemma_mod_bound(k as int, m);
    if r + 1 < m {
        vstd::arithmetic::div_mod::lemma_fundamental_div_mod_converse(k as int + 1, m, q, r + 1);
    } else {
        vstd::arithmetic::div_mod::lemma_fundamental_div_mod_converse(k as int + 1, m, q + 1, 0);
    }
}

/// Request ids count the commands encoded, from zero: when a codec starts
/// as `new` leaves it and each state of `runs` follows the one before by a
/// call of `encode` (which builds its message with the request id of the
/// state it starts from), the `k`-th call uses request id `k`, wrapping at
/// 32 bits. Decoding leaves the request id as it is.
pub proof fn lemma_request_ids_count_calls(runs: Seq<CodecView>)
    requires
        runs.len() > 0,
        runs[0].encode_counter == 0,
        forall|i: int| 0 <= i < runs.len() - 1 ==> #[trigger] runs[i + 1].encode_counter == runs[i].encode_counter.wrapping_add(1),
    ensures
        forall|i: int| 0 <= i < runs.len() ==> #[trigger] runs[i].encode_counter as int == request_id(i as nat),
    decreases runs.len(),
{
    if runs.len() == 1 {
        assert(0int % 0x1_0000_0000 == 0);
    } else {
        let n = runs.len() - 1;
        let init = runs.drop_last();
        assert forall|i: int| 0 <= i < init.len() - 1 implies #[trigger] init[i + 1].encode_counter
            == init[i].encode_counter.wrapping_add(1) by {
            assert(runs[i + 1].encode_counter == runs[i].encode_counter.wrapping_add(1));
        }
        lemma_request_ids_count_calls(init);
        assert(init[n - 1].encode_counter as int == request_id((n - 1) as nat));
        let j = n - 1;
        assert(runs[j + 1].encode_counter == runs[j].encode_counter.wrapping_add(1));
        lemma_request_id_step(runs[n - 1].encode_counter, (n - 1) as nat);
        assert forall|i: int| 0 <= i < runs.len() implies #[trigger] runs[i].encode_counter as int == request_id(
            i as nat,
        ) by {
            if i < n {
                assert(init[i] == runs[i]);
            }
        }
    }
}

/// Commands are addressed as the device expects: loading and playing media
/// go to the transport of the app session that the command carries, on the
/// media channel; every other command goes to the platform receiver. All
/// come from the default sender, and the bytes that `encode` frames parse
/// back to that message, so the device reads that address.
pub proof fn lemma_commands_addressed(item: Command, id: i32)
    requires
        is_supported(item),
        fits_length_prefix(command_message(item, id)),
    ensures
        parse_message(encode_message(command_message(item, id))) == Some(command_message(item, id)),
        command_message(item, id).source_id == Some(DEFAULT_SENDER_ID@),
        match item {
            Command::Load { transport, .. } => command_message(item, id).destination_id == Some(transport@)
                && command_message(item, id).namespace == Some(media::NAMESPACE@),
            Command::Play { transport, .. } => command_message(item, id).destination_id == Some(transport@)
                && command_message(item, id).namespace == Some(media::NAMESPACE@),
            _ => command_message(item, id).destination_id == Some(DEFAULT_DESTINATION_ID@),
        },
{
    assert(is_initialized(command_message(item, id)));
    lemma_parse_encode_roundtrip(command_message(item, id));
}

} // verus!
