use bytes::BytesMut;
use punchtop::cast::codec::{frame_buffer, CastMessageCodec};
use punchtop::cast::message::{connection, heartbeat, media, receiver};
use punchtop::cast::provider::{Command, Error, Media};
use punchtop::cast::proto::{CastMessage, CastMessage_PayloadType, CastMessage_ProtocolVersion, ProtoError};
use punchtop::cast::ChannelMessage;

fn frame_of(message: &CastMessage) -> Vec<u8> {
    let mut body = Vec::new();
    message.write_to(&mut body).unwrap();
    let mut out = (body.len() as u32).to_be_bytes().to_vec();
    out.extend_from_slice(&body);
    out
}

fn payload_of(message: ChannelMessage) -> (&'static str, String) {
    match message {
        ChannelMessage::Connection(p) => ("connection", p),
        ChannelMessage::Heartbeat(p) => ("heartbeat", p),
        ChannelMessage::Media(p) => ("media", p),
        ChannelMessage::Receiver(p) => ("receiver", p),
    }
}

#[test]
fn encode_heartbeat_writes_length_prefixed_ping() {
    let mut codec = CastMessageCodec::new();
    let mut dst = BytesMut::new();
    codec.encode(Command::Heartbeat, &mut dst).unwrap();
    let expected = frame_of(&heartbeat::ping());
    assert_eq!(&dst[..], &expected[..]);
    // header is the big-endian length of the rest
    let n = u32::from_be_bytes([dst[0], dst[1], dst[2], dst[3]]) as usize;
    assert_eq!(n, dst.len() - 4);
}

#[test]
fn encoded_frames_decode_to_their_channel() {
    let mut encoder = CastMessageCodec::new();
    let mut buf = BytesMut::new();
    encoder.encode(Command::Heartbeat, &mut buf).unwrap();
    encoder.encode(Command::Connect { destination: "receiver-0".to_string() }, &mut buf).unwrap();
    encoder.encode(Command::ReceiverStatus, &mut buf).unwrap();
    let mut decoder = CastMessageCodec::new();
    let first = decoder.decode(&mut buf).unwrap().unwrap();
    assert_eq!(payload_of(first), ("heartbeat", "{\"type\":\"PING\"}".to_string()));
    let second = decoder.decode(&mut buf).unwrap().unwrap();
    assert_eq!(payload_of(second), ("connection", "{\"type\":\"CONNECT\"}".to_string()));
    // the third command was encoded third, so its request id is 2
    let third = decoder.decode(&mut buf).unwrap().unwrap();
    assert_eq!(payload_of(third), ("receiver", "{\"type\":\"GET_STATUS\",\"requestId\":2}".to_string()));
    assert!(decoder.decode(&mut buf).unwrap().is_none());
    assert_eq!(buf.len(), 0);
}

#[test]
fn request_ids_count_encoded_commands() {
    let mut codec = CastMessageCodec::new();
    let mut buf = BytesMut::new();
    codec.encode(Command::Pong, &mut buf).unwrap();
    codec.encode(Command::Launch { app_id: "CC1AD845".to_string() }, &mut buf).unwrap();
    let expected = frame_of(&heartbeat::pong());
    assert_eq!(&buf[..expected.len()], &expected[..]);
    let launch = frame_of(&receiver::launch(1, "CC1AD845"));
    assert_eq!(&buf[expected.len()..], &launch[..]);
}

#[test]
fn encode_load_play_and_stop_address_the_transport() {
    let mut codec = CastMessageCodec::new();
    let mut buf = BytesMut::new();
    let media = Media {
        title: None,
        artist: None,
        album: None,
        url: "http://10.0.0.2:1025/media/abc".to_string(),
        cover: None,
        content_type: "audio/mpeg".to_string(),
    };
    codec
        .encode(Command::Load { session: "s-1".to_string(), transport: "t-1".to_string(), media }, &mut buf)
        .unwrap();
    codec.encode(Command::Play { media_session: 7, transport: "t-1".to_string() }, &mut buf).unwrap();
    codec.encode(Command::Stop { media_session: "s-1".to_string(), transport: "t-1".to_string() }, &mut buf).unwrap();
    let mut decoder = CastMessageCodec::new();
    let (channel, load) = payload_of(decoder.decode(&mut buf).unwrap().unwrap());
    assert_eq!(channel, "media");
    assert_eq!(
        load,
        "{\"type\":\"LOAD\",\"requestId\":0,\"sessionId\":\"s-1\",\"media\":{\"contentId\":\"http://10.0.0.2:1025/media/abc\",\"streamType\":\"NONE\",\"contentType\":\"audio/mpeg\"},\"currentTime\":0.0,\"customData\":{},\"autoplay\":true}"
    );
    let (channel, play) = payload_of(decoder.decode(&mut buf).unwrap().unwrap());
    assert_eq!(channel, "media");
    assert_eq!(play, "{\"type\":\"PLAY\",\"requestId\":1,\"mediaSessionId\":7,\"customData\":{}}");
    let (channel, stop) = payload_of(decoder.decode(&mut buf).unwrap().unwrap());
    assert_eq!(channel, "receiver");
    assert_eq!(stop, "{\"type\":\"STOP\",\"requestId\":2,\"sessionId\":\"s-1\"}");
}

#[test]
fn decode_waits_for_a_whole_frame_and_keeps_partial_input() {
    let frame = frame_of(&heartbeat::pong());
    let mut codec = CastMessageCodec::new();
    let mut buf = BytesMut::new();
    // fewer bytes than a header: nothing is taken
    buf.extend_from_slice(&frame[..3]);
    assert!(codec.decode(&mut buf).unwrap().is_none());
    assert_eq!(buf.len(), 3);
    // a header and part of the payload: the header is taken and remembered
    buf.extend_from_slice(&frame[3..10]);
    assert!(codec.decode(&mut buf).unwrap().is_none());
    assert_eq!(buf.len(), 6);
    // the rest of the payload completes the frame
    buf.extend_from_slice(&frame[10..]);
    let message = codec.decode(&mut buf).unwrap().unwrap();
    assert_eq!(payload_of(message), ("heartbeat", "{\"type\":\"PONG\"}".to_string()));
    assert_eq!(buf.len(), 0);
}

#[test]
fn decode_refuses_unknown_namespace() {
    let mut message = CastMessage::new();
    message.set_protocol_version(CastMessage_ProtocolVersion::CASTV2_1_0);
    message.set_source_id("sender-0".to_string());
    message.set_destination_id("receiver-0".to_string());
    message.set_namespace("urn:x-cast:com.example.unknown".to_string());
    message.set_payload_type(CastMessage_PayloadType::STRING);
    message.set_payload_utf8("{}".to_string());
    let mut buf = BytesMut::new();
    buf.extend_from_slice(&frame_of(&message));
    let mut codec = CastMessageCodec::new();
    match codec.decode(&mut buf) {
        Err(Error::UnknownChannel(channel)) => assert_eq!(channel, "urn:x-cast:com.example.unknown"),
        other => panic!("unexpected {:?}", other),
    }
    assert_eq!(buf.len(), 0);
}

#[test]
fn decode_refuses_invalid_message() {
    // a frame of two bytes that are not a complete cast message
    let mut buf = BytesMut::new();
    buf.extend_from_slice(&[0, 0, 0, 2, 0x08, 0x00]);
    let mut codec = CastMessageCodec::new();
    match codec.decode(&mut buf) {
        Err(Error::InvalidMessage(ProtoError::NotInitialized)) => {}
        other => panic!("unexpected {:?}", other),
    }
    // a truncated varint is malformed
    let mut buf = BytesMut::new();
    buf.extend_from_slice(&[0, 0, 0, 1, 0x80]);
    match codec.decode(&mut buf) {
        Err(Error::InvalidMessage(ProtoError::Malformed)) => {}
        other => panic!("unexpected {:?}", other),
    }
}

#[test]
fn decode_sorts_messages_by_namespace() {
    let mut buf = BytesMut::new();
    buf.extend_from_slice(&frame_of(&connection::close()));
    buf.extend_from_slice(&frame_of(&media::message("t-1", "{}".to_string())));
    let mut codec = CastMessageCodec::new();
    assert_eq!(payload_of(codec.decode(&mut buf).unwrap().unwrap()), ("connection", "{\"type\":\"CLOSE\"}".to_string()));
    assert_eq!(payload_of(codec.decode(&mut buf).unwrap().unwrap()), ("media", "{}".to_string()));
}

#[test]
fn frame_buffer_starts_empty_and_takes_frames() {
    let mut buf = frame_buffer();
    assert_eq!(buf.len(), 0);
    let mut codec = CastMessageCodec::new();
    codec.encode(Command::Heartbeat, &mut buf).unwrap();
    assert_eq!(&buf[..], &frame_of(&heartbeat::ping())[..]);
}
