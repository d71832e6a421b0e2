use punchtop::cast::message::heartbeat;
use punchtop::cast::proto::{CastMessage, CastMessage_PayloadType, CastMessage_ProtocolVersion, ProtoError};

fn field(key: u8, bytes: &[u8]) -> Vec<u8> {
    let mut out = vec![key, bytes.len() as u8];
    out.extend_from_slice(bytes);
    out
}

#[test]
fn ping_message_has_the_protobuf_wire_encoding() {
    let mut buf = Vec::new();
    heartbeat::ping().write_to(&mut buf).unwrap();
    let mut expected = vec![0x08, 0x00];
    expected.extend(field(0x12, b"sender-0"));
    expected.extend(field(0x1a, b"receiver-0"));
    expected.extend(field(0x22, b"urn:x-cast:com.google.cast.tp.heartbeat"));
    expected.extend([0x28, 0x00]);
    expected.extend(field(0x32, b"{\"type\":\"PING\"}"));
    assert_eq!(buf, expected);
}

#[test]
fn write_then_parse_gives_the_message_back() {
    let mut message = CastMessage::new();
    message.set_protocol_version(CastMessage_ProtocolVersion::CASTV2_1_0);
    message.set_source_id("sender-0".to_string());
    message.set_destination_id("web-5".to_string());
    message.set_namespace("urn:x-cast:com.google.cast.media".to_string());
    message.set_payload_type(CastMessage_PayloadType::BINARY);
    message.set_payload_binary(vec![1, 2, 3, 200]);
    let mut buf = Vec::new();
    message.write_to(&mut buf).unwrap();
    let parsed = CastMessage::parse_from_bytes(&buf).unwrap();
    assert_eq!(parsed.get_source_id(), "sender-0");
    assert_eq!(parsed.get_destination_id(), "web-5");
    assert_eq!(parsed.get_namespace(), "urn:x-cast:com.google.cast.media");
    assert_eq!(parsed.get_payload_type(), Some(CastMessage_PayloadType::BINARY));
    assert_eq!(parsed.get_protocol_version(), Some(CastMessage_ProtocolVersion::CASTV2_1_0));
    assert_eq!(parsed.get_payload_utf8(), "");
    let mut again = Vec::new();
    parsed.write_to(&mut again).unwrap();
    assert_eq!(again, buf);
}

#[test]
fn incomplete_message_is_not_written() {
    let mut message = CastMessage::new();
    message.set_namespace("urn:x-cast:com.google.cast.media".to_string());
    assert!(!message.is_initialized());
    let mut buf = vec![9];
    assert_eq!(message.write_to(&mut buf), Err(ProtoError::NotInitialized));
    assert_eq!(buf, vec![9]);
}

#[test]
fn getters_of_unset_strings_are_empty() {
    let message = CastMessage::new();
    assert_eq!(message.get_namespace(), "");
    assert_eq!(message.get_source_id(), "");
    assert_eq!(message.get_destination_id(), "");
    assert_eq!(message.get_payload_utf8(), "");
    assert_eq!(message.get_payload_type(), None);
}

#[test]
fn parse_skips_unknown_fields_and_keeps_last_value() {
    let mut buf = Vec::new();
    heartbeat::pong().write_to(&mut buf).unwrap();
    // an unknown varint field 15 and a second namespace, which replaces the first
    buf.extend([0x78, 0x96, 0x01]);
    buf.extend(field(0x22, b"urn:x-cast:other"));
    let parsed = CastMessage::parse_from_bytes(&buf).unwrap();
    assert_eq!(parsed.get_namespace(), "urn:x-cast:other");
    assert_eq!(parsed.get_payload_utf8(), "{\"type\":\"PONG\"}");
}

#[test]
fn parse_refuses_malformed_input() {
    // a length-delimited field longer than the input
    assert_eq!(CastMessage::parse_from_bytes(&[0x12, 0x05, b'a']).unwrap_err(), ProtoError::Malformed);
    // field number zero
    assert_eq!(CastMessage::parse_from_bytes(&[0x00, 0x00]).unwrap_err(), ProtoError::Malformed);
    // a payload string that is not UTF-8
    assert_eq!(CastMessage::parse_from_bytes(&[0x32, 0x01, 0xff]).unwrap_err(), ProtoError::Malformed);
    // no field at all: well formed but incomplete
    assert_eq!(CastMessage::parse_from_bytes(&[]).unwrap_err(), ProtoError::NotInitialized);
}
