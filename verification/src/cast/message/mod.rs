//! Construction of the cast messages sent to a device. Every message carries
//! a UTF-8 JSON payload, comes from the default sender and uses version
//! 2.1.0 of the protocol.
pub mod connection;
pub mod heartbeat;
pub mod media;
pub mod receiver;

use vstd::prelude::*;

use crate::cast::proto::{
    CastMessage, CastMessageView, CastMessage_PayloadType, CastMessage_ProtocolVersion, ProtoError,
    encode_message, fits_length_prefix, is_initialized,
};

verus! {

/// Sender id used as the source of every message.
pub const DEFAULT_SENDER_ID: &'static str = "sender-0";

/// Id of the platform receiver.
pub const DEFAULT_DESTINATION_ID: &'static str = "receiver-0";

/// The message on `namespace` to `destination` with the JSON `payload`.
pub open spec fn message_view(namespace: Seq<char>, destination: Seq<char>, payload: Seq<char>) -> CastMessageView {
    CastMessageView {
        protocol_version: Some(CastMessage_ProtocolVersion::CASTV2_1_0),
        source_id: Some(DEFAULT_SENDER_ID@),
        destination_id: Some(destination),
        namespace: Some(namespace),
        payload_type: Some(CastMessage_PayloadType::STRING),
        payload_utf8: Some(payload),
        payload_binary: None,
    }
}

/// Builds the message on `namespace` to `destination` with the JSON
/// `payload`.
pub(crate) fn build(namespace: &str, destination: &str, payload: String) -> (m: CastMessage)
    ensures
        m@ == message_view(namespace@, destination@, payload@),
{
    let mut msg = CastMessage::new();
    msg.set_payload_type(CastMessage_PayloadType::STRING);
    msg.set_protocol_version(CastMessage_ProtocolVersion::CASTV2_1_0);
    msg.set_namespace(namespace.to_string());
    msg.set_source_id(DEFAULT_SENDER_ID.to_string());
    msg.set_destination_id(destination.to_string());
    msg.set_payload_utf8(payload);
    msg
}

/// Appends the wire encoding of `msg` to `buf`; a message with a required
/// field unset is refused.
pub fn encode(msg: &CastMessage, buf: &mut Vec<u8>) -> (r: Result<(), ProtoError>)
    requires
        fits_length_prefix(msg@),
    ensures
        is_initialized(msg@) ==> r is Ok && final(buf)@ == old(buf)@ + encode_message(msg@),
        !is_initialized(msg@) ==> r is Err && final(buf)@ == old(buf)@,
{
    msg.write_to(buf)
}

} // verus!
