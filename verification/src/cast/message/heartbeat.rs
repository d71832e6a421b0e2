//! Messages of the heartbeat channel.
use vstd::prelude::*;

use crate::cast::message::{build, message_view, DEFAULT_DESTINATION_ID};
use crate::cast::payload::heartbeat::{request_json, Request};
use crate::cast::proto::CastMessage;

verus! {

/// Namespace of the heartbeat channel.
pub const NAMESPACE: &'static str = "urn:x-cast:com.google.cast.tp.heartbeat";

/// A heartbeat ping.
pub fn ping() -> (m: CastMessage)
    ensures
        m@ == message_view(NAMESPACE@, DEFAULT_DESTINATION_ID@, request_json(Request::Ping)),
{
    message(Request::Ping.to_json())
}

/// A heartbeat pong, the answer to a ping.
pub fn pong() -> (m: CastMessage)
    ensures
        m@ == message_view(NAMESPACE@, DEFAULT_DESTINATION_ID@, request_json(Request::Pong)),
{
    message(Request::Pong.to_json())
}

/// A heartbeat-channel message to the platform receiver.
pub fn message(payload: String) -> (m: CastMessage)
    ensures
        m@ == message_view(NAMESPACE@, DEFAULT_DESTINATION_ID@, payload@),
{
    build(NAMESPACE, DEFAULT_DESTINATION_ID, payload)
}

} // verus!
