//! Messages of the connection channel.
use vstd::prelude::*;

use crate::cast::message::{build, message_view, DEFAULT_DESTINATION_ID};
use crate::cast::payload::connection::{request_json, Request};
use crate::cast::proto::CastMessage;

verus! {

/// Namespace of the connection channel.
pub const NAMESPACE: &'static str = "urn:x-cast:com.google.cast.tp.connection";

/// Opens a virtual connection to the platform receiver.
pub fn connect() -> (m: CastMessage)
    ensures
        m@ == message_view(NAMESPACE@, DEFAULT_DESTINATION_ID@, request_json(Request::Connect)),
{
    message(Request::Connect.to_json())
}

/// Closes the virtual connection to the platform receiver.
pub fn close() -> (m: CastMessage)
    ensures
        m@ == message_view(NAMESPACE@, DEFAULT_DESTINATION_ID@, request_json(Request::Close)),
{
    message(Request::Close.to_json())
}

/// A connection-channel message to the platform receiver.
pub fn message(payload: String) -> (m: CastMessage)
    ensures
        m@ == message_view(NAMESPACE@, DEFAULT_DESTINATION_ID@, payload@),
{
    build(NAMESPACE, DEFAULT_DESTINATION_ID, payload)
}

} // verus!
