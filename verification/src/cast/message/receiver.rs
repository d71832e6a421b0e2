//! Messages of the receiver channel.
use vstd::prelude::*;

use crate::cast::message::{build, message_view, DEFAULT_DESTINATION_ID};
use crate::cast::payload::receiver::{get_status_json, launch_json, stop_json, Request};
use crate::cast::proto::CastMessage;

verus! {

/// Namespace of the receiver channel.
pub const NAMESPACE: &'static str = "urn:x-cast:com.google.cast.receiver";

/// Asks the receiver to launch the app `app_id`.
pub fn launch(request_id: i64, app_id: &str) -> (m: CastMessage)
    ensures
        m@ == message_view(
            NAMESPACE@,
            DEFAULT_DESTINATION_ID@,
            launch_json(request_id as int, app_id@),
        ),
{
    let req = Request::Launch { request_id, app_id: app_id.to_string() };
    message(DEFAULT_DESTINATION_ID, req.to_json())
}

/// Asks the receiver for its status.
pub fn status(request_id: i64) -> (m: CastMessage)
    ensures
        m@ == message_view(NAMESPACE@, DEFAULT_DESTINATION_ID@, get_status_json(request_id as int)),
{
    message(DEFAULT_DESTINATION_ID, Request::GetStatus { request_id }.to_json())
}

/// Asks the receiver to stop the app session `session_id`.
pub fn stop(request_id: i64, session_id: &str) -> (m: CastMessage)
    ensures
        m@ == message_view(
            NAMESPACE@,
            DEFAULT_DESTINATION_ID@,
            stop_json(request_id as int, session_id@),
        ),
{
    let req = Request::Stop { request_id, session_id: session_id.to_string() };
    message(DEFAULT_DESTINATION_ID, req.to_json())
}

/// A receiver-channel message to `dest`.
pub fn message(dest: &str, payload: String) -> (m: CastMessage)
    ensures
        m@ == message_view(NAMESPACE@, dest@, payload@),
{
    build(NAMESPACE, dest, payload)
}

} // verus!
