//! Messages of the media channel, addressed to the transport of a receiver
//! app session.
use vstd::prelude::*;

use crate::cast::message::{build, message_view};
use crate::cast::payload::media::{
    get_status_json, load_json, media_json, play_json, stop_json, MediaInformation, Request, StreamType,
};
use crate::cast::proto::CastMessage;
use crate::cast::provider::{Media, MediaConnection, ReceiverConnection};

verus! {

/// Namespace of the media channel.
pub const NAMESPACE: &'static str = "urn:x-cast:com.google.cast.media";

/// Loads `media` into the app session of `connect`, letting the device
/// decide how to buffer it.
pub fn load(request_id: i32, connect: &ReceiverConnection, media: Media) -> (m: CastMessage)
    ensures
        m@ == message_view(
            NAMESPACE@,
            connect.transport@,
            load_json(
                request_id as int,
                connect.session@,
                media_json(media.url@, StreamType::Unspecified, media.content_type@),
            ),
        ),
{
    let media = MediaInformation {
        content_id: media.url,
        stream_type: StreamType::Unspecified,
        content_type: media.content_type,
    };
    let req = Request::Load { request_id, session_id: connect.session.clone(), media };
    message(connect.transport.as_str(), req.to_json())
}

/// Resumes playback of the media session of `connect`.
pub fn play(request_id: i32, connect: &MediaConnection) -> (m: CastMessage)
    ensures
        m@ == message_view(
            NAMESPACE@,
            connect.receiver.transport@,
            play_json(request_id as int, connect.session as int),
        ),
{
    let req = Request::Play { request_id, media_session_id: connect.session };
    message(connect.receiver.transport.as_str(), req.to_json())
}

/// Asks for the status of the media session of `connect`.
pub fn status(request_id: i32, connect: &MediaConnection) -> (m: CastMessage)
    ensures
        m@ == message_view(
            NAMESPACE@,
            connect.receiver.transport@,
            get_status_json(request_id as int, connect.session as int),
        ),
{
    let req = Request::GetStatus { request_id, media_session_id: connect.session };
    message(connect.receiver.transport.as_str(), req.to_json())
}

/// Stops the media session of `connect`.
pub fn stop(request_id: i32, connect: &MediaConnection) -> (m: CastMessage)
    ensures
        m@ == message_view(
            NAMESPACE@,
            connect.receiver.transport@,
            stop_json(request_id as int, connect.session as int),
        ),
{
    let req = Request::Stop { request_id, media_session_id: connect.session };
    message(connect.receiver.transport.as_str(), req.to_json())
}

/// A media-channel message to the transport `transport_id`.
pub fn message(transport_id: &str, payload: String) -> (m: CastMessage)
    ensures
        m@ == message_view(NAMESPACE@, transport_id@, payload@),
{
    build(NAMESPACE, transport_id, payload)
}

} // verus!
