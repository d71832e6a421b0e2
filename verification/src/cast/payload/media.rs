//! The media channel loads and controls media on a receiver app.
use vstd::prelude::*;

use super::{int_text, json_int, json_quoted, json_string, push_str};

verus! {

/// How the receiver should treat the stream; `Unspecified` (written `NONE`)
/// lets the device decide
/// whether to buffer.
#[derive(Clone, Copy, Debug, PartialEq, Eq, Structural)]
pub enum StreamType {
    Unspecified,
    Buffered,
    Live,
}

/// JSON text of a stream type.
pub open spec fn stream_type_json(t: StreamType) -> Seq<char> {
    match t {
        StreamType::Unspecified => "\"NONE\""@,
        StreamType::Buffered => "\"BUFFERED\""@,
        StreamType::Live => "\"LIVE\""@,
    }
}

/// Description of the media to load.
#[derive(Clone, Debug)]
pub struct MediaInformation {
    pub content_id: String,
    pub stream_type: StreamType,
    pub content_type: String,
}

/// JSON text of a media description.
pub open spec fn media_json(content_id: Seq<char>, stream_type: StreamType, content_type: Seq<char>) -> Seq<char> {
    "{\"contentId\":"@ + json_quoted(content_id) + ",\"streamType\":"@ + stream_type_json(stream_type)
        + ",\"contentType\":"@ + json_quoted(content_type) + "}"@
}

/// JSON text of a media description.
pub open spec fn media_information_json(m: MediaInformation) -> Seq<char> {
    media_json(m.content_id@, m.stream_type, m.content_type@)
}

impl MediaInformation {
    /// The JSON text of the media description.
    pub fn to_json(&self) -> (r: String)
        ensures
            r@ == media_information_json(*self),
    {
        let mut s = "{\"contentId\":".to_string();
        push_str(&mut s, json_string(self.content_id.as_str()).as_str());
        push_str(&mut s, ",\"streamType\":");
        match self.stream_type {
            StreamType::Unspecified => push_str(&mut s, "\"NONE\""),
            StreamType::Buffered => push_str(&mut s, "\"BUFFERED\""),
            StreamType::Live => push_str(&mut s, "\"LIVE\""),
        }
        push_str(&mut s, ",\"contentType\":");
        push_str(&mut s, json_string(self.content_type.as_str()).as_str());
        push_str(&mut s, "}");
        s
    }
}

/// Requests of the media channel. A load starts playback at time zero with
/// autoplay on and no custom data.
#[derive(Clone, Debug)]
pub enum Request {
    Load { request_id: i32, session_id: String, media: MediaInformation },
    Play { request_id: i32, media_session_id: i32 },
    GetStatus { request_id: i32, media_session_id: i32 },
    Stop { request_id: i32, media_session_id: i32 },
}

/// JSON text of a load request; playback starts at time zero with
/// autoplay on and no custom data.
pub open spec fn load_json(request_id: int, session_id: Seq<char>, media: Seq<char>) -> Seq<char> {
    "{\"type\":\"LOAD\",\"requestId\":"@ + int_text(request_id) + ",\"sessionId\":"@ + json_quoted(
        session_id,
    ) + ",\"media\":"@ + media + ",\"currentTime\":0.0,\"customData\":{},\"autoplay\":true}"@
}

/// JSON text of a play request.
pub open spec fn play_json(request_id: int, media_session_id: int) -> Seq<char> {
    "{\"type\":\"PLAY\",\"requestId\":"@ + int_text(request_id) + ",\"mediaSessionId\":"@ + int_text(
        media_session_id,
    ) + ",\"customData\":{}}"@
}

/// JSON text of a media status request.
pub open spec fn get_status_json(request_id: int, media_session_id: int) -> Seq<char> {
    "{\"type\":\"GET_STATUS\",\"requestId\":"@ + int_text(request_id) + ",\"mediaSessionId\":"@
        + int_text(media_session_id) + "}"@
}

/// JSON text of a stop request.
pub open spec fn stop_json(request_id: int, media_session_id: int) -> Seq<char> {
    "{\"type\":\"STOP\",\"requestId\":"@ + int_text(request_id) + ",\"mediaSessionId\":"@ + int_text(
        media_session_id,
    ) + ",\"customData\":{}}"@
}

/// JSON text of a media request.
pub open spec fn request_json(r: Request) -> Seq<char> {
    match r {
        Request::Load { request_id, session_id, media } => load_json(
            request_id as int,
            session_id@,
            media_information_json(media),
        ),
        Request::Play { request_id, media_session_id } => play_json(request_id as int, media_session_id as int),
        Request::GetStatus { request_id, media_session_id } => get_status_json(
            request_id as int,
            media_session_id as int,
        ),
        Request::Stop { request_id, media_session_id } => stop_json(request_id as int, media_session_id as int),
    }
}

impl Request {
    /// The JSON text of the request.
    pub fn to_json(&self) -> (r: String)
        ensures
            r@ == request_json(*self),
    {
        match self {
            Request::Load { request_id, session_id, media } => {
                let mut s = "{\"type\":\"LOAD\",\"requestId\":".to_string();
                push_str(&mut s, json_int(*request_id as i64).as_str());
                push_str(&mut s, ",\"sessionId\":");
                push_str(&mut s, json_string(session_id.as_str()).as_str());
                push_str(&mut s, ",\"media\":");
                push_str(&mut s, media.to_json().as_str());
                push_str(&mut s, ",\"currentTime\":0.0,\"customData\":{},\"autoplay\":true}");
                s
            },
            Request::Play { request_id, media_session_id } => {
                let mut s = "{\"type\":\"PLAY\",\"requestId\":".to_string();
                push_str(&mut s, json_int(*request_id as i64).as_str());
                push_str(&mut s, ",\"mediaSessionId\":");
                push_str(&mut s, json_int(*media_session_id as i64).as_str());
                push_str(&mut s, ",\"customData\":{}}");
                s
            },
            Request::GetStatus { request_id, media_session_id } => {
                let mut s = "{\"type\":\"GET_STATUS\",\"requestId\":".to_string();
                push_str(&mut s, json_int(*request_id as i64).as_str());
                push_str(&mut s, ",\"mediaSessionId\":");
                push_str(&mut s, json_int(*media_session_id as i64).as_str());
                push_str(&mut s, "}");
                s
            },
            Request::Stop { request_id, media_session_id } => {
                let mut s = "{\"type\":\"STOP\",\"requestId\":".to_string();
                push_str(&mut s, json_int(*request_id as i64).as_str());
                push_str(&mut s, ",\"mediaSessionId\":");
                push_str(&mut s, json_int(*media_session_id as i64).as_str());
                push_str(&mut s, ",\"customData\":{}}");
                s
            },
        }
    }
}

/// Playback state of a media session, as reported by the receiver.
#[derive(Clone, Copy, Debug)]
pub struct Status {
    pub media_session_id: i32,
    /// Playback position, in whole microseconds.
    pub current_time_micros: u64,
}

/// Responses of the media channel.
#[derive(Clone, Debug)]
pub enum Response {
    MediaStatus { request_id: i64, status: Vec<Status> },
}

} // verus!
