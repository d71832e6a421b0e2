//! The receiver channel manages global receiver state like the active cast
//! app.
use vstd::prelude::*;

use super::{int_text, json_int, json_quoted, json_string, push_str};

verus! {

/// Requests of the receiver channel.
#[derive(Clone, Debug)]
pub enum Request {
    Launch { request_id: i64, app_id: String },
    GetStatus { request_id: i64 },
    Stop { request_id: i64, session_id: String },
}

/// JSON text of a launch request.
pub open spec fn launch_json(request_id: int, app_id: Seq<char>) -> Seq<char> {
    "{\"type\":\"LAUNCH\",\"requestId\":"@ + int_text(request_id) + ",\"appId\":"@ + json_quoted(app_id)
        + "}"@
}

/// JSON text of a status request.
pub open spec fn get_status_json(request_id: int) -> Seq<char> {
    "{\"type\":\"GET_STATUS\",\"requestId\":"@ + int_text(request_id) + "}"@
}

/// JSON text of a stop request.
pub open spec fn stop_json(request_id: int, session_id: Seq<char>) -> Seq<char> {
    "{\"type\":\"STOP\",\"requestId\":"@ + int_text(request_id) + ",\"sessionId\":"@ + json_quoted(
        session_id,
    ) + "}"@
}

/// JSON text of a receiver request.
pub open spec fn request_json(r: Request) -> Seq<char> {
    match r {
        Request::Launch { request_id, app_id } => launch_json(request_id as int, app_id@),
        Request::GetStatus { request_id } => get_status_json(request_id as int),
        Request::Stop { request_id, session_id } => stop_json(request_id as int, session_id@),
    }
}

impl Request {
    /// The JSON text of the request.
    pub fn to_json(&self) -> (r: String)
        ensures
            r@ == request_json(*self),
    {
        match self {
            Request::Launch { request_id, app_id } => {
                let mut s = "{\"type\":\"LAUNCH\",\"requestId\":".to_string();
                push_str(&mut s, json_int(*request_id).as_str());
                push_str(&mut s, ",\"appId\":");
                push_str(&mut s, json_string(app_id.as_str()).as_str());
                push_str(&mut s, "}");
                s
            },
            Request::GetStatus { request_id } => {
                let mut s = "{\"type\":\"GET_STATUS\",\"requestId\":".to_string();
                push_str(&mut s, json_int(*request_id).as_str());
                push_str(&mut s, "}");
                s
            },
            Request::Stop { request_id, session_id } => {
                let mut s = "{\"type\":\"STOP\",\"requestId\":".to_string();
                push_str(&mut s, json_int(*request_id).as_str());
                push_str(&mut s, ",\"sessionId\":");
                push_str(&mut s, json_string(session_id.as_str()).as_str());
                push_str(&mut s, "}");
                s
            },
        }
    }
}

/// A channel namespace that an app supports.
#[derive(Clone, Debug)]
pub struct Namespace {
    pub name: String,
}

/// An app running on the receiver.
#[derive(Clone, Debug)]
pub struct Applications {
    pub app_id: String,
    pub display_name: String,
    pub namespaces: Vec<Namespace>,
    pub session_id: String,
    pub status_text: String,
    pub transport_id: String,
}

/// Status of the receiver: its running apps and whether it is the active
/// input.
#[derive(Clone, Debug)]
pub struct Status {
    pub applications: Vec<Applications>,
    pub is_active_input: bool,
}

/// Responses of the receiver channel.
#[derive(Clone, Debug)]
pub enum Response {
    ReceiverStatus { request_id: i64, status: Status },
}

} // verus!
