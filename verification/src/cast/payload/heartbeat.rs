//! The heartbeat channel keeps the connection to a device alive.
use vstd::prelude::*;

verus! {

/// Requests of the heartbeat channel.
#[derive(Clone, Copy, Debug, PartialEq, Eq, Structural)]
pub enum Request {
    Ping,
    Pong,
}

/// Responses of the heartbeat channel.
#[derive(Clone, Copy, Debug, PartialEq, Eq, Structural)]
pub enum Response {
    Ping,
    Pong,
}

/// JSON text of a heartbeat request.
pub open spec fn request_json(r: Request) -> Seq<char> {
    match r {
        Request::Ping => "{\"type\":\"PING\"}"@,
        Request::Pong => "{\"type\":\"PONG\"}"@,
    }
}

impl Request {
    /// The JSON text of the request.
    pub fn to_json(&self) -> (r: String)
        ensures
            r@ == request_json(*self),
    {
        match self {
            Request::Ping => "{\"type\":\"PING\"}".to_string(),
            Request::Pong => "{\"type\":\"PONG\"}".to_string(),
        }
    }
}

} // verus!
