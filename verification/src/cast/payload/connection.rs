//! The connection channel manages connection state to cast transports.
use vstd::prelude::*;

verus! {

/// Requests of the connection channel.
#[derive(Clone, Copy, Debug, PartialEq, Eq, Structural)]
pub enum Request {
    Connect,
    Close,
}

/// Responses of the connection channel.
#[derive(Clone, Copy, Debug, PartialEq, Eq, Structural)]
pub enum Response {
    Close,
}

/// JSON text of a connection request.
pub open spec fn request_json(r: Request) -> Seq<char> {
    match r {
        Request::Connect => "{\"type\":\"CONNECT\"}"@,
        Request::Close => "{\"type\":\"CLOSE\"}"@,
    }
}

impl Request {
    /// The JSON text of the request.
    pub fn to_json(&self) -> (r: String)
        ensures
            r@ == request_json(*self),
    {
        match self {
            Request::Connect => "{\"type\":\"CONNECT\"}".to_string(),
            Request::Close => "{\"type\":\"CLOSE\"}".to_string(),
        }
    }
}

} // verus!
