//! The embedded media server that makes tracks and cover art available to
//! a Chromecast: its routes and errors. Serving is done by the caller.
use vstd::prelude::*;

use crate::cast::payload::push_str;
use crate::playlist::fs::Track;

verus! {

/// Media server error wrapper.
#[derive(Clone, Copy, Debug, PartialEq, Eq, Structural)]
pub enum Error {
    /// No interfaces available to bind to.
    NoBindInterfaces,
    /// No ports available to bind to on selected interface.
    NoBindPort,
    /// Could not construct a base url for the routes.
    NoBaseUrl,
}

/// Lowest port tried when looking for a free port to serve on.
pub const FIRST_PORT: u16 = 1025;

/// Bound (excluded) of the ports tried when looking for a free port.
pub const PORT_BOUND: u16 = 65535;

/// Path under which the audio of a track is served.
pub fn media_route(track: &Track) -> (r: String)
    ensures
        r@ == "/media/"@ + track@.1,
{
    let mut r = "/media/".to_string();
    push_str(&mut r, track.id());
    r
}

/// Path under which the cover art of a track is served.
pub fn cover_route(track: &Track) -> (r: String)
    ensures
        r@ == "/cover/"@ + track@.1,
{
    let mut r = "/cover/".to_string();
    push_str(&mut r, track.id());
    r
}

} // verus!
