//! Polling of the device status and bookkeeping of the media session.
use vstd::prelude::*;

use crate::cast::provider::{Command, MediaConnection};
use crate::cast::{media_connection_of, ConnectState, ConnectStateView};

verus! {

/// Commands sent on every poll: the receiver status, and the media status
/// when a media session is known.
pub fn task(state: &ConnectState) -> (r: Vec<Command>)
    ensures
        r@.len() == if media_connection_of(state@) is Some { 2nat } else { 1nat },
        r@[0] is ReceiverStatus,
        media_connection_of(state@) matches Some(((_, t), _)) ==> (r@[1] matches Command::MediaStatus {
            transport,
        } && transport@ == t),
{
    let mut r: Vec<Command> = Vec::new();
    r.push(Command::ReceiverStatus);
    if let Some(connect) = state.media_connection() {
        r.push(Command::MediaStatus { transport: connect.receiver.transport });
    }
    r
}

/// Registers a media session id with the connection state. Returns the
/// media connection if the registration changed the media session id and
/// the receiver connection is known, `None` otherwise.
pub fn register_media_session(state: &mut ConnectState, session: i32) -> (r: Option<MediaConnection>)
    ensures
        final(state)@ == (ConnectStateView { media_session: Some(session), ..old(state)@ }),
        old(state)@.media_session == Some(session) ==> r is None,
        old(state)@.media_session != Some(session) ==> match media_connection_of(final(state)@) {
            None => r is None,
            Some(((s, t), m)) => r matches Some(c) && c.receiver.session@ == s
                && c.receiver.transport@ == t && c.session == m,
        },
{
    if state.set_media_session(Some(session)) {
        state.media_connection()
    } else {
        None
    }
}

/// Invalidates the media session id, so that the media status is no longer
/// polled (for instance once a new load is scheduled).
pub fn invalidate_media_connection(state: &mut ConnectState)
    ensures
        final(state)@ == (ConnectStateView { media_session: None, ..old(state)@ }),
{
    let _ = state.set_media_session(None);
}

} // verus!
