//! Reactions to the messages read from the device.
use vstd::prelude::*;

use crate::cast::payload::{connection, heartbeat, media, push_str, receiver};
use crate::cast::provider::{Command, ReceiverConnection, Status};
use crate::cast::worker::status::{invalidate_media_connection, register_media_session};
use crate::cast::{
    media_connection_of, opt_str_view, receiver_connection_of, ConnectState, ConnectStateView,
    DEFAULT_MEDIA_RECEIVER_APP_ID,
};
use crate::util::str_eq;

verus! {

/// Failure to handle a message read from the device.
#[derive(Debug)]
pub enum ChannelError {
    /// A command could not be sent; names the channel.
    CommandSend(String),
    /// A status could not be sent; names the channel.
    StatusSend(String),
    /// A payload arrived that the channel does not handle; names the channel.
    UnknownPayload(String),
}

/// Text of a channel error.
pub open spec fn channel_error_text(e: ChannelError) -> Seq<char> {
    match e {
        ChannelError::CommandSend(c) => "Unable to send command from "@ + c@ + " channel"@,
        ChannelError::StatusSend(c) => "Unable to send status from "@ + c@ + " channel"@,
        ChannelError::UnknownPayload(c) => "Received unknown payload on "@ + c@ + " channel"@,
    }
}

impl ChannelError {
    /// Human-readable description of the error.
    pub fn to_display_string(&self) -> (r: String)
        ensures
            r@ == channel_error_text(*self),
    {
        let (head, channel) = match self {
            ChannelError::CommandSend(c) => ("Unable to send command from ", c),
            ChannelError::StatusSend(c) => ("Unable to send status from ", c),
            ChannelError::UnknownPayload(c) => ("Received unknown payload on ", c),
        };
        let mut r = head.to_string();
        push_str(&mut r, channel.as_str());
        push_str(&mut r, " channel");
        r
    }
}

/// A message read from the device with its JSON payload decoded, sorted by
/// the channel it arrived on.
#[derive(Debug)]
pub enum Payload {
    Connection(connection::Response),
    Heartbeat(heartbeat::Response),
    Media(media::Response),
    Receiver(receiver::Response),
}

/// Answer to a heartbeat message: a ping is answered with a pong.
pub fn do_heartbeat(message: &heartbeat::Response) -> (r: Option<Command>)
    ensures
        *message == heartbeat::Response::Ping ==> r matches Some(Command::Pong),
        *message == heartbeat::Response::Pong ==> r is None,
{
    match message {
        heartbeat::Response::Ping => Some(Command::Pong),
        heartbeat::Response::Pong => None,
    }
}

/// Finds the first app that is the default media receiver.
fn find_default_app(apps: &Vec<receiver::Applications>) -> (r: Option<usize>)
    ensures
        match r {
            None => forall|i: int| 0 <= i < apps@.len() ==> (#[trigger] apps@[i]).app_id@ != DEFAULT_MEDIA_RECEIVER_APP_ID@,
            Some(i) => i < apps@.len() && apps@[i as int].app_id@ == DEFAULT_MEDIA_RECEIVER_APP_ID@
                && forall|j: int| 0 <= j < i ==> (#[trigger] apps@[j]).app_id@ != DEFAULT_MEDIA_RECEIVER_APP_ID@,
        },
{
    let mut i: usize = 0;
    while i < apps.len()
        invariant
            i <= apps@.len(),
            forall|j: int| 0 <= j < i ==> (#[trigger] apps@[j]).app_id@ != DEFAULT_MEDIA_RECEIVER_APP_ID@,
        decreases apps@.len() - i,
    {
        if str_eq(apps[i].app_id.as_str(), DEFAULT_MEDIA_RECEIVER_APP_ID) {
            return Some(i);
        }
        i = i + 1;
    }
    None
}

/// Session and transport of the default media receiver app in `apps`.
pub open spec fn default_app_ids(apps: Seq<receiver::Applications>) -> (Option<Seq<char>>, Option<Seq<char>>) {
    if exists|i: int| 0 <= i < apps.len() && (#[trigger] apps[i]).app_id@ == DEFAULT_MEDIA_RECEIVER_APP_ID@ {
        let i = choose|i: int|
            0 <= i < apps.len() && apps[i].app_id@ == DEFAULT_MEDIA_RECEIVER_APP_ID@ && forall|j: int|
                0 <= j < i ==> (#[trigger] apps[j]).app_id@ != DEFAULT_MEDIA_RECEIVER_APP_ID@;
        (Some(apps[i].session_id@), Some(apps[i].transport_id@))
    } else {
        (None, None)
    }
}

/// The outcome of a receiver status: the state after it, the status to
/// report and the command to send (see `do_receiver`).
pub open spec fn receiver_outcome(
    message: receiver::Response,
    before: ConnectStateView,
    after: ConnectStateView,
    st: Option<Status>,
    cmd: Option<Command>,
) -> bool {
    let (session, transport) = match message {
        receiver::Response::ReceiverStatus { status, .. } => default_app_ids(status.applications@),
    };
    let session_changed = before.session != session;
    let expected = if session_changed {
        ConnectStateView { session, transport, ..before }
    } else {
        ConnectStateView { session, ..before }
    };
    let did_connect = session_changed && before.transport != transport;
    &&& after == expected
    &&& match (receiver_connection_of(expected), did_connect) {
        (Some((s, t)), true) => (st matches Some(Status::Connected(c)) && c.session@ == s && c.transport@ == t)
            && (cmd matches Some(Command::Connect { destination }) && destination@ == t),
        _ => st is None && cmd is None,
    }
}

/// Reaction to a receiver status: records the session and transport of the
/// default media receiver app. When the session changed (and with it the
/// transport is recorded) and both are known, reports the connection and
/// asks to connect to its transport.
pub fn do_receiver(message: receiver::Response, state: &mut ConnectState) -> (r: (Option<Status>, Option<Command>))
    ensures
        receiver_outcome(message, old(state)@, final(state)@, r.0, r.1),
{
    let receiver::Response::ReceiverStatus { status, .. } = message;
    let found = find_default_app(&status.applications);
    let (session, transport) = match found {
        Some(i) => (Some(status.applications[i].session_id.as_str()), Some(status.applications[i].transport_id.as_str())),
        None => (None, None),
    };
    proof {
        let apps = status.applications@;
        match found {
            Some(i) => {
                let w = choose|k: int|
                    0 <= k < apps.len() && apps[k].app_id@ == DEFAULT_MEDIA_RECEIVER_APP_ID@ && forall|j: int|
                        0 <= j < k ==> (#[trigger] apps[j]).app_id@ != DEFAULT_MEDIA_RECEIVER_APP_ID@;
                assert(0 <= i as int && i < apps.len() && apps[i as int].app_id@ == DEFAULT_MEDIA_RECEIVER_APP_ID@);
                if w < i {
                    assert(apps[w].app_id@ != DEFAULT_MEDIA_RECEIVER_APP_ID@);
                }
                if i < w {
                    assert(apps[i as int].app_id@ != DEFAULT_MEDIA_RECEIVER_APP_ID@);
                }
                assert(w == i);
            },
            None => {},
        }
    }
    let did_connect = state.set_session(session) && state.set_transport(transport);
    if did_connect {
        if let Some(connect) = state.receiver_connection() {
            let destination = connect.transport.clone();
            return (Some(Status::Connected(connect)), Some(Command::Connect { destination }));
        }
    }
    (None, None)
}

/// The outcome of a media status: the state after it and the statuses to
/// report (see `do_media`).
pub open spec fn media_outcome(
    message: media::Response,
    before: ConnectStateView,
    after: ConnectStateView,
    out: Seq<Status>,
) -> bool {
    let entries = match message {
        media::Response::MediaStatus { status, .. } => status@,
    };
    if entries.len() == 0 {
        &&& after == (ConnectStateView { media_session: None, ..before })
        &&& out.len() == 0
    } else {
        let first = entries[0];
        let expected = ConnectStateView { media_session: Some(first.media_session_id), ..before };
        let registered = before.media_session != Some(first.media_session_id) && media_connection_of(expected) is Some;
        &&& after == expected
        &&& out.len() == if registered { 2nat } else { 1nat }
        &&& registered ==> (out[0] matches Status::MediaConnected(c) && media_connection_of(expected) == Some(
            ((c.receiver.session@, c.receiver.transport@), c.session),
        ))
        &&& out[out.len() - 1] matches Status::MediaState(st) && st == first
    }
}

/// Reaction to a media status: the first reported media session is
/// registered (and reported as connected when that changed the session),
/// or, with no media session reported, the media connection is invalidated;
/// the playback state of the first session is reported.
pub fn do_media(message: media::Response, state: &mut ConnectState) -> (r: Vec<Status>)
    ensures
        media_outcome(message, old(state)@, final(state)@, r@),
{
    let media::Response::MediaStatus { status, .. } = message;
    let mut out: Vec<Status> = Vec::new();
    if status.len() == 0 {
        invalidate_media_connection(state);
        return out;
    }
    let first = status[0];
    if let Some(connect) = register_media_session(state, first.media_session_id) {
        out.push(Status::MediaConnected(connect));
    }
    out.push(Status::MediaState(first));
    out
}

/// The first item of a sequence of at most one, as an option.
pub open spec fn first_of<T>(s: Seq<T>) -> Option<T> {
    if s.len() == 0 {
        None
    } else {
        Some(s[0])
    }
}

/// What reading a message handled by a channel gives: the state after it,
/// the statuses to report and the commands to send.
pub open spec fn read_outcome(
    message: Payload,
    before: ConnectStateView,
    after: ConnectStateView,
    statuses: Seq<Status>,
    commands: Seq<Command>,
) -> bool {
    match message {
        Payload::Connection(_) => false,
        Payload::Heartbeat(m) => {
            &&& after == before
            &&& statuses.len() == 0
            &&& m == heartbeat::Response::Ping ==> commands.len() == 1 && commands[0] is Pong
            &&& m == heartbeat::Response::Pong ==> commands.len() == 0
        },
        Payload::Media(m) => media_outcome(m, before, after, statuses) && commands.len() == 0,
        Payload::Receiver(m) => {
            &&& statuses.len() <= 1
            &&& commands.len() <= 1
            &&& receiver_outcome(m, before, after, first_of(statuses), first_of(commands))
        },
    }
}

/// Handles a message read from the device: a ping is answered, media and
/// receiver statuses update the connection state (see `do_media` and
/// `do_receiver`), and a connection message is refused as unknown.
pub fn read(message: Payload, state: &mut ConnectState) -> (r: Result<(Vec<Status>, Vec<Command>), ChannelError>)
    ensures
        r is Err <==> message is Connection,
        match r {
            Err(e) => final(state)@ == old(state)@ && (e matches ChannelError::UnknownPayload(c) && c@ == "unknown"@),
            Ok((statuses, commands)) => read_outcome(message, old(state)@, final(state)@, statuses@, commands@),
        },
{
    match message {
        Payload::Connection(_) => Err(ChannelError::UnknownPayload("unknown".to_string())),
        Payload::Heartbeat(m) => {
            let mut commands: Vec<Command> = Vec::new();
            if let Some(c) = do_heartbeat(&m) {
                commands.push(c);
            }
            Ok((Vec::new(), commands))
        },
        Payload::Media(m) => {
            let statuses = do_media(m, state);
            Ok((statuses, Vec::new()))
        },
        Payload::Receiver(m) => {
            let (st, cmd) = do_receiver(m, state);
            let mut statuses: Vec<Status> = Vec::new();
            let mut commands: Vec<Command> = Vec::new();
            let ghost st0 = st;
            let ghost cmd0 = cmd;
            if let Some(s) = st {
                statuses.push(s);
            }
            if let Some(c) = cmd {
                commands.push(c);
            }
            assert(first_of(statuses@) == st0);
            assert(first_of(commands@) == cmd0);
            Ok((statuses, commands))
        },
    }
}

} // verus!
