pub mod codec;
pub mod message;
pub mod payload;
pub mod proto;
pub mod provider;
pub mod wire;
pub mod worker;

use vstd::prelude::*;

use crate::cast::message::DEFAULT_DESTINATION_ID;
use crate::cast::provider::{Command, Media, MediaConnection, ReceiverConnection};
use crate::util::str_eq;

verus! {

/// App id of the default media receiver.
pub const DEFAULT_MEDIA_RECEIVER_APP_ID: &'static str = "CC1AD845";

/// A message received from the device, sorted by the channel (namespace) it
/// arrived on. Each variant holds the JSON payload of the message.
#[derive(Debug)]
pub enum ChannelMessage {
    Connection(String),
    Heartbeat(String),
    Media(String),
    Receiver(String),
}

/// What is known of the connection to the device: the receiver app session
/// and its transport, and the current media session.
#[derive(Debug)]
pub struct ConnectState {
    session: Option<String>,
    transport: Option<String>,
    media_session: Option<i32>,
}

/// Model of the connection state.
pub struct ConnectStateView {
    pub session: Option<Seq<char>>,
    pub transport: Option<Seq<char>>,
    pub media_session: Option<i32>,
}

pub open spec fn opt_str_view(s: Option<&str>) -> Option<Seq<char>> {
    match s {
        Some(s) => Some(s@),
        None => None,
    }
}

impl View for ConnectState {
    type V = ConnectStateView;

    closed spec fn view(&self) -> ConnectStateView {
        ConnectStateView {
            session: match self.session {
                Some(s) => Some(s@),
                None => None,
            },
            transport: match self.transport {
                Some(s) => Some(s@),
                None => None,
            },
            media_session: self.media_session,
        }
    }
}

/// The receiver connection of a state: known when both the session and the
/// transport are.
pub open spec fn receiver_connection_of(s: ConnectStateView) -> Option<(Seq<char>, Seq<char>)> {
    match (s.session, s.transport) {
        (Some(session), Some(transport)) => Some((session, transport)),
        _ => None,
    }
}

/// The media connection of a state: known when the receiver connection and
/// the media session are.
pub open spec fn media_connection_of(s: ConnectStateView) -> Option<((Seq<char>, Seq<char>), i32)> {
    match (receiver_connection_of(s), s.media_session) {
        (Some(r), Some(m)) => Some((r, m)),
        _ => None,
    }
}

fn opt_str_eq(a: &Option<String>, b: Option<&str>) -> (r: bool)
    ensures
        r == (match a {
            Some(s) => Some(s@),
            None => None,
        } == opt_str_view(b)),
{
    match (a, b) {
        (Some(x), Some(y)) => str_eq(x.as_str(), y),
        (None, None) => true,
        _ => false,
    }
}

fn opt_to_owned(b: Option<&str>) -> (r: Option<String>)
    ensures
        match r {
            Some(s) => Some(s@),
            None => None,
        } == opt_str_view(b),
{
    match b {
        Some(s) => Some(s.to_string()),
        None => None,
    }
}

impl ConnectState {
    /// Nothing is known yet.
    pub fn new() -> (s: Self)
        ensures
            s@ == (ConnectStateView { session: None, transport: None, media_session: None }),
    {
        ConnectState { session: None, transport: None, media_session: None }
    }

    /// Sets the receiver app session; returns whether it changed.
    pub fn set_session(&mut self, session: Option<&str>) -> (changed: bool)
        ensures
            changed == (old(self)@.session != opt_str_view(session)),
            final(self)@ == (ConnectStateView { session: opt_str_view(session), ..old(self)@ }),
    {
        let changed = !opt_str_eq(&self.session, session);
        self.session = opt_to_owned(session);
        changed
    }

    /// Sets the transport of the receiver app session; returns whether it
    /// changed.
    pub fn set_transport(&mut self, transport: Option<&str>) -> (changed: bool)
        ensures
            changed == (old(self)@.transport != opt_str_view(transport)),
            final(self)@ == (ConnectStateView { transport: opt_str_view(transport), ..old(self)@ }),
    {
        let changed = !opt_str_eq(&self.transport, transport);
        self.transport = opt_to_owned(transport);
        changed
    }

    /// Sets the media session; returns whether it changed.
    pub fn set_media_session(&mut self, session: Option<i32>) -> (changed: bool)
        ensures
            changed == (old(self)@.media_session != session),
            final(self)@ == (ConnectStateView { media_session: session, ..old(self)@ }),
    {
        let changed = match (self.media_session, session) {
            (Some(a), Some(b)) => a != b,
            (None, None) => false,
            _ => true,
        };
        self.media_session = session;
        changed
    }

    /// The receiver connection, when session and transport are known.
    pub fn receiver_connection(&self) -> (r: Option<ReceiverConnection>)
        ensures
            match receiver_connection_of(self@) {
                None => r is None,
                Some((s, t)) => r matches Some(c) && c.session@ == s && c.transport@ == t,
            },
    {
        match (&self.session, &self.transport) {
            (Some(session), Some(transport)) => Some(
                ReceiverConnection { session: session.clone(), transport: transport.clone() },
            ),
            _ => None,
        }
    }

    /// The media connection, when the receiver connection and the media
    /// session are known.
    pub fn media_connection(&self) -> (r: Option<MediaConnection>)
        ensures
            match media_connection_of(self@) {
                None => r is None,
                Some(((s, t), m)) => r matches Some(c) && c.receiver.session@ == s
                    && c.receiver.transport@ == t && c.session == m,
            },
    {
        match (self.receiver_connection(), self.media_session) {
            (Some(receiver), Some(session)) => Some(MediaConnection { receiver, session }),
            _ => None,
        }
    }
}

/// Commands that start the default media receiver app: connect to the
/// receiver, then launch the app.
pub fn launch_app() -> (r: Vec<Command>)
    ensures
        r@.len() == 2,
        r@[0] matches Command::Connect { destination } && destination@ == DEFAULT_DESTINATION_ID@,
        r@[1] matches Command::Launch { app_id } && app_id@ == DEFAULT_MEDIA_RECEIVER_APP_ID@,
{
    let mut r: Vec<Command> = Vec::new();
    r.push(Command::Connect { destination: DEFAULT_DESTINATION_ID.to_string() });
    r.push(Command::Launch { app_id: DEFAULT_MEDIA_RECEIVER_APP_ID.to_string() });
    r
}

/// Command that loads `media` into the receiver app session of `connect`.
/// The media session is invalidated first, so that its status is no longer
/// polled until the new media reports one.
pub fn load(state: &mut ConnectState, connect: &ReceiverConnection, media: Media) -> (r: Command)
    ensures
        final(state)@ == (ConnectStateView { media_session: None, ..old(state)@ }),
        r matches Command::Load { session, transport, media: m } && session@ == connect.session@
            && transport@ == connect.transport@ && m == media,
{
    let _ = state.set_media_session(None);
    Command::Load { session: connect.session.clone(), transport: connect.transport.clone(), media }
}

/// Command that pauses playback.
pub fn pause(connect: &MediaConnection) -> (r: Command)
    ensures
        r is Pause,
{
    Command::Pause
}

/// Command that resumes playback of the media session of `connect`.
pub fn play(connect: &MediaConnection) -> (r: Command)
    ensures
        r matches Command::Play { media_session, transport } && media_session == connect.session
            && transport@ == connect.receiver.transport@,
{
    Command::Play { media_session: connect.session, transport: connect.receiver.transport.clone() }
}

/// Command that stops the receiver app session of `connect`.
pub fn stop(connect: &MediaConnection) -> (r: Command)
    ensures
        r matches Command::Stop { media_session, transport } && media_session@ == connect.receiver.session@
            && transport@ == connect.receiver.transport@,
{
    Command::Stop {
        media_session: connect.receiver.session.clone(),
        transport: connect.receiver.transport.clone(),
    }
}

} // verus!
