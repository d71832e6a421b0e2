//! The game controller. It keeps the state of a game, reacts to statuses
//! reported by the cast device, and says which events the view must show and
//! which actions must be performed on the device; performing them is left to
//! the caller.
use vstd::prelude::*;

use crate::backend::chromecast::CastAddr;
use crate::cast::payload::push_str;
use crate::cast::provider::{MediaConnection, ReceiverConnection, Status};
use crate::playlist::fs::{next_step, Playlist, PlaylistView, Track};

verus! {

/// Settings of a game: how long each round plays, in microseconds, and how
/// many rounds the game has.
#[derive(Clone, Copy, Debug)]
pub struct Config {
    pub duration_micros: u64,
    pub iterations: u64,
}

/// Lifecycle of the view that shows the game.
#[derive(Clone, Copy, Debug, Eq, PartialEq, Structural)]
pub enum Lifecycle {
    Uninitialized,
    Loaded,
    Terminating,
}

/// An event for the view.
#[derive(Clone, Debug)]
pub enum Event {
    ClearMedia,
    SetConfig { duration_micros: u64 },
    SetElapsed { elapsed_micros: u64 },
    SetMedia { track: Track, cursor: u64 },
    SetPlayback { is_playing: bool },
    SetPlaylist { name: String },
    Shutdown,
    TogglePlayback,
}

/// An action to perform on the cast device or the game's shutdown trigger.
#[derive(Clone, Debug)]
pub enum Action {
    /// Load the track into the receiver app session.
    Load { connect: ReceiverConnection, track: Track },
    /// Resume playback of the media session.
    Play(MediaConnection),
    /// Pause playback of the media session.
    Pause(MediaConnection),
    /// Stop the media session.
    Stop(MediaConnection),
    /// Shut down the connection to the device.
    ShutdownClient,
    /// Fire the game's shutdown trigger.
    TriggerShutdown,
}

/// Tags of a track, as read from its file.
#[derive(Clone, Debug)]
pub struct Tags {
    pub artist: Option<String>,
    pub title: Option<String>,
}

/// Cover art of a track, as read from its file: the image type, its bytes,
/// and its width and height when they could be read.
#[derive(Clone, Debug)]
pub struct Cover {
    pub mime: String,
    pub bytes: Vec<u8>,
    pub dimensions: Option<(u32, u32)>,
}

/// An image shown by the view: a data URL and its height and width.
#[derive(Clone, Debug)]
pub struct Image {
    pub url: String,
    pub height: u32,
    pub width: u32,
}

/// The media shown by the view for a round: the track id, the round, the
/// artist and title, and the cover art.
#[derive(Clone, Debug)]
pub struct Media {
    pub id: String,
    pub cursor: u64,
    pub artist: Option<String>,
    pub title: Option<String>,
    pub cover: Option<Image>,
}

/// Width and height assumed for a cover whose dimensions are unknown.
pub const DEFAULT_COVER_SIZE: u32 = 600;

/// Digit `v` (0 to 63) of the URL-safe base64 alphabet: `A`-`Z`, `a`-`z`,
/// `0`-`9`, `-` and `_`.
pub open spec fn base64_digit(v: int) -> char {
    if v < 26 {
        (65 + v) as char
    } else if v < 52 {
        (97 + v - 26) as char
    } else if v < 62 {
        (48 + v - 52) as char
    } else if v == 62 {
        '-'
    } else {
        '_'
    }
}

/// The URL-safe base64 text (with padding) of `bytes`: each group of three
/// bytes gives four digits of six bits each, and a last group of one or two
/// bytes gives two or three digits followed by `=` up to four characters.
pub open spec fn base64_url_safe(bytes: Seq<u8>) -> Seq<char>
    decreases bytes.len(),
{
    if bytes.len() == 0 {
        Seq::empty()
    } else if bytes.len() == 1 {
        let b0 = bytes[0] as int;
        seq![base64_digit(b0 / 4), base64_digit((b0 % 4) * 16), '=', '=']
    } else if bytes.len() == 2 {
        let b0 = bytes[0] as int;
        let b1 = bytes[1] as int;
        seq![base64_digit(b0 / 4), base64_digit((b0 % 4) * 16 + b1 / 16), base64_digit((b1 % 16) * 4), '=']
    } else {
        let b0 = bytes[0] as int;
        let b1 = bytes[1] as int;
        let b2 = bytes[2] as int;
        seq![
            base64_digit(b0 / 4),
            base64_digit((b0 % 4) * 16 + b1 / 16),
            base64_digit((b1 % 16) * 4 + b2 / 64),
            base64_digit(b2 % 64),
        ] + base64_url_safe(bytes.skip(3))
    }
}

/// Encodes `bytes` as URL-safe base64 with padding.
///
/// Calls `base64::encode_config` with `base64::URL_SAFE`, which encodes with
/// the URL-safe alphabet and pads with `=`. It panics when the length of the
/// encoding overflows `usize`, which the bound on the input rules out.
#[verifier::external_body]
fn encode_base64_url_safe(bytes: &[u8]) -> (r: String)
    requires
        bytes@.len() <= usize::MAX / 2,
    ensures
        r@ == base64_url_safe(bytes@),
{
    base64::encode_config(bytes, base64::URL_SAFE)
}

/// The data URL of an image of type `mime` with the given bytes.
pub open spec fn data_url(mime: Seq<char>, bytes: Seq<u8>) -> Seq<char> {
    "data:"@ + mime + ";base64,"@ + base64_url_safe(bytes)
}

/// The image shown for a cover: its data URL and its dimensions, 600 by 600
/// when they are unknown.
pub fn cover_image(cover: &Cover) -> (r: Image)
    requires
        cover.bytes@.len() <= usize::MAX / 2,
    ensures
        r.url@ == data_url(cover.mime@, cover.bytes@),
        (r.width, r.height) == match cover.dimensions {
            Some(d) => d,
            None => (DEFAULT_COVER_SIZE, DEFAULT_COVER_SIZE),
        },
{
    let (width, height) = match cover.dimensions {
        Some((w, h)) => (w, h),
        None => (DEFAULT_COVER_SIZE, DEFAULT_COVER_SIZE),
    };
    let mut url = "data:".to_string();
    push_str(&mut url, cover.mime.as_str());
    push_str(&mut url, ";base64,");
    push_str(&mut url, encode_base64_url_safe(cover.bytes.as_slice()).as_str());
    Image { url, height, width }
}

/// The media shown for round `cursor` playing `track`, with the tags and
/// cover art read from its file.
pub fn media(track: &Track, cursor: u64, tags: Option<Tags>, cover: Option<Cover>) -> (r: Media)
    requires
        cover matches Some(c) ==> c.bytes@.len() <= usize::MAX / 2,
    ensures
        r.id@ == track@.1,
        r.cursor == cursor,
        r.artist == match tags {
            Some(t) => t.artist,
            None => None,
        },
        r.title == match tags {
            Some(t) => t.title,
            None => None,
        },
        match cover {
            None => r.cover is None,
            Some(c) => r.cover matches Some(i) && i.url@ == data_url(c.mime@, c.bytes@) && (i.width, i.height)
                == match c.dimensions {
                Some(d) => d,
                None => (DEFAULT_COVER_SIZE, DEFAULT_COVER_SIZE),
            },
        },
{
    let image = match &cover {
        Some(c) => Some(cover_image(c)),
        None => None,
    };
    let (artist, title) = match tags {
        Some(t) => (t.artist, t.title),
        None => (None, None),
    };
    Media { id: track.id().to_string(), cursor, artist, title, cover: image }
}

pub type ReceiverConnectionView = (Seq<char>, Seq<char>);

pub type MediaConnectionView = (ReceiverConnectionView, i32);

pub type TrackView = (Seq<char>, Seq<char>);

pub open spec fn receiver_view(c: ReceiverConnection) -> ReceiverConnectionView {
    (c.session@, c.transport@)
}

pub open spec fn media_view(c: MediaConnection) -> MediaConnectionView {
    (receiver_view(c.receiver), c.session)
}

/// Model of a status.
pub enum StatusView {
    Connected(ReceiverConnectionView),
    MediaConnected(MediaConnectionView),
    MediaState { current_time_micros: u64 },
    Other,
}

pub open spec fn status_view(s: Status) -> StatusView {
    match s {
        Status::Connected(c) => StatusView::Connected(receiver_view(c)),
        Status::MediaConnected(c) => StatusView::MediaConnected(media_view(c)),
        Status::MediaState(m) => StatusView::MediaState { current_time_micros: m.current_time_micros },
        _ => StatusView::Other,
    }
}

/// Model of an event.
pub enum EventView {
    ClearMedia,
    SetConfig { duration_micros: u64 },
    SetElapsed { elapsed_micros: u64 },
    SetMedia { track: TrackView, cursor: u64 },
    SetPlayback { is_playing: bool },
    SetPlaylist { name: Seq<char> },
    Shutdown,
    TogglePlayback,
}

pub open spec fn event_view(e: Event) -> EventView {
    match e {
        Event::ClearMedia => EventView::ClearMedia,
        Event::SetConfig { duration_micros } => EventView::SetConfig { duration_micros },
        Event::SetElapsed { elapsed_micros } => EventView::SetElapsed { elapsed_micros },
        Event::SetMedia { track, cursor } => EventView::SetMedia { track: track@, cursor },
        Event::SetPlayback { is_playing } => EventView::SetPlayback { is_playing },
        Event::SetPlaylist { name } => EventView::SetPlaylist { name: name@ },
        Event::Shutdown => EventView::Shutdown,
        Event::TogglePlayback => EventView::TogglePlayback,
    }
}

/// Model of an action.
pub enum ActionView {
    Load { connect: ReceiverConnectionView, track: TrackView },
    Play(MediaConnectionView),
    Pause(MediaConnectionView),
    Stop(MediaConnectionView),
    ShutdownClient,
    TriggerShutdown,
}

pub open spec fn action_view(a: Action) -> ActionView {
    match a {
        Action::Load { connect, track } => ActionView::Load { connect: receiver_view(connect), track: track@ },
        Action::Play(c) => ActionView::Play(media_view(c)),
        Action::Pause(c) => ActionView::Pause(media_view(c)),
        Action::Stop(c) => ActionView::Stop(media_view(c)),
        Action::ShutdownClient => ActionView::ShutdownClient,
        Action::TriggerShutdown => ActionView::TriggerShutdown,
    }
}

pub open spec fn events_view(v: Seq<Event>) -> Seq<EventView> {
    v.map_values(|e: Event| event_view(e))
}

pub open spec fn actions_view(v: Seq<Action>) -> Seq<ActionView> {
    v.map_values(|a: Action| action_view(a))
}

/// A device that can play the game, as listed by the view.
#[derive(Clone, Debug)]
pub enum Device {
    Cast { name: String, is_connected: bool, connect: CastAddr },
    Local { name: String, is_connected: bool },
}

/// The game controller.
pub struct Controller {
    pub config: Config,
    lifecycle: Lifecycle,
    playlist: Playlist,
    has_client: bool,
    connect: Option<ReceiverConnection>,
    session: Option<MediaConnection>,
    shutdown_armed: bool,
    events: Vec<Event>,
    devices: Vec<Device>,
}

/// Model of the controller: the configuration, the view's lifecycle, the
/// playlist, whether a device client is set, the receiver and media
/// sessions, whether the shutdown trigger is still armed, the events
/// waiting for the view, and the devices listed by the view.
pub struct ControllerView {
    pub config: Config,
    pub lifecycle: Lifecycle,
    pub playlist: PlaylistView,
    pub has_client: bool,
    pub connect: Option<ReceiverConnectionView>,
    pub session: Option<MediaConnectionView>,
    pub shutdown_armed: bool,
    pub events: Seq<EventView>,
    pub devices: Seq<Device>,
}

impl View for Controller {
    type V = ControllerView;

    closed spec fn view(&self) -> ControllerView {
        ControllerView {
            config: self.config,
            lifecycle: self.lifecycle,
            playlist: self.playlist@,
            has_client: self.has_client,
            connect: match self.connect {
                Some(c) => Some(receiver_view(c)),
                None => None,
            },
            session: match self.session {
                Some(s) => Some(media_view(s)),
                None => None,
            },
            shutdown_armed: self.shutdown_armed,
            events: events_view(self.events@),
            devices: self.devices@,
        }
    }
}

/// Loading the next track: with a client and a receiver session, the
/// playlist plays its next round and the track, if any, is loaded.
pub open spec fn load_next_spec(c: ControllerView) -> (ControllerView, Option<(u64, TrackView)>, Seq<ActionView>) {
    if c.has_client && c.connect is Some {
        let (p, out) = next_step(c.playlist);
        let c2 = ControllerView { playlist: p, ..c };
        match out {
            Some((n, t)) => (c2, Some((n, t)), seq![ActionView::Load { connect: c.connect.unwrap(), track: t }]),
            None => (c2, None, Seq::empty()),
        }
    } else {
        (c, None, Seq::empty())
    }
}

/// Playing: with a client and a media session, playback is resumed.
pub open spec fn play_spec(c: ControllerView) -> Seq<ActionView> {
    if c.has_client && c.session is Some {
        seq![ActionView::Play(c.session.unwrap())]
    } else {
        Seq::empty()
    }
}

/// Pausing: with a client and a media session, playback is paused.
pub open spec fn pause_spec(c: ControllerView) -> Seq<ActionView> {
    if c.has_client && c.session is Some {
        seq![ActionView::Pause(c.session.unwrap())]
    } else {
        Seq::empty()
    }
}

/// Shutting down: the media session is stopped and the client shut down,
/// the shutdown trigger fires if it has not yet, and the view terminates.
pub open spec fn shutdown_spec(c: ControllerView) -> (ControllerView, Seq<ActionView>) {
    let client_actions = if c.has_client {
        (if c.session is Some { seq![ActionView::Stop(c.session.unwrap())] } else { Seq::empty() }).push(
            ActionView::ShutdownClient,
        )
    } else {
        Seq::empty()
    };
    let trigger = if c.shutdown_armed { seq![ActionView::TriggerShutdown] } else { Seq::empty() };
    (ControllerView { shutdown_armed: false, lifecycle: Lifecycle::Terminating, ..c }, client_actions + trigger)
}

/// Hands the waiting events to the view, unless the view is not loaded yet.
pub open spec fn deliver(c: ControllerView, actions: Seq<ActionView>) -> (ControllerView, Seq<EventView>, Seq<ActionView>) {
    if c.lifecycle == Lifecycle::Uninitialized {
        (c, Seq::empty(), actions)
    } else {
        (ControllerView { events: Seq::empty(), ..c }, c.events, actions)
    }
}

/// Reaction to a status: the controller after it, the events handed to the
/// view, and the actions to perform.
pub open spec fn handle_spec(c: ControllerView, s: StatusView) -> (ControllerView, Seq<EventView>, Seq<ActionView>) {
    match s {
        StatusView::Connected(conn) => {
            let (c2, out, actions) = load_next_spec(ControllerView { connect: Some(conn), ..c });
            let events = match out {
                Some((n, t)) => c2.events.push(EventView::SetMedia { track: t, cursor: n }).push(
                    EventView::SetPlayback { is_playing: true },
                ),
                None => c2.events,
            };
            deliver(ControllerView { events, ..c2 }, actions)
        },
        StatusView::MediaConnected(session) => {
            let c2 = ControllerView { session: Some(session), ..c };
            deliver(c2, play_spec(c2))
        },
        StatusView::MediaState { current_time_micros } => if current_time_micros < c.config.duration_micros {
            deliver(
                ControllerView { events: c.events.push(EventView::SetElapsed { elapsed_micros: current_time_micros }), ..c },
                Seq::empty(),
            )
        } else if c.session is Some {
            let (c2, out, actions) = load_next_spec(c);
            match out {
                Some((n, t)) => deliver(
                    ControllerView {
                        session: None,
                        events: c2.events.push(EventView::SetMedia { track: t, cursor: n }),
                        ..c2
                    },
                    actions,
                ),
                None => {
                    let c3 = ControllerView {
                        events: c2.events.push(EventView::ClearMedia).push(EventView::Shutdown),
                        ..c2
                    };
                    let (c4, more) = shutdown_spec(c3);
                    deliver(c4, actions + more)
                },
            }
        } else {
            deliver(c, Seq::empty())
        },
        StatusView::Other => deliver(c, Seq::empty()),
    }
}

impl Controller {
    /// A controller for a game with `config` over `playlist`, before the view
    /// is loaded and before a device client is set.
    pub fn new(config: Config, playlist: Playlist) -> (c: Self)
        ensures
            c@ == (ControllerView {
                config,
                lifecycle: Lifecycle::Uninitialized,
                playlist: playlist@,
                has_client: false,
                connect: None,
                session: None,
                shutdown_armed: true,
                events: Seq::empty(),
                devices: Seq::empty(),
            }),
    {
        let c = Controller {
            config,
            lifecycle: Lifecycle::Uninitialized,
            playlist,
            has_client: false,
            connect: None,
            session: None,
            shutdown_armed: true,
            events: Vec::new(),
            devices: Vec::new(),
        };
        assert(c@.events =~= Seq::<EventView>::empty());
        assert(c@.devices =~= Seq::<Device>::empty());
        c
    }

    /// Replaces the list of devices shown by the view.
    pub fn set_devices(&mut self, devices: Vec<Device>)
        ensures
            final(self)@ == (ControllerView { devices: devices@, ..old(self)@ }),
    {
        self.devices = devices;
    }

    /// The devices shown by the view.
    pub fn devices(&self) -> (r: &[Device])
        ensures
            r@ == self@.devices,
    {
        self.devices.as_slice()
    }

    /// Records that a device client is set; returns whether a client was set
    /// before, which must then be shut down.
    pub fn set_client(&mut self) -> (replaced: bool)
        ensures
            replaced == old(self)@.has_client,
            final(self)@ == (ControllerView { has_client: true, ..old(self)@ }),
    {
        let replaced = self.has_client;
        self.has_client = true;
        replaced
    }

    pub fn playlist_name(&self) -> (r: &str)
        ensures
            r@ == self@.playlist.name,
    {
        self.playlist.name()
    }

    /// Records that the view finished loading.
    pub fn view_did_load(&mut self)
        ensures
            final(self)@ == (ControllerView { lifecycle: Lifecycle::Loaded, ..old(self)@ }),
    {
        self.lifecycle = Lifecycle::Loaded;
    }

    pub fn view_lifecycle(&self) -> (r: &Lifecycle)
        ensures
            *r == self@.lifecycle,
    {
        &self.lifecycle
    }

    fn push_event(&mut self, e: Event)
        ensures
            final(self)@ == (ControllerView { events: old(self)@.events.push(event_view(e)), ..old(self)@ }),
    {
        self.events.push(e);
        assert(events_view(self.events@) =~= events_view(old(self).events@).push(event_view(e)));
    }

    /// Plays the next round when a client and a receiver session are known,
    /// adding the load of its track to `actions`.
    fn load_next(&mut self, actions: &mut Vec<Action>) -> (r: Option<(u64, Track)>)
        ensures
            final(self)@ == load_next_spec(old(self)@).0,
            actions_view(final(actions)@) == actions_view(old(actions)@) + load_next_spec(old(self)@).2,
            match load_next_spec(old(self)@).1 {
                None => r is None,
                Some((n, t)) => r matches Some((m, track)) && m == n && track@ == t,
            },
    {
        if !self.has_client {
            assert(actions_view(actions@) =~= actions_view(actions@) + Seq::<ActionView>::empty());
            return None;
        }
        let connect = match &self.connect {
            Some(c) => c.clone(),
            None => {
                assert(actions_view(actions@) =~= actions_view(actions@) + Seq::<ActionView>::empty());
                return None;
            },
        };
        let ghost before = self@;
        let out = self.playlist.next();
        assert(self@ == (ControllerView { playlist: next_step(before.playlist).0, ..before }));
        match out {
            Some((cursor, track)) => {
                let ghost old_actions = actions@;
                actions.push(Action::Load { connect, track: track.clone() });
                assert(actions_view(actions@) =~= actions_view(old_actions).push(
                    ActionView::Load { connect: before.connect.unwrap(), track: track@ },
                ));
                Some((cursor, track))
            },
            None => {
                assert(actions_view(actions@) =~= actions_view(actions@) + Seq::<ActionView>::empty());
                None
            },
        }
    }

    /// Resumes playback of the current media session, if there is one.
    pub fn play(&self) -> (r: Vec<Action>)
        ensures
            actions_view(r@) == play_spec(self@),
    {
        let mut r: Vec<Action> = Vec::new();
        if self.has_client {
            if let Some(session) = &self.session {
                r.push(Action::Play(session.clone()));
            }
        }
        assert(actions_view(r@) =~= play_spec(self@));
        r
    }

    /// Pauses playback of the current media session, if there is one.
    pub fn pause(&self) -> (r: Vec<Action>)
        ensures
            actions_view(r@) == pause_spec(self@),
    {
        let mut r: Vec<Action> = Vec::new();
        if self.has_client {
            if let Some(session) = &self.session {
                r.push(Action::Pause(session.clone()));
            }
        }
        assert(actions_view(r@) =~= pause_spec(self@));
        r
    }

    /// Ends the game: stops the media session and shuts the client down,
    /// fires the shutdown trigger once, and terminates the view.
    fn shutdown(&mut self, actions: &mut Vec<Action>)
        ensures
            final(self)@ == shutdown_spec(old(self)@).0,
            actions_view(final(actions)@) == actions_view(old(actions)@) + shutdown_spec(old(self)@).1,
    {
        let ghost start = actions_view(actions@);
        if self.has_client {
            if let Some(session) = &self.session {
                actions.push(Action::Stop(session.clone()));
            }
            actions.push(Action::ShutdownClient);
        }
        if self.shutdown_armed {
            self.shutdown_armed = false;
            actions.push(Action::TriggerShutdown);
        }
        self.lifecycle = Lifecycle::Terminating;
        assert(actions_view(actions@) =~= start + shutdown_spec(old(self)@).1);
    }

    /// Hands the waiting events to the view unless it is not loaded yet.
    fn deliver_events(&mut self) -> (r: Vec<Event>)
        ensures
            final(self)@ == deliver(old(self)@, Seq::empty()).0,
            events_view(r@) == deliver(old(self)@, Seq::empty()).1,
    {
        if self.lifecycle == Lifecycle::Uninitialized {
            let r: Vec<Event> = Vec::new();
            assert(events_view(r@) =~= Seq::<EventView>::empty());
            return r;
        }
        let mut r: Vec<Event> = Vec::new();
        std::mem::swap(&mut r, &mut self.events);
        assert(events_view(self.events@) =~= Seq::<EventView>::empty());
        r
    }

    /// Reacts to a status of the device: returns the events for the view
    /// (none while the view is not loaded; they wait until it is) and the
    /// actions to perform.
    pub fn handle(&mut self, event: Status) -> (r: (Vec<Event>, Vec<Action>))
        ensures
            final(self)@ == handle_spec(old(self)@, status_view(event)).0,
            events_view(r.0@) == handle_spec(old(self)@, status_view(event)).1,
            actions_view(r.1@) == handle_spec(old(self)@, status_view(event)).2,
    {
        let mut actions: Vec<Action> = Vec::new();
        assert(actions_view(actions@) =~= Seq::<ActionView>::empty());
        match event {
            Status::Connected(connect) => {
                self.connect = Some(connect);
                if let Some((cursor, track)) = self.load_next(&mut actions) {
                    self.push_event(Event::SetMedia { track, cursor });
                    self.push_event(Event::SetPlayback { is_playing: true });
                }
            },
            Status::MediaConnected(session) => {
                self.session = Some(session);
                let more = self.play();
                actions = more;
            },
            Status::MediaState(state) => {
                if state.current_time_micros < self.config.duration_micros {
                    self.push_event(Event::SetElapsed { elapsed_micros: state.current_time_micros });
                } else if self.session.is_some() {
                    if let Some((cursor, track)) = self.load_next(&mut actions) {
                        self.session = None;
                        self.push_event(Event::SetMedia { track, cursor });
                    } else {
                        self.push_event(Event::ClearMedia);
                        self.push_event(Event::Shutdown);
                        self.shutdown(&mut actions);
                    }
                }
            },
            _ => {},
        }
        let events = self.deliver_events();
        (events, actions)
    }
}

/// No event is lost or reordered: the events waiting before a status come
/// first in what is handed to the view plus what is still waiting; while
/// the view is not loaded nothing is handed over, and once it is, nothing
/// is left waiting.
pub proof fn lemma_events_kept(c: ControllerView, s: StatusView)
    ensures
        ({
            let (c2, handed, _) = handle_spec(c, s);
            &&& c.events.is_prefix_of(handed + c2.events)
            &&& c2.lifecycle == Lifecycle::Uninitialized ==> handed.len() == 0
            &&& c2.lifecycle != Lifecycle::Uninitialized ==> c2.events.len() == 0
            &&& c.lifecycle != Lifecycle::Uninitialized ==> c2.lifecycle != Lifecycle::Uninitialized
        }),
{
    let (c2, handed, _) = handle_spec(c, s);
    assert((handed + c2.events).take(c.events.len() as int) =~= c.events);
}

/// The shutdown trigger fires at most once, however often the game is shut
/// down.
pub proof fn lemma_shutdown_trigger_once(c: ControllerView)
    ensures
        !shutdown_spec(shutdown_spec(c).0).1.contains(ActionView::TriggerShutdown),
        shutdown_spec(c).0.lifecycle == Lifecycle::Terminating,
{
    let c1 = shutdown_spec(c).0;
    let a = shutdown_spec(c1).1;
    assert forall|i: int| 0 <= i < a.len() implies a[i] != ActionView::TriggerShutdown by {}
}

/// A round is not cut short: a playback position before the end of the round
/// only updates the elapsed time; the playlist stays as it is and nothing is
/// done on the device.
pub proof fn lemma_round_not_cut_short(c: ControllerView, t: u64)
    requires
        t < c.config.duration_micros,
    ensures
        ({
            let (c2, _, actions) = handle_spec(c, StatusView::MediaState { current_time_micros: t });
            &&& c2.playlist == c.playlist
            &&& c2.session == c.session
            &&& actions.len() == 0
        }),
{
}

} // verus!
