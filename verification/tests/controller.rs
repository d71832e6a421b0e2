use punchtop::app::{cover_image, media, Action, Config, Controller, Cover, Device, Event, Lifecycle, Tags};
use punchtop::backend::chromecast::{CastAddr, IpAddress};
use punchtop::cast::payload::media::Status as MediaStatus;
use punchtop::cast::provider::{MediaConnection, ReceiverConnection, Status};
use punchtop::playlist::fs::{build, Candidate, MediaDuration, Track};

fn mp3(path: &str) -> Candidate {
    Candidate { path: path.to_string(), mime: "audio/mp3".to_string(), duration: MediaDuration::Mp3(Some(60_000_000_000)) }
}

fn controller(paths: &[&str], iterations: u64) -> Controller {
    let config = Config { duration_micros: 20_000_000, iterations };
    let playlist = build("Game", paths.iter().map(|p| mp3(p)).collect(), &config);
    Controller::new(config, playlist)
}

fn receiver() -> ReceiverConnection {
    ReceiverConnection { session: "s".to_string(), transport: "t".to_string() }
}

fn session(id: i32) -> MediaConnection {
    MediaConnection { receiver: receiver(), session: id }
}

fn at(micros: u64) -> Status {
    Status::MediaState(MediaStatus { media_session_id: 1, current_time_micros: micros })
}

#[test]
fn new_controller_waits_for_the_view() {
    let c = controller(&["a"], 1);
    assert_eq!(*c.view_lifecycle(), Lifecycle::Uninitialized);
    assert_eq!(c.playlist_name(), "Game");
    assert!(c.play().is_empty());
    assert!(c.pause().is_empty());
    assert!(c.devices().is_empty());
}

#[test]
fn connected_receiver_loads_first_track() {
    let mut c = controller(&["a", "b"], 2);
    assert!(!c.set_client());
    c.view_did_load();
    let (events, actions) = c.handle(Status::Connected(receiver()));
    assert_eq!(actions.len(), 1);
    match &actions[0] {
        Action::Load { connect, track } => {
            assert_eq!(connect.transport, "t");
            assert_eq!(track.path(), "a");
        }
        other => panic!("unexpected {:?}", other),
    }
    assert_eq!(events.len(), 2);
    match (&events[0], &events[1]) {
        (Event::SetMedia { track, cursor }, Event::SetPlayback { is_playing }) => {
            assert_eq!((track.path(), *cursor, *is_playing), ("a", 1, true));
        }
        other => panic!("unexpected {:?}", other),
    }
}

#[test]
fn without_client_nothing_is_loaded() {
    let mut c = controller(&["a"], 1);
    c.view_did_load();
    let (events, actions) = c.handle(Status::Connected(receiver()));
    assert!(events.is_empty() && actions.is_empty());
}

#[test]
fn events_wait_until_the_view_is_loaded() {
    let mut c = controller(&["a"], 1);
    c.set_client();
    let (events, actions) = c.handle(Status::Connected(receiver()));
    assert!(events.is_empty());
    assert_eq!(actions.len(), 1);
    c.view_did_load();
    let (events, _) = c.handle(Status::LoadFailed);
    assert_eq!(events.len(), 2);
    assert!(matches!(events[0], Event::SetMedia { .. }));
    assert!(matches!(events[1], Event::SetPlayback { is_playing: true }));
}

#[test]
fn media_session_starts_playback_and_time_advances() {
    let mut c = controller(&["a", "b"], 2);
    c.set_client();
    c.view_did_load();
    c.handle(Status::Connected(receiver()));
    let (events, actions) = c.handle(Status::MediaConnected(session(3)));
    assert!(events.is_empty());
    assert_eq!(actions.len(), 1);
    assert!(matches!(&actions[0], Action::Play(s) if s.session == 3));
    assert!(matches!(&c.pause()[..], [Action::Pause(s)] if s.session == 3));
    assert!(matches!(&c.play()[..], [Action::Play(_)]));
    // before the end of the round only the elapsed time is shown
    let (events, actions) = c.handle(at(19_999_999));
    assert!(actions.is_empty());
    assert!(matches!(events[..], [Event::SetElapsed { elapsed_micros: 19_999_999 }]));
    // at the end of the round the next track is loaded
    let (events, actions) = c.handle(at(20_000_000));
    assert!(matches!(&actions[..], [Action::Load { track, .. }] if track.path() == "b"));
    assert!(matches!(&events[..], [Event::SetMedia { cursor: 2, .. }]));
    // the media session was dropped, so a late status does nothing
    let (events, actions) = c.handle(at(25_000_000));
    assert!(events.is_empty() && actions.is_empty());
}

#[test]
fn last_round_shuts_the_game_down_once() {
    let mut c = controller(&["a"], 1);
    c.set_client();
    c.view_did_load();
    c.handle(Status::Connected(receiver()));
    c.handle(Status::MediaConnected(session(1)));
    let (events, actions) = c.handle(at(21_000_000));
    assert!(matches!(events[..], [Event::ClearMedia, Event::Shutdown]));
    assert_eq!(actions.len(), 3);
    assert!(matches!(&actions[0], Action::Stop(s) if s.session == 1));
    assert!(matches!(actions[1], Action::ShutdownClient));
    assert!(matches!(actions[2], Action::TriggerShutdown));
    assert_eq!(*c.view_lifecycle(), Lifecycle::Terminating);
    // shutting down again does not fire the trigger a second time
    let (events, actions) = c.handle(at(22_000_000));
    assert!(matches!(events[..], [Event::ClearMedia, Event::Shutdown]));
    assert!(!actions.iter().any(|a| matches!(a, Action::TriggerShutdown)));
}

#[test]
fn replacing_the_client_is_reported() {
    let mut c = controller(&[], 0);
    assert!(!c.set_client());
    assert!(c.set_client());
}

#[test]
fn devices_are_replaced() {
    let mut c = controller(&[], 0);
    let cast = CastAddr { name: "Kitchen".to_string(), ip: IpAddress::V4([10, 0, 0, 2]), port: 8009 };
    c.set_devices(vec![
        Device::Cast { name: "Kitchen".to_string(), is_connected: false, connect: cast },
        Device::Local { name: "Local".to_string(), is_connected: true },
    ]);
    assert_eq!(c.devices().len(), 2);
    assert!(matches!(&c.devices()[1], Device::Local { is_connected: true, .. }));
    c.set_devices(vec![]);
    assert!(c.devices().is_empty());
}

#[test]
fn view_media_uses_tags_and_cover() {
    let track = Track::new("/m/a.mp3".to_string());
    let tags = Tags { artist: Some("Band".to_string()), title: None };
    let cover = Cover { mime: "image/png".to_string(), bytes: vec![0xfb, 0xff, 0x00], dimensions: None };
    let m = media(&track, 4, Some(tags), Some(cover));
    assert_eq!(m.id, track.id());
    assert_eq!(m.cursor, 4);
    assert_eq!(m.artist.as_deref(), Some("Band"));
    assert_eq!(m.title, None);
    let image = m.cover.unwrap();
    assert_eq!(image.url, "data:image/png;base64,-_8A");
    assert_eq!((image.width, image.height), (600, 600));
    let bare = media(&track, 1, None, None);
    assert!(bare.artist.is_none() && bare.title.is_none() && bare.cover.is_none());
}

#[test]
fn cover_image_keeps_known_dimensions() {
    let cover = Cover { mime: "image/jpeg".to_string(), bytes: b"ab".to_vec(), dimensions: Some((300, 200)) };
    let image = cover_image(&cover);
    assert_eq!(image.url, "data:image/jpeg;base64,YWI=");
    assert_eq!((image.width, image.height), (300, 200));
}
