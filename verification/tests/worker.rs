use punchtop::cast::payload::{heartbeat, media, receiver};
use punchtop::cast::provider::{Command, Error, Image, Media, MediaConnection, ReceiverConnection, Status};
use punchtop::cast::proto::ProtoError;
use punchtop::cast::worker::read::{do_heartbeat, do_media, do_receiver, read, ChannelError, Payload};
use punchtop::cast::worker::status::{invalidate_media_connection, register_media_session, task};
use punchtop::cast::{launch_app, load, pause, play, stop, ConnectState, DEFAULT_MEDIA_RECEIVER_APP_ID};

fn app(app_id: &str, session: &str, transport: &str) -> receiver::Applications {
    receiver::Applications {
        app_id: app_id.to_string(),
        display_name: "Default Media Receiver".to_string(),
        namespaces: vec![receiver::Namespace { name: "urn:x-cast:com.google.cast.media".to_string() }],
        session_id: session.to_string(),
        status_text: "".to_string(),
        transport_id: transport.to_string(),
    }
}

fn receiver_status(apps: Vec<receiver::Applications>) -> receiver::Response {
    receiver::Response::ReceiverStatus {
        request_id: 0,
        status: receiver::Status { applications: apps, is_active_input: false },
    }
}

fn media_status(entries: Vec<media::Status>) -> media::Response {
    media::Response::MediaStatus { request_id: 1, status: entries }
}

fn connected_state() -> ConnectState {
    let mut state = ConnectState::new();
    state.set_session(Some("s-1"));
    state.set_transport(Some("t-1"));
    state
}

#[test]
fn ping_is_answered_with_pong() {
    assert!(matches!(do_heartbeat(&heartbeat::Response::Ping), Some(Command::Pong)));
    assert!(do_heartbeat(&heartbeat::Response::Pong).is_none());
}

#[test]
fn receiver_status_of_default_app_connects_once() {
    let mut state = ConnectState::new();
    let apps = vec![app("OTHER", "s-0", "t-0"), app(DEFAULT_MEDIA_RECEIVER_APP_ID, "s-1", "t-1")];
    let (status, command) = do_receiver(receiver_status(apps), &mut state);
    match status {
        Some(Status::Connected(c)) => {
            assert_eq!(c.session, "s-1");
            assert_eq!(c.transport, "t-1");
        }
        other => panic!("unexpected {:?}", other),
    }
    match command {
        Some(Command::Connect { destination }) => assert_eq!(destination, "t-1"),
        other => panic!("unexpected {:?}", other),
    }
    // the same status again changes nothing and reports nothing
    let apps = vec![app(DEFAULT_MEDIA_RECEIVER_APP_ID, "s-1", "t-1")];
    let (status, command) = do_receiver(receiver_status(apps), &mut state);
    assert!(status.is_none() && command.is_none());
    let connect = state.receiver_connection().unwrap();
    assert_eq!((connect.session.as_str(), connect.transport.as_str()), ("s-1", "t-1"));
}

#[test]
fn receiver_status_without_default_app_forgets_session() {
    let mut state = connected_state();
    let (status, command) = do_receiver(receiver_status(vec![app("OTHER", "s", "t")]), &mut state);
    assert!(status.is_none() && command.is_none());
    assert!(state.receiver_connection().is_none());
}

#[test]
fn media_status_registers_session_and_reports_state() {
    let mut state = connected_state();
    let entry = media::Status { media_session_id: 4, current_time_micros: 1_500_000 };
    let out = do_media(media_status(vec![entry, media::Status { media_session_id: 9, current_time_micros: 0 }]), &mut state);
    assert_eq!(out.len(), 2);
    match &out[0] {
        Status::MediaConnected(c) => {
            assert_eq!(c.session, 4);
            assert_eq!(c.receiver.transport, "t-1");
        }
        other => panic!("unexpected {:?}", other),
    }
    match &out[1] {
        Status::MediaState(s) => assert_eq!((s.media_session_id, s.current_time_micros), (4, 1_500_000)),
        other => panic!("unexpected {:?}", other),
    }
    // the same session again only reports the state
    let out = do_media(media_status(vec![entry]), &mut state);
    assert_eq!(out.len(), 1);
    assert!(matches!(out[0], Status::MediaState(_)));
    // no session: the media connection is invalidated
    let out = do_media(media_status(vec![]), &mut state);
    assert!(out.is_empty());
    assert!(state.media_connection().is_none());
    assert!(state.receiver_connection().is_some());
}

#[test]
fn media_session_without_receiver_is_not_reported_connected() {
    let mut state = ConnectState::new();
    let out = do_media(media_status(vec![media::Status { media_session_id: 1, current_time_micros: 0 }]), &mut state);
    assert_eq!(out.len(), 1);
    assert!(matches!(out[0], Status::MediaState(_)));
}

#[test]
fn status_task_polls_media_only_with_a_session() {
    let mut state = connected_state();
    let commands = task(&state);
    assert_eq!(commands.len(), 1);
    assert!(matches!(commands[0], Command::ReceiverStatus));
    let connect = register_media_session(&mut state, 12).unwrap();
    assert_eq!(connect.session, 12);
    assert!(register_media_session(&mut state, 12).is_none());
    let commands = task(&state);
    assert_eq!(commands.len(), 2);
    match &commands[1] {
        Command::MediaStatus { transport } => assert_eq!(transport, "t-1"),
        other => panic!("unexpected {:?}", other),
    }
    invalidate_media_connection(&mut state);
    assert_eq!(task(&state).len(), 1);
}

#[test]
fn connect_state_setters_report_changes() {
    let mut state = ConnectState::new();
    assert!(state.set_session(Some("a")));
    assert!(!state.set_session(Some("a")));
    assert!(state.set_session(Some("b")));
    assert!(state.set_transport(Some("t")));
    assert!(!state.set_transport(Some("t")));
    assert!(state.set_media_session(Some(1)));
    assert!(!state.set_media_session(Some(1)));
    assert!(state.set_media_session(None));
    assert!(!state.set_media_session(None));
    assert!(state.set_session(None));
    assert!(state.receiver_connection().is_none());
}

#[test]
fn read_dispatches_by_channel() {
    let mut state = connected_state();
    let (statuses, commands) = read(Payload::Heartbeat(heartbeat::Response::Ping), &mut state).unwrap();
    assert!(statuses.is_empty());
    assert_eq!(commands.len(), 1);
    assert!(matches!(commands[0], Command::Pong));
    let (statuses, commands) = read(Payload::Heartbeat(heartbeat::Response::Pong), &mut state).unwrap();
    assert!(statuses.is_empty() && commands.is_empty());
    let entry = media::Status { media_session_id: 2, current_time_micros: 10 };
    let (statuses, commands) = read(Payload::Media(media_status(vec![entry])), &mut state).unwrap();
    assert_eq!(statuses.len(), 2);
    assert!(commands.is_empty());
    let apps = vec![app(DEFAULT_MEDIA_RECEIVER_APP_ID, "s-2", "t-2")];
    let (statuses, commands) = read(Payload::Receiver(receiver_status(apps)), &mut state).unwrap();
    assert_eq!(statuses.len(), 1);
    assert_eq!(commands.len(), 1);
    match read(Payload::Connection(punchtop::cast::payload::connection::Response::Close), &mut state) {
        Err(e) => assert_eq!(e.to_display_string(), "Received unknown payload on unknown channel"),
        Ok(_) => panic!("connection payload accepted"),
    }
}

#[test]
fn channel_errors_name_the_channel() {
    assert_eq!(ChannelError::CommandSend("heartbeat".to_string()).to_display_string(), "Unable to send command from heartbeat channel");
    assert_eq!(ChannelError::StatusSend("media".to_string()).to_display_string(), "Unable to send status from media channel");
    assert_eq!(ChannelError::UnknownPayload("media".to_string()).to_display_string(), "Received unknown payload on media channel");
}

#[test]
fn cast_errors_describe_themselves() {
    assert_eq!(
        Error::UnknownChannel("urn:x\"y".to_string()).to_display_string(),
        "Message received on unknown channel \"urn:x\\\"y\""
    );
    assert_eq!(
        Error::InvalidMessage(ProtoError::Malformed).to_display_string(),
        "Message received that is not a valid cast message"
    );
}

#[test]
fn media_display_joins_known_tags() {
    let mut media = Media {
        title: Some("Song".to_string()),
        artist: Some("Band".to_string()),
        album: Some("Record".to_string()),
        url: "u".to_string(),
        cover: Some(Image { url: "c".to_string(), dimensions: (1, 2) }),
        content_type: "audio/mpeg".to_string(),
    };
    assert_eq!(media.to_display_string(), "Band -- Song -- Record");
    media.artist = None;
    assert_eq!(media.to_display_string(), "Song -- Record");
    media.album = None;
    assert_eq!(media.to_display_string(), "Song");
    media.title = None;
    assert_eq!(media.to_display_string(), "");
    media.album = Some("Only".to_string());
    assert_eq!(media.to_display_string(), "Only");
}

#[test]
fn client_commands() {
    let commands = launch_app();
    assert_eq!(commands.len(), 2);
    match (&commands[0], &commands[1]) {
        (Command::Connect { destination }, Command::Launch { app_id }) => {
            assert_eq!(destination, "receiver-0");
            assert_eq!(app_id, "CC1AD845");
        }
        other => panic!("unexpected {:?}", other),
    }
    let mut state = connected_state();
    state.set_media_session(Some(5));
    let connect = ReceiverConnection { session: "s-1".to_string(), transport: "t-1".to_string() };
    let media = Media { title: None, artist: None, album: None, url: "u".to_string(), cover: None, content_type: "audio/mpeg".to_string() };
    match load(&mut state, &connect, media) {
        Command::Load { session, transport, media } => {
            assert_eq!((session.as_str(), transport.as_str(), media.url.as_str()), ("s-1", "t-1", "u"));
        }
        other => panic!("unexpected {:?}", other),
    }
    assert!(state.media_connection().is_none());
    let session = MediaConnection { receiver: connect, session: 5 };
    assert!(matches!(pause(&session), Command::Pause));
    match play(&session) {
        Command::Play { media_session, transport } => assert_eq!((media_session, transport.as_str()), (5, "t-1")),
        other => panic!("unexpected {:?}", other),
    }
    match stop(&session) {
        Command::Stop { media_session, transport } => assert_eq!((media_session.as_str(), transport.as_str()), ("s-1", "t-1")),
        other => panic!("unexpected {:?}", other),
    }
}
