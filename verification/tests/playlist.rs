use punchtop::app::Config;
use punchtop::playlist::fs::{
    build, directory_playlist_name, duration_probe, mp4_duration, is_audio_media, is_playable_candidate, is_sufficient_duration, new, playlist_size,
    scale_to_micros, Candidate, DurationProbe, MediaDuration, Track, TrackTime, FALLBACK_PLAYLIST_SIZE, MUSIC_PLAYLIST_NAME,
};

fn mp3(path: &str, seconds: u128) -> Candidate {
    Candidate {
        path: path.to_string(),
        mime: "audio/mpeg".to_string(),
        duration: MediaDuration::Mp3(Some(seconds * 1_000_000_000)),
    }
}

fn config(seconds: u64, iterations: u64) -> Config {
    Config { duration_micros: seconds * 1_000_000, iterations }
}

fn is_id(id: &str) -> bool {
    id.len() == 8 && id.chars().all(|c| c.is_ascii_alphanumeric())
}

#[test]
fn scale_to_micros_converts_track_time() {
    assert_eq!(scale_to_micros(Some(44_100 * 90), Some(44_100)), Some(90_000_000));
    assert_eq!(scale_to_micros(Some(3), Some(2)), Some(1_500_000));
    assert_eq!(scale_to_micros(Some(1), Some(3)), Some(333_333));
    assert_eq!(scale_to_micros(Some(0), Some(7)), Some(0));
    assert_eq!(scale_to_micros(None, Some(7)), None);
    assert_eq!(scale_to_micros(Some(7), None), None);
    assert_eq!(scale_to_micros(Some(7), Some(0)), None);
    // whole seconds times a million overflow 64 bits
    assert_eq!(scale_to_micros(Some(u64::MAX), Some(1)), None);
    // the largest whole-second count that fits
    assert_eq!(scale_to_micros(Some(18_446_744_073_709), Some(1)), Some(18_446_744_073_709_000_000));
    // the remainder times a million overflows
    assert_eq!(scale_to_micros(Some(u64::MAX - 1), Some(u64::MAX)), None);
}

#[test]
fn audio_types() {
    for mime in ["audio/mpeg", "audio/mp3", "audio/aac", "audio/mp4", "audio/flac", "audio/ogg", "application/ogg", "audio/webm"] {
        assert!(is_audio_media(mime), "{}", mime);
    }
    for mime in ["video/mp4", "audio/wav", "", "AUDIO/MPEG", "audio/mpeg "] {
        assert!(!is_audio_media(mime), "{}", mime);
    }
    assert_eq!(duration_probe("audio/mp3"), DurationProbe::Mp3);
    assert_eq!(duration_probe("audio/mp4"), DurationProbe::Mp4);
    assert_eq!(duration_probe("audio/aac"), DurationProbe::Mp4);
    assert_eq!(duration_probe("audio/flac"), DurationProbe::Unsupported);
}

#[test]
fn sufficient_duration_by_type() {
    let d = 20_000_000;
    assert!(is_sufficient_duration("audio/mpeg", &MediaDuration::Mp3(Some(20_000_000_000)), d));
    assert!(!is_sufficient_duration("audio/mpeg", &MediaDuration::Mp3(Some(19_999_999_999)), d));
    assert!(!is_sufficient_duration("audio/mpeg", &MediaDuration::Mp3(None), d));
    assert!(!is_sufficient_duration("audio/mpeg", &MediaDuration::Unknown, d));
    let long = TrackTime { duration: Some(44_100 * 30), timescale: Some(44_100) };
    let exact = TrackTime { duration: Some(20), timescale: Some(1) };
    let unknown = TrackTime { duration: None, timescale: Some(1) };
    assert!(is_sufficient_duration("audio/mp4", &MediaDuration::Mp4(Some(vec![long])), d));
    assert!(is_sufficient_duration("audio/mp4", &MediaDuration::Mp4(Some(vec![])), d));
    assert!(!is_sufficient_duration("audio/mp4", &MediaDuration::Mp4(Some(vec![long, exact])), d));
    assert!(!is_sufficient_duration("audio/aac", &MediaDuration::Mp4(Some(vec![unknown])), d));
    assert!(!is_sufficient_duration("audio/aac", &MediaDuration::Mp4(None), d));
    assert!(!is_sufficient_duration("audio/flac", &MediaDuration::Mp3(Some(u128::MAX)), d));
    // an MP3 duration read for an MP4 type does not count
    assert!(!is_sufficient_duration("audio/mp4", &MediaDuration::Mp3(Some(u128::MAX)), d));
}

#[test]
fn playable_candidates() {
    let c = config(20, 10);
    assert!(is_playable_candidate(&mp3("a.mp3", 30), &c));
    assert!(!is_playable_candidate(&mp3("a.mp3", 10), &c));
    let text = Candidate { path: "notes.txt".to_string(), mime: "text/plain".to_string(), duration: MediaDuration::Unknown };
    assert!(!is_playable_candidate(&text, &c));
}

#[test]
fn playlist_size_is_the_number_of_rounds() {
    assert_eq!(playlist_size(&config(1, 7)), 7);
    assert_eq!(playlist_size(&config(1, 0)), 0);
    assert_eq!(FALLBACK_PLAYLIST_SIZE, 60);
}

#[test]
fn track_ids_are_alphanumeric() {
    let track = Track::new("/music/a.mp3".to_string());
    assert_eq!(track.path(), "/music/a.mp3");
    assert!(is_id(track.id()));
    let other = Track::new("/music/a.mp3".to_string());
    assert!(is_id(other.id()));
}

#[test]
fn build_keeps_playable_candidates_in_order_up_to_the_size() {
    let candidates = vec![mp3("1", 30), mp3("short", 5), mp3("2", 30), mp3("3", 30), mp3("4", 30)];
    let mut playlist = build("Party", candidates, &config(20, 3));
    assert_eq!(playlist.name(), "Party");
    let (n, t) = playlist.next().unwrap();
    assert_eq!((n, t.path()), (1, "1"));
    let (n, t) = playlist.next().unwrap();
    assert_eq!((n, t.path()), (2, "2"));
    let (n, t) = playlist.next().unwrap();
    assert_eq!((n, t.path()), (3, "3"));
    // three rounds were configured
    assert!(playlist.next().is_none());
    assert!(playlist.next().is_none());
}

#[test]
fn rounds_cycle_through_the_tracks() {
    let mut playlist = build("p", vec![mp3("a", 30), mp3("b", 30)], &config(20, 5));
    let paths: Vec<(u64, String)> = std::iter::from_fn(|| playlist.next()).map(|(n, t)| (n, t.path().to_string())).collect();
    assert_eq!(
        paths,
        vec![(1, "a".to_string()), (2, "b".to_string()), (3, "a".to_string()), (4, "b".to_string()), (5, "a".to_string())]
    );
    // no track at all: rounds pass without media
    let mut empty = build("e", vec![], &config(20, 2));
    assert!(empty.next().is_none());
}

#[test]
fn registry_holds_every_track_by_id() {
    let mut playlist = build("p", vec![mp3("a", 30), mp3("b", 30), mp3("c", 1)], &config(20, 10));
    let registry = playlist.registry();
    assert_eq!(registry.len(), 2);
    let (_, first) = playlist.next().unwrap();
    let (_, second) = playlist.next().unwrap();
    assert_eq!(registry.get(first.id()).unwrap().path(), "a");
    assert_eq!(registry.get(second.id()).unwrap().path(), "b");
    assert_eq!(registry.get(first.id()).unwrap().id(), first.id());
    assert!(registry.get("").is_none());
}

#[test]
fn new_shuffles_but_keeps_the_playable_tracks() {
    let candidates = vec![mp3("a", 30), mp3("b", 30), mp3("c", 30), mp3("x", 1)];
    let mut playlist = new("Shuffled", candidates, &config(20, 3));
    assert_eq!(playlist.name(), "Shuffled");
    let mut paths: Vec<String> = std::iter::from_fn(|| playlist.next()).map(|(_, t)| t.path().to_string()).collect();
    paths.sort();
    assert_eq!(paths, vec!["a".to_string(), "b".to_string(), "c".to_string()]);
}

#[test]
fn playlist_names() {
    assert_eq!(directory_playlist_name(Some("keys".to_string())), "keys");
    assert_eq!(directory_playlist_name(None), "Playlist");
    assert_eq!(MUSIC_PLAYLIST_NAME, "My Music");
}

#[test]
fn rounds_keep_the_registry() {
    let mut playlist = build("p", vec![mp3("a", 30), mp3("b", 30), mp3("c", 30)], &config(20, 10));
    let before = playlist.registry();
    let mut ids = Vec::new();
    for _ in 0..5 {
        let (_, track) = playlist.next().unwrap();
        ids.push(track.id().to_string());
    }
    let after = playlist.registry();
    assert_eq!(after.len(), before.len());
    for id in &ids {
        assert_eq!(after.get(id).unwrap().path(), before.get(id).unwrap().path());
    }
}

fn mp4_box(name: &[u8; 4], content: &[u8]) -> Vec<u8> {
    let mut out = ((content.len() + 8) as u32).to_be_bytes().to_vec();
    out.extend_from_slice(name);
    out.extend_from_slice(content);
    out
}

fn mp4_file(tracks: &[(u32, u32)]) -> Vec<u8> {
    let mut ftyp = b"isom".to_vec();
    ftyp.extend([0, 0, 0, 0]);
    let mut mvhd = vec![0u8; 4 + 8];
    mvhd.extend(1000u32.to_be_bytes());
    mvhd.extend(0u32.to_be_bytes());
    mvhd.extend(vec![0u8; 80]);
    let mut moov = mp4_box(b"mvhd", &mvhd);
    for (timescale, duration) in tracks {
        let mut mdhd = vec![0u8; 4 + 8];
        mdhd.extend(timescale.to_be_bytes());
        mdhd.extend(duration.to_be_bytes());
        mdhd.extend([0, 0, 0, 0]);
        moov.extend(mp4_box(b"trak", &mp4_box(b"mdia", &mp4_box(b"mdhd", &mdhd))));
    }
    let mut file = mp4_box(b"ftyp", &ftyp);
    file.extend(mp4_box(b"moov", &moov));
    file
}

#[test]
fn mp4_duration_reads_track_times() {
    match mp4_duration(&mp4_file(&[(44_100, 44_100 * 30), (1000, 5000)])) {
        MediaDuration::Mp4(Some(tracks)) => {
            assert_eq!(tracks.len(), 2);
            assert_eq!((tracks[0].duration, tracks[0].timescale), (Some(44_100 * 30), Some(44_100)));
            assert_eq!((tracks[1].duration, tracks[1].timescale), (Some(5000), Some(1000)));
            assert!(is_sufficient_duration("audio/mp4", &MediaDuration::Mp4(Some(vec![tracks[0]])), 20_000_000));
            assert!(!is_sufficient_duration("audio/mp4", &MediaDuration::Mp4(Some(tracks)), 20_000_000));
        }
        other => panic!("unexpected {:?}", other),
    }
    assert!(matches!(mp4_duration(&mp4_file(&[])), MediaDuration::Mp4(Some(t)) if t.is_empty()));
}

#[test]
fn mp4_duration_of_other_bytes_is_unknown() {
    assert!(matches!(mp4_duration(b"not an mp4 file at all"), MediaDuration::Mp4(None)));
    assert!(matches!(mp4_duration(&[]), MediaDuration::Mp4(None)));
}
