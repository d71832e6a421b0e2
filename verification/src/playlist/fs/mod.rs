//! Playlists of audio files found on the local file system. Finding the
//! files and reading their types and durations is done by the caller; the
//! functions here decide which files make a game and in which order tracks
//! are played.
use vstd::prelude::*;
use vstd::hash_map::StringHashMap;
use std::collections::VecDeque;

use rand::distributions::Alphanumeric;
use rand::seq::SliceRandom;
use rand::{thread_rng, Rng};

use crate::app::Config;
use crate::backend::chromecast::parser::is_key_char;
use crate::util::str_eq;

verus! {

broadcast use vstd::std_specs::vecdeque::group_vec_dequeue_axioms;

/// Size of a playlist when the configured number of rounds does not fit a
/// `usize`.
pub const FALLBACK_PLAYLIST_SIZE: usize = 60;

/// Number of microseconds in a second.
pub const MICROSECONDS_PER_SECOND: u64 = 1_000_000;

/// Audio types that a cast device can play.
pub open spec fn is_audio_mime(mime: Seq<char>) -> bool {
    mime == "audio/mpeg"@ || mime == "audio/mp3"@ || mime == "audio/aac"@ || mime == "audio/mp4"@
        || mime == "audio/flac"@ || mime == "audio/ogg"@ || mime == "application/ogg"@
        || mime == "audio/webm"@
}

/// Types whose duration is read as MP3.
pub open spec fn is_mp3_mime(mime: Seq<char>) -> bool {
    mime == "audio/mpeg"@ || mime == "audio/mp3"@
}

/// Types whose duration is read from MP4 tracks.
pub open spec fn is_mp4_mime(mime: Seq<char>) -> bool {
    mime == "audio/aac"@ || mime == "audio/mp4"@
}

/// Whether a file of type `mime` is audio that a cast device can play.
pub fn is_audio_media(mime: &str) -> (r: bool)
    ensures
        r == is_audio_mime(mime@),
{
    str_eq(mime, "audio/mpeg") || str_eq(mime, "audio/mp3") || str_eq(mime, "audio/aac")
        || str_eq(mime, "audio/mp4") || str_eq(mime, "audio/flac") || str_eq(mime, "audio/ogg")
        || str_eq(mime, "application/ogg") || str_eq(mime, "audio/webm")
}

/// How the duration of a file of a given type is found.
#[derive(Clone, Copy, Debug, PartialEq, Eq, Structural)]
pub enum DurationProbe {
    /// Read the length of the MP3 stream.
    Mp3,
    /// Read the duration and timescale of each MP4 track.
    Mp4,
    /// The duration of this type is not read; such files are never long
    /// enough.
    Unsupported,
}

/// How the duration of a file of type `mime` is found.
pub fn duration_probe(mime: &str) -> (r: DurationProbe)
    ensures
        r == (if is_mp3_mime(mime@) {
            DurationProbe::Mp3
        } else if is_mp4_mime(mime@) {
            DurationProbe::Mp4
        } else {
            DurationProbe::Unsupported
        }),
{
    if str_eq(mime, "audio/mpeg") || str_eq(mime, "audio/mp3") {
        DurationProbe::Mp3
    } else if str_eq(mime, "audio/aac") || str_eq(mime, "audio/mp4") {
        DurationProbe::Mp4
    } else {
        DurationProbe::Unsupported
    }
}

/// Duration of an MP4 track, in units of its timescale, and the timescale
/// (units per second); either may be missing.
#[derive(Clone, Copy, Debug)]
pub struct TrackTime {
    pub duration: Option<u64>,
    pub timescale: Option<u64>,
}

/// What was read about the duration of a file.
#[derive(Clone, Debug)]
pub enum MediaDuration {
    /// Length of an MP3 stream in nanoseconds, if it could be read.
    Mp3(Option<u128>),
    /// Times of the tracks of an MP4 file, if the file could be read.
    Mp4(Option<Vec<TrackTime>>),
    /// Nothing was read.
    Unknown,
}

/// The duration and timescale of each track of the MP4 file held by
/// `bytes`, in the order of the file, or `None` when the bytes do not parse
/// as an MP4 file.
pub uninterp spec fn mp4_track_times(bytes: Seq<u8>) -> Option<Seq<(Option<u64>, Option<u64>)>>;

/// The pair of a track time: its duration and timescale.
pub open spec fn track_time_pair(t: TrackTime) -> (Option<u64>, Option<u64>) {
    (t.duration, t.timescale)
}

/// Reads the track times of the MP4 file held by `bytes`.
///
/// Calls `mp4parse::read_mp4` on a cursor over the bytes, which fails on
/// input that does not parse, and takes the duration and timescale of each
/// track of the result; what parses and which values come out is left to the
/// name `mp4_track_times`.
#[verifier::external_body]
fn read_mp4_track_times(bytes: &[u8]) -> (r: Option<Vec<TrackTime>>)
    ensures
        match (r, mp4_track_times(bytes@)) {
            (None, None) => true,
            (Some(v), Some(times)) => v@.map_values(|t: TrackTime| track_time_pair(t)) == times,
            _ => false,
        },
{
    let context = match mp4parse::read_mp4(&mut std::io::Cursor::new(bytes)) {
        Ok(context) => context,
        Err(_) => return None,
    };
    Some(
        context
            .tracks
            .iter()
            .map(|t| TrackTime { duration: t.duration.map(|d| d.0), timescale: t.timescale.map(|s| s.0) })
            .collect(),
    )
}

/// What is read about the duration of the MP4 file held by `bytes`: the
/// times of its tracks, or nothing when the bytes do not parse.
pub fn mp4_duration(bytes: &[u8]) -> (d: MediaDuration)
    ensures
        match (d, mp4_track_times(bytes@)) {
            (MediaDuration::Mp4(None), None) => true,
            (MediaDuration::Mp4(Some(v)), Some(times)) => v@.map_values(|t: TrackTime| track_time_pair(t)) == times,
            _ => false,
        },
{
    MediaDuration::Mp4(read_mp4_track_times(bytes))
}

/// A file found for a playlist: its path, type and what was read about its
/// duration.
#[derive(Clone, Debug)]
pub struct Candidate {
    pub path: String,
    pub mime: String,
    pub duration: MediaDuration,
}

/// `duration` units of `1/scale` seconds in whole microseconds, computed as
/// whole seconds and remainder in 64-bit arithmetic; `None` when a value is
/// missing, the scale is zero or the arithmetic overflows.
pub open spec fn scaled_micros(duration: Option<u64>, scale: Option<u64>) -> Option<u128> {
    match (duration, scale) {
        (Some(n), Some(d)) => if d == 0 {
            None
        } else {
            let whole = (n / d) as int * 1_000_000;
            let part = (n % d) as int * 1_000_000;
            if whole > u64::MAX || part > u64::MAX || part / (d as int) + whole > u64::MAX {
                None
            } else {
                Some((part / (d as int) + whole) as u128)
            }
        },
        _ => None,
    }
}

/// Converts a track duration in units of `1/scale` seconds to whole
/// microseconds.
pub fn scale_to_micros(duration: Option<u64>, scale: Option<u64>) -> (r: Option<u128>)
    ensures
        r == scaled_micros(duration, scale),
{
    let microseconds_per_second: u64 = MICROSECONDS_PER_SECOND;
    let numerator = match duration {
        Some(d) => d,
        None => return None,
    };
    let denominator = match scale {
        Some(s) => s,
        None => return None,
    };
    if denominator == 0 {
        return None;
    }
    let integer = numerator / denominator;
    let remainder = numerator % denominator;
    let integer = match integer.checked_mul(microseconds_per_second) {
        Some(v) => v,
        None => return None,
    };
    let remainder = match remainder.checked_mul(microseconds_per_second) {
        Some(v) => v,
        None => return None,
    };
    match (remainder / denominator).checked_add(integer) {
        Some(v) => Some(v as u128),
        None => None,
    }
}

/// Whether every track lasts strictly more than `required_micros`.
pub open spec fn all_tracks_longer(tracks: Seq<TrackTime>, required_micros: u64) -> bool {
    forall|i: int| 0 <= i < tracks.len() ==> (#[trigger] scaled_micros(tracks[i].duration, tracks[i].timescale)
        matches Some(m) && m > required_micros)
}

/// Whether a file of type `mime` lasts at least the required time: an MP3
/// stream at least as long as it, or MP4 tracks that all last longer.
pub open spec fn is_long_enough(mime: Seq<char>, duration: MediaDuration, required_micros: u64) -> bool {
    if is_mp3_mime(mime) {
        duration matches MediaDuration::Mp3(Some(nanos)) && nanos >= required_micros as int * 1000
    } else if is_mp4_mime(mime) {
        duration matches MediaDuration::Mp4(Some(tracks)) && all_tracks_longer(tracks@, required_micros)
    } else {
        false
    }
}

/// Whether a file of type `mime` with `duration` lasts long enough for a
/// round of `required_micros`.
pub fn is_sufficient_duration(mime: &str, duration: &MediaDuration, required_micros: u64) -> (r: bool)
    ensures
        r == is_long_enough(mime@, *duration, required_micros),
{
    match duration_probe(mime) {
        DurationProbe::Mp3 => match duration {
            MediaDuration::Mp3(Some(nanos)) => *nanos >= (required_micros as u128) * 1000,
            _ => false,
        },
        DurationProbe::Mp4 => match duration {
            MediaDuration::Mp4(Some(tracks)) => {
                let mut i: usize = 0;
                while i < tracks.len()
                    invariant
                        i <= tracks@.len(),
                        !is_mp3_mime(mime@),
                        is_mp4_mime(mime@),
                        *duration == MediaDuration::Mp4(Some(*tracks)),
                        forall|j: int| 0 <= j < i ==> (#[trigger] scaled_micros(tracks@[j].duration, tracks@[j].timescale)
                            matches Some(m) && m > required_micros),
                    decreases tracks@.len() - i,
                {
                    let t = tracks[i];
                    match scale_to_micros(t.duration, t.timescale) {
                        Some(m) => {
                            if m <= required_micros as u128 {
                                assert(!all_tracks_longer(tracks@, required_micros)) by {
                                    assert(scaled_micros(tracks@[i as int].duration, tracks@[i as int].timescale) == Some(m));
                                }
                                return false;
                            }
                        },
                        None => {
                            assert(!all_tracks_longer(tracks@, required_micros)) by {
                                assert(scaled_micros(tracks@[i as int].duration, tracks@[i as int].timescale) is None);
                            }
                            return false;
                        },
                    }
                    i = i + 1;
                }
                true
            },
            _ => false,
        },
        DurationProbe::Unsupported => false,
    }
}

/// Whether a candidate file can be a round of a game with `config`.
pub open spec fn is_playable(c: Candidate, config: Config) -> bool {
    is_audio_mime(c.mime@) && is_long_enough(c.mime@, c.duration, config.duration_micros)
}

/// Whether `candidate` can be a round of a game with `config`: audio that a
/// cast device plays, long enough for a round.
pub fn is_playable_candidate(candidate: &Candidate, config: &Config) -> (r: bool)
    ensures
        r == is_playable(*candidate, *config),
{
    is_audio_media(candidate.mime.as_str()) && is_sufficient_duration(
        candidate.mime.as_str(),
        &candidate.duration,
        config.duration_micros,
    )
}

/// Number of tracks a playlist for `config` holds at most: the number of
/// rounds, or the fallback size when that does not fit a `usize`.
pub open spec fn playlist_size_spec(config: Config) -> nat {
    if config.iterations <= usize::MAX {
        config.iterations as nat
    } else {
        FALLBACK_PLAYLIST_SIZE as nat
    }
}

/// Number of tracks a playlist for `config` holds at most.
pub fn playlist_size(config: &Config) -> (r: usize)
    ensures
        r == playlist_size_spec(*config),
        config.iterations <= usize::MAX ==> r == config.iterations,
        config.iterations > usize::MAX ==> r == FALLBACK_PLAYLIST_SIZE,
{
    if config.iterations <= usize::MAX as u64 {
        config.iterations as usize
    } else {
        FALLBACK_PLAYLIST_SIZE
    }
}

/// Paths of the playable candidates, in order.
pub open spec fn playable_paths(cands: Seq<Candidate>, config: Config) -> Seq<Seq<char>>
    decreases cands.len(),
{
    if cands.len() == 0 {
        Seq::empty()
    } else {
        let rest = playable_paths(cands.drop_last(), config);
        if is_playable(cands.last(), config) {
            rest.push(cands.last().path@)
        } else {
            rest
        }
    }
}

/// Number of characters of a track id.
pub const TRACK_ID_LENGTH: usize = 8;

/// Whether `id` is a track id: eight ASCII letters or digits.
pub open spec fn is_track_id(id: Seq<char>) -> bool {
    id.len() == TRACK_ID_LENGTH && forall|i: int| 0 <= i < TRACK_ID_LENGTH ==> is_key_char(#[trigger] id[i])
}

/// A random ASCII letter or digit.
///
/// Samples `rand::distributions::Alphanumeric` with the thread-local
/// generator, which picks one of `A`-`Z`, `a`-`z` and `0`-`9`. Which one is
/// left to chance and not stated.
#[verifier::external_body]
fn random_key_char() -> (c: char)
    ensures
        is_key_char(c),
{
    thread_rng().sample(Alphanumeric)
}

/// Appends `c` to `s`.
///
/// Calls `String::push`, which appends the character.
#[verifier::external_body]
fn push_char(s: &mut String, c: char)
    ensures
        final(s)@ == old(s)@.push(c),
{
    s.push(c)
}

/// A fresh random track id: eight random ASCII letters or digits.
fn random_track_id() -> (r: String)
    ensures
        is_track_id(r@),
{
    let mut id = String::new();
    let mut i: usize = 0;
    while i < TRACK_ID_LENGTH
        invariant
            i <= TRACK_ID_LENGTH,
            id@.len() == i,
            forall|j: int| 0 <= j < i ==> is_key_char(#[trigger] id@[j]),
        decreases TRACK_ID_LENGTH - i,
    {
        push_char(&mut id, random_key_char());
        i = i + 1;
    }
    id
}

/// A track of a playlist: the path of its file and a random id under which
/// it is served.
#[derive(Debug)]
pub struct Track {
    path: String,
    id: String,
}

impl View for Track {
    type V = (Seq<char>, Seq<char>);

    closed spec fn view(&self) -> (Seq<char>, Seq<char>) {
        (self.path@, self.id@)
    }
}

impl Clone for Track {
    fn clone(&self) -> (r: Self)
        ensures
            r@ == self@,
    {
        Track { path: self.path.clone(), id: self.id.clone() }
    }
}

impl Track {
    /// A track for the file at `path` with a fresh random id.
    pub fn new(path: String) -> (t: Self)
        ensures
            t@.0 == path@,
            is_track_id(t@.1),
    {
        let id = random_track_id();
        Track { path, id }
    }

    pub fn id(&self) -> (r: &str)
        ensures
            r@ == self@.1,
    {
        self.id.as_str()
    }

    pub fn path(&self) -> (r: &str)
        ensures
            r@ == self@.0,
    {
        self.path.as_str()
    }
}

/// A playlist: tracks played in turn, for a number of rounds.
#[derive(Debug)]
pub struct Playlist {
    name: String,
    tracks: VecDeque<Track>,
    iterations: u64,
    cursor: u64,
}

/// Model of a playlist: its name, its tracks in playing order, the number of
/// rounds and the number of rounds played.
pub struct PlaylistView {
    pub name: Seq<char>,
    pub tracks: Seq<(Seq<char>, Seq<char>)>,
    pub iterations: u64,
    pub cursor: u64,
}

impl View for Playlist {
    type V = PlaylistView;

    closed spec fn view(&self) -> PlaylistView {
        PlaylistView {
            name: self.name@,
            tracks: self.tracks@.map_values(|t: Track| t@),
            iterations: self.iterations,
            cursor: self.cursor,
        }
    }
}

/// The tracks keyed by id; a later track replaces an earlier one with the
/// same id.
pub open spec fn registry_map(tracks: Seq<(Seq<char>, Seq<char>)>) -> Map<Seq<char>, (Seq<char>, Seq<char>)>
    decreases tracks.len(),
{
    if tracks.len() == 0 {
        Map::empty()
    } else {
        registry_map(tracks.drop_last()).insert(tracks.last().1, tracks.last())
    }
}

/// Whether `m` holds exactly the tracks of `expected`.
pub open spec fn registry_matches(m: Map<Seq<char>, Track>, expected: Map<Seq<char>, (Seq<char>, Seq<char>)>) -> bool {
    &&& m.dom() == expected.dom()
    &&& forall|k: Seq<char>| #[trigger] m.dom().contains(k) ==> m[k]@ == expected[k]
}

/// One step of a playlist: after the last round nothing is played; otherwise
/// the round is counted and the first track, if any, is played and moved to
/// the back.
pub open spec fn next_step(p: PlaylistView) -> (PlaylistView, Option<(u64, (Seq<char>, Seq<char>))>) {
    if p.cursor >= p.iterations {
        (p, None)
    } else if p.tracks.len() == 0 {
        (PlaylistView { cursor: (p.cursor + 1) as u64, ..p }, None)
    } else {
        (
            PlaylistView { cursor: (p.cursor + 1) as u64, tracks: p.tracks.drop_first().push(p.tracks[0]), ..p },
            Some(((p.cursor + 1) as u64, p.tracks[0])),
        )
    }
}

impl Playlist {
    pub fn name(&self) -> (r: &str)
        ensures
            r@ == self@.name,
    {
        self.name.as_str()
    }

    /// The tracks keyed by their ids.
    pub fn registry(&self) -> (r: StringHashMap<Track>)
        ensures
            registry_matches(r@, registry_map(self@.tracks)),
    {
        let mut registry: StringHashMap<Track> = StringHashMap::new();
        let mut i: usize = 0;
        while i < self.tracks.len()
            invariant
                i <= self@.tracks.len(),
                self@.tracks == self.tracks@.map_values(|t: Track| t@),
                registry_matches(registry@, registry_map(self@.tracks.take(i as int))),
            decreases self@.tracks.len() - i,
        {
            let track = &self.tracks[i];
            let ghost prev = self@.tracks.take(i as int);
            let ghost next = self@.tracks.take(i + 1);
            assert(next.drop_last() =~= prev);
            assert(next.last() == track@);
            registry.insert(track.id().to_string(), track.clone());
            i = i + 1;
        }
        assert(self@.tracks.take(self@.tracks.len() as int) =~= self@.tracks);
        registry
    }

    /// Plays the next round: returns its number (counting from one) and its
    /// track, or `None` once every round was played (or there is no track).
    pub fn next(&mut self) -> (r: Option<(u64, Track)>)
        ensures
            final(self)@ == next_step(old(self)@).0,
            match next_step(old(self)@).1 {
                None => r is None,
                Some((n, t)) => r matches Some((m, track)) && m == n && track@ == t,
            },
    {
        if self.cursor >= self.iterations {
            return None;
        }
        self.cursor = self.cursor + 1;
        let ghost before = self.tracks@;
        let track = match self.tracks.pop_front() {
            Some(t) => t,
            None => {
                assert(self@.tracks =~= old(self)@.tracks);
                return None;
            },
        };
        self.tracks.push_back(track.clone());
        assert(self@.tracks =~= old(self)@.tracks.drop_first().push(old(self)@.tracks[0]));
        Some((self.cursor, track))
    }
}

/// Name of the playlist made from the user's music directory.
pub const MUSIC_PLAYLIST_NAME: &'static str = "My Music";

/// Name of a playlist made from a directory without a name of its own.
pub const DEFAULT_PLAYLIST_NAME: &'static str = "Playlist";

/// Name of the playlist made from a directory: the directory's name, or
/// "Playlist" when it has none (the root of a file system).
pub fn directory_playlist_name(file_name: Option<String>) -> (r: String)
    ensures
        r@ == match file_name {
            Some(n) => n@,
            None => DEFAULT_PLAYLIST_NAME@,
        },
{
    match file_name {
        Some(n) => n,
        None => DEFAULT_PLAYLIST_NAME.to_string(),
    }
}

/// Whether `p` is the playlist named `name` built from `cands` in that
/// order: the playable ones, up to the playlist size for `config`, each with
/// a track id, and the configured number of rounds, none played yet.
pub open spec fn built_from(p: PlaylistView, name: Seq<char>, cands: Seq<Candidate>, config: Config) -> bool {
    &&& p.name == name
    &&& p.iterations == config.iterations
    &&& p.cursor == 0
    &&& p.tracks.len() == vstd::math::min(
        playable_paths(cands, config).len() as int,
        playlist_size_spec(config) as int,
    )
    &&& forall|i: int| 0 <= i < p.tracks.len() ==> (#[trigger] p.tracks[i]).0 == playable_paths(cands, config)[i]
        && is_track_id(p.tracks[i].1)
}

/// Shuffles the candidates in place.
///
/// Calls `rand::seq::SliceRandom::shuffle` with the thread-local generator,
/// which swaps items, so the result holds the same items; their order is
/// left to chance and not stated.
#[verifier::external_body]
fn shuffle_candidates(candidates: &mut Vec<Candidate>)
    ensures
        final(candidates)@.to_multiset() == old(candidates)@.to_multiset(),
{
    let mut rng = thread_rng();
    candidates.shuffle(&mut rng);
}

/// Builds a playlist named `name` from the candidate files in a random
/// order: the playable ones, up to the playlist size for `config`, each with
/// a fresh random id. The game has the configured number of rounds.
pub fn new(name: &str, candidates: Vec<Candidate>, config: &Config) -> (p: Playlist)
    ensures
        exists|order: Seq<Candidate>|
            order.to_multiset() == candidates@.to_multiset() && #[trigger] built_from(p@, name@, order, *config),
{
    let mut candidates = candidates;
    shuffle_candidates(&mut candidates);
    build(name, candidates, config)
}

/// Builds a playlist named `name` from the candidate files, which come in
/// playing order: the playable ones, up to the playlist size for `config`,
/// each with a fresh random id. The game has the configured number of
/// rounds.
pub fn build(name: &str, candidates: Vec<Candidate>, config: &Config) -> (p: Playlist)
    ensures
        built_from(p@, name@, candidates@, *config),
{
    let size = playlist_size(config);
    let mut tracks: VecDeque<Track> = VecDeque::new();
    let mut i: usize = 0;
    while i < candidates.len() && tracks.len() < size
        invariant
            i <= candidates@.len(),
            tracks@.len() <= size,
            size == playlist_size_spec(*config),
            tracks@.len() == vstd::math::min(
                playable_paths(candidates@.take(i as int), *config).len() as int,
                size as int,
            ),
            forall|j: int| 0 <= j < tracks@.len() ==> (#[trigger] tracks@[j])@.0 == playable_paths(
                candidates@.take(i as int),
                *config,
            )[j] && is_track_id(tracks@[j]@.1),
        decreases candidates@.len() - i,
    {
        let c = &candidates[i];
        let ghost prev = candidates@.take(i as int);
        let ghost next = candidates@.take(i + 1);
        assert(next.drop_last() =~= prev);
        assert(next.last() == *c);
        if is_playable_candidate(c, config) {
            tracks.push_back(Track::new(c.path.clone()));
        }
        i = i + 1;
    }
    proof {
        lemma_playable_paths_prefix(candidates@, i as nat, *config);
        if i == candidates@.len() {
            assert(candidates@.take(i as int) =~= candidates@);
        }
    }
    let p = Playlist { name: name.to_string(), tracks, iterations: config.iterations, cursor: 0 };
    assert(p@.tracks.len() == tracks@.len());
    p
}

/// The playable paths of a prefix are a prefix of the playable paths.
proof fn lemma_playable_paths_prefix(cands: Seq<Candidate>, i: nat, config: Config)
    requires
        i <= cands.len(),
    ensures
        playable_paths(cands.take(i as int), config).len() <= playable_paths(cands, config).len(),
        forall|j: int| 0 <= j < playable_paths(cands.take(i as int), config).len() ==>
            #[trigger] playable_paths(cands.take(i as int), config)[j] == playable_paths(cands, config)[j],
    decreases cands.len() - i,
{
    if i < cands.len() {
        lemma_playable_paths_prefix(cands, i + 1, config);
        let short = cands.take(i as int);
        let long = cands.take((i + 1) as int);
        assert(long.drop_last() =~= short);
        let a = playable_paths(short, config);
        let b = playable_paths(long, config);
        assert(b == a || b == a.push(long.last().path@));
        assert forall|j: int| 0 <= j < a.len() implies #[trigger] a[j] == playable_paths(cands, config)[j] by {
            assert(a[j] == b[j]);
        }
    } else {
        assert(cands.take(i as int) =~= cands);
    }
}

/// The conversion is exact when it succeeds: `duration / scale` seconds
/// rounded down to whole microseconds.
pub proof fn lemma_scaled_micros_exact(duration: u64, scale: u64)
    requires
        scaled_micros(Some(duration), Some(scale)) is Some,
    ensures
        scaled_micros(Some(duration), Some(scale)) == Some(
            ((duration as int * 1_000_000) / (scale as int)) as u128,
        ),
{
    let n = duration as int;
    let d = scale as int;
    let q = n / d;
    let r = n % d;
    let a = r * 1_000_000;
    let qa = a / d;
    let ra = a % d;
    vstd::arithmetic::div_mod::lemma_fundamental_div_mod(n, d);
    vstd::arithmetic::div_mod::lemma_fundamental_div_mod(a, d);
    vstd::arithmetic::div_mod::lemma_mod_bound(a, d);
    assert(n * 1_000_000 == (q * 1_000_000 + qa) * d + ra) by (nonlinear_arith)
        requires
            n == d * q + r,
            a == r * 1_000_000,
            a == d * qa + ra,
    ;
    vstd::arithmetic::div_mod::lemma_fundamental_div_mod_converse(n * 1_000_000, d, q * 1_000_000 + qa, ra);
}

/// The playlist after `k` steps.
pub open spec fn steps(p: PlaylistView, k: nat) -> PlaylistView
    decreases k,
{
    if k == 0 {
        p
    } else {
        next_step(steps(p, (k - 1) as nat)).0
    }
}

/// `s` rotated left by `j` places.
pub open spec fn rotate<A>(s: Seq<A>, j: int) -> Seq<A> {
    s.skip(j) + s.take(j)
}

/// Rounds cycle through the tracks in order: after `k` rounds the tracks are
/// rotated by `k` modulo their number, and round `k + 1` plays the track
/// that stood at index `k` modulo their number.
pub proof fn lemma_rounds_cycle(p: PlaylistView, k: nat)
    requires
        p.tracks.len() > 0,
        p.cursor + k <= p.iterations,
    ensures
        steps(p, k).cursor == p.cursor + k,
        steps(p, k).tracks == rotate(p.tracks, k as int % p.tracks.len() as int),
        steps(p, k).name == p.name,
        steps(p, k).iterations == p.iterations,
        p.cursor + k < p.iterations ==> next_step(steps(p, k)).1 == Some(
            ((p.cursor + k + 1) as u64, p.tracks[k as int % p.tracks.len() as int]),
        ),
    decreases k,
{
    let len = p.tracks.len() as int;
    if k == 0 {
        assert(rotate(p.tracks, 0) =~= p.tracks);
    } else {
        lemma_rounds_cycle(p, (k - 1) as nat);
        let j = (k - 1) as int % len;
        let prev = steps(p, (k - 1) as nat);
        assert(prev.tracks == rotate(p.tracks, j));
        assert(prev.tracks[0] == p.tracks[j]);
        let after = prev.tracks.drop_first().push(prev.tracks[0]);
        let t = (k - 1) as int / len;
        vstd::arithmetic::div_mod::lemma_fundamental_div_mod((k - 1) as int, len);
        vstd::arithmetic::div_mod::lemma_mod_bound((k - 1) as int, len);
        if j + 1 < len {
            vstd::arithmetic::div_mod::lemma_fundamental_div_mod_converse(k as int, len, t, j + 1);
            assert(after =~= rotate(p.tracks, j + 1));
        } else {
            assert(k == (t + 1) * len + 0) by (nonlinear_arith)
                requires
                    k - 1 == len * t + j,
                    j + 1 == len,
            ;
            vstd::arithmetic::div_mod::lemma_fundamental_div_mod_converse(k as int, len, t + 1, 0);
            assert(after =~= rotate(p.tracks, 0));
        }
    }
    if p.cursor + k < p.iterations {
        let m = k as int % len;
        assert(0 <= m < len) by {
            vstd::arithmetic::div_mod::lemma_mod_bound(k as int, len);
        }
        assert(rotate(p.tracks, m)[0] == p.tracks[m]);
    }
}

/// A playlist plays no more rounds than it was made for: once every round
/// was played, a step changes nothing and plays nothing.
pub proof fn lemma_no_round_after_last(p: PlaylistView)
    requires
        p.cursor >= p.iterations,
    ensures
        next_step(p) == (p, None::<(u64, (Seq<char>, Seq<char>))>),
{
}

/// Whether no two tracks have the same id.
pub open spec fn ids_distinct(tracks: Seq<(Seq<char>, Seq<char>)>) -> bool {
    forall|a: int, b: int| 0 <= a < b < tracks.len() ==> (#[trigger] tracks[a]).1 != (#[trigger] tracks[b]).1
}

/// Every track is in the registry under its id; when ids are distinct, the
/// registry holds that very track there.
pub proof fn lemma_registry_holds_tracks(tracks: Seq<(Seq<char>, Seq<char>)>, i: int)
    requires
        0 <= i < tracks.len(),
    ensures
        registry_map(tracks).contains_key(tracks[i].1),
        ids_distinct(tracks) ==> registry_map(tracks)[tracks[i].1] == tracks[i],
    decreases tracks.len(),
{
    let init = tracks.drop_last();
    if i < tracks.len() - 1 {
        lemma_registry_holds_tracks(init, i);
        assert(init[i] == tracks[i]);
        if ids_distinct(tracks) {
            assert(ids_distinct(init)) by {
                assert forall|a: int, b: int| 0 <= a < b < init.len() implies (#[trigger] init[a]).1 != (
                #[trigger] init[b]).1 by {
                    assert(init[a] == tracks[a] && init[b] == tracks[b]);
                }
            }
            assert(tracks[i].1 != tracks.last().1);
        }
    }
}

/// A round keeps the tracks of the playlist; only their order changes.
pub proof fn lemma_next_keeps_tracks(p: PlaylistView)
    ensures
        next_step(p).0.tracks.to_multiset() == p.tracks.to_multiset(),
{
    broadcast use vstd::seq_lib::group_to_multiset_ensures;
    broadcast use vstd::multiset::group_multiset_axioms;

    if p.cursor < p.iterations && p.tracks.len() > 0 {
        let t = p.tracks;
        assert(t.drop_first() =~= t.remove(0));
        assert(t.contains(t[0]));
        assert(t.remove(0).push(t[0]).to_multiset() =~= t.to_multiset());
    }
}

/// Any number of rounds keeps the tracks of the playlist.
pub proof fn lemma_steps_keep_tracks(p: PlaylistView, k: nat)
    ensures
        steps(p, k).tracks.to_multiset() == p.tracks.to_multiset(),
    decreases k,
{
    if k > 0 {
        lemma_steps_keep_tracks(p, (k - 1) as nat);
        lemma_next_keeps_tracks(steps(p, (k - 1) as nat));
    }
}

/// The registry made from a playlist serves every round: the track played
/// in any later round is found under its id, and with distinct ids it is
/// that very track.
pub proof fn lemma_rounds_served_by_registry(p: PlaylistView, k: nat)
    ensures
        next_step(steps(p, k)).1 matches Some((_, t)) ==> registry_map(p.tracks).contains_key(t.1) && (
        ids_distinct(p.tracks) ==> registry_map(p.tracks)[t.1] == t),
{
    broadcast use vstd::seq_lib::group_to_multiset_ensures;

    let q = steps(p, k);
    if let Some((_, t)) = next_step(q).1 {
        lemma_steps_keep_tracks(p, k);
        assert(q.tracks.contains(t)) by {
            assert(q.tracks[0] == t);
        }
        assert(q.tracks.to_multiset().count(t) > 0);
        assert(p.tracks.to_multiset().count(t) > 0);
        assert(p.tracks.contains(t));
        let i = choose|i: int| 0 <= i < p.tracks.len() && p.tracks[i] == t;
        lemma_registry_holds_tracks(p.tracks, i);
    }
}

/// The registry holds only ids of the tracks.
proof fn lemma_registry_keys(tracks: Seq<(Seq<char>, Seq<char>)>, k: Seq<char>)
    requires
        registry_map(tracks).contains_key(k),
    ensures
        exists|i: int| 0 <= i < tracks.len() && (#[trigger] tracks[i]).1 == k,
    decreases tracks.len(),
{
    let init = tracks.drop_last();
    if tracks.last().1 == k {
        assert(tracks[tracks.len() - 1].1 == k);
    } else {
        lemma_registry_keys(init, k);
        let i = choose|i: int| 0 <= i < init.len() && (#[trigger] init[i]).1 == k;
        assert(tracks[i] == init[i]);
    }
}

/// A round keeps the registry: with distinct ids, the tracks after a round
/// still have distinct ids and give the same registry, so the ids handed to
/// the media server stay valid for the whole game.
pub proof fn lemma_next_keeps_registry(p: PlaylistView)
    requires
        ids_distinct(p.tracks),
    ensures
        ids_distinct(next_step(p).0.tracks),
        registry_map(next_step(p).0.tracks) == registry_map(p.tracks),
{
    if p.cursor < p.iterations && p.tracks.len() > 0 {
        let t = p.tracks;
        let n = t.len();
        let r = next_step(p).0.tracks;
        assert(r =~= t.drop_first().push(t[0]));
        assert forall|a: int, b: int| 0 <= a < b < r.len() implies (#[trigger] r[a]).1 != (#[trigger] r[b]).1 by {
            if b == n - 1 {
                assert(r[a] == t[a + 1] && r[b] == t[0]);
            } else {
                assert(r[a] == t[a + 1] && r[b] == t[b + 1]);
            }
        }
        let mt = registry_map(t);
        let mr = registry_map(r);
        assert forall|k: Seq<char>| #[trigger] mt.contains_key(k) implies mr.contains_key(k) && mr[k] == mt[k] by {
            lemma_registry_keys(t, k);
            let i = choose|i: int| 0 <= i < t.len() && (#[trigger] t[i]).1 == k;
            let j = if i == 0 { n - 1 } else { i - 1 };
            assert(r[j] == t[i]);
            lemma_registry_holds_tracks(t, i);
            lemma_registry_holds_tracks(r, j);
        }
        assert forall|k: Seq<char>| #[trigger] mr.contains_key(k) implies mt.contains_key(k) by {
            lemma_registry_keys(r, k);
            let j = choose|j: int| 0 <= j < r.len() && (#[trigger] r[j]).1 == k;
            let i = if j == n - 1 { 0 } else { j + 1 };
            assert(r[j] == t[i]);
            lemma_registry_holds_tracks(t, i);
        }
        assert(mr =~= mt);
    }
}

/// Rounds never change the registry: with distinct ids, the registry made
/// from the playlist after any number of rounds is the one made at the start.
pub proof fn lemma_rounds_keep_registry(p: PlaylistView, k: nat)
    requires
        ids_distinct(p.tracks),
    ensures
        ids_distinct(steps(p, k).tracks),
        registry_map(steps(p, k).tracks) == registry_map(p.tracks),
    decreases k,
{
    if k > 0 {
        lemma_rounds_keep_registry(p, (k - 1) as nat);
        lemma_next_keeps_registry(steps(p, (k - 1) as nat));
    }
}

/// One track per round: a playlist built for a number of rounds that fits a
/// `usize` holds as many tracks as there are rounds, or every playable
/// candidate when there are fewer; only a number of rounds beyond `usize`
/// caps it at the fallback size.
pub proof fn lemma_one_track_per_round(p: PlaylistView, name: Seq<char>, cands: Seq<Candidate>, config: Config)
    requires
        built_from(p, name, cands, config),
    ensures
        config.iterations <= usize::MAX ==> p.tracks.len() == vstd::math::min(
            playable_paths(cands, config).len() as int,
            config.iterations as int,
        ),
        config.iterations <= usize::MAX && playable_paths(cands, config).len() >= config.iterations ==> p.tracks.len()
            == config.iterations,
        config.iterations > usize::MAX ==> p.tracks.len() == vstd::math::min(
            playable_paths(cands, config).len() as int,
            FALLBACK_PLAYLIST_SIZE as int,
        ),
        p.tracks.len() <= playable_paths(cands, config).len(),
{
}

} // verus!
