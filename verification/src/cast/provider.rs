//! Values exchanged between the cast client and its users: media to play,
//! commands to the device, statuses reported back, and errors.
use vstd::prelude::*;

use crate::cast::payload::push_str;
use crate::cast::proto::ProtoError;

verus! {

/// Cover art of a track: where to fetch it and its width and height.
#[derive(Debug)]
pub struct Image {
    pub url: String,
    pub dimensions: (u32, u32),
}

impl Clone for Image {
    fn clone(&self) -> (r: Self)
        ensures
            r.url@ == self.url@,
            r.dimensions == self.dimensions,
    {
        Image { url: self.url.clone(), dimensions: (self.dimensions.0, self.dimensions.1) }
    }
}

/// A track to play on a device, with the tags shown for it.
#[derive(Clone, Debug)]
pub struct Media {
    pub title: Option<String>,
    pub artist: Option<String>,
    pub album: Option<String>,
    pub url: String,
    pub cover: Option<Image>,
    pub content_type: String,
}

/// The tags of a media that are present, in the order artist, title, album.
pub open spec fn display_parts(m: Media) -> Seq<Seq<char>> {
    (match m.artist {
        Some(a) => seq![a@],
        None => Seq::empty(),
    }) + (match m.title {
        Some(t) => seq![t@],
        None => Seq::empty(),
    }) + (match m.album {
        Some(a) => seq![a@],
        None => Seq::empty(),
    })
}

/// The parts joined, with ` -- ` between neighbours.
pub open spec fn join_parts(parts: Seq<Seq<char>>) -> Seq<char>
    decreases parts.len(),
{
    if parts.len() == 0 {
        Seq::empty()
    } else if parts.len() == 1 {
        parts[0]
    } else {
        join_parts(parts.drop_last()) + " -- "@ + parts.last()
    }
}

/// Joining one more part appends it, after the separator when there were
/// parts before.
proof fn lemma_join_push(parts: Seq<Seq<char>>, x: Seq<char>)
    ensures
        join_parts(parts.push(x)) == if parts.len() == 0 {
            x
        } else {
            join_parts(parts) + " -- "@ + x
        },
{
    assert(parts.push(x).drop_last() =~= parts);
}

impl Media {
    /// Human-readable description of the media: artist, title and album, as
    /// far as they are known, separated by ` -- `.
    pub fn to_display_string(&self) -> (r: String)
        ensures
            r@ == join_parts(display_parts(*self)),
    {
        let mut r = String::new();
        let mut first = true;
        let ghost mut parts: Seq<Seq<char>> = Seq::empty();
        if let Some(artist) = &self.artist {
            push_str(&mut r, artist.as_str());
            first = false;
            proof {
                lemma_join_push(parts, artist@);
                parts = parts.push(artist@);
            }
        }
        assert(first <==> parts.len() == 0);
        assert(r@ == join_parts(parts));
        if let Some(title) = &self.title {
            if !first {
                push_str(&mut r, " -- ");
            }
            push_str(&mut r, title.as_str());
            first = false;
            proof {
                lemma_join_push(parts, title@);
                parts = parts.push(title@);
            }
        }
        assert(first <==> parts.len() == 0);
        assert(r@ == join_parts(parts));
        if let Some(album) = &self.album {
            if !first {
                push_str(&mut r, " -- ");
            }
            push_str(&mut r, album.as_str());
            proof {
                lemma_join_push(parts, album@);
                parts = parts.push(album@);
            }
        }
        assert(parts =~= display_parts(*self));
        r
    }
}

/// The receiver app session that media is loaded into: its session id and
/// the transport id that media messages are addressed to.
#[derive(Debug)]
pub struct ReceiverConnection {
    pub session: String,
    pub transport: String,
}

impl Clone for ReceiverConnection {
    fn clone(&self) -> (r: Self)
        ensures
            r.session@ == self.session@,
            r.transport@ == self.transport@,
    {
        ReceiverConnection { session: self.session.clone(), transport: self.transport.clone() }
    }
}

/// A media session within a receiver app session.
#[derive(Debug)]
pub struct MediaConnection {
    pub receiver: ReceiverConnection,
    pub session: i32,
}

impl Clone for MediaConnection {
    fn clone(&self) -> (r: Self)
        ensures
            r.receiver.session@ == self.receiver.session@,
            r.receiver.transport@ == self.receiver.transport@,
            r.session == self.session,
    {
        MediaConnection { receiver: self.receiver.clone(), session: self.session }
    }
}

/// Failure of the cast channel.
#[derive(Debug)]
pub enum Error {
    /// A message arrived on a namespace that no channel handles.
    UnknownChannel(String),
    /// A frame did not hold a valid cast message.
    InvalidMessage(ProtoError),
}

/// The text that `{:?}` writes for a string: the string in double quotes,
/// with escapes.
pub uninterp spec fn debug_text(s: Seq<char>) -> Seq<char>;

/// The `Debug` text of `s`.
///
/// Formats `s` with `{:?}`, which writes it in double quotes with quotes,
/// backslashes and unprintable characters escaped; the escaping rules are
/// left to the name `debug_text`.
#[verifier::external_body]
fn debug_quoted(s: &str) -> (r: String)
    ensures
        r@ == debug_text(s@),
{
    format!("{:?}", s)
}

/// Text of a cast channel error.
pub open spec fn error_text(e: Error) -> Seq<char> {
    match e {
        Error::UnknownChannel(c) => "Message received on unknown channel "@ + debug_text(c@),
        Error::InvalidMessage(_) => "Message received that is not a valid cast message"@,
    }
}

impl Error {
    /// Human-readable description of the error.
    pub fn to_display_string(&self) -> (r: String)
        ensures
            r@ == error_text(*self),
    {
        match self {
            Error::UnknownChannel(c) => {
                let mut r = "Message received on unknown channel ".to_string();
                push_str(&mut r, debug_quoted(c.as_str()).as_str());
                r
            },
            Error::InvalidMessage(_) => "Message received that is not a valid cast message".to_string(),
        }
    }
}

/// A command for the device.
#[derive(Debug)]
pub enum Command {
    Close { destination: String },
    Connect { destination: String },
    Heartbeat,
    Pong,
    Launch { app_id: String },
    Load { session: String, transport: String, media: Media },
    MediaStatus { transport: String },
    Pause,
    Play { media_session: i32, transport: String },
    ReceiverStatus,
    Stop { media_session: String, transport: String },
    VolumeMute(bool),
}

/// A status reported by the device.
#[derive(Clone, Debug)]
pub enum Status {
    /// The receiver app session to load media into is known.
    Connected(ReceiverConnection),
    /// A media session was started.
    MediaConnected(MediaConnection),
    /// Playback state of the current media.
    MediaState(crate::cast::payload::media::Status),
    LoadCancelled,
    LoadFailed,
    InvalidPlayerState,
    InvalidRequest,
}

} // verus!
