use vstd::prelude::*;

use crate::error::{category_of, message_of, LibrespotError, SailifyErrorKind};

verus! {

/// What kind of item a track identifier refers to.
#[derive(Clone, Copy, Debug, PartialEq, Eq, Structural)]
pub enum AudioKind {
    Track,
    Podcast,
    NonPlayable,
}

/// Identifier of a playable item: a 128-bit number and its kind.
#[derive(Clone, Copy, Debug, PartialEq, Eq, Structural)]
pub struct TrackId {
    pub id: u128,
    pub kind: AudioKind,
}

/// The word that names a kind inside a URI.
pub open spec fn kind_word(k: AudioKind) -> Seq<char> {
    match k {
        AudioKind::Track => "track"@,
        AudioKind::Podcast => "episode"@,
        AudioKind::NonPlayable => "unknown"@,
    }
}

/// The 22-character base-62 rendering of an identifier's number.
pub uninterp spec fn base62_of(id: u128) -> Seq<char>;

/// The URI of a track, `spotify:{kind}:{base62 id}`.
pub open spec fn uri_of(t: TrackId) -> Seq<char> {
    "spotify:"@ + kind_word(t.kind) + ":"@ + base62_of(t.id)
}

/// Relies on librespot_core's `SpotifyId::to_uri`, which writes the prefix,
/// the kind's word, a colon and `SpotifyId::to_base62`; the latter's bytes
/// all come from its table of ASCII digits, so its UTF-8 check never fails.
#[verifier::external_body]
fn track_uri(t: &TrackId) -> (r: String)
    ensures
        r@ == "spotify:"@ + kind_word(t.kind) + ":"@ + base62_of(t.id),
{
    let audio_type = match t.kind {
        AudioKind::Track => librespot_core::spotify_id::SpotifyAudioType::Track,
        AudioKind::Podcast => librespot_core::spotify_id::SpotifyAudioType::Podcast,
        AudioKind::NonPlayable => librespot_core::spotify_id::SpotifyAudioType::NonPlayable,
    };
    let id = librespot_core::spotify_id::SpotifyId { id: t.id, audio_type };
    match id.to_uri() {
        Ok(s) => s,
        Err(e) => String::from_utf8_lossy(e.as_bytes()).into_owned(),
    }
}

/// A track-lifecycle event of the playback engine.
#[derive(Debug)]
pub enum PlayerEngineEvent {
    Stopped { play_request_id: u64, track_id: TrackId },
    Started { play_request_id: u64, track_id: TrackId, position_ms: u32 },
    Changed { old_track_id: TrackId, new_track_id: TrackId },
    Loading { play_request_id: u64, track_id: TrackId, position_ms: u32 },
    Preloading { track_id: TrackId },
    Playing { play_request_id: u64, track_id: TrackId, position_ms: u32, duration_ms: u32 },
    Paused { play_request_id: u64, track_id: TrackId, position_ms: u32, duration_ms: u32 },
    TimeToPreloadNextTrack { play_request_id: u64, track_id: TrackId },
    EndOfTrack { play_request_id: u64, track_id: TrackId },
    Unavailable { play_request_id: u64, track_id: TrackId },
    VolumeSet { volume: u16 },
}

/// An access token for the service's web interface.
#[derive(Debug)]
pub struct AccessToken {
    pub access_token: String,
    pub expires_in: u32,
}

/// A notification published to the listener.
#[derive(Debug)]
pub enum LibrespotEvent {
    Stopped { play_request_id: u64, track_id: String },
    Changed { new_track_id: String },
    Loading { play_request_id: u64, track_id: String, position_ms: u32 },
    Playing { play_request_id: u64, track_id: String, position_ms: u32, duration_ms: u32 },
    Paused { play_request_id: u64, track_id: String, position_ms: u32, duration_ms: u32 },
    Unavailable { play_request_id: u64, track_id: String },
    VolumeSet { volume: u16 },
    Connecting,
    Connected,
    ConnectionError { message: String },
    Shutdown,
    StartReconnect,
    TokenChanged { token: Result<AccessToken, String> },
    Error { err: LibrespotError },
    Panic { message: String },
}

/// The engine events that are republished to the listener.
pub open spec fn recognized(e: PlayerEngineEvent) -> bool {
    ||| e is Stopped
    ||| e is Changed
    ||| e is Loading
    ||| e is Playing
    ||| e is Paused
    ||| e is Unavailable
    ||| e is VolumeSet
}

/// `r` is the listener's form of the engine event `e`: the same variant
/// with the same fields, track identifiers written as URIs; nothing for the
/// events that are not republished.
pub open spec fn translates(e: PlayerEngineEvent, r: Option<LibrespotEvent>) -> bool {
    match e {
        PlayerEngineEvent::Stopped { play_request_id: p, track_id: t } => {
            &&& r matches Some(LibrespotEvent::Stopped { play_request_id, track_id })
            &&& play_request_id == p
            &&& track_id@ == uri_of(t)
        },
        PlayerEngineEvent::Changed { new_track_id: t, .. } => {
            &&& r matches Some(LibrespotEvent::Changed { new_track_id })
            &&& new_track_id@ == uri_of(t)
        },
        PlayerEngineEvent::Loading { play_request_id: p, track_id: t, position_ms: pos } => {
            &&& r matches Some(LibrespotEvent::Loading { play_request_id, track_id, position_ms })
            &&& play_request_id == p
            &&& track_id@ == uri_of(t)
            &&& position_ms == pos
        },
        PlayerEngineEvent::Playing {
            play_request_id: p,
            track_id: t,
            position_ms: pos,
            duration_ms: d,
        } => {
            &&& r matches Some(
                LibrespotEvent::Playing { play_request_id, track_id, position_ms, duration_ms },
            )
            &&& play_request_id == p
            &&& track_id@ == uri_of(t)
            &&& position_ms == pos
            &&& duration_ms == d
        },
        PlayerEngineEvent::Paused {
            play_request_id: p,
            track_id: t,
            position_ms: pos,
            duration_ms: d,
        } => {
            &&& r matches Some(
                LibrespotEvent::Paused { play_request_id, track_id, position_ms, duration_ms },
            )
            &&& play_request_id == p
            &&& track_id@ == uri_of(t)
            &&& position_ms == pos
            &&& duration_ms == d
        },
        PlayerEngineEvent::Unavailable { play_request_id: p, track_id: t } => {
            &&& r matches Some(LibrespotEvent::Unavailable { play_request_id, track_id })
            &&& play_request_id == p
            &&& track_id@ == uri_of(t)
        },
        PlayerEngineEvent::VolumeSet { volume: v } => {
            &&& r matches Some(LibrespotEvent::VolumeSet { volume })
            &&& volume == v
        },
        _ => r is None,
    }
}

/// The play request an engine event belongs to, if it carries one.
pub open spec fn engine_request_id(e: PlayerEngineEvent) -> Option<u64> {
    match e {
        PlayerEngineEvent::Stopped { play_request_id, .. } => Some(play_request_id),
        PlayerEngineEvent::Started { play_request_id, .. } => Some(play_request_id),
        PlayerEngineEvent::Loading { play_request_id, .. } => Some(play_request_id),
        PlayerEngineEvent::Playing { play_request_id, .. } => Some(play_request_id),
        PlayerEngineEvent::Paused { play_request_id, .. } => Some(play_request_id),
        PlayerEngineEvent::TimeToPreloadNextTrack { play_request_id, .. } => Some(play_request_id),
        PlayerEngineEvent::EndOfTrack { play_request_id, .. } => Some(play_request_id),
        PlayerEngineEvent::Unavailable { play_request_id, .. } => Some(play_request_id),
        _ => None,
    }
}

/// The URI of the track an engine event is about (the new one for a
/// change of track), if any.
pub open spec fn engine_track(e: PlayerEngineEvent) -> Option<Seq<char>> {
    match e {
        PlayerEngineEvent::Stopped { track_id, .. } => Some(uri_of(track_id)),
        PlayerEngineEvent::Started { track_id, .. } => Some(uri_of(track_id)),
        PlayerEngineEvent::Changed { new_track_id, .. } => Some(uri_of(new_track_id)),
        PlayerEngineEvent::Loading { track_id, .. } => Some(uri_of(track_id)),
        PlayerEngineEvent::Preloading { track_id } => Some(uri_of(track_id)),
        PlayerEngineEvent::Playing { track_id, .. } => Some(uri_of(track_id)),
        PlayerEngineEvent::Paused { track_id, .. } => Some(uri_of(track_id)),
        PlayerEngineEvent::TimeToPreloadNextTrack { track_id, .. } => Some(uri_of(track_id)),
        PlayerEngineEvent::EndOfTrack { track_id, .. } => Some(uri_of(track_id)),
        PlayerEngineEvent::Unavailable { track_id, .. } => Some(uri_of(track_id)),
        PlayerEngineEvent::VolumeSet { .. } => None,
    }
}

/// The playback position an engine event carries, if any.
pub open spec fn engine_position(e: PlayerEngineEvent) -> Option<u32> {
    match e {
        PlayerEngineEvent::Started { position_ms, .. } => Some(position_ms),
        PlayerEngineEvent::Loading { position_ms, .. } => Some(position_ms),
        PlayerEngineEvent::Playing { position_ms, .. } => Some(position_ms),
        PlayerEngineEvent::Paused { position_ms, .. } => Some(position_ms),
        _ => None,
    }
}

/// The track duration an engine event carries, if any.
pub open spec fn engine_duration(e: PlayerEngineEvent) -> Option<u32> {
    match e {
        PlayerEngineEvent::Playing { duration_ms, .. } => Some(duration_ms),
        PlayerEngineEvent::Paused { duration_ms, .. } => Some(duration_ms),
        _ => None,
    }
}

/// The play request a notification belongs to, if it carries one.
pub open spec fn event_request_id(e: LibrespotEvent) -> Option<u64> {
    match e {
        LibrespotEvent::Stopped { play_request_id, .. } => Some(play_request_id),
        LibrespotEvent::Loading { play_request_id, .. } => Some(play_request_id),
        LibrespotEvent::Playing { play_request_id, .. } => Some(play_request_id),
        LibrespotEvent::Paused { play_request_id, .. } => Some(play_request_id),
        LibrespotEvent::Unavailable { play_request_id, .. } => Some(play_request_id),
        _ => None,
    }
}

/// The track URI a notification carries, if any.
pub open spec fn event_track(e: LibrespotEvent) -> Option<Seq<char>> {
    match e {
        LibrespotEvent::Stopped { track_id, .. } => Some(track_id@),
        LibrespotEvent::Changed { new_track_id } => Some(new_track_id@),
        LibrespotEvent::Loading { track_id, .. } => Some(track_id@),
        LibrespotEvent::Playing { track_id, .. } => Some(track_id@),
        LibrespotEvent::Paused { track_id, .. } => Some(track_id@),
        LibrespotEvent::Unavailable { track_id, .. } => Some(track_id@),
        _ => None,
    }
}

/// The playback position a notification carries, if any.
pub open spec fn event_position(e: LibrespotEvent) -> Option<u32> {
    match e {
        LibrespotEvent::Loading { position_ms, .. } => Some(position_ms),
        LibrespotEvent::Playing { position_ms, .. } => Some(position_ms),
        LibrespotEvent::Paused { position_ms, .. } => Some(position_ms),
        _ => None,
    }
}

/// The track duration a notification carries, if any.
pub open spec fn event_duration(e: LibrespotEvent) -> Option<u32> {
    match e {
        LibrespotEvent::Playing { duration_ms, .. } => Some(duration_ms),
        LibrespotEvent::Paused { duration_ms, .. } => Some(duration_ms),
        _ => None,
    }
}

/// A notification and an engine event are of the same variant.
pub open spec fn same_variant(e: PlayerEngineEvent, n: LibrespotEvent) -> bool {
    ||| e is Stopped && n is Stopped
    ||| e is Changed && n is Changed
    ||| e is Loading && n is Loading
    ||| e is Playing && n is Playing
    ||| e is Paused && n is Paused
    ||| e is Unavailable && n is Unavailable
    ||| e matches PlayerEngineEvent::VolumeSet { volume: v } && n matches LibrespotEvent::VolumeSet {
        volume,
    } && v == volume
}

/// Translating an engine event yields a notification exactly when the event
/// is one of the recognised kinds; the notification is of the same variant
/// and carries the request id, track, position and duration unchanged.
pub proof fn lemma_translation_round_trip(e: PlayerEngineEvent, r: Option<LibrespotEvent>)
    requires
        translates(e, r),
    ensures
        r is Some <==> recognized(e),
        r matches Some(n) ==> {
            &&& same_variant(e, n)
            &&& event_request_id(n) == engine_request_id(e)
            &&& event_track(n) == engine_track(e)
            &&& event_position(n) == engine_position(e)
            &&& event_duration(n) == engine_duration(e)
        },
{
}

/// The category and message under which a notification reaches a user
/// interface as an error, if it is one.
pub open spec fn error_report_of(e: LibrespotEvent) -> Option<(SailifyErrorKind, Seq<char>)> {
    match e {
        LibrespotEvent::ConnectionError { message } => Some((SailifyErrorKind::Connection, message@)),
        LibrespotEvent::TokenChanged { token: Err(message) } => Some(
            (SailifyErrorKind::Token, message@),
        ),
        LibrespotEvent::Error { err } => Some((category_of(err), message_of(err))),
        LibrespotEvent::Panic { message } => Some((SailifyErrorKind::Panic, message@)),
        _ => None,
    }
}

impl LibrespotEvent {
    /// The listener's form of an engine event, or `None` for the engine
    /// events that are not republished.
    pub fn from_event(evt: PlayerEngineEvent) -> (r: Option<LibrespotEvent>)
        ensures
            translates(evt, r),
    {
        match evt {
            PlayerEngineEvent::Playing { play_request_id, track_id, position_ms, duration_ms } => {
                Some(
                    LibrespotEvent::Playing {
                        play_request_id,
                        track_id: track_uri(&track_id),
                        position_ms,
                        duration_ms,
                    },
                )
            },
            PlayerEngineEvent::Changed { new_track_id, .. } => {
                Some(LibrespotEvent::Changed { new_track_id: track_uri(&new_track_id) })
            },
            PlayerEngineEvent::Loading { track_id, play_request_id, position_ms } => {
                Some(
                    LibrespotEvent::Loading {
                        track_id: track_uri(&track_id),
                        play_request_id,
                        position_ms,
                    },
                )
            },
            PlayerEngineEvent::Paused { track_id, position_ms, play_request_id, duration_ms } => {
                Some(
                    LibrespotEvent::Paused {
                        track_id: track_uri(&track_id),
                        position_ms,
                        play_request_id,
                        duration_ms,
                    },
                )
            },
            PlayerEngineEvent::Stopped { play_request_id, track_id } => {
                Some(LibrespotEvent::Stopped { play_request_id, track_id: track_uri(&track_id) })
            },
            PlayerEngineEvent::Unavailable { track_id, play_request_id } => {
                Some(
                    LibrespotEvent::Unavailable { play_request_id, track_id: track_uri(&track_id) },
                )
            },
            PlayerEngineEvent::VolumeSet { volume } => Some(LibrespotEvent::VolumeSet { volume }),
            _ => None,
        }
    }

    /// The category and message under which this notification reaches a
    /// user interface as an error, or `None` when it is no error.
    pub fn error_report(&self) -> (r: Option<(SailifyErrorKind, String)>)
        ensures
            (match r {
                Some((k, m)) => error_report_of(*self) == Some((k, m@)),
                None => error_report_of(*self) is None,
            }),
    {
        match self {
            LibrespotEvent::ConnectionError { message } => Some(
                (SailifyErrorKind::Connection, message.clone()),
            ),
            LibrespotEvent::TokenChanged { token: Err(message) } => Some(
                (SailifyErrorKind::Token, message.clone()),
            ),
            LibrespotEvent::Error { err } => Some((SailifyErrorKind::of(err), err.message())),
            LibrespotEvent::Panic { message } => Some((SailifyErrorKind::Panic, message.clone())),
            _ => None,
        }
    }
}

/// Receives the notifications of a running player. Implementations must be
/// callable from the background thread at any time and must not panic.
pub trait LibrespotEventListener {
    fn notify(&self, evt: LibrespotEvent);
}

} // verus!
