use vstd::prelude::*;

verus! {

/// Whether a track is playing, as shown to a user interface.
#[derive(Clone, Copy, Debug, PartialEq, Eq, Structural)]
pub enum PlayerState {
    Stopped,
    Playing,
    Paused,
}

impl PlayerState {
    /// The number under which the state is exported.
    pub fn code(self) -> (r: i32)
        ensures
            r == match self {
                PlayerState::Stopped => 0i32,
                PlayerState::Playing => 1i32,
                PlayerState::Paused => 2i32,
            },
    {
        match self {
            PlayerState::Stopped => 0,
            PlayerState::Playing => 1,
            PlayerState::Paused => 2,
        }
    }
}

/// What is known of the current media, as shown to a user interface.
#[derive(Clone, Copy, Debug, PartialEq, Eq, Structural)]
pub enum MediaStatus {
    NoMedia,
    Loading,
    Loaded,
    Buffering,
    Stalled,
    Buffered,
    EndOfMedia,
    InvalidMedia,
    UnknownStatus,
}

impl MediaStatus {
    /// The number under which the status is exported.
    pub fn code(self) -> (r: i32)
        ensures
            r == match self {
                MediaStatus::NoMedia => 0i32,
                MediaStatus::Loading => 1i32,
                MediaStatus::Loaded => 2i32,
                MediaStatus::Buffering => 3i32,
                MediaStatus::Stalled => 4i32,
                MediaStatus::Buffered => 5i32,
                MediaStatus::EndOfMedia => 6i32,
                MediaStatus::InvalidMedia => 7i32,
                MediaStatus::UnknownStatus => 8i32,
            },
    {
        match self {
            MediaStatus::NoMedia => 0,
            MediaStatus::Loading => 1,
            MediaStatus::Loaded => 2,
            MediaStatus::Buffering => 3,
            MediaStatus::Stalled => 4,
            MediaStatus::Buffered => 5,
            MediaStatus::EndOfMedia => 6,
            MediaStatus::InvalidMedia => 7,
            MediaStatus::UnknownStatus => 8,
        }
    }
}

/// The state of the connection, as shown to a user interface.
#[derive(Clone, Copy, Debug, PartialEq, Eq, Structural)]
pub enum ConnectionStatus {
    Disconnected,
    Connecting,
    Connected,
    /// The background thread has died.
    Crashed,
}

impl ConnectionStatus {
    /// The number under which the status is exported.
    pub fn code(self) -> (r: i32)
        ensures
            r == match self {
                ConnectionStatus::Disconnected => 0i32,
                ConnectionStatus::Connecting => 1i32,
                ConnectionStatus::Connected => 2i32,
                ConnectionStatus::Crashed => 100i32,
            },
    {
        match self {
            ConnectionStatus::Disconnected => 0,
            ConnectionStatus::Connecting => 1,
            ConnectionStatus::Connected => 2,
            ConnectionStatus::Crashed => 100,
        }
    }
}

} // verus!
