//! Connection lifecycle logic for a streaming-service player: reconnect
//! back-off, the controller's state machine, player-event translation and the
//! checks made before a player thread is started.

pub mod backoff;
pub mod controller;
pub mod error;
pub mod events;
pub mod setup;
pub mod status;
pub mod utils;
