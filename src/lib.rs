//! Idle inhibition driven by media playback.
//!
//! The library holds the decisions of the daemon as verified state machines:
//! which bus names are media players, whether the polled players amount to
//! "playing", how the single inhibitor child is started and reaped, and what
//! each tick of the reconciliation loop does. Performing the bus calls, the
//! process operations and the sleeping is left to the caller, which feeds the
//! outcomes back in.
mod daemon;
mod monitor;
mod settings;
mod supervisor;

pub use daemon::{Command, IdleApp};
pub use monitor::{
    is_media_player, list_media_players, PlaybackPoll, PollView, PropertyValue, MEDIA_PLAYER_PREFIX,
    PLAYING,
};
pub use settings::{ServerSettings, Settings, DEFAULT_INHIBIT_DURATION, DEFAULT_SLEEP_DURATION};
pub use supervisor::{
    inhibitor_command, InhibitorHandle, InhibitorSupervisor, ProcessSpawnError, ReapError,
    ReapReport, ReapStep, SpawnOutcome,
};
