use vstd::prelude::*;

verus! {

/// Inhibit window, in seconds, used when no configuration is found.
pub const DEFAULT_INHIBIT_DURATION: u64 = 25;

/// Poll interval, in seconds, used when no configuration is found.
pub const DEFAULT_SLEEP_DURATION: u64 = 5;

/// Timing of the daemon.
#[derive(Debug, Clone, Copy, PartialEq, Eq, Structural)]
pub struct ServerSettings {
    /// How long one inhibitor child keeps idle blocked, in seconds.
    pub inhibit_duration: u64,
    /// How long the loop sleeps between two ticks while not inhibiting, in seconds.
    pub sleep_duration: u64,
}

/// The daemon's configuration, read once at startup.
#[derive(Debug, Clone, Copy, PartialEq, Eq, Structural)]
pub struct Settings {
    pub debug: bool,
    pub server: ServerSettings,
}

/// The configuration used when none was found.
pub open spec fn default_settings() -> Settings {
    Settings {
        debug: false,
        server: ServerSettings {
            inhibit_duration: DEFAULT_INHIBIT_DURATION,
            sleep_duration: DEFAULT_SLEEP_DURATION,
        },
    }
}

impl Default for Settings {
    fn default() -> (s: Settings)
        ensures
            s == default_settings(),
    {
        Settings {
            debug: false,
            server: ServerSettings {
                inhibit_duration: DEFAULT_INHIBIT_DURATION,
                sleep_duration: DEFAULT_SLEEP_DURATION,
            },
        }
    }
}

} // verus!
