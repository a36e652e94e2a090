use crate::monitor::PlaybackPoll;
use crate::settings::{default_settings, Settings};
use crate::supervisor::{InhibitorSupervisor, ProcessSpawnError, ReapStep, SpawnOutcome};
use vstd::prelude::*;

verus! {

/// What a tick asks the caller to do with the inhibitor.
#[derive(Debug, Clone, Copy, PartialEq, Eq, Structural)]
pub enum Command {
    /// Nothing to do this tick.
    Hold,
    /// Launch a child and report it through [`IdleApp::run_cmd`].
    Start,
    /// Reap the child through [`IdleApp::check_and_kill_zombies`].
    Stop,
    /// The child's window has run out while playback goes on: reap it, then
    /// launch a fresh one.
    Renew,
}

/// The reconciliation controller: the playback signal, the time of the next
/// start/stop decision, and the inhibitor. Times are seconds on the caller's
/// monotonic clock.
#[derive(Debug, Clone, Copy, PartialEq, Eq, Structural)]
pub struct IdleApp {
    pub config: Settings,
    /// The playback signal of the latest completed poll.
    pub should_block: bool,
    /// No start or stop is decided before this time.
    pub next_check: u64,
    pub inhibitor: InhibitorSupervisor,
}

impl IdleApp {
    /// The decision of a tick at `now`.
    pub open spec fn command_at(self, now: u64) -> Command {
        if now < self.next_check {
            Command::Hold
        } else if !self.should_block {
            Command::Stop
        } else {
            match self.inhibitor {
                InhibitorSupervisor::Idle => Command::Start,
                InhibitorSupervisor::Active(h) => if now >= h.expires_at {
                    Command::Renew
                } else {
                    Command::Hold
                },
                InhibitorSupervisor::Reaping { .. } => Command::Stop,
            }
        }
    }

    /// The controller after a launch at `now` came out as `outcome`: on
    /// success the next decision waits for the child's window to lapse.
    pub open spec fn spawn_next(self, now: u64, outcome: SpawnOutcome) -> (
        IdleApp,
        Result<(), ProcessSpawnError>,
    ) {
        let (inhibitor, r) = self.inhibitor.spawn_next(
            now,
            self.config.server.inhibit_duration,
            outcome,
        );
        let next_check = match outcome {
            SpawnOutcome::Launched => (now + self.config.server.inhibit_duration) as u64,
            SpawnOutcome::Failed => self.next_check,
        };
        (IdleApp { inhibitor, next_check, ..self }, r)
    }

    /// Seconds to sleep after a tick: a whole inhibit window more while a
    /// child inhibits for ongoing playback.
    pub open spec fn sleep_spec(self) -> nat {
        if self.should_block && self.inhibitor is Active {
            (self.config.server.sleep_duration + self.config.server.inhibit_duration) as nat
        } else {
            self.config.server.sleep_duration as nat
        }
    }

    /// A controller with the configuration read from file, or the defaults
    /// where there was none; not playing, no child, first decision due at once.
    pub fn new<E>(config_from_file: Result<Settings, E>) -> (r: IdleApp)
        ensures
            r.config == (match config_from_file {
                Ok(s) => s,
                Err(_) => default_settings(),
            }),
            !r.should_block,
            r.next_check == 0,
            r.inhibitor is Idle,
    {
        let config = match config_from_file {
            Ok(s) => s,
            Err(_) => Settings::default(),
        };
        IdleApp { config, should_block: false, next_check: 0, inhibitor: InhibitorSupervisor::Idle }
    }

    /// Takes the signal of a completed poll.
    pub fn check_playback_status(&mut self, poll: &PlaybackPoll)
        requires
            poll.wf(),
            poll@.done(),
        ensures
            *final(self) == (IdleApp { should_block: poll@.signal(), ..*old(self) }),
    {
        self.should_block = poll.signal();
    }

    /// The decision of a tick at `now`.
    pub fn next_command(&self, now: u64) -> (r: Command)
        ensures
            r == self.command_at(now),
    {
        if now < self.next_check {
            Command::Hold
        } else if !self.should_block {
            Command::Stop
        } else {
            match self.inhibitor {
                InhibitorSupervisor::Idle => Command::Start,
                InhibitorSupervisor::Active(h) => if now >= h.expires_at {
                    Command::Renew
                } else {
                    Command::Hold
                },
                InhibitorSupervisor::Reaping { .. } => Command::Stop,
            }
        }
    }

    /// Records the launch of an inhibitor child at `now`. On failure the
    /// controller is unchanged and the error is returned.
    pub fn run_cmd(&mut self, now: u64, outcome: SpawnOutcome) -> (r: Result<(), ProcessSpawnError>)
        requires
            old(self).inhibitor is Idle,
            now + old(self).config.server.inhibit_duration <= u64::MAX,
        ensures
            (*final(self), r) == old(self).spawn_next(now, outcome),
    {
        let r = self.inhibitor.spawn(now, self.config.server.inhibit_duration, outcome);
        if r.is_ok() {
            self.next_check = now + self.config.server.inhibit_duration;
        }
        r
    }

    /// Stop command to the inhibitor; see [`InhibitorSupervisor::stop`].
    pub fn check_and_kill_zombies(&mut self) -> (r: ReapStep)
        ensures
            (final(self).inhibitor, r) == old(self).inhibitor.stop_next(),
            *final(self) == (IdleApp { inhibitor: final(self).inhibitor, ..*old(self) }),
    {
        self.inhibitor.stop()
    }

    /// Seconds to sleep after a tick.
    pub fn sleep_seconds(&self) -> (r: u64)
        requires
            self.config.server.sleep_duration + self.config.server.inhibit_duration <= u64::MAX,
        ensures
            r == self.sleep_spec(),
    {
        if self.should_block && self.process_running() {
            self.config.server.sleep_duration + self.config.server.inhibit_duration
        } else {
            self.config.server.sleep_duration
        }
    }

    /// Whether an inhibitor child is active.
    pub fn process_running(&self) -> (r: bool)
        ensures
            r == self.inhibitor is Active,
    {
        match self.inhibitor {
            InhibitorSupervisor::Active(_) => true,
            _ => false,
        }
    }

    /// When the active child was started, if there is one.
    pub fn last_block_time(&self) -> (r: Option<u64>)
        ensures
            r == (match self.inhibitor {
                InhibitorSupervisor::Active(h) => Some(h.started_at),
                _ => None,
            }),
    {
        match self.inhibitor {
            InhibitorSupervisor::Active(h) => Some(h.started_at),
            _ => None,
        }
    }
}

/// While a child is active and its window has not lapsed, a tick that hears
/// "playing" issues no command: no second child is started beside it.
pub proof fn lemma_active_unexpired_holds(app: IdleApp, now: u64)
    requires
        app.should_block,
        app.inhibitor is Active,
        now < app.inhibitor->Active_0.expires_at,
    ensures
        app.command_at(now) == Command::Hold,
{
}

/// After a child is launched at `start`, every tick before its window lapses
/// that still hears "playing" issues no command.
pub proof fn lemma_playing_ticks_after_start_hold(app: IdleApp, start: u64, now: u64)
    requires
        app.inhibitor is Idle,
        start + app.config.server.inhibit_duration <= u64::MAX,
        now < start + app.config.server.inhibit_duration,
    ensures
        ({
            let started = app.spawn_next(start, SpawnOutcome::Launched).0;
            &&& started.inhibitor is Active
            &&& (IdleApp { should_block: true, ..started }).command_at(now) == Command::Hold
        }),
{
}

} // verus!
