use vstd::prelude::*;

verus! {

/// Decimal digits, indexed by their value.
pub const DIGITS: &'static str = "0123456789";

/// The program launched to hold the inhibition.
pub const INHIBITOR_PROGRAM: &'static str = "systemd-inhibit";

/// The decimal numeral of `n`: its digits, most significant first, with no
/// leading zero.
pub open spec fn decimal(n: nat) -> Seq<char>
    decreases n,
{
    if n < 10 {
        DIGITS@.subrange(n as int, n + 1int)
    } else {
        decimal(n / 10) + DIGITS@.subrange((n % 10) as int, (n % 10) + 1int)
    }
}

/// The command line of the inhibitor child, program first: it blocks idle
/// for as long as a shell sleeps `duration` seconds.
pub open spec fn inhibitor_command_spec(duration: nat) -> Seq<Seq<char>> {
    seq![
        INHIBITOR_PROGRAM@,
        "--what"@,
        "idle"@,
        "--who"@,
        "swayidle-inhibit"@,
        "--why"@,
        "audio playing"@,
        "--mode"@,
        "block"@,
        "sh"@,
        "-c"@,
        "sleep "@ + decimal(duration),
    ]
}

/// Appends the decimal numeral of `n` to `s`.
fn push_decimal(s: &mut String, n: u64)
    ensures
        final(s)@ == old(s)@ + decimal(n as nat),
    decreases n,
{
    proof {
        reveal_strlit("0123456789");
    }
    if n >= 10 {
        push_decimal(s, n / 10);
    }
    let d = (n % 10) as usize;
    s.append(DIGITS.substring_char(d, d + 1));
    assert(s@ =~= old(s)@ + decimal(n as nat));
}

/// The command line of the inhibitor child, program first, for a child that
/// lives `duration` seconds.
pub fn inhibitor_command(duration: u64) -> (r: Vec<String>)
    ensures
        r.deep_view() == inhibitor_command_spec(duration as nat),
{
    let mut sleep = String::from_str("sleep ");
    push_decimal(&mut sleep, duration);
    let mut r: Vec<String> = Vec::new();
    r.push(String::from_str(INHIBITOR_PROGRAM));
    r.push(String::from_str("--what"));
    r.push(String::from_str("idle"));
    r.push(String::from_str("--who"));
    r.push(String::from_str("swayidle-inhibit"));
    r.push(String::from_str("--why"));
    r.push(String::from_str("audio playing"));
    r.push(String::from_str("--mode"));
    r.push(String::from_str("block"));
    r.push(String::from_str("sh"));
    r.push(String::from_str("-c"));
    r.push(sleep);
    assert(r.deep_view() =~= inhibitor_command_spec(duration as nat));
    r
}

/// The live inhibitor child: when it was started and when its own sleep
/// runs out, in seconds on the caller's monotonic clock.
#[derive(Debug, Clone, Copy, PartialEq, Eq, Structural)]
pub struct InhibitorHandle {
    pub started_at: u64,
    pub expires_at: u64,
}

/// Owner of the single inhibitor child.
#[derive(Debug, Clone, Copy, PartialEq, Eq, Structural)]
pub enum InhibitorSupervisor {
    /// No child.
    Idle,
    /// A child runs under this handle.
    Active(InhibitorHandle),
    /// The child is being waited on and killed; `forced` once the first wait
    /// and kill left it running.
    Reaping { forced: bool },
}

/// What became of launching the inhibitor binary.
#[derive(Debug, Clone, Copy, PartialEq, Eq, Structural)]
pub enum SpawnOutcome {
    Launched,
    Failed,
}

/// The inhibitor binary could not be launched.
#[derive(Debug, Clone, Copy, PartialEq, Eq, Structural)]
pub struct ProcessSpawnError;

/// Waiting on or killing the child failed at the OS level.
#[derive(Debug, Clone, Copy, PartialEq, Eq, Structural)]
pub struct ReapError;

/// What the caller saw after the wait and kill that the supervisor asked for.
#[derive(Debug, Clone, Copy, PartialEq, Eq, Structural)]
pub enum ReapReport {
    /// The child has exited.
    Exited,
    /// The child had not terminated after the wait and kill.
    StillRunning,
    /// A wait or kill call failed.
    Failed,
}

/// The next thing to do to the child while stopping it.
#[derive(Debug, Clone, Copy, PartialEq, Eq, Structural)]
pub enum ReapStep {
    /// Nothing: the supervisor is idle.
    Done,
    /// Wait for the child to exit, kill it, and report whether it still runs.
    WaitAndKill,
    /// The child survived: wait and kill once more, then report.
    ForceKill,
}

impl InhibitorSupervisor {
    /// The supervisor after a launch of a child for `duration` seconds at `now`
    /// came out as `outcome`, with the result reported.
    pub open spec fn spawn_next(self, now: u64, duration: u64, outcome: SpawnOutcome) -> (
        InhibitorSupervisor,
        Result<(), ProcessSpawnError>,
    ) {
        match outcome {
            SpawnOutcome::Launched => (
                InhibitorSupervisor::Active(
                    InhibitorHandle { started_at: now, expires_at: (now + duration) as u64 },
                ),
                Ok(()),
            ),
            SpawnOutcome::Failed => (self, Err(ProcessSpawnError)),
        }
    }

    /// The supervisor after a stop command, and the step it asks for.
    pub open spec fn stop_next(self) -> (InhibitorSupervisor, ReapStep) {
        match self {
            InhibitorSupervisor::Idle => (self, ReapStep::Done),
            InhibitorSupervisor::Active(_) => (
                InhibitorSupervisor::Reaping { forced: false },
                ReapStep::WaitAndKill,
            ),
            InhibitorSupervisor::Reaping { forced } => (
                self,
                if forced {
                    ReapStep::ForceKill
                } else {
                    ReapStep::WaitAndKill
                },
            ),
        }
    }

    /// The supervisor after the caller reported `report` on a reaping step,
    /// and the next step or the error.
    pub open spec fn reap_next(self, report: ReapReport) -> (
        InhibitorSupervisor,
        Result<ReapStep, ReapError>,
    ) {
        match report {
            ReapReport::Failed => (InhibitorSupervisor::Idle, Err(ReapError)),
            ReapReport::StillRunning => if self == (InhibitorSupervisor::Reaping { forced: false }) {
                (InhibitorSupervisor::Reaping { forced: true }, Ok(ReapStep::ForceKill))
            } else {
                (InhibitorSupervisor::Idle, Ok(ReapStep::Done))
            },
            ReapReport::Exited => (InhibitorSupervisor::Idle, Ok(ReapStep::Done)),
        }
    }

    /// Whether no child is held.
    pub fn is_idle(&self) -> (r: bool)
        ensures
            r == *self is Idle,
    {
        match self {
            InhibitorSupervisor::Idle => true,
            _ => false,
        }
    }

    /// Records the launch of a child for `duration` seconds at `now`. On
    /// `Launched` the supervisor becomes active with a handle that expires
    /// `duration` seconds later; on `Failed` it stays idle and returns
    /// [`ProcessSpawnError`].
    pub fn spawn(&mut self, now: u64, duration: u64, outcome: SpawnOutcome) -> (r: Result<
        (),
        ProcessSpawnError,
    >)
        requires
            *old(self) is Idle,
            now + duration <= u64::MAX,
        ensures
            (*final(self), r) == old(self).spawn_next(now, duration, outcome),
    {
        match outcome {
            SpawnOutcome::Launched => {
                *self = InhibitorSupervisor::Active(
                    InhibitorHandle { started_at: now, expires_at: now + duration },
                );
                Ok(())
            },
            SpawnOutcome::Failed => Err(ProcessSpawnError),
        }
    }

    /// Stop command: an active child is to be reaped; when idle this is a
    /// no-op that asks for nothing.
    pub fn stop(&mut self) -> (r: ReapStep)
        ensures
            (*final(self), r) == old(self).stop_next(),
    {
        match *self {
            InhibitorSupervisor::Idle => ReapStep::Done,
            InhibitorSupervisor::Active(_) => {
                *self = InhibitorSupervisor::Reaping { forced: false };
                ReapStep::WaitAndKill
            },
            InhibitorSupervisor::Reaping { forced } => {
                if forced {
                    ReapStep::ForceKill
                } else {
                    ReapStep::WaitAndKill
                }
            },
        }
    }

    /// Takes the caller's report on the step asked for. A child still
    /// running after the first wait and kill is killed once more; after that,
    /// or once it exited, the supervisor is idle. A failed call is
    /// [`ReapError`], and the handle is dropped all the same.
    pub fn on_reap(&mut self, report: ReapReport) -> (r: Result<ReapStep, ReapError>)
        requires
            *old(self) is Reaping,
        ensures
            (*final(self), r) == old(self).reap_next(report),
    {
        match report {
            ReapReport::Failed => {
                *self = InhibitorSupervisor::Idle;
                Err(ReapError)
            },
            ReapReport::StillRunning => {
                if *self == (InhibitorSupervisor::Reaping { forced: false }) {
                    *self = InhibitorSupervisor::Reaping { forced: true };
                    Ok(ReapStep::ForceKill)
                } else {
                    *self = InhibitorSupervisor::Idle;
                    Ok(ReapStep::Done)
                }
            },
            ReapReport::Exited => {
                *self = InhibitorSupervisor::Idle;
                Ok(ReapStep::Done)
            },
        }
    }
}

/// Stop is idempotent: a second stop right after a first leaves the state and
/// the step asked for as they were, and a stop while idle is a no-op that
/// asks for nothing.
pub proof fn lemma_stop_idempotent(s: InhibitorSupervisor)
    ensures
        s.stop_next().0.stop_next() == s.stop_next(),
        s is Idle ==> s.stop_next() == (s, ReapStep::Done),
{
}

/// Start then stop: a launched child makes the supervisor active, a stop
/// then asks for a wait and kill, and the supervisor is idle again after the
/// report of that step, or after one forced kill where the child survived it.
/// It reports a clean finish after the first step only when the child exited.
pub proof fn lemma_spawn_stop_round_trip(
    now: u64,
    duration: u64,
    first: ReapReport,
    second: ReapReport,
)
    requires
        now + duration <= u64::MAX,
    ensures
        ({
            let active = InhibitorSupervisor::Idle.spawn_next(
                now,
                duration,
                SpawnOutcome::Launched,
            ).0;
            let (reaping, step) = active.stop_next();
            let (after, res) = reaping.reap_next(first);
            &&& active == InhibitorSupervisor::Active(
                InhibitorHandle { started_at: now, expires_at: (now + duration) as u64 },
            )
            &&& step == ReapStep::WaitAndKill
            &&& (res == Ok::<ReapStep, ReapError>(ReapStep::Done)) == (first == ReapReport::Exited)
            &&& (first == ReapReport::StillRunning ==> res == Ok::<ReapStep, ReapError>(
                ReapStep::ForceKill,
            ) && after.reap_next(second).0 is Idle)
            &&& (first != ReapReport::StillRunning ==> after is Idle)
        }),
{
}

} // verus!
