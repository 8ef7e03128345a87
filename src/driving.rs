//! Decisions of the driving actor: which track values are current, when the
//! motor outputs must be rewritten, and the kicker's single-outstanding-kick
//! timer. The application applies the float blend and drives the motors.
use vstd::prelude::*;

verus! {

/// Milliseconds after which an extended kicker returns to rest.
pub const KICK_DURATION_MS: u64 = 200;

/// A command for the driving actor. Fractions are IEEE-754 single-precision
/// bit patterns.
#[derive(Clone, Copy, Debug, PartialEq, Eq, Structural)]
pub enum DrivingCommand {
    /// Manual left and right track fractions.
    SetTrack(u32, u32),
    /// Autonomous left and right track fractions, before the PID authority
    /// scaling.
    SetPid(u32, u32),
    /// Steering trim; accepted and without effect.
    SetTrim(u32),
    /// Fire the kicker, unless a kick is in flight.
    Kick,
    /// End the actor's loop.
    Stop,
}

/// State of one run of the driving actor.
#[derive(Clone, Copy, Debug)]
pub struct DriveState {
    /// Latest manual fractions.
    pub manual_left: u32,
    pub manual_right: u32,
    /// Latest autonomous fractions.
    pub pid_left: u32,
    pub pid_right: u32,
    /// When the kick in flight started, in milliseconds.
    pub kick_started: Option<u64>,
}

/// What the application does after one command.
#[derive(Clone, Copy, Debug, PartialEq, Eq, Structural)]
pub struct DriveStep {
    /// Rewrite both traction motor duty cycles from the current fractions.
    pub recompute: bool,
    /// Drive the kicker to its extended position.
    pub extend_kicker: bool,
    /// Leave the loop.
    pub stop: bool,
}

/// The state after `cmd` arrived at time `now`.
pub open spec fn after_command(s: DriveState, cmd: DrivingCommand, now: u64) -> DriveState {
    match cmd {
        DrivingCommand::SetTrack(l, r) => DriveState { manual_left: l, manual_right: r, ..s },
        DrivingCommand::SetPid(l, r) => DriveState { pid_left: l, pid_right: r, ..s },
        DrivingCommand::Kick => if s.kick_started is None {
            DriveState { kick_started: Some(now), ..s }
        } else {
            s
        },
        _ => s,
    }
}

/// The actions that `cmd` calls for in state `s`.
pub open spec fn command_step(s: DriveState, cmd: DrivingCommand) -> DriveStep {
    DriveStep {
        recompute: cmd is SetTrack || cmd is SetPid,
        extend_kicker: cmd is Kick && s.kick_started is None,
        stop: cmd is Stop,
    }
}

/// Milliseconds from `start` to `now`; zero where the clock went back.
pub open spec fn elapsed(start: u64, now: u64) -> int {
    if now >= start {
        now - start
    } else {
        0
    }
}

/// Whether the kick in flight is due to return at time `now`.
pub open spec fn kick_due(s: DriveState, now: u64) -> bool {
    match s.kick_started {
        Some(t) => elapsed(t, now) > KICK_DURATION_MS,
        None => false,
    }
}

/// The state after the periodic timer check at time `now`.
pub open spec fn after_tick(s: DriveState, now: u64) -> DriveState {
    if kick_due(s, now) {
        DriveState { kick_started: None, ..s }
    } else {
        s
    }
}

impl DriveState {
    /// The state at the start of a run: all fractions zero, no kick.
    pub fn new() -> (r: DriveState)
        ensures
            r.manual_left == 0 && r.manual_right == 0,
            r.pid_left == 0 && r.pid_right == 0,
            r.kick_started is None,
    {
        DriveState { manual_left: 0, manual_right: 0, pid_left: 0, pid_right: 0, kick_started: None }
    }

    /// Takes one command that arrived at time `now`.
    pub fn apply(&mut self, cmd: DrivingCommand, now: u64) -> (r: DriveStep)
        ensures
            *final(self) == after_command(*old(self), cmd, now),
            r == command_step(*old(self), cmd),
    {
        let kick_idle = self.kick_started.is_none();
        match cmd {
            DrivingCommand::SetTrack(l, r) => {
                self.manual_left = l;
                self.manual_right = r;
            },
            DrivingCommand::SetPid(l, r) => {
                self.pid_left = l;
                self.pid_right = r;
            },
            DrivingCommand::Kick => {
                if kick_idle {
                    self.kick_started = Some(now);
                }
            },
            DrivingCommand::SetTrim(_) => {},
            DrivingCommand::Stop => {},
        }
        DriveStep {
            recompute: match cmd {
                DrivingCommand::SetTrack(_, _) | DrivingCommand::SetPid(_, _) => true,
                _ => false,
            },
            extend_kicker: match cmd {
                DrivingCommand::Kick => kick_idle,
                _ => false,
            },
            stop: match cmd {
                DrivingCommand::Stop => true,
                _ => false,
            },
        }
    }

    /// The periodic timer check at time `now`: returns whether the kicker
    /// must go back to rest.
    pub fn tick(&mut self, now: u64) -> (retract: bool)
        ensures
            retract == kick_due(*old(self), now),
            *final(self) == after_tick(*old(self), now),
    {
        match self.kick_started {
            Some(t) => {
                let spent = if now >= t { now - t } else { 0 };
                if spent > KICK_DURATION_MS {
                    self.kick_started = None;
                    true
                } else {
                    false
                }
            },
            None => false,
        }
    }
}

/// One loop iteration on a sequence of kick requests: each request at its
/// time, followed by the timer check at that time. Returns the final state
/// and the numbers of extensions and retractions.
pub open spec fn kick_run(s: DriveState, times: Seq<u64>) -> (DriveState, nat, nat)
    decreases times.len(),
{
    if times.len() == 0 {
        (s, 0, 0)
    } else {
        let prev = kick_run(s, times.drop_last());
        let now = times.last();
        let extend = command_step(prev.0, DrivingCommand::Kick).extend_kicker;
        let mid = after_command(prev.0, DrivingCommand::Kick, now);
        let retract = kick_due(mid, now);
        (
            after_tick(mid, now),
            prev.1 + if extend { 1nat } else { 0nat },
            prev.2 + if retract { 1nat } else { 0nat },
        )
    }
}

/// Kicks requested within the kick window of the first one produce a single
/// extension and no retraction: the kick started by the first request stays
/// the one in flight.
pub proof fn lemma_kick_once_in_window(s: DriveState, times: Seq<u64>)
    requires
        s.kick_started is None,
        times.len() > 0,
        forall|i: int|
            0 <= i < times.len() ==> times[0] <= #[trigger] times[i] <= times[0]
                + KICK_DURATION_MS,
    ensures
        kick_run(s, times).0.kick_started == Some(times[0]),
        kick_run(s, times).1 == 1,
        kick_run(s, times).2 == 0,
    decreases times.len(),
{
    if times.len() > 1 {
        let front = times.drop_last();
        assert forall|i: int| 0 <= i < front.len() implies front[0] <= #[trigger] front[i]
            <= front[0] + KICK_DURATION_MS by {
            assert(front[i] == times[i]);
        }
        lemma_kick_once_in_window(s, front);
        assert(front[0] == times[0]);
        let now = times.last();
        assert(times[0] <= now <= times[0] + KICK_DURATION_MS);
        let prev = kick_run(s, front);
        let mid = after_command(prev.0, DrivingCommand::Kick, now);
        assert(mid == prev.0);
        assert(!kick_due(mid, now));
    } else {
        assert(times.drop_last().len() == 0);
        assert(kick_run(s, times.drop_last()) == (s, 0nat, 0nat));
        let mid = after_command(s, DrivingCommand::Kick, times[0]);
        assert(mid.kick_started == Some(times[0]));
        assert(!kick_due(mid, times[0]));
    }
}

/// The last manual and autonomous fractions win whatever order the two
/// commands arrive in.
pub proof fn lemma_track_pid_commute(s: DriveState, l: u32, r: u32, pl: u32, pr: u32, now: u64)
    ensures
        after_command(after_command(s, DrivingCommand::SetTrack(l, r), now), DrivingCommand::SetPid(pl, pr), now)
            == after_command(after_command(s, DrivingCommand::SetPid(pl, pr), now), DrivingCommand::SetTrack(l, r), now),
        after_command(after_command(s, DrivingCommand::SetTrack(l, r), now), DrivingCommand::SetPid(pl, pr), now)
            == (DriveState { manual_left: l, manual_right: r, pid_left: pl, pid_right: pr, ..s }),
{
}

/// A kick in flight returns to rest once its window has passed, which frees
/// the kicker for the next kick.
pub proof fn lemma_kick_returns(s: DriveState, now: u64)
    requires
        s.kick_started is Some,
        now > s.kick_started->Some_0 + KICK_DURATION_MS,
    ensures
        kick_due(s, now),
        after_tick(s, now).kick_started is None,
        command_step(after_tick(s, now), DrivingCommand::Kick).extend_kicker,
{
}

} // verus!
