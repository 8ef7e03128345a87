//! Decisions of the line-following actor: its Idle/Running modes, loss-of-line
//! detection and recovery, speed selection, and the telemetry color triple.
//! The application computes the float error, integral and output, and
//! hands the comparisons that the decisions rest on to this module.
use vstd::prelude::*;

verus! {

/// Counter value above which the line counts as lost.
pub const LOST_LINE_LIMIT: u32 = 15;
/// Iterations of slow driving after a recovery.
pub const SLOW_COOLDOWN: u32 = 20;

/// A command for the line-following actor.
#[derive(Clone, Copy, Debug, PartialEq, Eq, Structural)]
pub enum PidCommand {
    /// Start following the line.
    Start,
    /// Stop following the line.
    Stop,
    /// Take the line color from the sensor.
    SetForeground,
    /// Take the floor color from the sensor.
    SetBackground,
}

/// Whether the actor is following the line.
#[derive(Clone, Copy, Debug, PartialEq, Eq, Structural)]
pub enum PidMode {
    Idle,
    Running,
}

/// What the actor does about a command, besides changing mode.
#[derive(Clone, Copy, Debug, PartialEq, Eq, Structural)]
pub enum PidReaction {
    Nothing,
    /// Sample the sensor as the new foreground color and store it.
    CalibrateForeground,
    /// Sample the sensor as the new background color and store it.
    CalibrateBackground,
    /// Send a zero autonomous track command to the driving actor.
    ReleaseTracks,
}

/// Mode and reaction after `cmd` arrives in `mode`.
pub open spec fn command_outcome(mode: PidMode, cmd: PidCommand) -> (PidMode, PidReaction) {
    match cmd {
        PidCommand::Start => (PidMode::Running, PidReaction::Nothing),
        PidCommand::Stop => (
            PidMode::Idle,
            if mode == PidMode::Running {
                PidReaction::ReleaseTracks
            } else {
                PidReaction::Nothing
            },
        ),
        PidCommand::SetForeground => (mode, PidReaction::CalibrateForeground),
        PidCommand::SetBackground => (mode, PidReaction::CalibrateBackground),
    }
}

/// Takes one command: Start enters Running, Stop leaves it and releases the
/// tracks, calibration is taken in either mode.
pub fn on_command(mode: PidMode, cmd: PidCommand) -> (r: (PidMode, PidReaction))
    ensures
        r == command_outcome(mode, cmd),
{
    match cmd {
        PidCommand::Start => (PidMode::Running, PidReaction::Nothing),
        PidCommand::Stop => (
            PidMode::Idle,
            match mode {
                PidMode::Running => PidReaction::ReleaseTracks,
                PidMode::Idle => PidReaction::Nothing,
            },
        ),
        PidCommand::SetForeground => (mode, PidReaction::CalibrateForeground),
        PidCommand::SetBackground => (mode, PidReaction::CalibrateBackground),
    }
}

/// Driving speed picked by the control loop.
#[derive(Clone, Copy, Debug, PartialEq, Eq, Structural)]
pub enum Speed {
    Fast,
    Normal,
    Slow,
}

/// What one control iteration does.
#[derive(Clone, Copy, Debug, PartialEq, Eq, Structural)]
pub enum LineDecision {
    /// The line is lost: reset the integral and error history and turn in
    /// place until the line is found again, then call `recovered`.
    Recover,
    /// Drive along the line at this speed.
    Drive(Speed),
}

/// Counters of the running control loop.
#[derive(Clone, Copy, Debug, PartialEq, Eq, Structural)]
pub struct LineTracker {
    /// Consecutive iterations that the error has stayed beyond the band.
    pub lost_line: u32,
    /// Iterations of slow driving left.
    pub drive_slow: u32,
}

/// One control iteration's comparisons, made on the float values by the
/// application.
#[derive(Clone, Copy, Debug, PartialEq, Eq, Structural)]
pub struct Observation {
    /// The error is beyond 0.5 in the drive multiplier's direction.
    pub beyond: bool,
    /// The error differs from the one two iterations ago by more than 0.7.
    pub jumped: bool,
    /// Integral and derivative are both under 0.2 in magnitude.
    pub calm: bool,
    /// The integral exceeds 1.0 in magnitude.
    pub saturated: bool,
}

impl LineTracker {
    /// Counters stay within what the loop can reach.
    pub open spec fn wf(self) -> bool {
        self.lost_line <= LOST_LINE_LIMIT + 1 && self.drive_slow <= SLOW_COOLDOWN
    }

    /// Whether the line counts as lost at the start of an iteration.
    pub open spec fn lost(self) -> bool {
        self.lost_line > LOST_LINE_LIMIT
    }

    /// The loss-of-line counter after an observation.
    pub open spec fn next_lost_line(self, o: Observation) -> u32 {
        if !o.beyond {
            0
        } else if self.lost_line > 0 {
            (self.lost_line + 1) as u32
        } else if o.jumped && self.drive_slow == 0 {
            1
        } else {
            0
        }
    }

    /// The speed an iteration picks.
    pub open spec fn speed_for(self, o: Observation) -> Speed {
        if self.drive_slow > 0 {
            Speed::Slow
        } else if o.calm {
            Speed::Fast
        } else if o.saturated {
            Speed::Slow
        } else {
            Speed::Normal
        }
    }

    /// The counters after one iteration.
    pub open spec fn after(self, o: Observation) -> LineTracker {
        if self.lost() {
            LineTracker { lost_line: 0, drive_slow: self.drive_slow }
        } else {
            LineTracker {
                lost_line: self.next_lost_line(o),
                drive_slow: if self.drive_slow > 0 {
                    (self.drive_slow - 1) as u32
                } else {
                    0
                },
            }
        }
    }

    /// The decision of one iteration.
    pub open spec fn decision(self, o: Observation) -> LineDecision {
        if self.lost() {
            LineDecision::Recover
        } else {
            LineDecision::Drive(self.speed_for(o))
        }
    }

    /// Counters of a loop that has just started.
    pub fn new() -> (r: LineTracker)
        ensures
            r.wf(),
            r.lost_line == 0 && r.drive_slow == 0,
    {
        LineTracker { lost_line: 0, drive_slow: 0 }
    }

    /// One control iteration. Where the counter already exceeds the limit
    /// the line is lost and the counter clears; otherwise the counter
    /// follows the observation and a speed is picked.
    pub fn step(&mut self, o: Observation) -> (r: LineDecision)
        requires
            old(self).wf(),
        ensures
            final(self).wf(),
            *final(self) == old(self).after(o),
            r == old(self).decision(o),
    {
        if self.lost_line > LOST_LINE_LIMIT {
            self.lost_line = 0;
            return LineDecision::Recover;
        }
        let next = if !o.beyond {
            0
        } else if self.lost_line > 0 {
            self.lost_line + 1
        } else if o.jumped && self.drive_slow == 0 {
            1
        } else {
            0
        };
        self.lost_line = next;
        let speed = if self.drive_slow > 0 {
            self.drive_slow = self.drive_slow - 1;
            Speed::Slow
        } else if o.calm {
            Speed::Fast
        } else if o.saturated {
            Speed::Slow
        } else {
            Speed::Normal
        };
        LineDecision::Drive(speed)
    }

    /// The line was found again: arm the slow-driving cooldown.
    pub fn recovered(&mut self)
        requires
            old(self).wf(),
        ensures
            final(self).wf(),
            final(self).lost_line == old(self).lost_line,
            final(self).drive_slow == SLOW_COOLDOWN,
    {
        self.drive_slow = SLOW_COOLDOWN;
    }
}

/// The loss-of-line counter grows only while the error stays beyond the
/// band, by one each iteration, and is zero once the error is back inside;
/// recovery comes exactly when the counter exceeds the limit.
pub proof fn lemma_lost_line_counter(t: LineTracker, o: Observation)
    requires
        t.wf(),
    ensures
        (t.decision(o) == LineDecision::Recover) <==> t.lost_line > LOST_LINE_LIMIT,
        !t.lost() ==> (t.after(o).lost_line > t.lost_line ==> o.beyond),
        !t.lost() ==> (t.after(o).lost_line > t.lost_line ==> t.after(o).lost_line
            == t.lost_line + 1),
        !t.lost() && t.lost_line > 0 && o.beyond ==> t.after(o).lost_line == t.lost_line + 1,
        !o.beyond ==> t.after(o).lost_line == 0,
{
}

/// The counters after a sequence of iterations, and whether any of them
/// recovered.
pub open spec fn beyond_run(t: LineTracker, obs: Seq<Observation>) -> (LineTracker, bool)
    decreases obs.len(),
{
    if obs.len() == 0 {
        (t, false)
    } else {
        let prev = beyond_run(t, obs.drop_last());
        (prev.0.after(obs.last()), prev.1 || prev.0.decision(obs.last()) == LineDecision::Recover)
    }
}

/// From a counter of one, iterations that all see the error beyond the band
/// count up by one each and recover not before the counter exceeds the
/// limit: after `k` of them the counter is `1 + k` while that stays within
/// the limit, with no recovery so far.
pub proof fn lemma_recovery_not_before(t: LineTracker, obs: Seq<Observation>)
    requires
        t.wf(),
        t.lost_line == 1,
        obs.len() <= LOST_LINE_LIMIT,
        forall|i: int| 0 <= i < obs.len() ==> (#[trigger] obs[i]).beyond,
    ensures
        beyond_run(t, obs).0.lost_line == 1 + obs.len(),
        beyond_run(t, obs).0.wf(),
        !beyond_run(t, obs).1,
    decreases obs.len(),
{
    if obs.len() > 0 {
        let front = obs.drop_last();
        assert forall|i: int| 0 <= i < front.len() implies (#[trigger] front[i]).beyond by {
            assert(front[i] == obs[i]);
        }
        lemma_recovery_not_before(t, front);
        assert(obs[obs.len() - 1].beyond);
    }
}

/// Half a sensor channel, clamped to a byte.
pub open spec fn half_channel(v: int) -> int {
    if v / 2 > 255 {
        255
    } else if v < 0 {
        0
    } else {
        v / 2
    }
}

/// The telemetry triple of a sensor reading: each channel halved and
/// clamped to a byte.
pub fn telemetry_color(sensor: (i32, i32, i32)) -> (r: (u8, u8, u8))
    ensures
        r.0 as int == half_channel(sensor.0 as int),
        r.1 as int == half_channel(sensor.1 as int),
        r.2 as int == half_channel(sensor.2 as int),
{
    (halve(sensor.0), halve(sensor.1), halve(sensor.2))
}

fn halve(v: i32) -> (r: u8)
    ensures
        r as int == half_channel(v as int),
{
    if v < 0 {
        0
    } else if v / 2 > 255 {
        255
    } else {
        (v / 2) as u8
    }
}

} // verus!
