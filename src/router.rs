//! Hands decoded robot commands on to the actor that owns their effect.
use vstd::prelude::*;
use crate::driving::DrivingCommand;
use crate::pid::PidCommand;
use crate::protocol::RobotCommand;

verus! {

/// Where a robot command goes.
#[derive(Clone, Copy, Debug, PartialEq, Eq, Structural)]
pub enum Route {
    Driving(DrivingCommand),
    Pid(PidCommand),
}

/// The destination of each robot command: track, trim and kick go to the
/// driving actor; line following and calibration go to the line-following
/// actor.
pub open spec fn route_spec(cmd: RobotCommand) -> Route {
    match cmd {
        RobotCommand::SetTrack(l, r) => Route::Driving(DrivingCommand::SetTrack(l, r)),
        RobotCommand::SetTrim(t) => Route::Driving(DrivingCommand::SetTrim(t)),
        RobotCommand::Kick => Route::Driving(DrivingCommand::Kick),
        RobotCommand::SetPid(on) => Route::Pid(
            if on {
                PidCommand::Start
            } else {
                PidCommand::Stop
            },
        ),
        RobotCommand::SetForeground => Route::Pid(PidCommand::SetForeground),
        RobotCommand::SetBackground => Route::Pid(PidCommand::SetBackground),
    }
}

/// Picks the actor command for a robot command.
pub fn route(cmd: RobotCommand) -> (r: Route)
    ensures
        r == route_spec(cmd),
{
    match cmd {
        RobotCommand::SetTrack(l, r) => Route::Driving(DrivingCommand::SetTrack(l, r)),
        RobotCommand::SetTrim(t) => Route::Driving(DrivingCommand::SetTrim(t)),
        RobotCommand::Kick => Route::Driving(DrivingCommand::Kick),
        RobotCommand::SetPid(on) => Route::Pid(
            if on {
                PidCommand::Start
            } else {
                PidCommand::Stop
            },
        ),
        RobotCommand::SetForeground => Route::Pid(PidCommand::SetForeground),
        RobotCommand::SetBackground => Route::Pid(PidCommand::SetBackground),
    }
}

/// The safety stop forwarded when the link falls silent: zero on both
/// tracks (the bit pattern of 0.0).
pub fn safety_stop() -> (r: RobotCommand)
    ensures
        r == RobotCommand::SetTrack(0, 0),
{
    RobotCommand::SetTrack(0, 0)
}

} // verus!
