use ev3robot::driving::{DriveState, DrivingCommand};
use ev3robot::network::{ConnectionState, Link, LinkPhase, TimeoutAction};
use ev3robot::pid::{on_command, telemetry_color, LineDecision, LineTracker, Observation, PidCommand, PidMode, PidReaction, Speed};
use ev3robot::protocol::RobotCommand;
use ev3robot::router::{route, safety_stop, Route};
use ev3robot::status::{available_colors, connection_color, indicator_colors, label_color, LedColor};

#[test]
fn kick_repeated_in_window_fires_once() {
    let mut s = DriveState::new();
    let mut extends = 0;
    let mut retracts = 0;
    for now in [1000u64, 1050, 1100, 1199, 1200] {
        if s.apply(DrivingCommand::Kick, now).extend_kicker {
            extends += 1;
        }
        if s.tick(now) {
            retracts += 1;
        }
    }
    assert_eq!((extends, retracts), (1, 0));
    assert!(s.tick(1201));
    assert!(!s.tick(1300));
    assert!(s.apply(DrivingCommand::Kick, 1300).extend_kicker);
}

#[test]
fn last_track_values_win_in_any_order() {
    let mut a = DriveState::new();
    let mut b = DriveState::new();
    assert!(a.apply(DrivingCommand::SetTrack(1, 2), 0).recompute);
    assert!(a.apply(DrivingCommand::SetPid(3, 4), 0).recompute);
    b.apply(DrivingCommand::SetPid(3, 4), 0);
    b.apply(DrivingCommand::SetTrack(1, 2), 0);
    assert_eq!((a.manual_left, a.manual_right, a.pid_left, a.pid_right), (1, 2, 3, 4));
    assert_eq!((b.manual_left, b.manual_right, b.pid_left, b.pid_right), (1, 2, 3, 4));
    let step = a.apply(DrivingCommand::SetTrim(9), 0);
    assert!(!step.recompute && !step.stop && !step.extend_kicker);
    assert!(a.apply(DrivingCommand::Stop, 0).stop);
}

fn obs(beyond: bool, jumped: bool) -> Observation {
    Observation { beyond, jumped, calm: false, saturated: false }
}

#[test]
fn lost_line_counts_and_recovers_after_limit() {
    let mut t = LineTracker::new();
    assert_eq!(t.step(obs(true, false)), LineDecision::Drive(Speed::Normal));
    assert_eq!(t.lost_line, 0);
    t.step(obs(true, true));
    assert_eq!(t.lost_line, 1);
    for k in 2..=16u32 {
        assert_eq!(t.step(obs(true, false)), LineDecision::Drive(Speed::Normal));
        assert_eq!(t.lost_line, k);
    }
    assert_eq!(t.step(obs(true, false)), LineDecision::Recover);
    assert_eq!(t.lost_line, 0);
    t.recovered();
    assert_eq!(t.drive_slow, 20);
    assert_eq!(t.step(obs(true, true)), LineDecision::Drive(Speed::Slow));
    assert_eq!(t.lost_line, 0);
    assert_eq!(t.drive_slow, 19);
}

#[test]
fn lost_line_resets_inside_band() {
    let mut t = LineTracker::new();
    t.step(obs(true, true));
    t.step(obs(true, false));
    assert_eq!(t.lost_line, 2);
    t.step(obs(false, true));
    assert_eq!(t.lost_line, 0);
}

#[test]
fn speed_selection() {
    let mut t = LineTracker::new();
    let calm = Observation { beyond: false, jumped: false, calm: true, saturated: false };
    assert_eq!(t.step(calm), LineDecision::Drive(Speed::Fast));
    let sat = Observation { beyond: false, jumped: false, calm: false, saturated: true };
    assert_eq!(t.step(sat), LineDecision::Drive(Speed::Slow));
    assert_eq!(t.step(obs(false, false)), LineDecision::Drive(Speed::Normal));
}

#[test]
fn pid_modes() {
    assert_eq!(on_command(PidMode::Idle, PidCommand::Start), (PidMode::Running, PidReaction::Nothing));
    assert_eq!(on_command(PidMode::Running, PidCommand::Stop), (PidMode::Idle, PidReaction::ReleaseTracks));
    assert_eq!(on_command(PidMode::Idle, PidCommand::Stop), (PidMode::Idle, PidReaction::Nothing));
    assert_eq!(
        on_command(PidMode::Running, PidCommand::SetForeground),
        (PidMode::Running, PidReaction::CalibrateForeground)
    );
    assert_eq!(
        on_command(PidMode::Idle, PidCommand::SetBackground),
        (PidMode::Idle, PidReaction::CalibrateBackground)
    );
}

#[test]
fn telemetry_halves_and_clamps() {
    assert_eq!(telemetry_color((100, 511, 600)), (50, 255, 255));
    assert_eq!(telemetry_color((-4, 1, 3)), (0, 0, 1));
}

#[test]
fn silent_discovery_stays_discovering() {
    let mut link = Link::new();
    for _ in 0..26 {
        link.on_discovery(None);
        assert_eq!(link.phase, LinkPhase::Discovering);
    }
    link.on_discovery(Some(&[0, 0, 1][..]));
    assert_eq!(link.phase, LinkPhase::Discovering);
    link.on_discovery(Some(&[0, 0, 0x1d, 0x4c][..]));
    assert_eq!(link.phase, LinkPhase::Session(7500));
    assert_eq!(link.connection, ConnectionState::Connecting);
}

#[test]
fn silence_stops_then_disconnects() {
    let mut link = Link::new();
    link.on_discovery(Some(&[0, 0, 0x1d, 0x4c][..]));
    link.connected(10_000);
    assert_eq!(link.connection, ConnectionState::Connected);
    let mut stops = 0;
    for now in [10_100u64, 10_200, 10_300, 10_350] {
        match link.on_timeout(now) {
            TimeoutAction::Probe { safety_stop } => {
                if safety_stop {
                    stops += 1;
                }
            }
            TimeoutAction::Disconnect => panic!("disconnected too early"),
        }
    }
    assert_eq!(stops, 1);
    assert_eq!(link.connection, ConnectionState::Reconnecting);
    assert_eq!(link.on_timeout(15_000), TimeoutAction::Probe { safety_stop: true });
    assert_eq!(link.on_timeout(15_001), TimeoutAction::Disconnect);
    assert_eq!(link.connection, ConnectionState::Disconnected);
}

#[test]
fn packet_after_silence_reconnects() {
    let mut link = Link::new();
    link.on_discovery(Some(&[0, 0, 0x1d, 0x4c][..]));
    link.connected(0);
    link.on_timeout(400);
    assert!(link.stopped);
    link.on_packet(450);
    assert_eq!(link.connection, ConnectionState::Connected);
    assert_eq!(link.last_contact, 450);
    assert!(!link.stopped);
}

#[test]
fn router_destinations() {
    assert_eq!(route(RobotCommand::SetTrack(1, 2)), Route::Driving(DrivingCommand::SetTrack(1, 2)));
    assert_eq!(route(RobotCommand::SetTrim(3)), Route::Driving(DrivingCommand::SetTrim(3)));
    assert_eq!(route(RobotCommand::Kick), Route::Driving(DrivingCommand::Kick));
    assert_eq!(route(RobotCommand::SetPid(true)), Route::Pid(PidCommand::Start));
    assert_eq!(route(RobotCommand::SetPid(false)), Route::Pid(PidCommand::Stop));
    assert_eq!(route(RobotCommand::SetForeground), Route::Pid(PidCommand::SetForeground));
    assert_eq!(route(RobotCommand::SetBackground), Route::Pid(PidCommand::SetBackground));
    assert_eq!(safety_stop(), RobotCommand::SetTrack(0.0f32.to_bits(), 0.0f32.to_bits()));
}

#[test]
fn indicator_colors_follow_label_and_state() {
    assert_eq!(label_color(&String::from("lime")), LedColor::Green);
    assert_eq!(label_color(&String::from("yellow")), LedColor::Yellow);
    assert_eq!(label_color(&String::from("amber")), LedColor::Amber);
    assert_eq!(label_color(&String::from("orange")), LedColor::Orange);
    assert_eq!(label_color(&String::from("red")), LedColor::Red);
    assert_eq!(label_color(&String::from("black")), LedColor::Off);
    assert_eq!(label_color(&String::from("purple")), LedColor::Off);
    assert_eq!(connection_color(ConnectionState::Disconnected), LedColor::Red);
    assert_eq!(connection_color(ConnectionState::Connecting), LedColor::Amber);
    assert_eq!(connection_color(ConnectionState::Connected), LedColor::Green);
    assert_eq!(connection_color(ConnectionState::Reconnecting), LedColor::Yellow);
    assert_eq!(
        indicator_colors(&String::from("red"), ConnectionState::Connected),
        (LedColor::Red, LedColor::Green)
    );
    assert_eq!(available_colors(), vec!["lime", "yellow", "amber", "orange", "red"]);
}
