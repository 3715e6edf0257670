use salsa::direction::{directions_are_close, Direction};
use salsa::telescope::{calculate_target_horizontal, TelescopeError, TelescopeStatus, TelescopeTarget};
use salsa::tracker::{TelescopeTracker, TrackerAction, TrackerEvent, TrackerPhase};

fn dir(azimuth: i64, elevation: i64) -> Direction {
    Direction { azimuth, elevation }
}

/// A tracker that pursues `target`, set at `t0`, and has just connected for the
/// first time: it is now reading the mount's direction.
fn reading_tracker(target: TelescopeTarget, t0: i64) -> TelescopeTracker {
    let mut t = TelescopeTracker::new("127.0.0.1:3001".to_string());
    t.set_target(target, t0).unwrap();
    assert_eq!(TrackerAction::Connect, t.step(TrackerEvent::Tick));
    assert_eq!(TrackerAction::SendStop, t.step(TrackerEvent::Connected { now: t0 }));
    assert_eq!(TrackerAction::ReadDirection { target }, t.step(TrackerEvent::CommandDone(None)));
    t
}

/// Ends the tick by reading `current` and acknowledging a pointing command, if any.
fn finish_tick(t: &mut TelescopeTracker, converted: Direction, current: Direction) -> TrackerAction {
    let action = t.step(TrackerEvent::DirectionRead { converted, current: Ok(current) });
    if let TrackerAction::SendDirection(_) = action {
        assert_eq!(TrackerAction::Wait, t.step(TrackerEvent::CommandDone(None)));
    }
    action
}

fn next_tick(t: &mut TelescopeTracker, now: i64) -> TrackerAction {
    assert_eq!(TrackerAction::Connect, t.step(TrackerEvent::Tick));
    t.step(TrackerEvent::Connected { now })
}

#[test]
fn close_threshold_is_one_tenth_degree() {
    assert!(directions_are_close(dir(0, 0), dir(99_999, 0), 1));
    assert!(!directions_are_close(dir(0, 0), dir(100_000, 0), 1));
    assert!(!directions_are_close(dir(0, 0), dir(0, -100_000), 1));
    assert!(directions_are_close(dir(0, 0), dir(199_999, -199_999), 2));
    assert!(!directions_are_close(dir(0, 0), dir(200_000, 0), 2));
}

#[test]
fn close_is_symmetric() {
    let a = dir(1_000_000, 2_000_000);
    let b = dir(1_150_000, 1_900_000);
    assert_eq!(directions_are_close(a, b, 1), directions_are_close(b, a, 1));
    assert_eq!(directions_are_close(a, b, 2), directions_are_close(b, a, 2));
    assert!(!directions_are_close(a, b, 1));
    assert!(directions_are_close(a, b, 2));
}

#[test]
fn close_scales_with_tolerance() {
    let a = dir(1_000, 2_000);
    let b = dir(1_900, 2_500);
    assert!(directions_are_close(a, b, 1));
    let a3 = dir(3_000, 6_000);
    let b3 = dir(5_700, 7_500);
    assert!(directions_are_close(a3, b3, 3));
    assert!(!directions_are_close(dir(0, 0), dir(300_000, 0), 3));
}

#[test]
fn horizontal_target_is_its_own_direction() {
    let target = TelescopeTarget::Horizontal { azimuth: 12_000_000, elevation: 40_000_000 };
    assert_eq!(Some(dir(12_000_000, 40_000_000)), calculate_target_horizontal(target, dir(1, 2)));
    assert_eq!(None, calculate_target_horizontal(TelescopeTarget::Parked, dir(1, 2)));
    let sky = TelescopeTarget::Galactic { longitude: 5, latitude: 6 };
    assert_eq!(Some(dir(1, 2)), calculate_target_horizontal(sky, dir(1, 2)));
}

#[test]
fn parked_tracker_does_not_contact_mount() {
    let mut t = TelescopeTracker::new("addr".to_string());
    assert_eq!(TrackerAction::Wait, t.step(TrackerEvent::Tick));
    assert_eq!(TrackerPhase::Waiting, t.state().phase);
}

#[test]
fn first_connection_sends_stop() {
    let target = TelescopeTarget::Horizontal { azimuth: 0, elevation: 30_000_000 };
    let t = reading_tracker(target, 1_000);
    assert!(t.state().connection_established);
}

#[test]
fn connect_failure_is_recorded() {
    let mut t = TelescopeTracker::new("addr".to_string());
    let target = TelescopeTarget::Horizontal { azimuth: 0, elevation: 30_000_000 };
    t.set_target(target, 0).unwrap();
    t.step(TrackerEvent::Tick);
    let action = t.step(TrackerEvent::ConnectFailed(TelescopeError::TelescopeIOError(
        "refused".to_string(),
    )));
    assert_eq!(TrackerAction::Wait, action);
    assert!(matches!(t.state().most_recent_error, Some(TelescopeError::TelescopeIOError(ref s)) if s == "refused"));
}

#[test]
fn reconnection_sends_stop_again() {
    let target = TelescopeTarget::Horizontal { azimuth: 0, elevation: 30_000_000 };
    let mut t = reading_tracker(target, 0);
    finish_tick(&mut t, dir(0, 0), dir(0, 30_000_000));
    t.step(TrackerEvent::Tick);
    t.step(TrackerEvent::ConnectFailed(TelescopeError::TelescopeIOError("down".to_string())));
    assert!(!t.state().connection_established);
    assert_eq!(TrackerAction::SendStop, next_tick(&mut t, 1_000));
}

#[test]
fn horizontal_target_becomes_commanded_direction() {
    let target = TelescopeTarget::Horizontal { azimuth: 10_000_000, elevation: 30_000_000 };
    let mut t = reading_tracker(target, 0);
    let action = t.step(TrackerEvent::DirectionRead {
        converted: dir(-1, -1),
        current: Ok(dir(0, 20_000_000)),
    });
    assert_eq!(TrackerAction::SendDirection(dir(10_000_000, 30_000_000)), action);
    assert_eq!(TrackerAction::Wait, t.step(TrackerEvent::CommandDone(None)));
    assert_eq!(Some(dir(10_000_000, 30_000_000)), t.state().commanded_horizontal);
    assert_eq!(Some(dir(0, 20_000_000)), t.direction());
    assert!(t.state().most_recent_error.is_none());
}

#[test]
fn failed_pointing_still_records_direction() {
    let target = TelescopeTarget::Horizontal { azimuth: 10_000_000, elevation: 30_000_000 };
    let mut t = reading_tracker(target, 0);
    t.step(TrackerEvent::DirectionRead { converted: dir(0, 0), current: Ok(dir(1, 2)) });
    let err = TelescopeError::TelescopeIOError("no ack".to_string());
    assert_eq!(TrackerAction::Wait, t.step(TrackerEvent::CommandDone(Some(err))));
    assert_eq!(Some(dir(1, 2)), t.direction());
    assert!(t.state().commanded_horizontal.is_none());
    assert!(matches!(t.state().most_recent_error, Some(TelescopeError::TelescopeIOError(_))));
}

#[test]
fn close_enough_sends_no_command() {
    let target = TelescopeTarget::Equatorial { right_ascension: 1, declination: 2 };
    let mut t = reading_tracker(target, 0);
    let action = t.step(TrackerEvent::DirectionRead {
        converted: dir(50_000_000, 45_000_000),
        current: Ok(dir(50_050_000, 44_950_000)),
    });
    assert_eq!(TrackerAction::Wait, action);
    assert_eq!(Some(dir(50_000_000, 45_000_000)), t.state().commanded_horizontal);
}

#[test]
fn below_horizon_is_never_pointed_at() {
    let target = TelescopeTarget::Horizontal { azimuth: 0, elevation: 4_999_999 };
    let mut t = reading_tracker(target, 0);
    let action = t.step(TrackerEvent::DirectionRead {
        converted: dir(0, 0),
        current: Ok(dir(0, 50_000_000)),
    });
    assert_eq!(TrackerAction::Wait, action);
    assert!(t.state().commanded_horizontal.is_none());
    assert!(matches!(t.state().most_recent_error, Some(TelescopeError::TargetBelowHorizon)));
    assert_eq!(Some(dir(0, 50_000_000)), t.direction());
}

#[test]
fn target_expires_after_ten_seconds() {
    let target = TelescopeTarget::Horizontal { azimuth: 0, elevation: 30_000_000 };
    let mut t = reading_tracker(target, 1_000);
    finish_tick(&mut t, dir(0, 0), dir(0, 30_000_000));
    assert_eq!(Some(dir(0, 30_000_000)), t.state().commanded_horizontal);

    // Exactly ten seconds later the target still holds.
    next_tick(&mut t, 11_000);
    assert_eq!(Some(dir(0, 30_000_000)), t.state().commanded_horizontal);
    finish_tick(&mut t, dir(0, 0), dir(0, 30_000_000));

    // One millisecond later it has lapsed.
    next_tick(&mut t, 11_001);
    assert!(t.state().commanded_horizontal.is_none());
    assert!(t.state().stop_tracking_time.is_none());
    let action = finish_tick(&mut t, dir(0, 0), dir(5_000_000, 10_000_000));
    assert_eq!(TrackerAction::Wait, action);
    assert!(t.state().commanded_horizontal.is_none());
    assert_eq!(Ok(target), t.target().map_err(|_| ()));
}

#[test]
fn parking_clears_commanded_direction() {
    let target = TelescopeTarget::Horizontal { azimuth: 0, elevation: 30_000_000 };
    let mut t = reading_tracker(target, 0);
    finish_tick(&mut t, dir(0, 0), dir(0, 30_000_000));
    t.set_target(TelescopeTarget::Parked, 500).unwrap();
    assert_eq!(TrackerAction::Wait, t.step(TrackerEvent::Tick));
    assert!(t.state().commanded_horizontal.is_none());
    assert_eq!(TelescopeStatus::Idle, t.info().unwrap().status);
}

#[test]
fn restart_sends_restart_and_cools_down() {
    let target = TelescopeTarget::Horizontal { azimuth: 0, elevation: 30_000_000 };
    let mut t = reading_tracker(target, 0);
    finish_tick(&mut t, dir(0, 0), dir(0, 30_000_000));
    t.restart();
    assert_eq!(TrackerAction::SendRestart, next_tick(&mut t, 1));
    assert_eq!(TrackerAction::Cooldown, t.step(TrackerEvent::CommandDone(None)));
    assert!(!t.state().connection_established);
    assert_eq!(TrackerAction::Wait, t.step(TrackerEvent::CooldownOver));
    assert!(!t.state().should_restart);
}

#[test]
fn shutdown_finishes_loop() {
    let mut t = TelescopeTracker::new("addr".to_string());
    t.shutdown();
    assert_eq!(TrackerAction::Finish, t.step(TrackerEvent::Tick));
}

#[test]
fn info_requires_a_reading() {
    let t = TelescopeTracker::new("addr".to_string());
    assert!(matches!(t.info(), Err(TelescopeError::TelescopeNotConnected)));
    assert_eq!(None, t.direction());
}

#[test]
fn status_hysteresis() {
    let target = TelescopeTarget::Horizontal { azimuth: 10_000_000, elevation: 30_000_000 };
    let mut t = reading_tracker(target, 0);
    // 0.15 degrees off: a pointing command goes out, yet the status is tracking.
    let action = finish_tick(&mut t, dir(0, 0), dir(10_150_000, 30_000_000));
    assert_eq!(TrackerAction::SendDirection(dir(10_000_000, 30_000_000)), action);
    assert_eq!(TelescopeStatus::Tracking, t.info().unwrap().status);
    // 0.25 degrees off: slewing.
    next_tick(&mut t, 1);
    finish_tick(&mut t, dir(0, 0), dir(10_250_000, 30_000_000));
    assert_eq!(TelescopeStatus::Slewing, t.info().unwrap().status);
}
