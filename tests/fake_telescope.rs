use salsa::direction::{directions_are_close, Direction};
use salsa::fake_telescope::create;
use salsa::telescope::{ReceiverConfiguration, TelescopeError, TelescopeStatus, TelescopeTarget};

fn dir(azimuth: i64, elevation: i64) -> Direction {
    Direction { azimuth, elevation }
}

#[test]
fn new_fake_is_parked_straight_up() {
    let fake = create("fake1".to_string());
    assert_eq!(Some(dir(0, 90_000_000)), fake.get_direction());
    let info = fake.get_info(dir(0, 0)).unwrap();
    assert_eq!("fake1", info.id);
    assert_eq!(TelescopeStatus::Idle, info.status);
    assert_eq!(Some(dir(0, 90_000_000)), info.commanded_horizontal);
}

#[test]
fn fake_converges_to_target() {
    let mut fake = create("fake".to_string());
    let target = TelescopeTarget::Horizontal { azimuth: 45_000_000, elevation: 20_000_000 };
    assert!(fake.set_target(target, dir(0, 0)).is_ok());
    // 70 degrees of elevation at 18 degrees per second: four ticks.
    for _ in 0..3 {
        fake.update(1, dir(0, 0));
    }
    assert_eq!(dir(45_000_000, 36_000_000), fake.state().horizontal);
    assert_eq!(TelescopeStatus::Slewing, fake.get_info(dir(0, 0)).unwrap().status);
    fake.update(1, dir(0, 0));
    assert_eq!(dir(45_000_000, 20_000_000), fake.state().horizontal);
    assert!(directions_are_close(fake.state().horizontal, dir(45_000_000, 20_000_000), 1));
    assert_eq!(TelescopeStatus::Tracking, fake.get_info(dir(0, 0)).unwrap().status);
}

#[test]
fn fake_refuses_target_below_horizon() {
    let mut fake = create("fake".to_string());
    let target = TelescopeTarget::Equatorial { right_ascension: 0, declination: 0 };
    let res = fake.set_target(target, dir(0, 4_000_000));
    assert!(matches!(res, Err(TelescopeError::TargetBelowHorizon)));
    assert_eq!(TelescopeTarget::Parked, fake.state().target);
}

#[test]
fn fake_integration_time_counts_ticks() {
    let mut fake = create("fake".to_string());
    let target = TelescopeTarget::Horizontal { azimuth: 0, elevation: 60_000_000 };
    fake.set_target(target, dir(0, 0)).unwrap();
    let cfg = fake.set_receiver_configuration(ReceiverConfiguration { integrate: true });
    assert_eq!(ReceiverConfiguration { integrate: true }, cfg.unwrap_or(ReceiverConfiguration { integrate: false }));
    for _ in 0..7 {
        assert!(fake.update(1, dir(0, 0)));
    }
    let info = fake.get_info(dir(0, 0)).unwrap();
    assert_eq!(7, info.observation_seconds);
    assert_eq!(7, info.integrated_frames);
    assert!(info.measurement_in_progress);

    // A new target drops the accumulated spectra and stops integration.
    fake.set_target(target, dir(0, 0)).unwrap();
    let info = fake.get_info(dir(0, 0)).unwrap();
    assert_eq!(0, info.observation_seconds);
    assert!(!info.measurement_in_progress);
    assert!(!fake.update(1, dir(0, 0)));
}

#[test]
fn fake_status_uses_squared_offset() {
    let mut fake = create("fake".to_string());
    let target = TelescopeTarget::Equatorial { right_ascension: 0, declination: 0 };
    fake.set_target(target, dir(0, 60_000_000)).unwrap();
    // Pointing straight up; the target lies 0.12 and 0.16 degrees away, 0.2 in all.
    let info = fake.get_info(dir(120_000, 89_840_000)).unwrap();
    assert_eq!(TelescopeStatus::Tracking, info.status);
    let info = fake.get_info(dir(120_001, 89_840_000)).unwrap();
    assert_eq!(TelescopeStatus::Slewing, info.status);
}

#[test]
fn restarting_measurement_drops_spectra() {
    let mut fake = create("fake".to_string());
    let target = TelescopeTarget::Horizontal { azimuth: 0, elevation: 60_000_000 };
    fake.set_target(target, dir(0, 0)).unwrap();
    fake.set_receiver_configuration(ReceiverConfiguration { integrate: true }).ok().unwrap();
    for _ in 0..3 {
        fake.update(1, dir(0, 0));
    }
    fake.set_receiver_configuration(ReceiverConfiguration { integrate: false }).ok().unwrap();
    assert_eq!(3, fake.state().observation_seconds);
    fake.set_receiver_configuration(ReceiverConfiguration { integrate: true }).ok().unwrap();
    assert_eq!(0, fake.state().observation_seconds);
    assert_eq!(0, fake.state().integrated_frames);
    // Asking again while integrating keeps the buffer.
    fake.update(2, dir(0, 0));
    fake.set_receiver_configuration(ReceiverConfiguration { integrate: true }).ok().unwrap();
    assert_eq!(2, fake.state().observation_seconds);
}
