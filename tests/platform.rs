use yurei::{handle_moving_platforms, ConfigError, MovingPlatformDriver, Vec3};

fn two_stops() -> MovingPlatformDriver {
    MovingPlatformDriver::with_targets(vec![Vec3::new(-5000, 500, 0), Vec3::new(5000, 500, 0)]).unwrap()
}

#[test]
fn patrol_cycles_through_waypoints() {
    let mut driver = two_stops();
    assert_eq!(driver.target_index, 0);
    driver.update(Vec3::new(-5000, 500, 0));
    assert_eq!(driver.target_index, 1);
    assert_eq!(driver.current_target_location(), Vec3::new(5000, 500, 0));
    driver.update(Vec3::new(5000, 500, 0));
    assert_eq!(driver.target_index, 0);
}

#[test]
fn patrol_waits_until_within_threshold() {
    let mut driver = two_stops();
    driver.update(Vec3::new(-5000, 700, 0));
    assert_eq!(driver.target_index, 0);
    driver.update(Vec3::new(-5000, 699, 0));
    assert_eq!(driver.target_index, 1);
}

#[test]
fn platform_eases_toward_target_and_arrives() {
    let mut driver = two_stops();
    let mut position = Vec3::new(25_000, 500, 0);
    position = handle_moving_platforms(&mut driver, position, 100);
    assert_eq!(position, Vec3::new(22_000, 500, 0));
    let mut ticks = 1;
    while driver.target_index == 0 {
        position = handle_moving_platforms(&mut driver, position, 100);
        ticks += 1;
        assert!(ticks < 1000);
    }
    assert!((position.x + 5000).abs() < 200);
}

#[test]
fn stopped_platform_stays() {
    let mut driver = two_stops();
    driver.moving = false;
    let position = Vec3::new(-5000, 500, 0);
    assert_eq!(handle_moving_platforms(&mut driver, position, 500), position);
    assert_eq!(driver.target_index, 0);
}

#[test]
fn full_step_lands_on_target() {
    let mut driver = two_stops();
    let position = handle_moving_platforms(&mut driver, Vec3::new(1000, -300, 77), 1000);
    assert_eq!(position, Vec3::new(-5000, 500, 0));
    assert_eq!(driver.target_index, 1);
}

#[test]
fn route_errors() {
    assert_eq!(MovingPlatformDriver::with_targets(vec![]).map(|d| d.target_index), Err(ConfigError::EmptyRoute));
    assert_eq!(
        MovingPlatformDriver::new(vec![Vec3::zero()], 0).map(|d| d.target_index),
        Err(ConfigError::DistanceThreshold)
    );
    assert_eq!(
        MovingPlatformDriver::new(vec![Vec3::zero(), Vec3::new(0, yurei::LIMIT + 1, 0)], 200).map(|d| d.target_index),
        Err(ConfigError::WaypointOutOfRange)
    );
    let driver = MovingPlatformDriver::new(vec![Vec3::zero()], 50).unwrap();
    assert_eq!(driver.distance_threshold, 50);
    assert!(driver.moving);
}

#[test]
fn single_waypoint_stays_on_it() {
    let mut driver = MovingPlatformDriver::with_targets(vec![Vec3::new(1, 2, 3)]).unwrap();
    driver.update(Vec3::new(1, 2, 3));
    assert_eq!(driver.target_index, 0);
}
