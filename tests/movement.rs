use yurei::{
    acceleration_multiplier, handle_damping, handle_movement, handle_rotation, Body, ConfigError, Movement, Vec3,
};

fn moving(direction: Vec3) -> Movement {
    Movement { direction, ..Movement::default() }
}

#[test]
fn acceleration_bands() {
    assert_eq!(acceleration_multiplier(146_000), 4);
    assert_eq!(acceleration_multiplier(180_000), 4);
    assert_eq!(acceleration_multiplier(100_000), 3);
    assert_eq!(acceleration_multiplier(60_000), 2);
    assert_eq!(acceleration_multiplier(10_000), 1);
    assert_eq!(acceleration_multiplier(0), 1);
    assert_eq!(acceleration_multiplier(45_000), 1);
}

#[test]
fn band_boundaries_fall_to_base_acceleration() {
    assert_eq!(acceleration_multiplier(90_000), 1);
    assert_eq!(acceleration_multiplier(145_000), 1);
}

#[test]
fn force_follows_normalised_direction() {
    let movement = moving(Vec3::new(3000, 0, 4000));
    let mut body = Body::at_rest(Vec3::zero());
    body.force = Vec3::new(7, 720_000, 9);
    handle_movement(&mut body, &movement, 0);
    assert_eq!(body.force, Vec3::new(75_000, 720_000, 100_000));
}

#[test]
fn reversal_uses_four_times_acceleration() {
    let movement = moving(Vec3::new(1000, 0, 0));
    let mut body = Body::at_rest(Vec3::zero());
    body.velocity = Vec3::new(-2000, 0, 0);
    handle_movement(&mut body, &movement, 180_000);
    assert_eq!(body.force, Vec3::new(500_000, 0, 0));
}

#[test]
fn perpendicular_turn_uses_base_and_sharper_turns_more() {
    let movement = moving(Vec3::new(0, 0, 1000));
    let mut body = Body::at_rest(Vec3::zero());
    body.velocity = Vec3::new(1000, 0, 0);
    handle_movement(&mut body, &movement, 90_000);
    assert_eq!(body.force.z, 125_000);
    handle_movement(&mut body, &movement, 100_000);
    assert_eq!(body.force.z, 375_000);
    handle_movement(&mut body, &movement, 60_000);
    assert_eq!(body.force.z, 250_000);
}

#[test]
fn standing_still_uses_base_acceleration() {
    let movement = moving(Vec3::new(1000, 0, 0));
    let mut body = Body::at_rest(Vec3::zero());
    body.velocity = Vec3::new(0, -3000, 0);
    handle_movement(&mut body, &movement, 180_000);
    assert_eq!(body.force, Vec3::new(125_000, 0, 0));
}

#[test]
fn no_direction_gives_no_horizontal_force() {
    let movement = Movement::default();
    let mut body = Body::at_rest(Vec3::zero());
    body.force = Vec3::new(50, -40, 30);
    body.velocity = Vec3::new(1000, 0, 0);
    handle_movement(&mut body, &movement, 180_000);
    assert_eq!(body.force, Vec3::new(0, -40, 0));
}

#[test]
fn vertical_direction_counts_in_normalisation() {
    let movement = moving(Vec3::new(3000, 4000, 0));
    let mut body = Body::at_rest(Vec3::zero());
    handle_movement(&mut body, &movement, 0);
    assert_eq!(body.force, Vec3::new(75_000, 0, 0));
}

#[test]
fn drag_applies_once_below_top_speed() {
    let movement = Movement::default();
    let mut body = Body::at_rest(Vec3::zero());
    body.velocity = Vec3::new(1000, 5000, -2000);
    body.force = Vec3::new(100, 200, 300);
    handle_damping(&mut body, &movement);
    assert_eq!(body.force, Vec3::new(100 - 10_000, 200, 300 + 20_000));
}

#[test]
fn drag_applies_twice_above_top_speed() {
    let movement = Movement::default();
    let mut body = Body::at_rest(Vec3::zero());
    body.velocity = Vec3::new(126_000, 0, 0);
    handle_damping(&mut body, &movement);
    assert_eq!(body.force, Vec3::new(-2_520_000, 0, 0));
}

#[test]
fn drag_at_top_speed_applies_once() {
    let movement = Movement::default();
    let mut body = Body::at_rest(Vec3::zero());
    body.velocity = Vec3::new(0, 0, -125_000);
    handle_damping(&mut body, &movement);
    assert_eq!(body.force, Vec3::new(0, 0, 1_250_000));
}

#[test]
fn no_drag_at_rest() {
    let movement = Movement::default();
    let mut body = Body::at_rest(Vec3::zero());
    body.velocity = Vec3::new(0, -9000, 0);
    body.force = Vec3::new(1, 2, 3);
    handle_damping(&mut body, &movement);
    assert_eq!(body.force, Vec3::new(1, 2, 3));
}

/// Drag alone never reverses a horizontal velocity in one step of ten
/// thousandths of a second on a unit mass, whatever the velocity.
#[test]
fn drag_never_reverses_random_velocities() {
    let movement = Movement::default();
    let dt: i64 = 10;
    let mut seed: u64 = 0x2545_f491_4f6c_dd1d;
    for _ in 0..2000 {
        seed = seed.wrapping_mul(6364136223846793005).wrapping_add(1442695040888963407);
        let vx = ((seed >> 33) % 400_001) as i64 - 200_000;
        seed = seed.wrapping_mul(6364136223846793005).wrapping_add(1442695040888963407);
        let vz = ((seed >> 33) % 400_001) as i64 - 200_000;
        let mut body = Body::at_rest(Vec3::zero());
        body.velocity = Vec3::new(vx, 0, vz);
        handle_movement(&mut body, &movement, 0);
        handle_damping(&mut body, &movement);
        let next_x = vx * 1000 + body.force.x * dt;
        let next_z = vz * 1000 + body.force.z * dt;
        assert!(vx.signum() * next_x >= 0, "x {} {}", vx, next_x);
        assert!(vz.signum() * next_z >= 0, "z {} {}", vz, next_z);
        assert!(next_x.abs() <= (vx * 1000).abs());
        assert!(next_z.abs() <= (vz * 1000).abs());
    }
}

#[test]
fn rotation_faces_against_direction() {
    let movement = moving(Vec3::new(1000, 0, -2000));
    assert_eq!(handle_rotation(&movement, Vec3::new(5000, 100, 5000)), Some(Vec3::new(4000, 100, 7000)));
}

#[test]
fn rotation_holds_without_direction() {
    let movement = Movement::default();
    assert_eq!(handle_rotation(&movement, Vec3::new(5000, 100, 5000)), None);
}

#[test]
fn movement_defaults_and_settings() {
    let movement = Movement::default();
    assert_eq!(movement.acceleration, 125_000);
    assert_eq!(movement.deceleration, 10_000);
    assert_eq!(movement.top_speed, 125_000);
    assert_eq!(movement.direction, Vec3::zero());
    assert_eq!(Movement::new(-1, 0, 0), Err(ConfigError::Movement));
    assert_eq!(Movement::new(1, 2, 3).map(|m| m.deceleration), Ok(3));
}

#[test]
fn vector_length_rounds_down() {
    assert_eq!(Vec3::new(3000, 4000, 0).length(), 5000);
    assert_eq!(Vec3::new(1, 1, 1).length(), 1);
    assert_eq!(Vec3::new(-1000, 0, 0).length(), 1000);
    assert_eq!(Vec3::zero().length(), 0);
    assert_eq!(yurei::fixed::isqrt(u64::MAX), 4_294_967_295);
    assert_eq!(yurei::fixed::isqrt(15), 3);
    assert_eq!(yurei::fixed::div_trunc(-7, 2), -3);
}
