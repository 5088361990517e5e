//! Locomotion: the horizontal driving force, velocity drag and facing.

use vstd::prelude::*;
use crate::body::Body;
use crate::error::ConfigError;
use crate::fixed::{div_toward_zero, div_trunc, lemma_mul_bound, Vec3, LIMIT, SCALE};

verus! {

/// Largest force component that the drag step accepts: room for two drags.
pub const FORCE_LIMIT: i64 = 4_000_000_000_000_000_000;

/// Locomotion settings and the desired direction, in thousandths.
#[derive(Clone, Copy, Debug, PartialEq, Eq, Structural)]
pub struct Movement {
    /// Desired movement in world space; its vertical part is ignored.
    pub direction: Vec3,
    pub acceleration: i64,
    /// Speed above which drag is applied twice.
    pub top_speed: i64,
    pub deceleration: i64,
}

/// The settings `Movement::new` accepts.
pub open spec fn movement_settings_ok(acceleration: int, top_speed: int, deceleration: int) -> bool {
    &&& 0 <= acceleration <= LIMIT
    &&& 0 <= top_speed <= LIMIT
    &&& 0 <= deceleration <= LIMIT
}

impl Movement {
    pub open spec fn wf(self) -> bool {
        &&& movement_settings_ok(self.acceleration as int, self.top_speed as int, self.deceleration as int)
        &&& self.direction.in_range()
    }

    /// Settings with no desired direction, refusing values outside their range.
    pub fn new(acceleration: i64, top_speed: i64, deceleration: i64) -> (r: Result<Movement, ConfigError>)
        ensures
            r == (if movement_settings_ok(acceleration as int, top_speed as int, deceleration as int) {
                Ok(Movement { direction: Vec3 { x: 0, y: 0, z: 0 }, acceleration, top_speed, deceleration })
            } else {
                Err(ConfigError::Movement)
            }),
            r matches Ok(m) ==> m.wf(),
    {
        if 0 <= acceleration && acceleration <= LIMIT && 0 <= top_speed && top_speed <= LIMIT
            && 0 <= deceleration && deceleration <= LIMIT {
            Ok(Movement { direction: Vec3::zero(), acceleration, top_speed, deceleration })
        } else {
            Err(ConfigError::Movement)
        }
    }
}

impl Default for Movement {
    fn default() -> (m: Movement)
        ensures
            m == (Movement {
                direction: Vec3 { x: 0, y: 0, z: 0 },
                acceleration: 125_000,
                top_speed: 125_000,
                deceleration: 10_000,
            }),
            m.wf(),
    {
        Movement { direction: Vec3::zero(), acceleration: 125_000, top_speed: 125_000, deceleration: 10_000 }
    }
}

/// The acceleration multiplier for an angle, in thousandths of a degree,
/// between the desired direction and the velocity. The bands are open at
/// 90 and 145 degrees, so those angles get the base multiplier.
pub open spec fn band_multiplier(angle: int) -> int {
    if angle > 145_000 {
        4
    } else if 90_000 < angle < 145_000 {
        3
    } else if 45_000 < angle < 90_000 {
        2
    } else {
        1
    }
}

/// Picks the acceleration multiplier for an angle in thousandths of a degree.
pub fn acceleration_multiplier(angle: i64) -> (m: i64)
    ensures
        m == band_multiplier(angle as int),
{
    if angle > 145_000 {
        4
    } else if angle > 90_000 && angle < 145_000 {
        3
    } else if angle > 45_000 && angle < 90_000 {
        2
    } else {
        1
    }
}

/// The acceleration applied this tick: the band multiplier applies only when
/// both the flattened direction and the flattened velocity are non-zero.
pub open spec fn applied_acceleration(movement: Movement, velocity: Vec3, angle: int) -> int {
    if !movement.direction.flat_spec().is_zero_spec() && !velocity.flat_spec().is_zero_spec() {
        movement.acceleration * band_multiplier(angle)
    } else {
        movement.acceleration as int
    }
}

/// A component of `normalize_or_zero(direction) * magnitude`.
pub open spec fn scaled_component(component: int, magnitude: int, length: int) -> int {
    if length == 0 {
        0
    } else {
        div_toward_zero(component * magnitude, length)
    }
}

/// One locomotion step: replaces the horizontal force with the desired
/// direction, normalised, times the applied acceleration, and keeps the
/// vertical force that the hover step set. `angle` is the angle between the
/// flattened direction and the flattened velocity, in thousandths of a degree;
/// it is read only when both are non-zero.
pub fn handle_movement(body: &mut Body, movement: &Movement, angle: i64)
    requires
        movement.wf(),
    ensures
        final(body).position == old(body).position,
        final(body).velocity == old(body).velocity,
        final(body).grounded == old(body).grounded,
        final(body).force.y == old(body).force.y,
        final(body).force.x == scaled_component(
            movement.direction.x as int,
            applied_acceleration(*movement, old(body).velocity, angle as int),
            movement.direction.length_floor(),
        ),
        final(body).force.z == scaled_component(
            movement.direction.z as int,
            applied_acceleration(*movement, old(body).velocity, angle as int),
            movement.direction.length_floor(),
        ),
{
    let flat_direction = movement.direction.flat();
    let flat_velocity = body.velocity.flat();
    let multiplier: i64 = if !flat_direction.is_zero() && !flat_velocity.is_zero() {
        acceleration_multiplier(angle)
    } else {
        1
    };
    let acceleration = movement.acceleration * multiplier;
    let length = movement.direction.length();
    if length == 0 {
        body.force.x = 0;
        body.force.z = 0;
    } else {
        proof {
            lemma_mul_bound(movement.direction.x as int, acceleration as int, LIMIT as int, 4 * LIMIT);
            lemma_mul_bound(movement.direction.z as int, acceleration as int, LIMIT as int, 4 * LIMIT);
        }
        body.force.x = div_trunc(movement.direction.x * acceleration, length);
        body.force.z = div_trunc(movement.direction.z * acceleration, length);
    }
}

/// The horizontal speed, squared, in millionths.
pub open spec fn speed_squared(velocity: Vec3) -> int {
    velocity.flat_spec().length_squared()
}

/// The drag added to one horizontal force component: one application while
/// the body moves horizontally, and one more while its horizontal speed
/// exceeds the top speed.
pub open spec fn total_drag(movement: Movement, velocity: Vec3, component: int) -> int {
    let once = drag_component(movement, component);
    (if speed_squared(velocity) > 0 { once } else { 0 }) + (if speed_squared(velocity)
        > movement.top_speed * movement.top_speed {
        once
    } else {
        0
    })
}

/// One application of drag on a horizontal velocity component:
/// `-deceleration * component`, rescaled to thousandths.
pub open spec fn drag_component(movement: Movement, component: int) -> int {
    div_toward_zero(-(movement.deceleration * component), SCALE as int)
}

/// One drag step: adds velocity-proportional drag to the horizontal force,
/// once while the body moves and twice above the top speed. The top speed
/// only strengthens drag; it clamps nothing.
pub fn handle_damping(body: &mut Body, movement: &Movement)
    requires
        movement.wf(),
        old(body).velocity.in_range(),
        -FORCE_LIMIT <= old(body).force.x <= FORCE_LIMIT,
        -FORCE_LIMIT <= old(body).force.z <= FORCE_LIMIT,
    ensures
        final(body).position == old(body).position,
        final(body).velocity == old(body).velocity,
        final(body).grounded == old(body).grounded,
        final(body).force.y == old(body).force.y,
        final(body).force.x == old(body).force.x + total_drag(
            *movement,
            old(body).velocity,
            old(body).velocity.x as int,
        ),
        final(body).force.z == old(body).force.z + total_drag(
            *movement,
            old(body).velocity,
            old(body).velocity.z as int,
        ),
{
    let vx = body.velocity.x;
    let vz = body.velocity.z;
    proof {
        lemma_mul_bound(vx as int, movement.deceleration as int, LIMIT as int, LIMIT as int);
        lemma_mul_bound(vz as int, movement.deceleration as int, LIMIT as int, LIMIT as int);
        lemma_mul_bound(vx as int, vx as int, LIMIT as int, LIMIT as int);
        lemma_mul_bound(vz as int, vz as int, LIMIT as int, LIMIT as int);
        lemma_mul_bound(movement.top_speed as int, movement.top_speed as int, LIMIT as int, LIMIT as int);
    }
    let drag_x = div_trunc(-(movement.deceleration * vx), SCALE);
    let drag_z = div_trunc(-(movement.deceleration * vz), SCALE);
    let speed_squared = vx * vx + vz * vz;
    assert(speed_squared == body.velocity.flat_spec().length_squared());
    if speed_squared > 0 {
        body.force.x = body.force.x + drag_x;
        body.force.z = body.force.z + drag_z;
    }
    if speed_squared > movement.top_speed * movement.top_speed {
        body.force.x = body.force.x + drag_x;
        body.force.z = body.force.z + drag_z;
    }
}

/// The point a body turns to face: its position moved against the desired
/// direction. `None` while the direction is zero, which leaves the
/// orientation as it was.
pub open spec fn look_target(movement: Movement, position: Vec3) -> Option<Vec3> {
    if movement.direction.is_zero_spec() {
        None
    } else {
        Some(
            Vec3 {
                x: (position.x - movement.direction.x) as i64,
                y: (position.y - movement.direction.y) as i64,
                z: (position.z - movement.direction.z) as i64,
            },
        )
    }
}

/// One facing step: the point to look at, with world up as the up axis.
pub fn handle_rotation(movement: &Movement, position: Vec3) -> (target: Option<Vec3>)
    requires
        movement.wf(),
        position.in_range(),
    ensures
        target == look_target(*movement, position),
{
    if movement.direction.is_zero() {
        None
    } else {
        Some(
            Vec3::new(
                position.x - movement.direction.x,
                position.y - movement.direction.y,
                position.z - movement.direction.z,
            ),
        )
    }
}

/// With no locomotion force the horizontal force after the drag step is the
/// drag alone. Applied to a unit mass for `delta_seconds` (thousandths of a
/// second) it slows each horizontal velocity component without reversing
/// it, whenever twice the deceleration times the time step is at most one.
pub proof fn lemma_drag_never_reverses_velocity(movement: Movement, velocity: Vec3, delta_seconds: int)
    requires
        movement.wf(),
        velocity.in_range(),
        0 <= delta_seconds,
        2 * movement.deceleration * delta_seconds <= SCALE * SCALE,
    ensures
        velocity.x * (velocity.x * SCALE + total_drag(movement, velocity, velocity.x as int)
            * delta_seconds) >= 0,
        velocity.z * (velocity.z * SCALE + total_drag(movement, velocity, velocity.z as int)
            * delta_seconds) >= 0,
{
    lemma_drag_keeps_sign(movement, velocity, velocity.x as int, delta_seconds);
    lemma_drag_keeps_sign(movement, velocity, velocity.z as int, delta_seconds);
}

proof fn lemma_drag_keeps_sign(movement: Movement, velocity: Vec3, v: int, dt: int)
    requires
        movement.wf(),
        -LIMIT <= v <= LIMIT,
        0 <= dt,
        2 * movement.deceleration * dt <= SCALE * SCALE,
    ensures
        v * (v * SCALE + total_drag(movement, velocity, v) * dt) >= 0,
{
    let k = movement.deceleration as int;
    let d = drag_component(movement, v);
    let t = total_drag(movement, velocity, v);
    assert(k * v >= 0 <==> v >= 0 || k == 0) by (nonlinear_arith)
        requires
            k >= 0,
    ;
    if v >= 0 {
        assert(k * v >= 0) by (nonlinear_arith)
            requires
                k >= 0,
                v >= 0,
        ;
        assert(0 <= -(1000 * d) <= k * v);
        assert(0 <= -(1000 * t) <= 2 * (k * v));
        assert(v * 1000 + t * dt >= 0) by (nonlinear_arith)
            requires
                0 <= -(1000 * t) <= 2 * (k * v),
                0 <= dt,
                2 * k * dt <= 1_000_000,
                v >= 0,
                k >= 0,
        ;
        assert(v * (v * 1000 + t * dt) >= 0) by (nonlinear_arith)
            requires
                v * 1000 + t * dt >= 0,
                v >= 0,
        ;
    } else {
        assert(k * v <= 0) by (nonlinear_arith)
            requires
                k >= 0,
                v < 0,
        ;
        assert(0 <= 1000 * d <= -(k * v));
        assert(0 <= 1000 * t <= -2 * (k * v));
        assert(v * 1000 + t * dt <= 0) by (nonlinear_arith)
            requires
                0 <= 1000 * t <= -2 * (k * v),
                0 <= dt,
                2 * k * dt <= 1_000_000,
                v < 0,
                k >= 0,
        ;
        assert(v * (v * 1000 + t * dt) >= 0) by (nonlinear_arith)
            requires
                v * 1000 + t * dt <= 0,
                v < 0,
        ;
    }
}

} // verus!
