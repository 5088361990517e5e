//! Ground hover: a spring-damper that holds a body at a ride height above
//! whatever a downward probe hits, and the ground contact flag.

use vstd::prelude::*;
use crate::body::Body;
use crate::error::ConfigError;
use crate::fixed::{div_toward_zero, div_trunc, lemma_mul_bound, Vec3, LIMIT, SCALE};

verus! {

/// Spring-damper settings of a hovering body, in thousandths.
#[derive(Clone, Copy, Debug, PartialEq, Eq, Structural)]
pub struct Hover {
    /// How far down the probe reaches.
    pub ray_length: i64,
    /// The height the spring holds the body at.
    pub ride_height: i64,
    /// Force per unit of distance from the ride height.
    pub strength: i64,
    /// Force per unit of vertical speed.
    pub damper: i64,
}

/// What the downward probe hit.
#[derive(Clone, Copy, Debug, PartialEq, Eq, Structural)]
pub struct RayHit {
    /// Distance from the body to the hit point.
    pub distance: i64,
    /// Velocity of the hit body where it is a moving platform.
    pub platform_velocity: Option<Vec3>,
}

/// The settings `new` accepts, checked in this order.
pub open spec fn hover_check(ray_length: int, ride_height: int, strength: int, damper: int) -> Option<ConfigError> {
    if !(0 < ray_length <= LIMIT) {
        Some(ConfigError::RayLength)
    } else if !(0 < ride_height <= LIMIT) {
        Some(ConfigError::RideHeight)
    } else if !(0 <= strength <= LIMIT) {
        Some(ConfigError::Strength)
    } else if !(0 <= damper <= LIMIT) {
        Some(ConfigError::Damper)
    } else {
        None
    }
}

impl Hover {
    pub open spec fn wf(self) -> bool {
        hover_check(self.ray_length as int, self.ride_height as int, self.strength as int, self.damper as int) is None
    }

    /// The vertical force for a hit at `distance` while moving at `velocity`:
    /// `-((distance - ride_height) * strength - v_down * damper)`, where
    /// `v_down` is the speed along the probe, rescaled to thousandths.
    pub open spec fn spring_force(self, distance: int, velocity: Vec3) -> int {
        let v_down = -velocity.y;
        -div_toward_zero((distance - self.ride_height) * self.strength - v_down * self.damper, SCALE as int)
    }

    /// Builds the settings, refusing values outside their range.
    pub fn new(ray_length: i64, ride_height: i64, strength: i64, damper: i64) -> (r: Result<Hover, ConfigError>)
        ensures
            r == (match hover_check(ray_length as int, ride_height as int, strength as int, damper as int) {
                Some(e) => Err(e),
                None => Ok(Hover { ray_length, ride_height, strength, damper }),
            }),
            r matches Ok(h) ==> h.wf(),
    {
        if !(0 < ray_length && ray_length <= LIMIT) {
            Err(ConfigError::RayLength)
        } else if !(0 < ride_height && ride_height <= LIMIT) {
            Err(ConfigError::RideHeight)
        } else if !(0 <= strength && strength <= LIMIT) {
            Err(ConfigError::Strength)
        } else if !(0 <= damper && damper <= LIMIT) {
            Err(ConfigError::Damper)
        } else {
            Ok(Hover { ray_length, ride_height, strength, damper })
        }
    }

    /// The vertical force that drives the body toward the ride height.
    pub fn calculate_spring_force(&self, distance: i64, linear_velocity: Vec3) -> (f: i64)
        requires
            self.wf(),
            0 <= distance <= LIMIT,
            linear_velocity.in_range(),
        ensures
            f == self.spring_force(distance as int, linear_velocity),
    {
        let offset = distance - self.ride_height;
        let v_down = -linear_velocity.y;
        proof {
            lemma_mul_bound(offset as int, self.strength as int, LIMIT as int, LIMIT as int);
            lemma_mul_bound(v_down as int, self.damper as int, LIMIT as int, LIMIT as int);
        }
        let up_force = offset * self.strength;
        let damping_force = v_down * self.damper;
        -div_trunc(up_force - damping_force, SCALE)
    }
}

impl Default for Hover {
    fn default() -> (h: Hover)
        ensures
            h == (Hover { ray_length: 4000, ride_height: 2800, strength: 900_000, damper: 60_000 }),
            h.wf(),
    {
        Hover { ray_length: 4000, ride_height: 2800, strength: 900_000, damper: 60_000 }
    }
}

/// The ground contact flag after a probe: set by a hit within the ride
/// height, cleared only by a miss, and kept by a hit farther away.
pub open spec fn next_grounded(grounded: bool, ride_height: int, hit: Option<RayHit>) -> bool {
    match hit {
        None => false,
        Some(h) => if h.distance <= ride_height { true } else { grounded },
    }
}

/// Half of the platform's horizontal velocity, added to the body's.
pub open spec fn nudged(velocity: Vec3, platform: Vec3) -> Vec3 {
    Vec3 {
        x: (velocity.x + div_toward_zero(platform.x as int, 2)) as i64,
        y: velocity.y,
        z: (velocity.z + div_toward_zero(platform.z as int, 2)) as i64,
    }
}

/// Whether a probe result is one the engine can return for these settings.
pub open spec fn hit_in_range(hover: Hover, hit: Option<RayHit>) -> bool {
    hit matches Some(h) ==> {
        &&& 0 <= h.distance <= hover.ray_length
        &&& h.platform_velocity matches Some(p) ==> p.in_range()
    }
}

/// One hover step: sets the vertical force from the probe result, updates
/// the ground contact flag and passes on half of a platform's horizontal
/// velocity. The horizontal force and the position are left alone.
pub fn handle_hover(body: &mut Body, hover: &Hover, hit: Option<RayHit>)
    requires
        hover.wf(),
        old(body).velocity.in_range(),
        hit_in_range(*hover, hit),
    ensures
        final(body).position == old(body).position,
        final(body).force.x == old(body).force.x,
        final(body).force.z == old(body).force.z,
        final(body).force.y == (match hit {
            None => 0,
            Some(h) => hover.spring_force(h.distance as int, old(body).velocity),
        }),
        final(body).grounded == next_grounded(old(body).grounded, hover.ride_height as int, hit),
        final(body).velocity == (match hit {
            Some(RayHit { platform_velocity: Some(p), .. }) => nudged(old(body).velocity, p),
            _ => old(body).velocity,
        }),
{
    match hit {
        Some(h) => {
            body.force.y = hover.calculate_spring_force(h.distance, body.velocity);
            if h.distance <= hover.ride_height {
                body.grounded = true;
            }
            match h.platform_velocity {
                Some(p) => {
                    body.velocity.x = body.velocity.x + div_trunc(p.x, 2);
                    body.velocity.z = body.velocity.z + div_trunc(p.z, 2);
                },
                None => {},
            }
        },
        None => {
            body.force.y = 0;
            body.grounded = false;
        },
    }
}

/// Ground contact is cleared only by a probe that hits nothing: once set, any
/// hit, near or far, keeps it.
pub proof fn lemma_contact_cleared_only_by_miss(body: Body, hover: Hover, hit: Option<RayHit>)
    requires
        body.grounded,
    ensures
        !next_grounded(body.grounded, hover.ride_height as int, hit) <==> hit is None,
{
}

} // verus!
