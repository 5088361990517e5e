//! Patrol driving for moving platforms: a cyclic loop over waypoints.

use vstd::prelude::*;
use crate::error::ConfigError;
use crate::fixed::{div_toward_zero, div_trunc, Vec3, LIMIT, SCALE};

verus! {

/// Arrival distance that `with_targets` uses: a fifth of a unit.
pub const DEFAULT_DISTANCE_THRESHOLD: i64 = 200;

/// A platform's patrol route and its progress along it.
#[derive(Clone, Debug)]
pub struct MovingPlatformDriver {
    /// The waypoints, visited in order and then again from the first.
    pub targets: Vec<Vec3>,
    /// The waypoint being approached.
    pub target_index: usize,
    /// A waypoint is reached once the platform is closer than this.
    pub distance_threshold: i64,
    /// A platform that does not move keeps its position and its target.
    pub moving: bool,
}

/// Squared distance between two points, in millionths.
pub open spec fn distance_squared(a: Vec3, b: Vec3) -> int {
    (a.x - b.x) * (a.x - b.x) + (a.y - b.y) * (a.y - b.y) + (a.z - b.z) * (a.z - b.z)
}

/// The route `new` accepts, checked in this order.
pub open spec fn route_check(targets: Seq<Vec3>, distance_threshold: int) -> Option<ConfigError> {
    if targets.len() == 0 {
        Some(ConfigError::EmptyRoute)
    } else if !(0 < distance_threshold <= LIMIT) {
        Some(ConfigError::DistanceThreshold)
    } else if exists|i: int| 0 <= i < targets.len() && !(#[trigger] targets[i]).in_range() {
        Some(ConfigError::WaypointOutOfRange)
    } else {
        None
    }
}

/// One step of linear interpolation from `from` toward `to` by `t`
/// thousandths, rounded toward `from`.
pub open spec fn lerp_component(from: int, to: int, t: int) -> int {
    from + div_toward_zero((to - from) * t, SCALE as int)
}

pub open spec fn lerp(from: Vec3, to: Vec3, t: int) -> Vec3 {
    Vec3 {
        x: lerp_component(from.x as int, to.x as int, t) as i64,
        y: lerp_component(from.y as int, to.y as int, t) as i64,
        z: lerp_component(from.z as int, to.z as int, t) as i64,
    }
}

/// The index after `index` on a loop of `len` waypoints.
pub open spec fn next_index(index: int, len: int) -> int {
    if index + 1 > len - 1 {
        0
    } else {
        index + 1
    }
}

/// Interpolates one component; the result lies between the two ends.
fn lerp_step(from: i64, to: i64, t: i64) -> (r: i64)
    requires
        -LIMIT <= from <= LIMIT,
        -LIMIT <= to <= LIMIT,
        0 <= t <= SCALE,
    ensures
        r == lerp_component(from as int, to as int, t as int),
        -LIMIT <= r <= LIMIT,
{
    let gap = to - from;
    proof {
        assert(-(gap * SCALE) <= gap * t <= gap * SCALE || gap * SCALE <= gap * t <= -(gap * SCALE))
            by (nonlinear_arith)
            requires
                0 <= t <= SCALE,
                SCALE == 1000,
        ;
        assert(0 <= gap ==> 0 <= gap * t <= gap * SCALE) by (nonlinear_arith)
            requires
                0 <= t <= SCALE,
                SCALE == 1000,
        ;
        assert(gap < 0 ==> gap * SCALE <= gap * t <= 0) by (nonlinear_arith)
            requires
                0 <= t <= SCALE,
                SCALE == 1000,
        ;
    }
    let step = div_trunc(gap * t, SCALE);
    from + step
}

impl MovingPlatformDriver {
    pub open spec fn wf(&self) -> bool {
        &&& route_check(self.targets@, self.distance_threshold as int) is None
        &&& self.target_index < self.targets@.len()
    }

    /// The waypoint being approached.
    pub open spec fn target(&self) -> Vec3 {
        self.targets@[self.target_index as int]
    }

    /// Whether a platform at `position` has reached its waypoint.
    pub open spec fn arrived(&self, position: Vec3) -> bool {
        distance_squared(self.target(), position) < self.distance_threshold * self.distance_threshold
    }

    /// A moving route over `targets`, starting at the first, with the
    /// default arrival distance.
    pub fn with_targets(targets: Vec<Vec3>) -> (r: Result<MovingPlatformDriver, ConfigError>)
        ensures
            r == (match route_check(targets@, DEFAULT_DISTANCE_THRESHOLD as int) {
                Some(e) => Err(e),
                None => Ok(
                    MovingPlatformDriver {
                        targets,
                        target_index: 0,
                        distance_threshold: DEFAULT_DISTANCE_THRESHOLD,
                        moving: true,
                    },
                ),
            }),
            r matches Ok(d) ==> d.wf(),
    {
        MovingPlatformDriver::new(targets, DEFAULT_DISTANCE_THRESHOLD)
    }

    /// A moving route over `targets`, starting at the first; refuses an
    /// empty route, an arrival distance out of range and a waypoint out of
    /// range.
    pub fn new(targets: Vec<Vec3>, distance_threshold: i64) -> (r: Result<MovingPlatformDriver, ConfigError>)
        ensures
            r == (match route_check(targets@, distance_threshold as int) {
                Some(e) => Err(e),
                None => Ok(MovingPlatformDriver { targets, target_index: 0, distance_threshold, moving: true }),
            }),
            r matches Ok(d) ==> d.wf(),
    {
        if targets.len() == 0 {
            return Err(ConfigError::EmptyRoute);
        }
        if !(0 < distance_threshold && distance_threshold <= LIMIT) {
            return Err(ConfigError::DistanceThreshold);
        }
        let mut i: usize = 0;
        while i < targets.len()
            invariant
                i <= targets@.len(),
                0 < targets@.len(),
                0 < distance_threshold <= LIMIT,
                forall|j: int| 0 <= j < i ==> (#[trigger] targets@[j]).in_range(),
            decreases targets@.len() - i,
        {
            let p = targets[i];
            if !(-LIMIT <= p.x && p.x <= LIMIT && -LIMIT <= p.y && p.y <= LIMIT && -LIMIT <= p.z
                && p.z <= LIMIT) {
                assert(!targets@[i as int].in_range());
                return Err(ConfigError::WaypointOutOfRange);
            }
            i = i + 1;
        }
        Ok(MovingPlatformDriver { targets, target_index: 0, distance_threshold, moving: true })
    }

    /// The waypoint being approached.
    pub fn current_target_location(&self) -> (p: Vec3)
        requires
            self.wf(),
        ensures
            p == self.target(),
    {
        self.targets[self.target_index]
    }

    /// Moves on to the next waypoint once `current_position` is closer to
    /// the current one than the arrival distance.
    pub fn update(&mut self, current_position: Vec3)
        requires
            old(self).wf(),
            current_position.in_range(),
        ensures
            final(self).wf(),
            final(self).targets == old(self).targets,
            final(self).distance_threshold == old(self).distance_threshold,
            final(self).moving == old(self).moving,
            final(self).target_index == if old(self).arrived(current_position) {
                next_index(old(self).target_index as int, old(self).targets@.len() as int)
            } else {
                old(self).target_index as int
            },
    {
        if self.should_cycle(current_position) {
            self.cycle_targets();
        }
    }

    fn should_cycle(&self, current_position: Vec3) -> (r: bool)
        requires
            self.wf(),
            current_position.in_range(),
        ensures
            r == self.arrived(current_position),
    {
        let threshold = self.distance_threshold as i128;
        proof {
            crate::fixed::lemma_mul_bound(threshold as int, threshold as int, LIMIT as int, LIMIT as int);
        }
        self.distance_squared_to_target(current_position) < threshold * threshold
    }

    fn distance_squared_to_target(&self, current_position: Vec3) -> (d: i128)
        requires
            self.wf(),
            current_position.in_range(),
        ensures
            d == distance_squared(self.target(), current_position),
    {
        let target = self.targets[self.target_index];
        assert(target.in_range());
        let dx = target.x as i128 - current_position.x as i128;
        let dy = target.y as i128 - current_position.y as i128;
        let dz = target.z as i128 - current_position.z as i128;
        proof {
            crate::fixed::lemma_mul_bound(dx as int, dx as int, 2 * LIMIT, 2 * LIMIT);
            crate::fixed::lemma_mul_bound(dy as int, dy as int, 2 * LIMIT, 2 * LIMIT);
            crate::fixed::lemma_mul_bound(dz as int, dz as int, 2 * LIMIT, 2 * LIMIT);
        }
        dx * dx + dy * dy + dz * dz
    }

    fn cycle_targets(&mut self)
        requires
            old(self).wf(),
        ensures
            final(self).wf(),
            final(self).targets == old(self).targets,
            final(self).distance_threshold == old(self).distance_threshold,
            final(self).moving == old(self).moving,
            final(self).target_index == next_index(
                old(self).target_index as int,
                old(self).targets@.len() as int,
            ),
    {
        let len = self.targets.len();
        let new_index = self.target_index + 1;
        if new_index > len - 1 {
            self.target_index = 0;
        } else {
            self.target_index = new_index;
        }
    }
}

/// One patrol step: a moving platform moves a fraction `delta_seconds`
/// (thousandths of a second) of the way to its waypoint and then moves on to
/// the next waypoint if it arrived. A platform that does not move stays where
/// it is with its target unchanged. Returns the new position.
pub fn handle_moving_platforms(driver: &mut MovingPlatformDriver, position: Vec3, delta_seconds: i64) -> (new_position: Vec3)
    requires
        old(driver).wf(),
        position.in_range(),
        0 <= delta_seconds <= SCALE,
    ensures
        final(driver).wf(),
        new_position.in_range(),
        !old(driver).moving ==> new_position == position && *final(driver) == *old(driver),
        old(driver).moving ==> {
            &&& new_position == lerp(position, old(driver).target(), delta_seconds as int)
            &&& final(driver).targets == old(driver).targets
            &&& final(driver).distance_threshold == old(driver).distance_threshold
            &&& final(driver).moving
            &&& final(driver).target_index == if old(driver).arrived(new_position) {
                next_index(old(driver).target_index as int, old(driver).targets@.len() as int)
            } else {
                old(driver).target_index as int
            }
        },
{
    if driver.moving {
        let target = driver.current_target_location();
        assert(target.in_range());
        let new_position = Vec3::new(
            lerp_step(position.x, target.x, delta_seconds),
            lerp_step(position.y, target.y, delta_seconds),
            lerp_step(position.z, target.z, delta_seconds),
        );
        driver.update(new_position);
        new_position
    } else {
        position
    }
}

} // verus!
