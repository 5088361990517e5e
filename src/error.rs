//! Configuration errors, reported when a component is built.

use vstd::prelude::*;

verus! {

/// Why a configuration was refused.
#[derive(Clone, Copy, Debug, PartialEq, Eq, Structural)]
pub enum ConfigError {
    /// The probe length is not positive or exceeds `LIMIT`.
    RayLength,
    /// The ride height is not positive or exceeds `LIMIT`.
    RideHeight,
    /// The spring strength is negative or exceeds `LIMIT`.
    Strength,
    /// The spring damper is negative or exceeds `LIMIT`.
    Damper,
    /// A patrol route was given no waypoint.
    EmptyRoute,
    /// A waypoint lies outside the range the steps accept.
    WaypointOutOfRange,
    /// The arrival distance is not positive or exceeds `LIMIT`.
    DistanceThreshold,
    /// An acceleration, deceleration or top speed is negative or exceeds `LIMIT`.
    Movement,
}

} // verus!
