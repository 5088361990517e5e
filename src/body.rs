//! The state of one simulated body that the steps read and write.

use vstd::prelude::*;
use crate::fixed::Vec3;

verus! {

/// What the physics engine holds of a body, plus its ground contact flag.
///
/// `force` is the continuous force accumulator: the steps rebuild it every
/// tick and never read a value left from the tick before.
#[derive(Clone, Copy, Debug, PartialEq, Eq, Structural)]
pub struct Body {
    pub position: Vec3,
    pub velocity: Vec3,
    pub force: Vec3,
    pub grounded: bool,
}

impl Body {
    /// A body at rest at `position`, with no force and no ground contact.
    pub fn at_rest(position: Vec3) -> (b: Body)
        ensures
            b.position == position,
            b.velocity.is_zero_spec(),
            b.force.is_zero_spec(),
            !b.grounded,
    {
        Body { position, velocity: Vec3::zero(), force: Vec3::zero(), grounded: false }
    }
}

} // verus!
