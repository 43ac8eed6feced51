//! Directions and displacements in space.

use vstd::prelude::*;
use crate::scalar::Real;

verus! {

/// A free vector: a direction or a displacement, by its three components.
#[derive(Clone, Copy, Debug, PartialEq, Eq, Structural)]
pub struct Vector3 {
    pub x: Real,
    pub y: Real,
    pub z: Real,
}

impl Vector3 {
    /// The vector of the same length that points the other way.
    pub open spec fn negated(self) -> Vector3 {
        Vector3 { x: self.x.negated(), y: self.y.negated(), z: self.z.negated() }
    }

    /// `-self`.
    pub fn neg(self) -> (r: Vector3)
        ensures
            r == self.negated(),
    {
        Vector3 { x: self.x.neg(), y: self.y.neg(), z: self.z.neg() }
    }
}

} // verus!
