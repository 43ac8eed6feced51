//! Positions in space.

use vstd::prelude::*;
use crate::scalar::{Real, ONE, SIGN};
use crate::vector::Vector3;

verus! {

/// An absolute position. Kept apart from [`Vector3`] so that two positions
/// cannot be added by mistake.
#[derive(Clone, Copy, Debug, PartialEq, Eq, Structural)]
pub struct Point {
    pub x: Real,
    pub y: Real,
    pub z: Real,
}

impl Point {
    /// The origin.
    pub fn zero() -> (p: Point)
        ensures
            p.x.bits == 0 && p.y.bits == 0 && p.z.bits == 0,
    {
        Point::from_one(Real::zero())
    }

    /// The point whose three coordinates all are `value`.
    pub fn from_one(value: Real) -> (p: Point)
        ensures
            p == (Point { x: value, y: value, z: value }),
    {
        Point { x: value, y: value, z: value }
    }

    /// The displacement from the origin to this point.
    pub fn to_vector(&self) -> (v: Vector3)
        ensures
            v == (Vector3 { x: self.x, y: self.y, z: self.z }),
    {
        Vector3 { x: self.x, y: self.y, z: self.z }
    }

    /// Where a camera looks when a scene does not say: one unit down the
    /// negative z axis.
    pub fn default_look_at() -> (p: Point)
        ensures
            p.x.bits == 0 && p.y.bits == 0,
            p.z.bits == SIGN + ONE,
            p.z.negative() && p.z.magnitude() == ONE,
    {
        Point { x: Real::zero(), y: Real::zero(), z: Real::one().neg() }
    }
}

} // verus!
