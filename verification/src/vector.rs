//! Two- and three-component vectors of scalars, as plain data.

use vstd::prelude::*;
use crate::scalar::Scalar;

verus! {

/// A texture coordinate.
#[derive(Clone, Copy, PartialEq, Eq, Structural, Debug)]
pub struct Vec2 {
    pub x: Scalar,
    pub y: Scalar,
}

/// A point, a direction or a colour.
#[derive(Clone, Copy, PartialEq, Eq, Structural, Debug)]
pub struct Vec3 {
    pub x: Scalar,
    pub y: Scalar,
    pub z: Scalar,
}

impl Vec2 {
    pub fn new(x: Scalar, y: Scalar) -> (r: Vec2)
        ensures
            r == (Vec2 { x, y }),
    {
        Vec2 { x, y }
    }

    /// The origin, both components positive zero.
    pub fn zero() -> (r: Vec2)
        ensures
            r == Vec2::origin(),
    {
        Vec2 { x: Scalar { bits: 0 }, y: Scalar { bits: 0 } }
    }

    pub open spec fn origin() -> Vec2 {
        Vec2 { x: Scalar { bits: 0 }, y: Scalar { bits: 0 } }
    }
}

impl Vec3 {
    pub fn new(x: Scalar, y: Scalar, z: Scalar) -> (r: Vec3)
        ensures
            r == (Vec3 { x, y, z }),
    {
        Vec3 { x, y, z }
    }

    /// The origin, all components positive zero.
    pub fn zero() -> (r: Vec3)
        ensures
            r == Vec3::origin(),
    {
        Vec3 { x: Scalar { bits: 0 }, y: Scalar { bits: 0 }, z: Scalar { bits: 0 } }
    }

    pub open spec fn origin() -> Vec3 {
        Vec3 { x: Scalar { bits: 0 }, y: Scalar { bits: 0 }, z: Scalar { bits: 0 } }
    }
}

} // verus!
