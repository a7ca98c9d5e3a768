//! The parameters of a surface, as plain data.

use vstd::prelude::*;
use crate::scalar::{Scalar, ONE_BITS};
use crate::vector::Vec3;

verus! {

/// How a surface scatters and emits light.
#[derive(Clone, Copy, PartialEq, Eq, Structural, Debug)]
pub struct Material {
    pub color: Vec3,
    pub metalness: Scalar,
    pub roughness: Scalar,
    pub emission: Vec3,
}

/// Whether a parameter is a number from zero to one.
pub open spec fn is_fraction(x: Scalar) -> bool {
    x.within(Scalar { bits: 0 }, Scalar { bits: ONE_BITS })
}

impl Material {
    /// Whether metalness and roughness are numbers from zero to one.
    pub open spec fn valid(&self) -> bool {
        is_fraction(self.metalness) && is_fraction(self.roughness)
    }

    pub fn is_valid(&self) -> (r: bool)
        ensures
            r == self.valid(),
    {
        let zero = Scalar::zero();
        let one = Scalar::one();
        zero.le(self.metalness) && self.metalness.le(one) && zero.le(self.roughness)
            && self.roughness.le(one)
    }

    /// A material of the given parameters, or `None` where metalness or
    /// roughness is no number from zero to one.
    pub fn new(color: Vec3, metalness: Scalar, roughness: Scalar, emission: Vec3) -> (r: Option<
        Material,
    >)
        ensures
            r == (if is_fraction(metalness) && is_fraction(roughness) {
                Some(Material { color, metalness, roughness, emission })
            } else {
                None
            }),
    {
        let material = Material { color, metalness, roughness, emission };
        if material.is_valid() {
            Some(material)
        } else {
            None
        }
    }
}

} // verus!
