//! Single-precision numbers carried by their IEEE-754 bit pattern.
//!
//! The library never computes with fractions; it only carries them, compares
//! them and picks among them. A [`Scalar`] is therefore the 32 bits of a
//! single, and its order is the numeric order of IEEE-754: a NaN compares
//! with nothing, the two zeros are equal, every other pair is ordered by
//! sign and magnitude.

use vstd::prelude::*;

verus! {

/// The 32 bits of an IEEE-754 single.
#[derive(Clone, Copy, PartialEq, Eq, Structural, Debug)]
pub struct Scalar {
    pub bits: u32,
}

/// Bit pattern of positive infinity; every larger magnitude is a NaN.
pub const INFINITY_BITS: u32 = 0x7f80_0000;

/// The sign bit.
pub const SIGN_BIT: u32 = 0x8000_0000;

/// Bit pattern of `1.0`.
pub const ONE_BITS: u32 = 0x3f80_0000;

/// Bit pattern of the largest finite single.
pub const MAX_BITS: u32 = 0x7f7f_ffff;

impl Scalar {
    /// The pattern without its sign bit.
    pub open spec fn magnitude(self) -> int {
        if self.bits >= SIGN_BIT {
            self.bits - SIGN_BIT
        } else {
            self.bits as int
        }
    }

    /// Whether the sign bit is set.
    pub open spec fn negative(self) -> bool {
        self.bits >= SIGN_BIT
    }

    /// Whether the pattern is a NaN.
    pub open spec fn nan(self) -> bool {
        self.magnitude() > INFINITY_BITS
    }

    /// An integer that orders the patterns that are no NaN as their numbers
    /// are ordered. Both zeros have rank 0.
    pub open spec fn rank(self) -> int {
        if self.negative() {
            -self.magnitude()
        } else {
            self.magnitude()
        }
    }

    /// Numeric `<`.
    pub open spec fn less(self, other: Scalar) -> bool {
        !self.nan() && !other.nan() && self.rank() < other.rank()
    }

    /// Numeric `<=`.
    pub open spec fn at_most(self, other: Scalar) -> bool {
        !self.nan() && !other.nan() && self.rank() <= other.rank()
    }

    /// Numeric `==`: false of a NaN, true of the two zeros.
    pub open spec fn same(self, other: Scalar) -> bool {
        !self.nan() && !other.nan() && self.rank() == other.rank()
    }

    /// Whether the number lies in the closed interval from `low` to `high`.
    pub open spec fn within(self, low: Scalar, high: Scalar) -> bool {
        low.at_most(self) && self.at_most(high)
    }

    pub fn from_bits(bits: u32) -> (r: Scalar)
        ensures
            r.bits == bits,
    {
        Scalar { bits }
    }

    pub fn to_bits(self) -> (r: u32)
        ensures
            r == self.bits,
    {
        self.bits
    }

    /// Positive zero.
    pub fn zero() -> (r: Scalar)
        ensures
            r.bits == 0,
            r.rank() == 0,
            !r.nan(),
    {
        Scalar { bits: 0 }
    }

    /// The number one.
    pub fn one() -> (r: Scalar)
        ensures
            r.bits == ONE_BITS,
            !r.nan(),
    {
        Scalar { bits: ONE_BITS }
    }

    /// The largest finite single.
    pub fn max_value() -> (r: Scalar)
        ensures
            r.bits == MAX_BITS,
            !r.nan(),
    {
        Scalar { bits: MAX_BITS }
    }

    pub fn is_nan(self) -> (r: bool)
        ensures
            r == self.nan(),
    {
        let m: u32 = if self.bits >= SIGN_BIT {
            self.bits - SIGN_BIT
        } else {
            self.bits
        };
        m > INFINITY_BITS
    }

    /// The rank of the pattern as a machine integer.
    pub fn order_key(self) -> (r: i64)
        ensures
            r == self.rank(),
    {
        if self.bits >= SIGN_BIT {
            let m: u32 = self.bits - SIGN_BIT;
            let wide: i64 = m as i64;
            -wide
        } else {
            self.bits as i64
        }
    }

    pub fn lt(self, other: Scalar) -> (r: bool)
        ensures
            r == self.less(other),
    {
        !self.is_nan() && !other.is_nan() && self.order_key() < other.order_key()
    }

    pub fn le(self, other: Scalar) -> (r: bool)
        ensures
            r == self.at_most(other),
    {
        !self.is_nan() && !other.is_nan() && self.order_key() <= other.order_key()
    }

    pub fn gt(self, other: Scalar) -> (r: bool)
        ensures
            r == other.less(self),
    {
        other.lt(self)
    }

    pub fn ge(self, other: Scalar) -> (r: bool)
        ensures
            r == other.at_most(self),
    {
        other.le(self)
    }

    /// Numeric equality, which is coarser than equality of patterns on the
    /// zeros and finer on the NaNs.
    pub fn numerically_eq(self, other: Scalar) -> (r: bool)
        ensures
            r == self.same(other),
    {
        !self.is_nan() && !other.is_nan() && self.order_key() == other.order_key()
    }
}

/// What [`clamp`] returns.
pub open spec fn clamped(x: Scalar, min: Scalar, max: Scalar) -> Scalar {
    if x.less(min) {
        min
    } else if max.less(x) {
        max
    } else {
        x
    }
}

/// Brings `x` into the interval from `min` to `max`: a number below `min`
/// becomes `min`, one above `max` becomes `max`, anything else, a NaN too,
/// is handed back as it came.
pub fn clamp(x: Scalar, min: Scalar, max: Scalar) -> (r: Scalar)
    ensures
        r == clamped(x, min, max),
{
    if x.lt(min) {
        min
    } else if x.gt(max) {
        max
    } else {
        x
    }
}

/// `<` is a strict order: nothing is below itself, and it is transitive.
pub proof fn less_is_strict(a: Scalar, b: Scalar, c: Scalar)
    ensures
        !a.less(a),
        a.less(b) ==> !b.less(a),
        a.less(b) && b.less(c) ==> a.less(c),
{
}

/// Of two numbers that are no NaN exactly one of `<`, numeric `==` and `>`
/// holds, and `<=` is `<` or `==`.
pub proof fn order_is_total(a: Scalar, b: Scalar)
    requires
        !a.nan(),
        !b.nan(),
    ensures
        a.less(b) || a.same(b) || b.less(a),
        !(a.less(b) && a.same(b)),
        !(b.less(a) && a.same(b)),
        a.at_most(b) <==> a.less(b) || a.same(b),
        a.at_most(b) <==> !b.less(a),
{
}

/// A NaN is neither below, above nor equal to anything, itself included.
pub proof fn nan_is_unordered(a: Scalar, b: Scalar)
    requires
        a.nan(),
    ensures
        !a.less(b),
        !b.less(a),
        !a.at_most(b),
        !b.at_most(a),
        !a.same(b),
        !a.same(a),
{
}

/// Between bounds in order, clamping a number yields a number within the
/// bounds, and leaves a number within the bounds untouched.
pub proof fn clamp_stays_within(x: Scalar, min: Scalar, max: Scalar)
    requires
        !x.nan(),
        min.at_most(max),
    ensures
        clamped(x, min, max).within(min, max),
        x.within(min, max) ==> clamped(x, min, max) == x,
        clamped(clamped(x, min, max), min, max) == clamped(x, min, max),
{
}

} // verus!
