//! Planar coordinates.
//!
//! An ordinate is held as the bit pattern of an IEEE-754 binary64 number, so
//! that coordinates travel unchanged between the geometry models; the only
//! arithmetic the conversions ever need on them is equality, which is stated
//! here over the bit patterns.
use vstd::prelude::*;

verus! {

/// Bits of the exponent field of a binary64 number.
pub const EXPONENT_MASK: u64 = 0x7ff0_0000_0000_0000;

/// Bits of the fraction field of a binary64 number.
pub const FRACTION_MASK: u64 = 0x000f_ffff_ffff_ffff;

/// All bits but the sign of a binary64 number.
pub const MAGNITUDE_MASK: u64 = 0x7fff_ffff_ffff_ffff;

/// The ordinate is a NaN: all exponent bits set and a nonzero fraction.
pub open spec fn is_nan(bits: u64) -> bool {
    (bits & EXPONENT_MASK) == EXPONENT_MASK && (bits & FRACTION_MASK) != 0
}

/// The ordinate is +0.0 or -0.0.
pub open spec fn is_zero(bits: u64) -> bool {
    (bits & MAGNITUDE_MASK) == 0
}

/// Numeric equality of two binary64 numbers given by their bit patterns:
/// a NaN equals nothing, the two zeros are equal, and otherwise equal values
/// have equal bit patterns.
pub open spec fn ordinates_equal(a: u64, b: u64) -> bool {
    &&& !is_nan(a)
    &&& !is_nan(b)
    &&& (a == b || (is_zero(a) && is_zero(b)))
}

/// Decides [`ordinates_equal`].
pub fn ordinate_eq(a: u64, b: u64) -> (r: bool)
    ensures
        r == ordinates_equal(a, b),
{
    let a_nan = (a & EXPONENT_MASK) == EXPONENT_MASK && (a & FRACTION_MASK) != 0;
    let b_nan = (b & EXPONENT_MASK) == EXPONENT_MASK && (b & FRACTION_MASK) != 0;
    if a_nan || b_nan {
        false
    } else {
        a == b || ((a & MAGNITUDE_MASK) == 0 && (b & MAGNITUDE_MASK) == 0)
    }
}

/// A position in the plane. `x` and `y` are binary64 bit patterns.
///
/// `==` on this type compares the bit patterns; [`Coord::same_position`]
/// compares the numbers.
#[derive(Clone, Copy, Debug, PartialEq, Eq, Structural)]
pub struct Coord {
    pub x: u64,
    pub y: u64,
}

/// Numeric equality of two coordinates, ordinate by ordinate.
pub open spec fn coords_equal(a: Coord, b: Coord) -> bool {
    ordinates_equal(a.x, b.x) && ordinates_equal(a.y, b.y)
}

impl Coord {
    /// The coordinate with the given ordinates.
    pub fn new(x: u64, y: u64) -> (c: Coord)
        ensures
            c.x == x,
            c.y == y,
    {
        Coord { x, y }
    }

    /// Numeric equality of `self` and `other`.
    pub fn same_position(&self, other: &Coord) -> (r: bool)
        ensures
            r == coords_equal(*self, *other),
    {
        ordinate_eq(self.x, other.x) && ordinate_eq(self.y, other.y)
    }
}

/// Every coordinate without a NaN ordinate equals itself.
pub proof fn lemma_coord_equal_reflexive(c: Coord)
    requires
        !is_nan(c.x),
        !is_nan(c.y),
    ensures
        coords_equal(c, c),
{
}

/// Numeric equality of coordinates is symmetric.
pub proof fn lemma_coord_equal_symmetric(a: Coord, b: Coord)
    ensures
        coords_equal(a, b) == coords_equal(b, a),
{
}

} // verus!
