//! Planar vectors in fixed point.

use vstd::prelude::*;

verus! {

/// Steps of the fixed-point grid in one world unit.
pub const UNIT: u32 = 1000;

/// A vector in the plane, in thousandths of a world unit.
///
/// It serves as a heading for triggers and movement and as an offset between
/// two actors. Where it is a heading only its angle matters.
#[derive(Clone, Copy, Debug, PartialEq, Eq, Structural)]
pub struct Direction {
    /// Component to the right.
    pub x: i32,
    /// Component upwards.
    pub y: i32,
}

impl Direction {
    /// The square of the vector's length, in squared grid steps.
    pub open spec fn length_squared(self) -> nat {
        (self.x * self.x + self.y * self.y) as nat
    }

    /// Whether the vector is strictly longer than `length` grid steps.
    pub open spec fn longer_than(self, length: u32) -> bool {
        self.length_squared() > length * length
    }

    /// Whether both components are zero.
    pub open spec fn is_zero(self) -> bool {
        self.x == 0 && self.y == 0
    }

    /// Tells whether the vector is strictly longer than `length` grid steps.
    pub fn exceeds(&self, length: u32) -> (longer: bool)
        ensures
            longer == self.longer_than(length),
    {
        let x: i128 = self.x as i128;
        let y: i128 = self.y as i128;
        let bound: i128 = length as i128;
        assert(0 <= x * x <= 0x4000_0000_0000_0000) by (nonlinear_arith)
            requires
                -0x8000_0000 <= x <= 0x8000_0000,
        ;
        assert(0 <= y * y <= 0x4000_0000_0000_0000) by (nonlinear_arith)
            requires
                -0x8000_0000 <= y <= 0x8000_0000,
        ;
        assert(0 <= bound * bound <= 0x1_0000_0000 * 0x1_0000_0000) by (nonlinear_arith)
            requires
                0 <= bound <= 0x1_0000_0000,
        ;
        x * x + y * y > bound * bound
    }

    /// A vector longer than one bound is longer than every smaller bound.
    pub proof fn lemma_longer_than_smaller(self, bound: u32, smaller: u32)
        requires
            self.longer_than(bound),
            smaller <= bound,
        ensures
            self.longer_than(smaller),
    {
        assert(smaller * smaller <= bound * bound) by (nonlinear_arith)
            requires
                0 <= smaller <= bound,
        ;
    }

    /// Tells whether both components are zero.
    pub fn at_rest(&self) -> (zero: bool)
        ensures
            zero == self.is_zero(),
    {
        self.x == 0 && self.y == 0
    }
}

} // verus!
