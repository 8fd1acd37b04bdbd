//! An angle type that remembers its own unit.

use vstd::prelude::*;
use crate::FullFloat;
use crate::ScalarOps;
use crate::vector::Vec2;

verus! {

/// An angle, without needing to remember whether it is denominated in
/// radians, degrees, or otherwise.  Angles are NOT automatically
/// normalized -- often you want to know if something spun around
/// twice.  Internally stored as radians.
#[derive(Debug, Clone, Copy, PartialEq, Eq, Hash)]
pub struct Angle<F>(F);

/// The radians value of an angle of `d` degrees: `pi * d / 180`.
pub open spec fn degrees_to_radians<F: ScalarOps>(degrees: F) -> F {
    F::pi_s().mul_s(degrees).div_s(F::one_eighty_s())
}

/// The degrees value of an angle of `r` radians: `r * 180 / pi`.
pub open spec fn radians_to_degrees<F: ScalarOps>(radians: F) -> F {
    radians.mul_s(F::one_eighty_s()).div_s(F::pi_s())
}

/// The radians value of an angle of `c` full circles: `2 * pi * c`.
pub open spec fn cycles_to_radians<F: ScalarOps>(cycles: F) -> F {
    F::two_s().mul_s(F::pi_s()).mul_s(cycles)
}

/// The number of full circles in an angle of `r` radians:
/// `r / (2 * pi)`.
pub open spec fn radians_to_cycles<F: ScalarOps>(radians: F) -> F {
    radians.div_s(F::two_s().mul_s(F::pi_s()))
}

impl<F> View for Angle<F> {
    type V = F;

    /// The value of the angle in radians.
    closed spec fn view(&self) -> F {
        self.0
    }
}

impl<F> Angle<F> {
    /// Create an angle from radians.
    #[inline]
    pub fn new_radians(radians: F) -> (a: Angle<F>)
        ensures
            a@ == radians,
    {
        Angle::<F>::from_radians(radians)
    }

    /// Create an angle from radians.
    pub fn from_radians(radians: F) -> (a: Angle<F>)
        ensures
            a@ == radians,
    {
        Angle(radians)
    }
}

impl<F: Copy> Angle<F> {
    /// Get the value of the angle as radians.
    pub fn as_radians(&self) -> (r: F)
        ensures
            r == self@,
    {
        self.0
    }
}

impl<F: FullFloat> Angle<F> {
    /// Create an angle from degrees.
    #[inline]
    pub fn new_degrees(degrees: F) -> (a: Angle<F>)
        ensures
            a@ == degrees_to_radians(degrees),
    {
        Angle::<F>::from_degrees(degrees)
    }

    /// Create an angle from degrees.
    pub fn from_degrees(degrees: F) -> (a: Angle<F>)
        ensures
            a@ == degrees_to_radians(degrees),
    {
        Angle(F::pi().mul(degrees).div(F::one_eighty()))
    }

    /// Get the value of the angle as degrees.
    pub fn as_degrees(&self) -> (r: F)
        ensures
            r == radians_to_degrees(self@),
    {
        self.0.mul(F::one_eighty()).div(F::pi())
    }

    /// Create an angle from cycles (1 cycle is a full circle).
    #[inline]
    pub fn new_cycles(cycles: F) -> (a: Angle<F>)
        ensures
            a@ == cycles_to_radians(cycles),
    {
        Angle::<F>::from_cycles(cycles)
    }

    /// Create an angle from cycles (1 cycle is a full circle).
    pub fn from_cycles(cycles: F) -> (a: Angle<F>)
        ensures
            a@ == cycles_to_radians(cycles),
    {
        Angle(F::two().mul(F::pi()).mul(cycles))
    }

    /// Get the value of the angle as number of cycles (full circles).
    pub fn as_cycles(&self) -> (r: F)
        ensures
            r == radians_to_cycles(self@),
    {
        self.0.div(F::two().mul(F::pi()))
    }

    /// Get the angle that a given vector points in relative to the
    /// x-axis, going counterclockwise.  This ranges from -pi to pi,
    /// and all 4 quadrants are properly handled.
    pub fn of_vector(vec: &Vec2<F>) -> (a: Angle<F>)
        ensures
            a@ == vec.y.atan2_s(vec.x),
    {
        Angle(vec.y.atan2(vec.x))
    }

    /// Normalize to within the range of 0 to 2*pi: take the remainder
    /// by a full circle and add one circle if that came out negative.
    pub fn normalize(&mut self)
        ensures
            final(self)@ == (if old(self)@.rem_s(F::two_s().mul_s(F::pi_s())).lt_s(F::zero_s()) {
                old(self)@.rem_s(F::two_s().mul_s(F::pi_s())).add_s(F::two_s().mul_s(F::pi_s()))
            } else {
                old(self)@.rem_s(F::two_s().mul_s(F::pi_s()))
            }),
    {
        let twopi = F::two().mul(F::pi());
        // Remainder within -twopi ... +twopi
        self.0 = self.0.rem(twopi);
        if self.0.lt(F::zero()) {
            self.0 = self.0.add(twopi);
        }
    }

    /// The angle scaled by a scalar.
    pub fn mul(self, rhs: F) -> (a: Angle<F>)
        ensures
            a@ == self@.mul_s(rhs),
    {
        Angle(self.0.mul(rhs))
    }

    /// The angle divided by a scalar.
    pub fn div(self, rhs: F) -> (a: Angle<F>)
        ensures
            a@ == self@.div_s(rhs),
    {
        Angle(self.0.div(rhs))
    }

    /// The sum of two angles.
    pub fn add(self, rhs: Angle<F>) -> (a: Angle<F>)
        ensures
            a@ == self@.add_s(rhs@),
    {
        Angle(self.0.add(rhs.0))
    }

    /// The difference of two angles.
    pub fn sub(self, rhs: Angle<F>) -> (a: Angle<F>)
        ensures
            a@ == self@.sub_s(rhs@),
    {
        Angle(self.0.sub(rhs.0))
    }

    /// The negated angle.
    pub fn neg(self) -> (a: Angle<F>)
        ensures
            a@ == self@.neg_s(),
    {
        Angle(self.0.neg())
    }
}

} // verus!
