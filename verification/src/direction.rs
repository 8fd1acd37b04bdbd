//! Normalized direction vectors: vectors carrying the invariant that
//! their magnitude is (approximately) one.

use vstd::prelude::*;
use crate::angle::Angle;
use crate::vector::{Vec2, Vec3, Vec4, vcross, vdot3};
use crate::{FullFloat, mag2, mag3, unit2, unit3};

verus! {

/// Direction vector in 2 dimensions (normalized).
///
/// Only constructible through explicit normalization or a validated
/// constructor, never by raw component assignment, so that every
/// value carries the unit-magnitude invariant.
#[derive(Debug, Copy, PartialEq, Eq, Hash)]
pub struct Direction2<F: FullFloat>(Vec2<F>);

impl<F: FullFloat> Clone for Direction2<F> {
    fn clone(&self) -> (r: Self)
        ensures
            r == *self,
    {
        *self
    }
}

/// Direction vector in 3 dimensions (normalized).
///
/// Only constructible through explicit normalization or a validated
/// constructor, never by raw component assignment, so that every
/// value carries the unit-magnitude invariant.
#[derive(Debug, Copy, PartialEq, Eq, Hash)]
pub struct Direction3<F: FullFloat>(Vec3<F>);

impl<F: FullFloat> Clone for Direction3<F> {
    fn clone(&self) -> (r: Self)
        ensures
            r == *self,
    {
        *self
    }
}

impl<F: FullFloat> View for Direction2<F> {
    type V = Vec2<F>;

    /// The direction's components as a vector.
    closed spec fn view(&self) -> Vec2<F> {
        self.0
    }
}

impl<F: FullFloat> View for Direction3<F> {
    type V = Vec3<F>;

    /// The direction's components as a vector.
    closed spec fn view(&self) -> Vec3<F> {
        self.0
    }
}

impl<F: FullFloat> Direction2<F> {
    /// Every direction's magnitude passes the wide unit test.
    #[verifier::type_invariant]
    pub open spec fn unit_invariant(self) -> bool {
        unit2(self@.x, self@.y)
    }

    /// Wrap components that are already normalized.  The caller owes
    /// the unit-magnitude invariant.
    #[inline]
    pub fn new_isnormal(x: F, y: F) -> (d: Direction2<F>)
        requires
            unit2(x, y),
        ensures
            d@ == (Vec2 { x, y }),
    {
        Direction2(Vec2::new(x, y))
    }

    /// The direction a vector points in: the vector divided by its
    /// own magnitude.  The vector must be normalizable -- a zero (or
    /// otherwise degenerate) vector has no direction.
    pub fn from_vec2(v: Vec2<F>) -> (d: Direction2<F>)
        requires
            F::normalizable2(v.x, v.y),
        ensures
            d@ == v.spec_scale_div(mag2(v.x, v.y)),
    {
        proof {
            F::law_normalize2(v.x, v.y);
        }
        let mag = v.magnitude();
        Direction2(Vec2::new(v.x.div(mag), v.y.div(mag)))
    }

    /// The direction's components as an ordinary vector.
    #[inline]
    pub fn into_vec2(self) -> (r: Vec2<F>)
        ensures
            r == self@,
    {
        self.0
    }
}

impl<F: FullFloat> Direction3<F> {
    /// Every direction's magnitude passes the wide unit test.
    #[verifier::type_invariant]
    pub open spec fn unit_invariant(self) -> bool {
        unit3(self@.x, self@.y, self@.z)
    }

    /// Wrap components that are already normalized.  The caller owes
    /// the unit-magnitude invariant.
    #[inline]
    pub fn new_isnormal(x: F, y: F, z: F) -> (d: Direction3<F>)
        requires
            unit3(x, y, z),
        ensures
            d@ == (Vec3 { x, y, z }),
    {
        Direction3(Vec3::new(x, y, z))
    }

    /// The direction a vector points in: the vector divided by its
    /// own magnitude.  The vector must be normalizable -- a zero (or
    /// otherwise degenerate) vector has no direction.
    pub fn from_vec3(v: Vec3<F>) -> (d: Direction3<F>)
        requires
            F::normalizable3(v.x, v.y, v.z),
        ensures
            d@ == v.spec_scale_div(mag3(v.x, v.y, v.z)),
    {
        proof {
            F::law_normalize3(v.x, v.y, v.z);
        }
        let mag = v.magnitude();
        Direction3(Vec3::new(v.x.div(mag), v.y.div(mag), v.z.div(mag)))
    }

    /// The direction's components as an ordinary vector.
    #[inline]
    pub fn into_vec3(self) -> (r: Vec3<F>)
        ensures
            r == self@,
    {
        self.0
    }

    /// The direction as a four-component vector with `w` zero.
    #[inline]
    pub fn into_vec4(self) -> (r: Vec4<F>)
        ensures
            r == (Vec4 { x: self@.x, y: self@.y, z: self@.z, w: F::zero_s() }),
    {
        Vec4::new(self.0.x, self.0.y, self.0.z, F::zero())
    }

    /// The cross product of two directions (an ordinary vector: it is
    /// not normalized unless the directions are perpendicular).
    #[inline]
    pub fn cross(&self, rhs: Direction3<F>) -> (r: Vec3<F>)
        ensures
            r == vcross(self@, rhs@),
    {
        self.0.cross(rhs.0)
    }

    /// The dot product of two directions.
    #[inline]
    pub fn dot(&self, rhs: Direction3<F>) -> (r: F)
        ensures
            r == vdot3(self@, rhs@),
    {
        self.0.dot(rhs.0)
    }

    /// The opposite direction.
    #[inline]
    pub fn neg(self) -> (r: Direction3<F>)
        ensures
            r@ == self@.spec_neg(),
    {
        proof {
            use_type_invariant(self);
            F::law_unit3_negate(self.0.x, self.0.y, self.0.z);
        }
        Direction3(self.0.neg())
    }

    /// The unit direction at the given latitude and longitude on the
    /// sphere: latitude rises towards positive `y`, and longitude
    /// turns from positive `z` towards positive `x`.
    pub fn from_lat_long(latitude: Angle<F>, longitude: Angle<F>) -> (d: Direction3<F>)
        requires
            latitude@.finite(),
            longitude@.finite(),
        ensures
            d@ == (Vec3 {
                x: latitude@.cos_s().mul_s(longitude@.sin_s()),
                y: latitude@.sin_s(),
                z: latitude@.cos_s().mul_s(longitude@.cos_s()),
            }),
    {
        proof {
            F::law_lat_long_unit(latitude@, longitude@);
        }
        let (slat, clat) = latitude.as_radians().sin_cos();
        let (slon, clon) = longitude.as_radians().sin_cos();
        Direction3(Vec3::new(clat.mul(slon), slat, clat.mul(clon)))
    }

    /// The latitude and longitude angles read back from the
    /// direction's components.
    pub fn to_lat_long(&self) -> (r: (Angle<F>, Angle<F>))
        ensures
            r.0@ == self@.y.acos_s(),
            r.1@ == self@.z.div_s(self@.y).acos_s(),
    {
        let lat = self.0.y.acos();
        let lon = self.0.z.div(self.0.y).acos();
        (Angle::from_radians(lat), Angle::from_radians(lon))
    }
}

} // verus!
