//! Points in 2- and 3-dimensional space, distinct from vectors.

use vstd::prelude::*;
use crate::FullFloat;
use crate::vector::{Vec2, Vec3, Vec4};

verus! {

/// Point in 2 dimensions.
#[derive(Debug, Clone, Copy, PartialEq, Eq, Hash)]
pub struct Point2<F>(pub Vec2<F>);

/// Point in 3 dimensions.
#[derive(Debug, Clone, Copy, PartialEq, Eq, Hash)]
pub struct Point3<F>(pub Vec3<F>);

impl<F> Point2<F> {
    /// Construct a new point.
    #[inline]
    pub fn new(x: F, y: F) -> (r: Point2<F>)
        ensures
            r == (Point2(Vec2 { x, y })),
    {
        Point2(Vec2::new(x, y))
    }

    /// The point's coordinates as a vector from the origin.
    #[inline]
    pub fn into_vec2(self) -> (r: Vec2<F>)
        ensures
            r == self.0,
    {
        self.0
    }

    /// A point at the coordinates of the given vector.
    #[inline]
    pub fn from_vec2(v: Vec2<F>) -> (r: Point2<F>)
        ensures
            r == (Point2(v)),
    {
        Point2(v)
    }
}

impl<F> Point3<F> {
    /// Construct a new point.
    #[inline]
    pub fn new(x: F, y: F, z: F) -> (r: Point3<F>)
        ensures
            r == (Point3(Vec3 { x, y, z })),
    {
        Point3(Vec3::new(x, y, z))
    }

    /// The point's coordinates as a vector from the origin.
    #[inline]
    pub fn into_vec3(self) -> (r: Vec3<F>)
        ensures
            r == self.0,
    {
        self.0
    }

    /// A point at the coordinates of the given vector.
    #[inline]
    pub fn from_vec3(v: Vec3<F>) -> (r: Point3<F>)
        ensures
            r == (Point3(v)),
    {
        Point3(v)
    }
}

impl<F: Copy> Point3<F> {
    /// A point at the first three coordinates of the given
    /// four-component vector, dropping its `w`.
    #[inline]
    pub fn from_vec4(v: Vec4<F>) -> (r: Point3<F>)
        ensures
            r == (Point3(Vec3 { x: v.x, y: v.y, z: v.z })),
    {
        Point3(v.truncate_w())
    }
}

impl<F: FullFloat> Point3<F> {
    /// The point as a homogeneous four-component vector with `w` one.
    #[inline]
    pub fn into_vec4(self) -> (r: Vec4<F>)
        ensures
            r == (Vec4 { x: self.0.x, y: self.0.y, z: self.0.z, w: F::one_s() }),
    {
        Vec4::new(self.0.x, self.0.y, self.0.z, F::one())
    }
}

impl<F: FullFloat> Point2<F> {
    /// The point translated by a vector.
    #[inline]
    pub fn add_vec(self, other: Vec2<F>) -> (r: Point2<F>)
        ensures
            r.0 == self.0.spec_add(other),
    {
        Point2(self.0.add(other))
    }

    /// The point translated backwards by a vector.
    #[inline]
    pub fn sub_vec(self, other: Vec2<F>) -> (r: Point2<F>)
        ensures
            r.0 == self.0.spec_sub(other),
    {
        Point2(self.0.sub(other))
    }

    /// The vector from the other point to this one: point minus point
    /// is a vector.
    #[inline]
    pub fn sub_point(self, other: Point2<F>) -> (r: Vec2<F>)
        ensures
            r == self.0.spec_sub(other.0),
    {
        self.0.sub(other.0)
    }
}

impl<F: FullFloat> Point3<F> {
    /// The point translated by a vector.
    #[inline]
    pub fn add_vec(self, other: Vec3<F>) -> (r: Point3<F>)
        ensures
            r.0 == self.0.spec_add(other),
    {
        Point3(self.0.add(other))
    }

    /// The point translated backwards by a vector.
    #[inline]
    pub fn sub_vec(self, other: Vec3<F>) -> (r: Point3<F>)
        ensures
            r.0 == self.0.spec_sub(other),
    {
        Point3(self.0.sub(other))
    }

    /// The vector from the other point to this one: point minus point
    /// is a vector.
    #[inline]
    pub fn sub_point(self, other: Point3<F>) -> (r: Vec3<F>)
        ensures
            r == self.0.spec_sub(other.0),
    {
        self.0.sub(other.0)
    }

    /// The point mirrored through the origin.
    #[inline]
    pub fn neg(self) -> (r: Point3<F>)
        ensures
            r.0 == self.0.spec_neg(),
    {
        Point3(self.0.neg())
    }
}

} // verus!
