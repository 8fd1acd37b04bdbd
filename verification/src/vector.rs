//! Fixed-size vectors of two, three and four components.

use vstd::prelude::*;
use crate::{FullFloat, ScalarOps, cross_x, cross_y, cross_z, dot3, mag2, mag3, sqmag2, sqmag3};

verus! {

/// A vector of two components.
#[derive(Debug, Clone, Copy, PartialEq, Eq, Hash)]
pub struct Vec2<F> {
    pub x: F,
    pub y: F,
}

/// A vector of three components.
#[derive(Debug, Clone, Copy, PartialEq, Eq, Hash)]
pub struct Vec3<F> {
    pub x: F,
    pub y: F,
    pub z: F,
}

/// A vector of four components.
#[derive(Debug, Clone, Copy, PartialEq, Eq, Hash)]
pub struct Vec4<F> {
    pub x: F,
    pub y: F,
    pub z: F,
    pub w: F,
}

/// The dot product of two pairs, summed left to right.
pub open spec fn vdot2<F: ScalarOps>(a: Vec2<F>, b: Vec2<F>) -> F {
    a.x.mul_s(b.x).add_s(a.y.mul_s(b.y))
}

/// The dot product of two triples, summed left to right.
pub open spec fn vdot3<F: ScalarOps>(a: Vec3<F>, b: Vec3<F>) -> F {
    dot3(a.x, a.y, a.z, b.x, b.y, b.z)
}

/// The dot product of two quadruples, summed left to right.
pub open spec fn vdot4<F: ScalarOps>(a: Vec4<F>, b: Vec4<F>) -> F {
    a.x.mul_s(b.x).add_s(a.y.mul_s(b.y)).add_s(a.z.mul_s(b.z)).add_s(a.w.mul_s(b.w))
}

/// The squared magnitude of a four-component vector, summed left to
/// right.
pub open spec fn sqmag4v<F: ScalarOps>(x: F, y: F, z: F, w: F) -> F {
    x.mul_s(x).add_s(y.mul_s(y)).add_s(z.mul_s(z)).add_s(w.mul_s(w))
}

/// The cross product of two three-component vectors.
pub open spec fn vcross<F: ScalarOps>(a: Vec3<F>, b: Vec3<F>) -> Vec3<F> {
    Vec3 {
        x: cross_x(a.x, a.y, a.z, b.x, b.y, b.z),
        y: cross_y(a.x, a.y, a.z, b.x, b.y, b.z),
        z: cross_z(a.x, a.y, a.z, b.x, b.y, b.z),
    }
}

/// The scale factor `(a . axis) / (axis . axis)` of the projection of
/// `a` onto `axis`.
pub open spec fn proj_factor2<F: ScalarOps>(a: Vec2<F>, axis: Vec2<F>) -> F {
    vdot2(a, axis).div_s(vdot2(axis, axis))
}

/// The scale factor of the projection of `a` onto `axis`.
pub open spec fn proj_factor3<F: ScalarOps>(a: Vec3<F>, axis: Vec3<F>) -> F {
    vdot3(a, axis).div_s(vdot3(axis, axis))
}

/// The scale factor of the projection of `a` onto `axis`.
pub open spec fn proj_factor4<F: ScalarOps>(a: Vec4<F>, axis: Vec4<F>) -> F {
    vdot4(a, axis).div_s(vdot4(axis, axis))
}

impl<F: ScalarOps> Vec2<F> {
    /// The componentwise sum.
    pub open spec fn spec_add(self, o: Self) -> Self {
        Vec2 { x: self.x.add_s(o.x), y: self.y.add_s(o.y) }
    }

    /// The componentwise difference.
    pub open spec fn spec_sub(self, o: Self) -> Self {
        Vec2 { x: self.x.sub_s(o.x), y: self.y.sub_s(o.y) }
    }

    /// The componentwise negation.
    pub open spec fn spec_neg(self) -> Self {
        Vec2 { x: self.x.neg_s(), y: self.y.neg_s() }
    }

    /// The vector scaled by a scalar.
    pub open spec fn spec_scale(self, f: F) -> Self {
        Vec2 { x: self.x.mul_s(f), y: self.y.mul_s(f) }
    }

    /// The vector divided by a scalar.
    pub open spec fn spec_scale_div(self, f: F) -> Self {
        Vec2 { x: self.x.div_s(f), y: self.y.div_s(f) }
    }
}

impl<F: ScalarOps> Vec3<F> {
    /// The componentwise sum.
    pub open spec fn spec_add(self, o: Self) -> Self {
        Vec3 { x: self.x.add_s(o.x), y: self.y.add_s(o.y), z: self.z.add_s(o.z) }
    }

    /// The componentwise difference.
    pub open spec fn spec_sub(self, o: Self) -> Self {
        Vec3 { x: self.x.sub_s(o.x), y: self.y.sub_s(o.y), z: self.z.sub_s(o.z) }
    }

    /// The componentwise negation.
    pub open spec fn spec_neg(self) -> Self {
        Vec3 { x: self.x.neg_s(), y: self.y.neg_s(), z: self.z.neg_s() }
    }

    /// The vector scaled by a scalar.
    pub open spec fn spec_scale(self, f: F) -> Self {
        Vec3 { x: self.x.mul_s(f), y: self.y.mul_s(f), z: self.z.mul_s(f) }
    }

    /// The vector divided by a scalar.
    pub open spec fn spec_scale_div(self, f: F) -> Self {
        Vec3 { x: self.x.div_s(f), y: self.y.div_s(f), z: self.z.div_s(f) }
    }
}

impl<F: ScalarOps> Vec4<F> {
    /// The componentwise sum.
    pub open spec fn spec_add(self, o: Self) -> Self {
        Vec4 {
            x: self.x.add_s(o.x),
            y: self.y.add_s(o.y),
            z: self.z.add_s(o.z),
            w: self.w.add_s(o.w),
        }
    }

    /// The componentwise difference.
    pub open spec fn spec_sub(self, o: Self) -> Self {
        Vec4 {
            x: self.x.sub_s(o.x),
            y: self.y.sub_s(o.y),
            z: self.z.sub_s(o.z),
            w: self.w.sub_s(o.w),
        }
    }

    /// The componentwise negation.
    pub open spec fn spec_neg(self) -> Self {
        Vec4 { x: self.x.neg_s(), y: self.y.neg_s(), z: self.z.neg_s(), w: self.w.neg_s() }
    }

    /// The vector scaled by a scalar.
    pub open spec fn spec_scale(self, f: F) -> Self {
        Vec4 { x: self.x.mul_s(f), y: self.y.mul_s(f), z: self.z.mul_s(f), w: self.w.mul_s(f) }
    }

    /// The vector divided by a scalar.
    pub open spec fn spec_scale_div(self, f: F) -> Self {
        Vec4 { x: self.x.div_s(f), y: self.y.div_s(f), z: self.z.div_s(f), w: self.w.div_s(f) }
    }
}

// ---------------------------------------------------------------------------
// Vec2

impl<F> Vec2<F> {
    /// Construct a new vector.
    #[inline]
    pub fn new(x: F, y: F) -> (r: Vec2<F>)
        ensures
            r == (Vec2 { x, y }),
    {
        Vec2 { x, y }
    }
}

impl<F: Copy> Vec2<F> {
    /// The component at the given position, counting from `x`.
    #[inline]
    pub fn index(&self, i: usize) -> (r: F)
        requires
            i < 2,
        ensures
            r == if i == 0 {
                self.x
            } else {
                self.y
            },
    {
        if i == 0 {
            self.x
        } else {
            self.y
        }
    }
}

impl<F: FullFloat> Vec2<F> {
    /// The zero vector.
    #[inline]
    pub fn zero() -> (r: Vec2<F>)
        ensures
            r == (Vec2 { x: F::zero_s(), y: F::zero_s() }),
    {
        Vec2 { x: F::zero(), y: F::zero() }
    }

    /// The sum of the squares of the components.
    #[inline]
    pub fn squared_magnitude(&self) -> (r: F)
        ensures
            r == sqmag2(self.x, self.y),
    {
        self.x.mul(self.x).add(self.y.mul(self.y))
    }

    /// The Euclidean length of the vector.
    #[inline]
    pub fn magnitude(&self) -> (r: F)
        ensures
            r == mag2(self.x, self.y),
    {
        self.squared_magnitude().sqrt()
    }

    /// Whether the magnitude passes the wide approximate-equality test
    /// against one.
    pub fn is_normal(&self) -> (r: bool)
        ensures
            r == mag2(self.x, self.y).approx_one_wide(),
    {
        self.magnitude().is_approx_one_wide()
    }

    /// Componentwise multiplication by a scalar.
    #[inline]
    pub fn mul(self, rhs: F) -> (r: Vec2<F>)
        ensures
            r == (Vec2 { x: self.x.mul_s(rhs), y: self.y.mul_s(rhs) }),
    {
        Vec2 { x: self.x.mul(rhs), y: self.y.mul(rhs) }
    }

    /// Componentwise division by a scalar.
    #[inline]
    pub fn div(self, rhs: F) -> (r: Vec2<F>)
        ensures
            r == (Vec2 { x: self.x.div_s(rhs), y: self.y.div_s(rhs) }),
    {
        Vec2 { x: self.x.div(rhs), y: self.y.div(rhs) }
    }

    /// Componentwise negation.
    #[inline]
    pub fn neg(self) -> (r: Vec2<F>)
        ensures
            r == (Vec2 { x: self.x.neg_s(), y: self.y.neg_s() }),
    {
        Vec2 { x: self.x.neg(), y: self.y.neg() }
    }

    /// Componentwise addition.
    #[inline]
    pub fn add(self, other: Vec2<F>) -> (r: Vec2<F>)
        ensures
            r == (Vec2 { x: self.x.add_s(other.x), y: self.y.add_s(other.y) }),
    {
        Vec2 { x: self.x.add(other.x), y: self.y.add(other.y) }
    }

    /// Componentwise subtraction.
    #[inline]
    pub fn sub(self, other: Vec2<F>) -> (r: Vec2<F>)
        ensures
            r == (Vec2 { x: self.x.sub_s(other.x), y: self.y.sub_s(other.y) }),
    {
        Vec2 { x: self.x.sub(other.x), y: self.y.sub(other.y) }
    }

    /// The dot product.
    #[inline]
    pub fn dot(&self, rhs: Vec2<F>) -> (r: F)
        ensures
            r == vdot2(*self, rhs),
    {
        self.x.mul(rhs.x).add(self.y.mul(rhs.y))
    }

    /// The projection of this vector onto the given axis (which need
    /// not be normalized).
    #[inline]
    pub fn project_onto(&self, axis: Vec2<F>) -> (r: Vec2<F>)
        ensures
            r == (Vec2 {
                x: axis.x.mul_s(proj_factor2(*self, axis)),
                y: axis.y.mul_s(proj_factor2(*self, axis)),
            }),
    {
        axis.mul(self.dot(axis).div(axis.dot(axis)))
    }

    /// The rejection of this vector from the given axis: what remains
    /// after subtracting the projection.
    #[inline]
    pub fn reject_onto(&self, axis: Vec2<F>) -> (r: Vec2<F>)
        ensures
            r == (Vec2 {
                x: self.x.sub_s(axis.x.mul_s(proj_factor2(*self, axis))),
                y: self.y.sub_s(axis.y.mul_s(proj_factor2(*self, axis))),
            }),
    {
        self.sub(self.project_onto(axis))
    }
}

// ---------------------------------------------------------------------------
// Vec3

impl<F> Vec3<F> {
    /// Construct a new vector.
    #[inline]
    pub fn new(x: F, y: F, z: F) -> (r: Vec3<F>)
        ensures
            r == (Vec3 { x, y, z }),
    {
        Vec3 { x, y, z }
    }
}

impl<F: Copy> Vec3<F> {
    /// The component at the given position, counting from `x`.
    #[inline]
    pub fn index(&self, i: usize) -> (r: F)
        requires
            i < 3,
        ensures
            r == if i == 0 {
                self.x
            } else if i == 1 {
                self.y
            } else {
                self.z
            },
    {
        if i == 0 {
            self.x
        } else if i == 1 {
            self.y
        } else {
            self.z
        }
    }

    /// Drop the component at the given position.
    #[inline]
    pub fn truncate_n(&self, n: usize) -> (r: Vec2<F>)
        requires
            n < 3,
        ensures
            r == if n == 0 {
                Vec2 { x: self.y, y: self.z }
            } else if n == 1 {
                Vec2 { x: self.x, y: self.z }
            } else {
                Vec2 { x: self.x, y: self.y }
            },
    {
        if n == 0 {
            Vec2::new(self.y, self.z)
        } else if n == 1 {
            Vec2::new(self.x, self.z)
        } else {
            Vec2::new(self.x, self.y)
        }
    }

    /// Drop the `x` component.
    #[inline]
    pub fn truncate_x(&self) -> (r: Vec2<F>)
        ensures
            r == (Vec2 { x: self.y, y: self.z }),
    {
        Vec2::new(self.y, self.z)
    }

    /// Drop the `y` component.
    #[inline]
    pub fn truncate_y(&self) -> (r: Vec2<F>)
        ensures
            r == (Vec2 { x: self.x, y: self.z }),
    {
        Vec2::new(self.x, self.z)
    }

    /// Drop the `z` component.
    #[inline]
    pub fn truncate_z(&self) -> (r: Vec2<F>)
        ensures
            r == (Vec2 { x: self.x, y: self.y }),
    {
        Vec2::new(self.x, self.y)
    }
}

impl<F: FullFloat> Vec3<F> {
    /// The zero vector.
    #[inline]
    pub fn zero() -> (r: Vec3<F>)
        ensures
            r == (Vec3 { x: F::zero_s(), y: F::zero_s(), z: F::zero_s() }),
    {
        Vec3 { x: F::zero(), y: F::zero(), z: F::zero() }
    }

    /// The sum of the squares of the components.
    #[inline]
    pub fn squared_magnitude(&self) -> (r: F)
        ensures
            r == sqmag3(self.x, self.y, self.z),
    {
        self.x.mul(self.x).add(self.y.mul(self.y)).add(self.z.mul(self.z))
    }

    /// The Euclidean length of the vector.
    #[inline]
    pub fn magnitude(&self) -> (r: F)
        ensures
            r == mag3(self.x, self.y, self.z),
    {
        self.squared_magnitude().sqrt()
    }

    /// Whether the magnitude passes the wide approximate-equality test
    /// against one.
    pub fn is_normal(&self) -> (r: bool)
        ensures
            r == mag3(self.x, self.y, self.z).approx_one_wide(),
    {
        self.magnitude().is_approx_one_wide()
    }

    /// Componentwise multiplication by a scalar.
    #[inline]
    pub fn mul(self, rhs: F) -> (r: Vec3<F>)
        ensures
            r == (Vec3 { x: self.x.mul_s(rhs), y: self.y.mul_s(rhs), z: self.z.mul_s(rhs) }),
    {
        Vec3 { x: self.x.mul(rhs), y: self.y.mul(rhs), z: self.z.mul(rhs) }
    }

    /// Componentwise division by a scalar.
    #[inline]
    pub fn div(self, rhs: F) -> (r: Vec3<F>)
        ensures
            r == (Vec3 { x: self.x.div_s(rhs), y: self.y.div_s(rhs), z: self.z.div_s(rhs) }),
    {
        Vec3 { x: self.x.div(rhs), y: self.y.div(rhs), z: self.z.div(rhs) }
    }

    /// Componentwise negation.
    #[inline]
    pub fn neg(self) -> (r: Vec3<F>)
        ensures
            r == (Vec3 { x: self.x.neg_s(), y: self.y.neg_s(), z: self.z.neg_s() }),
    {
        Vec3 { x: self.x.neg(), y: self.y.neg(), z: self.z.neg() }
    }

    /// Componentwise addition.
    #[inline]
    pub fn add(self, other: Vec3<F>) -> (r: Vec3<F>)
        ensures
            r == (Vec3 {
                x: self.x.add_s(other.x),
                y: self.y.add_s(other.y),
                z: self.z.add_s(other.z),
            }),
    {
        Vec3 { x: self.x.add(other.x), y: self.y.add(other.y), z: self.z.add(other.z) }
    }

    /// Componentwise subtraction.
    #[inline]
    pub fn sub(self, other: Vec3<F>) -> (r: Vec3<F>)
        ensures
            r == (Vec3 {
                x: self.x.sub_s(other.x),
                y: self.y.sub_s(other.y),
                z: self.z.sub_s(other.z),
            }),
    {
        Vec3 { x: self.x.sub(other.x), y: self.y.sub(other.y), z: self.z.sub(other.z) }
    }

    /// The dot product.
    #[inline]
    pub fn dot(&self, rhs: Vec3<F>) -> (r: F)
        ensures
            r == vdot3(*self, rhs),
    {
        self.x.mul(rhs.x).add(self.y.mul(rhs.y)).add(self.z.mul(rhs.z))
    }

    /// The cross product.
    #[inline]
    pub fn cross(&self, rhs: Vec3<F>) -> (r: Vec3<F>)
        ensures
            r == vcross(*self, rhs),
    {
        Vec3::new(
            self.y.mul(rhs.z).sub(self.z.mul(rhs.y)),
            self.z.mul(rhs.x).sub(self.x.mul(rhs.z)),
            self.x.mul(rhs.y).sub(self.y.mul(rhs.x)),
        )
    }

    /// The scalar triple product `(self x b) . c`.
    #[inline]
    pub fn triple_product(&self, b: Vec3<F>, c: Vec3<F>) -> (r: F)
        ensures
            r == vdot3(vcross(*self, b), c),
    {
        self.cross(b).dot(c)
    }

    /// The projection of this vector onto the given axis (which need
    /// not be normalized).
    #[inline]
    pub fn project_onto(&self, axis: Vec3<F>) -> (r: Vec3<F>)
        ensures
            r == (Vec3 {
                x: axis.x.mul_s(proj_factor3(*self, axis)),
                y: axis.y.mul_s(proj_factor3(*self, axis)),
                z: axis.z.mul_s(proj_factor3(*self, axis)),
            }),
    {
        axis.mul(self.dot(axis).div(axis.dot(axis)))
    }

    /// The rejection of this vector from the given axis: what remains
    /// after subtracting the projection.
    #[inline]
    pub fn reject_onto(&self, axis: Vec3<F>) -> (r: Vec3<F>)
        ensures
            r == (Vec3 {
                x: self.x.sub_s(axis.x.mul_s(proj_factor3(*self, axis))),
                y: self.y.sub_s(axis.y.mul_s(proj_factor3(*self, axis))),
                z: self.z.sub_s(axis.z.mul_s(proj_factor3(*self, axis))),
            }),
    {
        self.sub(self.project_onto(axis))
    }
}

// ---------------------------------------------------------------------------
// Vec4

impl<F> Vec4<F> {
    /// Construct a new vector.
    #[inline]
    pub fn new(x: F, y: F, z: F, w: F) -> (r: Vec4<F>)
        ensures
            r == (Vec4 { x, y, z, w }),
    {
        Vec4 { x, y, z, w }
    }
}

impl<F: Copy> Vec4<F> {
    /// The component at the given position, counting from `x`.
    #[inline]
    pub fn index(&self, i: usize) -> (r: F)
        requires
            i < 4,
        ensures
            r == if i == 0 {
                self.x
            } else if i == 1 {
                self.y
            } else if i == 2 {
                self.z
            } else {
                self.w
            },
    {
        if i == 0 {
            self.x
        } else if i == 1 {
            self.y
        } else if i == 2 {
            self.z
        } else {
            self.w
        }
    }

    /// Drop the component at the given position.
    #[inline]
    pub fn truncate_n(&self, n: usize) -> (r: Vec3<F>)
        requires
            n < 4,
        ensures
            r == if n == 0 {
                Vec3 { x: self.y, y: self.z, z: self.w }
            } else if n == 1 {
                Vec3 { x: self.x, y: self.z, z: self.w }
            } else if n == 2 {
                Vec3 { x: self.x, y: self.y, z: self.w }
            } else {
                Vec3 { x: self.x, y: self.y, z: self.z }
            },
    {
        if n == 0 {
            Vec3::new(self.y, self.z, self.w)
        } else if n == 1 {
            Vec3::new(self.x, self.z, self.w)
        } else if n == 2 {
            Vec3::new(self.x, self.y, self.w)
        } else {
            Vec3::new(self.x, self.y, self.z)
        }
    }

    /// Drop the `x` component.
    #[inline]
    pub fn truncate_x(&self) -> (r: Vec3<F>)
        ensures
            r == (Vec3 { x: self.y, y: self.z, z: self.w }),
    {
        Vec3::new(self.y, self.z, self.w)
    }

    /// Drop the `y` component.
    #[inline]
    pub fn truncate_y(&self) -> (r: Vec3<F>)
        ensures
            r == (Vec3 { x: self.x, y: self.z, z: self.w }),
    {
        Vec3::new(self.x, self.z, self.w)
    }

    /// Drop the `z` component.
    #[inline]
    pub fn truncate_z(&self) -> (r: Vec3<F>)
        ensures
            r == (Vec3 { x: self.x, y: self.y, z: self.w }),
    {
        Vec3::new(self.x, self.y, self.w)
    }

    /// Drop the `w` component.
    #[inline]
    pub fn truncate_w(&self) -> (r: Vec3<F>)
        ensures
            r == (Vec3 { x: self.x, y: self.y, z: self.z }),
    {
        Vec3::new(self.x, self.y, self.z)
    }
}

impl<F: FullFloat> Vec4<F> {
    /// The zero vector.
    #[inline]
    pub fn zero() -> (r: Vec4<F>)
        ensures
            r == (Vec4 { x: F::zero_s(), y: F::zero_s(), z: F::zero_s(), w: F::zero_s() }),
    {
        Vec4 { x: F::zero(), y: F::zero(), z: F::zero(), w: F::zero() }
    }

    /// The sum of the squares of the components.
    #[inline]
    pub fn squared_magnitude(&self) -> (r: F)
        ensures
            r == sqmag4v(self.x, self.y, self.z, self.w),
    {
        self.x.mul(self.x).add(self.y.mul(self.y)).add(self.z.mul(self.z)).add(
            self.w.mul(self.w),
        )
    }

    /// The Euclidean length of the vector.
    #[inline]
    pub fn magnitude(&self) -> (r: F)
        ensures
            r == sqmag4v(self.x, self.y, self.z, self.w).sqrt_s(),
    {
        self.squared_magnitude().sqrt()
    }

    /// Whether the magnitude passes the wide approximate-equality test
    /// against one.
    pub fn is_normal(&self) -> (r: bool)
        ensures
            r == sqmag4v(self.x, self.y, self.z, self.w).sqrt_s().approx_one_wide(),
    {
        self.magnitude().is_approx_one_wide()
    }

    /// Componentwise multiplication by a scalar.
    #[inline]
    pub fn mul(self, rhs: F) -> (r: Vec4<F>)
        ensures
            r == (Vec4 {
                x: self.x.mul_s(rhs),
                y: self.y.mul_s(rhs),
                z: self.z.mul_s(rhs),
                w: self.w.mul_s(rhs),
            }),
    {
        Vec4 {
            x: self.x.mul(rhs),
            y: self.y.mul(rhs),
            z: self.z.mul(rhs),
            w: self.w.mul(rhs),
        }
    }

    /// Componentwise division by a scalar.
    #[inline]
    pub fn div(self, rhs: F) -> (r: Vec4<F>)
        ensures
            r == (Vec4 {
                x: self.x.div_s(rhs),
                y: self.y.div_s(rhs),
                z: self.z.div_s(rhs),
                w: self.w.div_s(rhs),
            }),
    {
        Vec4 {
            x: self.x.div(rhs),
            y: self.y.div(rhs),
            z: self.z.div(rhs),
            w: self.w.div(rhs),
        }
    }

    /// Componentwise negation.
    #[inline]
    pub fn neg(self) -> (r: Vec4<F>)
        ensures
            r == (Vec4 {
                x: self.x.neg_s(),
                y: self.y.neg_s(),
                z: self.z.neg_s(),
                w: self.w.neg_s(),
            }),
    {
        Vec4 { x: self.x.neg(), y: self.y.neg(), z: self.z.neg(), w: self.w.neg() }
    }

    /// Componentwise addition.
    #[inline]
    pub fn add(self, other: Vec4<F>) -> (r: Vec4<F>)
        ensures
            r == (Vec4 {
                x: self.x.add_s(other.x),
                y: self.y.add_s(other.y),
                z: self.z.add_s(other.z),
                w: self.w.add_s(other.w),
            }),
    {
        Vec4 {
            x: self.x.add(other.x),
            y: self.y.add(other.y),
            z: self.z.add(other.z),
            w: self.w.add(other.w),
        }
    }

    /// Componentwise subtraction.
    #[inline]
    pub fn sub(self, other: Vec4<F>) -> (r: Vec4<F>)
        ensures
            r == (Vec4 {
                x: self.x.sub_s(other.x),
                y: self.y.sub_s(other.y),
                z: self.z.sub_s(other.z),
                w: self.w.sub_s(other.w),
            }),
    {
        Vec4 {
            x: self.x.sub(other.x),
            y: self.y.sub(other.y),
            z: self.z.sub(other.z),
            w: self.w.sub(other.w),
        }
    }

    /// The dot product.
    #[inline]
    pub fn dot(&self, rhs: Vec4<F>) -> (r: F)
        ensures
            r == vdot4(*self, rhs),
    {
        self.x.mul(rhs.x).add(self.y.mul(rhs.y)).add(self.z.mul(rhs.z)).add(
            self.w.mul(rhs.w),
        )
    }

    /// The projection of this vector onto the given axis (which need
    /// not be normalized).
    #[inline]
    pub fn project_onto(&self, axis: Vec4<F>) -> (r: Vec4<F>)
        ensures
            r == (Vec4 {
                x: axis.x.mul_s(proj_factor4(*self, axis)),
                y: axis.y.mul_s(proj_factor4(*self, axis)),
                z: axis.z.mul_s(proj_factor4(*self, axis)),
                w: axis.w.mul_s(proj_factor4(*self, axis)),
            }),
    {
        axis.mul(self.dot(axis).div(axis.dot(axis)))
    }

    /// The rejection of this vector from the given axis: what remains
    /// after subtracting the projection.
    #[inline]
    pub fn reject_onto(&self, axis: Vec4<F>) -> (r: Vec4<F>)
        ensures
            r == (Vec4 {
                x: self.x.sub_s(axis.x.mul_s(proj_factor4(*self, axis))),
                y: self.y.sub_s(axis.y.mul_s(proj_factor4(*self, axis))),
                z: self.z.sub_s(axis.z.mul_s(proj_factor4(*self, axis))),
                w: self.w.sub_s(axis.w.mul_s(proj_factor4(*self, axis))),
            }),
    {
        self.sub(self.project_onto(axis))
    }
}

} // verus!
