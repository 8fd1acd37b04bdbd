//! A small linear-algebra kernel for 3D graphics and simulation work:
//! fixed-size vectors, square matrices, angles, and rotation
//! representations (general quaternions and unit quaternions), all
//! generic over a scalar type that provides the arithmetic.
//!
//! The scalar operations themselves (arithmetic, square root,
//! trigonometry, approximate equality) are supplied by implementors of
//! the [`FullFloat`] trait, typically a floating-point type; every
//! algorithm here is specified and verified against the abstract
//! behaviour of those operations, so the contracts pin down exactly
//! which scalar expression each function computes.

use vstd::prelude::*;

pub mod angle;
pub mod direction;
pub mod matrix;
pub mod point;
pub mod position;
pub mod quat;
pub mod vector;

pub use angle::Angle;
pub use direction::{Direction2, Direction3};
pub use matrix::{Mat2, Mat3, Mat4};
pub use point::{Point2, Point3};
pub use position::Position;
pub use quat::{NQuat, Quat};
pub use vector::{Vec2, Vec3, Vec4};

verus! {

/// The operations a scalar type must supply so that the library can
/// be instantiated at it: constants, field arithmetic, square root,
/// trigonometry, comparisons, and the approximate-equality tests that
/// back the normalized types' invariants.  The two expected
/// instantiations are the machine's single- and double-precision
/// floating-point types, supplied by the embedding application.
///
/// Each executable operation is pinned to an abstract specification
/// function of the same name with an `_s` suffix, so everything the
/// library computes is specified exactly in terms of the scalar's own
/// operations.
pub trait ScalarOps: Sized + Copy {
    /// The scalar zero.
    spec fn zero_s() -> Self;

    /// The scalar one.
    spec fn one_s() -> Self;

    /// The scalar two.
    spec fn two_s() -> Self;

    /// The scalar one half.
    spec fn half_s() -> Self;

    /// The scalar one quarter.
    spec fn quarter_s() -> Self;

    /// The scalar one hundred eighty, for degree conversions.
    spec fn one_eighty_s() -> Self;

    /// The circle constant pi.
    spec fn pi_s() -> Self;

    spec fn add_s(self, rhs: Self) -> Self;

    spec fn sub_s(self, rhs: Self) -> Self;

    spec fn mul_s(self, rhs: Self) -> Self;

    spec fn div_s(self, rhs: Self) -> Self;

    spec fn neg_s(self) -> Self;

    spec fn rem_s(self, rhs: Self) -> Self;

    spec fn sqrt_s(self) -> Self;

    spec fn sin_s(self) -> Self;

    spec fn cos_s(self) -> Self;

    spec fn tan_s(self) -> Self;

    spec fn acos_s(self) -> Self;

    spec fn atan2_s(self, other: Self) -> Self;

    /// The scalar type's own equality test (for floating point, the
    /// usual `==` on numbers).
    spec fn eq_s(self, rhs: Self) -> bool;

    /// The scalar type's strict order (for floating point, the usual
    /// `<` on numbers).
    spec fn lt_s(self, rhs: Self) -> bool;

    /// Whether this value passes the tight approximate-equality test
    /// against one, the tolerance used for unit-quaternion checks.
    spec fn approx_one(self) -> bool;

    /// Whether this value passes the wide approximate-equality test
    /// against one, the looser tolerance used for unit-vector checks.
    spec fn approx_one_wide(self) -> bool;

    /// Whether this value is an ordinary finite number on which the
    /// trigonometric operations behave.
    spec fn finite(self) -> bool;

    /// The pairs on which dividing both components by their common
    /// magnitude lands within the wide unit tolerance.
    spec fn normalizable2(x: Self, y: Self) -> bool;

    /// The triples on which dividing all components by their common
    /// magnitude lands within the wide unit tolerance.
    spec fn normalizable3(x: Self, y: Self, z: Self) -> bool;

    /// The quadruples on which dividing all components by their common
    /// magnitude lands within the tight unit tolerance.
    spec fn normalizable4(x: Self, y: Self, z: Self, w: Self) -> bool;

    /// The pairs of unit direction triples on which the half-angle
    /// shortest-arc construction stays within the tight unit
    /// tolerance (it degrades only near antipodal directions).
    spec fn directions_normalizable(
        sx: Self,
        sy: Self,
        sz: Self,
        ex: Self,
        ey: Self,
        ez: Self,
    ) -> bool;

    /// The nine-entry matrices (given row by row) on which the
    /// largest-diagonal quaternion extraction lands within the tight
    /// unit tolerance; orthonormal rotation matrices are the intended
    /// members.
    spec fn mat_extractable(
        e00: Self,
        e01: Self,
        e02: Self,
        e10: Self,
        e11: Self,
        e12: Self,
        e20: Self,
        e21: Self,
        e22: Self,
    ) -> bool;

    fn zero() -> (r: Self)
        ensures
            r == Self::zero_s(),
    ;

    fn one() -> (r: Self)
        ensures
            r == Self::one_s(),
    ;

    fn two() -> (r: Self)
        ensures
            r == Self::two_s(),
    ;

    fn half() -> (r: Self)
        ensures
            r == Self::half_s(),
    ;

    fn quarter() -> (r: Self)
        ensures
            r == Self::quarter_s(),
    ;

    fn one_eighty() -> (r: Self)
        ensures
            r == Self::one_eighty_s(),
    ;

    fn pi() -> (r: Self)
        ensures
            r == Self::pi_s(),
    ;

    fn add(self, rhs: Self) -> (r: Self)
        ensures
            r == self.add_s(rhs),
    ;

    fn sub(self, rhs: Self) -> (r: Self)
        ensures
            r == self.sub_s(rhs),
    ;

    fn mul(self, rhs: Self) -> (r: Self)
        ensures
            r == self.mul_s(rhs),
    ;

    fn div(self, rhs: Self) -> (r: Self)
        ensures
            r == self.div_s(rhs),
    ;

    fn neg(self) -> (r: Self)
        ensures
            r == self.neg_s(),
    ;

    fn rem(self, rhs: Self) -> (r: Self)
        ensures
            r == self.rem_s(rhs),
    ;

    fn sqrt(self) -> (r: Self)
        ensures
            r == self.sqrt_s(),
    ;

    fn sin_cos(self) -> (r: (Self, Self))
        ensures
            r.0 == self.sin_s(),
            r.1 == self.cos_s(),
    ;

    fn tan(self) -> (r: Self)
        ensures
            r == self.tan_s(),
    ;

    fn acos(self) -> (r: Self)
        ensures
            r == self.acos_s(),
    ;

    fn atan2(self, other: Self) -> (r: Self)
        ensures
            r == self.atan2_s(other),
    ;

    fn eq_val(self, rhs: Self) -> (r: bool)
        ensures
            r == self.eq_s(rhs),
    ;

    fn lt(self, rhs: Self) -> (r: bool)
        ensures
            r == self.lt_s(rhs),
    ;

    fn is_approx_one(self) -> (r: bool)
        ensures
            r == self.approx_one(),
    ;

    fn is_approx_one_wide(self) -> (r: bool)
        ensures
            r == self.approx_one_wide(),
    ;
}

/// The full capability bundle the library is generic over: the
/// [`ScalarOps`] operations together with the handful of
/// approximation laws the rotation subsystem relies on -- for
/// example, that dividing a vector by its own well-behaved magnitude
/// yields components that pass the unit-norm test.
///
/// An implementor vouches for these laws for its own scalar.  For IEEE
/// floating point they are the standard facts about error in
/// normalization, `sin`/`cos`, and the half-angle construction, with
/// the `normalizable` predicates of [`ScalarOps`] naming the inputs on
/// which the operations stay within tolerance (finite, not
/// degenerate, no overflow).
pub trait FullFloat: ScalarOps {
    /// Zero, zero, zero, one is a unit quaternion: the square root of
    /// one passes the tight unit test.
    proof fn law_identity_unit()
        ensures
            unit4(Self::zero_s(), Self::zero_s(), Self::zero_s(), Self::one_s()),
    ;

    /// Negating the vector part of a unit quaternion (conjugation)
    /// keeps it a unit quaternion.
    proof fn law_unit4_conjugate(x: Self, y: Self, z: Self, w: Self)
        requires
            unit4(x, y, z, w),
        ensures
            unit4(x.neg_s(), y.neg_s(), z.neg_s(), w),
    ;

    /// Negating every component of a unit triple keeps it a unit
    /// triple.
    proof fn law_unit3_negate(x: Self, y: Self, z: Self)
        requires
            unit3(x, y, z),
        ensures
            unit3(x.neg_s(), y.neg_s(), z.neg_s()),
    ;

    /// Dividing a normalizable pair by its magnitude yields a unit
    /// pair.
    proof fn law_normalize2(x: Self, y: Self)
        requires
            Self::normalizable2(x, y),
        ensures
            unit2(x.div_s(mag2(x, y)), y.div_s(mag2(x, y))),
    ;

    /// Dividing a normalizable triple by its magnitude yields a unit
    /// triple.
    proof fn law_normalize3(x: Self, y: Self, z: Self)
        requires
            Self::normalizable3(x, y, z),
        ensures
            unit3(x.div_s(mag3(x, y, z)), y.div_s(mag3(x, y, z)), z.div_s(mag3(x, y, z))),
    ;

    /// Dividing a normalizable quadruple by its magnitude yields a
    /// unit quaternion.
    proof fn law_normalize4(x: Self, y: Self, z: Self, w: Self)
        requires
            Self::normalizable4(x, y, z, w),
        ensures
            unit4(
                x.div_s(mag4(x, y, z, w)),
                y.div_s(mag4(x, y, z, w)),
                z.div_s(mag4(x, y, z, w)),
                w.div_s(mag4(x, y, z, w)),
            ),
    ;

    /// The Hamiltonian product of two unit quaternions is
    /// normalizable: its magnitude stays near one, so renormalizing it
    /// lands within the tight unit tolerance.
    proof fn law_product_normalizable(
        ax: Self,
        ay: Self,
        az: Self,
        aw: Self,
        bx: Self,
        by: Self,
        bz: Self,
        bw: Self,
    )
        requires
            unit4(ax, ay, az, aw),
            unit4(bx, by, bz, bw),
        ensures
            Self::normalizable4(
                hamilton_x(ax, ay, az, aw, bx, by, bz, bw),
                hamilton_y(ax, ay, az, aw, bx, by, bz, bw),
                hamilton_z(ax, ay, az, aw, bx, by, bz, bw),
                hamilton_w(ax, ay, az, aw, bx, by, bz, bw),
            ),
    ;

    /// Scaling a unit axis by the sine of a finite half-angle and
    /// taking the cosine as the scalar part yields a normalizable
    /// quaternion (the half-angle construction; its exact counterpart
    /// is sine squared plus cosine squared equals one).
    proof fn law_axis_angle_normalizable(x: Self, y: Self, z: Self, theta: Self)
        requires
            unit3(x, y, z),
            theta.finite(),
        ensures
            Self::normalizable4(
                x.mul_s(theta.div_s(Self::two_s()).sin_s()),
                y.mul_s(theta.div_s(Self::two_s()).sin_s()),
                z.mul_s(theta.div_s(Self::two_s()).sin_s()),
                theta.div_s(Self::two_s()).cos_s(),
            ),
    ;

    /// The stable half-angle shortest-arc construction yields a unit
    /// quaternion on the direction pairs it is defined for: the cross
    /// product divided by `sqrt(2 * (1 + dot))`, with half that square
    /// root as the scalar part.
    proof fn law_directions_unit(sx: Self, sy: Self, sz: Self, ex: Self, ey: Self, ez: Self)
        requires
            unit3(sx, sy, sz),
            unit3(ex, ey, ez),
            Self::directions_normalizable(sx, sy, sz, ex, ey, ez),
        ensures
            unit4(
                cross_x(sx, sy, sz, ex, ey, ez).div_s(arc_term(sx, sy, sz, ex, ey, ez)),
                cross_y(sx, sy, sz, ex, ey, ez).div_s(arc_term(sx, sy, sz, ex, ey, ez)),
                cross_z(sx, sy, sz, ex, ey, ez).div_s(arc_term(sx, sy, sz, ex, ey, ez)),
                arc_term(sx, sy, sz, ex, ey, ez).div_s(Self::two_s()),
            ),
    ;

    /// The four-branch largest-diagonal extraction recovers a unit
    /// quaternion from an extractable (orthonormal rotation) matrix.
    proof fn law_mat_extract_unit(
        e00: Self,
        e01: Self,
        e02: Self,
        e10: Self,
        e11: Self,
        e12: Self,
        e20: Self,
        e21: Self,
        e22: Self,
    )
        requires
            Self::mat_extractable(e00, e01, e02, e10, e11, e12, e20, e21, e22),
        ensures
            unit4(
                quat_of_mat(e00, e01, e02, e10, e11, e12, e20, e21, e22).0,
                quat_of_mat(e00, e01, e02, e10, e11, e12, e20, e21, e22).1,
                quat_of_mat(e00, e01, e02, e10, e11, e12, e20, e21, e22).2,
                quat_of_mat(e00, e01, e02, e10, e11, e12, e20, e21, e22).3,
            ),
    ;

    /// The latitude/longitude parametrization of the sphere yields a
    /// unit triple for finite angles (its exact counterpart is sine
    /// squared plus cosine squared equals one, applied twice).
    proof fn law_lat_long_unit(lat: Self, lon: Self)
        requires
            lat.finite(),
            lon.finite(),
        ensures
            unit3(lat.cos_s().mul_s(lon.sin_s()), lat.sin_s(), lat.cos_s().mul_s(lon.cos_s())),
    ;
}

/// The squared magnitude of a pair, summed left to right.
pub open spec fn sqmag2<F: ScalarOps>(x: F, y: F) -> F {
    x.mul_s(x).add_s(y.mul_s(y))
}

/// The squared magnitude of a triple, summed left to right.
pub open spec fn sqmag3<F: ScalarOps>(x: F, y: F, z: F) -> F {
    x.mul_s(x).add_s(y.mul_s(y)).add_s(z.mul_s(z))
}

/// The squared magnitude of a quaternion given as vector part and
/// scalar part: the scalar part squared plus the vector part's squared
/// magnitude.
pub open spec fn sqmag4<F: ScalarOps>(x: F, y: F, z: F, w: F) -> F {
    w.mul_s(w).add_s(sqmag3(x, y, z))
}

/// The magnitude of a pair.
pub open spec fn mag2<F: ScalarOps>(x: F, y: F) -> F {
    sqmag2(x, y).sqrt_s()
}

/// The magnitude of a triple.
pub open spec fn mag3<F: ScalarOps>(x: F, y: F, z: F) -> F {
    sqmag3(x, y, z).sqrt_s()
}

/// The magnitude of a quaternion.
pub open spec fn mag4<F: ScalarOps>(x: F, y: F, z: F, w: F) -> F {
    sqmag4(x, y, z, w).sqrt_s()
}

/// A pair whose magnitude passes the wide unit test.
pub open spec fn unit2<F: ScalarOps>(x: F, y: F) -> bool {
    mag2(x, y).approx_one_wide()
}

/// A triple whose magnitude passes the wide unit test.
pub open spec fn unit3<F: ScalarOps>(x: F, y: F, z: F) -> bool {
    mag3(x, y, z).approx_one_wide()
}

/// A quaternion whose magnitude passes the tight unit test.
pub open spec fn unit4<F: ScalarOps>(x: F, y: F, z: F, w: F) -> bool {
    mag4(x, y, z, w).approx_one()
}

/// The first component of the cross product of two triples.
pub open spec fn cross_x<F: ScalarOps>(ax: F, ay: F, az: F, bx: F, by: F, bz: F) -> F {
    ay.mul_s(bz).sub_s(az.mul_s(by))
}

/// The second component of the cross product of two triples.
pub open spec fn cross_y<F: ScalarOps>(ax: F, ay: F, az: F, bx: F, by: F, bz: F) -> F {
    az.mul_s(bx).sub_s(ax.mul_s(bz))
}

/// The third component of the cross product of two triples.
pub open spec fn cross_z<F: ScalarOps>(ax: F, ay: F, az: F, bx: F, by: F, bz: F) -> F {
    ax.mul_s(by).sub_s(ay.mul_s(bx))
}

/// The dot product of two triples, summed left to right.
pub open spec fn dot3<F: ScalarOps>(ax: F, ay: F, az: F, bx: F, by: F, bz: F) -> F {
    ax.mul_s(bx).add_s(ay.mul_s(by)).add_s(az.mul_s(bz))
}

/// The first vector component of the Hamiltonian product
/// `(v1, w1) * (v2, w2) = (v1 x v2 + w1*v2 + w2*v1, w1*w2 - v1.v2)`,
/// with the sums taken in the order the product is computed.
pub open spec fn hamilton_x<F: ScalarOps>(
    ax: F,
    ay: F,
    az: F,
    aw: F,
    bx: F,
    by: F,
    bz: F,
    bw: F,
) -> F {
    cross_x(ax, ay, az, bx, by, bz).add_s(bx.mul_s(aw)).add_s(ax.mul_s(bw))
}

/// The second vector component of the Hamiltonian product.
pub open spec fn hamilton_y<F: ScalarOps>(
    ax: F,
    ay: F,
    az: F,
    aw: F,
    bx: F,
    by: F,
    bz: F,
    bw: F,
) -> F {
    cross_y(ax, ay, az, bx, by, bz).add_s(by.mul_s(aw)).add_s(ay.mul_s(bw))
}

/// The third vector component of the Hamiltonian product.
pub open spec fn hamilton_z<F: ScalarOps>(
    ax: F,
    ay: F,
    az: F,
    aw: F,
    bx: F,
    by: F,
    bz: F,
    bw: F,
) -> F {
    cross_z(ax, ay, az, bx, by, bz).add_s(bz.mul_s(aw)).add_s(az.mul_s(bw))
}

/// The scalar component of the Hamiltonian product.
pub open spec fn hamilton_w<F: ScalarOps>(
    ax: F,
    ay: F,
    az: F,
    aw: F,
    bx: F,
    by: F,
    bz: F,
    bw: F,
) -> F {
    aw.mul_s(bw).sub_s(dot3(ax, ay, az, bx, by, bz))
}

/// The `sqrt(2 * (1 + start . end))` term of the shortest-arc
/// construction between two directions.
pub open spec fn arc_term<F: ScalarOps>(sx: F, sy: F, sz: F, ex: F, ey: F, ez: F) -> F {
    F::two_s().mul_s(F::one_s().add_s(dot3(sx, sy, sz, ex, ey, ez))).sqrt_s()
}

/// The quaternion `(x, y, z, w)` recovered from a rotation matrix
/// (entries given row by row) by the four-branch largest-diagonal
/// algorithm: when the trace is positive the scalar part is derived
/// first; otherwise the branch for the largest diagonal entry derives
/// that axis component first, and the rest follow from off-diagonal
/// sums and differences divided by four times the derived component.
pub open spec fn quat_of_mat<F: ScalarOps>(
    e00: F,
    e01: F,
    e02: F,
    e10: F,
    e11: F,
    e12: F,
    e20: F,
    e21: F,
    e22: F,
) -> (F, F, F, F) {
    let sum = e00.add_s(e11).add_s(e22);
    if F::zero_s().lt_s(sum) {
        let w = sum.add_s(F::one_s()).sqrt_s().mul_s(F::half_s());
        let f = F::quarter_s().div_s(w);
        (
            e12.sub_s(e21).mul_s(f),
            e20.sub_s(e02).mul_s(f),
            e01.sub_s(e10).mul_s(f),
            w,
        )
    } else if e11.lt_s(e00) && e22.lt_s(e00) {
        let x = e00.sub_s(e11).sub_s(e22).add_s(F::one_s()).sqrt_s().mul_s(F::half_s());
        let f = F::quarter_s().div_s(x);
        (
            x,
            e01.add_s(e10).mul_s(f),
            e20.add_s(e02).mul_s(f),
            e12.sub_s(e21).mul_s(f),
        )
    } else if e22.lt_s(e11) {
        let y = e11.sub_s(e00).sub_s(e22).add_s(F::one_s()).sqrt_s().mul_s(F::half_s());
        let f = F::quarter_s().div_s(y);
        (
            e01.add_s(e10).mul_s(f),
            y,
            e12.add_s(e21).mul_s(f),
            e20.sub_s(e02).mul_s(f),
        )
    } else {
        let z = e22.sub_s(e00).sub_s(e11).add_s(F::one_s()).sqrt_s().mul_s(F::half_s());
        let f = F::quarter_s().div_s(z);
        (
            e20.add_s(e02).mul_s(f),
            e12.add_s(e21).mul_s(f),
            z,
            e01.sub_s(e10).mul_s(f),
        )
    }
}

} // verus!
