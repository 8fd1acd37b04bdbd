//! Quaternions: general quaternions for intermediate algebra, and
//! unit (normalized) quaternions representing rotations of 3-space.
//!
//! A rotation is composed with the Hamiltonian product and applied to
//! vectors with the closed-form expansion of the sandwich product.
//! `NQuat` carries the unit-magnitude invariant as a type invariant:
//! every value is created by a validated constructor or by an
//! operation that re-establishes the invariant.

use vstd::prelude::*;
use crate::angle::Angle;
use crate::direction::Direction3;
use crate::matrix::{Mat3, entry3, mat3_rm};
use crate::vector::{Vec3, vcross, vdot3};
use crate::{
    FullFloat,
    ScalarOps,
    arc_term,
    hamilton_w,
    hamilton_x,
    hamilton_y,
    hamilton_z,
    mag3,
    mag4,
    quat_of_mat,
    sqmag4,
    unit4,
};

verus! {

/// A general quaternion: a vector part and a scalar part.  No
/// invariant; useful for intermediate algebra (sums, scalings,
/// differences) that does not preserve unit norm.
#[derive(Debug, Clone, Copy, PartialEq, Eq, Hash)]
pub struct Quat<F> {
    pub v: Vec3<F>,
    pub w: F,
}

/// A normalized unit quaternion, representing a rotation of 3-space.
///
/// The unit-magnitude invariant is a type invariant: values are only
/// created through validated constructors or operations that
/// re-establish it, and are never bit-patched.
#[derive(Debug, Copy, PartialEq, Eq, Hash)]
pub struct NQuat<F: FullFloat> {
    v: Vec3<F>,
    w: F,
}

impl<F: FullFloat> Clone for NQuat<F> {
    fn clone(&self) -> (r: Self)
        ensures
            r == *self,
    {
        *self
    }
}

impl<F: FullFloat> View for NQuat<F> {
    type V = Quat<F>;

    /// The quaternion's components, as a general quaternion.
    closed spec fn view(&self) -> Quat<F> {
        Quat { v: self.v, w: self.w }
    }
}

/// Whether a quaternion's magnitude passes the tight unit test.
pub open spec fn qunit<F: ScalarOps>(q: Quat<F>) -> bool {
    unit4(q.v.x, q.v.y, q.v.z, q.w)
}

/// The magnitude of a quaternion: the square root of the scalar part
/// squared plus the vector part's squared magnitude.
pub open spec fn qmag_s<F: ScalarOps>(q: Quat<F>) -> F {
    mag4(q.v.x, q.v.y, q.v.z, q.w)
}

/// The quaternion divided by its own magnitude.
pub open spec fn qnormalize_s<F: ScalarOps>(q: Quat<F>) -> Quat<F> {
    Quat { v: q.v.spec_scale_div(qmag_s(q)), w: q.w.div_s(qmag_s(q)) }
}

/// The Hamiltonian product
/// `(v1, w1) * (v2, w2) = (v1 x v2 + w1*v2 + w2*v1, w1*w2 - v1.v2)`.
pub open spec fn hamilton_s<F: ScalarOps>(a: Quat<F>, b: Quat<F>) -> Quat<F> {
    Quat {
        v: Vec3 {
            x: hamilton_x(a.v.x, a.v.y, a.v.z, a.w, b.v.x, b.v.y, b.v.z, b.w),
            y: hamilton_y(a.v.x, a.v.y, a.v.z, a.w, b.v.x, b.v.y, b.v.z, b.w),
            z: hamilton_z(a.v.x, a.v.y, a.v.z, a.w, b.v.x, b.v.y, b.v.z, b.w),
        },
        w: hamilton_w(a.v.x, a.v.y, a.v.z, a.w, b.v.x, b.v.y, b.v.z, b.w),
    }
}

/// The result of rotating `p` by the unit quaternion `q`: the
/// closed-form expansion of the sandwich product for unit `q`,
/// `p*(w^2 - |v|^2) + v*(2*(p.v)) + (v x p)*(2*w)`.
pub open spec fn rotate_s<F: ScalarOps>(q: Quat<F>, p: Vec3<F>) -> Vec3<F> {
    let k1 = q.w.mul_s(q.w).sub_s(q.v.x.mul_s(q.v.x)).sub_s(q.v.y.mul_s(q.v.y)).sub_s(
        q.v.z.mul_s(q.v.z),
    );
    let d = vdot3(p, q.v);
    let k2 = d.add_s(d);
    let k3 = q.w.add_s(q.w);
    p.spec_scale(k1).spec_add(q.v.spec_scale(k2)).spec_add(vcross(q.v, p).spec_scale(k3))
}

/// The quaternion of the half-angle axis-angle construction: the unit
/// axis scaled by the sine of half the angle, with the cosine of half
/// the angle as the scalar part.
pub open spec fn axis_angle_quat_s<F: ScalarOps>(a: Vec3<F>, theta: F) -> Quat<F> {
    let h = theta.div_s(F::two_s());
    Quat {
        v: Vec3 { x: a.x.mul_s(h.sin_s()), y: a.y.mul_s(h.sin_s()), z: a.z.mul_s(h.sin_s()) },
        w: h.cos_s(),
    }
}

/// The quaternion of the numerically stable shortest-arc construction
/// between two unit directions: the cross product divided by
/// `sqrt(2 * (1 + dot))`, with half that square root as the scalar
/// part.
pub open spec fn arc_quat_s<F: ScalarOps>(s: Vec3<F>, e: Vec3<F>) -> Quat<F> {
    let term = arc_term(s.x, s.y, s.z, e.x, e.y, e.z);
    Quat { v: vcross(s, e).spec_scale_div(term), w: term.div_s(F::two_s()) }
}

/// The rotation matrix of a unit quaternion: the standard nine-term
/// expansion from the products of its components.
pub open spec fn mat_of_quat_s<F: ScalarOps>(q: Quat<F>) -> Mat3<F> {
    let two = F::two_s();
    let x2 = q.v.x.mul_s(q.v.x);
    let y2 = q.v.y.mul_s(q.v.y);
    let z2 = q.v.z.mul_s(q.v.z);
    let xy = q.v.x.mul_s(q.v.y);
    let xz = q.v.x.mul_s(q.v.z);
    let yz = q.v.y.mul_s(q.v.z);
    let wx = q.w.mul_s(q.v.x);
    let wy = q.w.mul_s(q.v.y);
    let wz = q.w.mul_s(q.v.z);
    mat3_rm(
        F::one_s().sub_s(two.mul_s(y2.add_s(z2))),
        two.mul_s(xy.sub_s(wz)),
        two.mul_s(xz.add_s(wy)),
        two.mul_s(xy.add_s(wz)),
        F::one_s().sub_s(two.mul_s(x2.add_s(z2))),
        two.mul_s(yz.sub_s(wx)),
        two.mul_s(xz.sub_s(wy)),
        two.mul_s(yz.add_s(wx)),
        F::one_s().sub_s(two.mul_s(x2.add_s(y2))),
    )
}

/// The quaternion extracted from a 3x3 matrix by the four-branch
/// largest-diagonal algorithm, as a general quaternion.
pub open spec fn quat_of_mat3_s<F: ScalarOps>(m: Mat3<F>) -> Quat<F> {
    let t = quat_of_mat(
        entry3(m, 0, 0),
        entry3(m, 0, 1),
        entry3(m, 0, 2),
        entry3(m, 1, 0),
        entry3(m, 1, 1),
        entry3(m, 1, 2),
        entry3(m, 2, 0),
        entry3(m, 2, 1),
        entry3(m, 2, 2),
    );
    Quat { v: Vec3 { x: t.0, y: t.1, z: t.2 }, w: t.3 }
}

// ---------------------------------------------------------------------------
// Quat

impl<F> Quat<F> {
    /// Construct a quaternion from its vector and scalar parts.
    pub fn new(v: Vec3<F>, w: F) -> (r: Quat<F>)
        ensures
            r == (Quat { v, w }),
    {
        Quat { v, w }
    }
}

impl<F: FullFloat> Quat<F> {
    /// The identity quaternion: zero vector part, unit scalar part.
    pub fn identity() -> (r: Quat<F>)
        ensures
            r == (Quat {
                v: Vec3 { x: F::zero_s(), y: F::zero_s(), z: F::zero_s() },
                w: F::one_s(),
            }),
    {
        Quat { v: Vec3::new(F::zero(), F::zero(), F::zero()), w: F::one() }
    }

    /// The scalar part squared plus the vector part's squared
    /// magnitude.
    pub fn squared_magnitude(&self) -> (r: F)
        ensures
            r == sqmag4(self.v.x, self.v.y, self.v.z, self.w),
    {
        self.w.mul(self.w).add(self.v.squared_magnitude())
    }

    /// The quaternion's magnitude.
    pub fn magnitude(&self) -> (r: F)
        ensures
            r == qmag_s(*self),
    {
        self.squared_magnitude().sqrt()
    }

    /// Whether the magnitude passes the tight approximate-equality
    /// test against one.
    pub fn is_normal(&self) -> (r: bool)
        ensures
            r == qunit(*self),
    {
        self.magnitude().is_approx_one()
    }

    /// The componentwise sum.
    pub fn add(self, rhs: Quat<F>) -> (r: Quat<F>)
        ensures
            r == (Quat { v: self.v.spec_add(rhs.v), w: self.w.add_s(rhs.w) }),
    {
        Quat { v: self.v.add(rhs.v), w: self.w.add(rhs.w) }
    }

    /// The componentwise difference.
    pub fn sub(self, rhs: Quat<F>) -> (r: Quat<F>)
        ensures
            r == (Quat { v: self.v.spec_sub(rhs.v), w: self.w.sub_s(rhs.w) }),
    {
        Quat { v: self.v.sub(rhs.v), w: self.w.sub(rhs.w) }
    }

    /// Every component multiplied by a scalar.
    pub fn mul_scalar(self, rhs: F) -> (r: Quat<F>)
        ensures
            r == (Quat { v: self.v.spec_scale(rhs), w: self.w.mul_s(rhs) }),
    {
        Quat { v: self.v.mul(rhs), w: self.w.mul(rhs) }
    }

    /// The four-component dot product of two quaternions.
    pub fn dot(&self, other: Quat<F>) -> (r: F)
        ensures
            r == self.w.mul_s(other.w).add_s(vdot3(self.v, other.v)),
    {
        self.w.mul(other.w).add(self.v.dot(other.v))
    }

    /// The Hamiltonian product.  Associative but not commutative;
    /// composing "rotation a then b" is `b * a` under the sandwich
    /// convention.
    pub fn mul(self, rhs: Quat<F>) -> (r: Quat<F>)
        ensures
            r == hamilton_s(self, rhs),
    {
        Quat {
            v: self.v.cross(rhs.v).add(rhs.v.mul(self.w)).add(self.v.mul(rhs.w)),
            w: self.w.mul(rhs.w).sub(self.v.dot(rhs.v)),
        }
    }

    /// The conjugate: the vector part negated.  For a unit quaternion
    /// this is the inverse rotation.
    pub fn conjugate(&self) -> (r: Quat<F>)
        ensures
            r == (Quat { v: self.v.spec_neg(), w: self.w }),
    {
        Quat { v: self.v.neg(), w: self.w }
    }
}

impl<F: FullFloat> Default for Quat<F> {
    /// The identity quaternion.
    fn default() -> (r: Quat<F>)
        ensures
            r == (Quat {
                v: Vec3 { x: F::zero_s(), y: F::zero_s(), z: F::zero_s() },
                w: F::one_s(),
            }),
    {
        Quat::identity()
    }
}

// ---------------------------------------------------------------------------
// NQuat

impl<F: FullFloat> NQuat<F> {
    /// Every normalized quaternion's magnitude passes the tight unit
    /// test.
    #[verifier::type_invariant]
    closed spec fn unit_invariant(self) -> bool {
        unit4(self.v.x, self.v.y, self.v.z, self.w)
    }

    /// Wrap components that already form a unit quaternion.  The
    /// caller owes the unit-magnitude invariant.
    pub fn new_isnormal(v: Vec3<F>, w: F) -> (q: NQuat<F>)
        requires
            unit4(v.x, v.y, v.z, w),
        ensures
            q@ == (Quat { v, w }),
    {
        NQuat { v, w }
    }

    /// The identity rotation.
    pub fn identity() -> (q: NQuat<F>)
        ensures
            q@ == (Quat {
                v: Vec3 { x: F::zero_s(), y: F::zero_s(), z: F::zero_s() },
                w: F::one_s(),
            }),
    {
        proof {
            F::law_identity_unit();
        }
        NQuat { v: Vec3::new(F::zero(), F::zero(), F::zero()), w: F::one() }
    }

    /// Normalize a general quaternion: divide it by its own
    /// magnitude.  The quaternion must be normalizable -- a zero (or
    /// otherwise degenerate) quaternion has no direction.
    pub fn from_quat(q: Quat<F>) -> (r: NQuat<F>)
        requires
            F::normalizable4(q.v.x, q.v.y, q.v.z, q.w),
        ensures
            r@ == qnormalize_s(q),
    {
        proof {
            F::law_normalize4(q.v.x, q.v.y, q.v.z, q.w);
        }
        let mag = q.magnitude();
        NQuat { v: q.v.div(mag), w: q.w.div(mag) }
    }

    /// The components, as a general quaternion.
    pub fn into_quat(self) -> (r: Quat<F>)
        ensures
            r == self@,
    {
        Quat { v: self.v, w: self.w }
    }

    /// The four-component dot product with a general quaternion.
    pub fn dot(&self, other: Quat<F>) -> (r: F)
        ensures
            r == self@.w.mul_s(other.w).add_s(vdot3(self@.v, other.v)),
    {
        self.w.mul(other.w).add(self.v.dot(other.v))
    }

    /// The conjugate: the vector part negated.  This is the inverse
    /// rotation, and is again a unit quaternion.
    pub fn conjugate(&self) -> (r: NQuat<F>)
        ensures
            r@ == (Quat { v: self@.v.spec_neg(), w: self@.w }),
    {
        proof {
            use_type_invariant(*self);
            F::law_unit4_conjugate(self.v.x, self.v.y, self.v.z, self.w);
        }
        NQuat { v: self.v.neg(), w: self.w }
    }

    /// Compose two rotations with the Hamiltonian product and
    /// renormalize; the product of two unit quaternions has unit norm
    /// up to scalar error, so this stays within the invariant.
    pub fn mul(self, rhs: NQuat<F>) -> (r: NQuat<F>)
        ensures
            r@ == qnormalize_s(hamilton_s(self@, rhs@)),
    {
        proof {
            use_type_invariant(self);
            use_type_invariant(rhs);
            F::law_product_normalizable(
                self.v.x,
                self.v.y,
                self.v.z,
                self.w,
                rhs.v.x,
                rhs.v.y,
                rhs.v.z,
                rhs.w,
            );
        }
        let a: Quat<F> = self.into_quat();
        let b: Quat<F> = rhs.into_quat();
        NQuat::from_quat(a.mul(b))
    }

    /// Rotate a vector by this quaternion: the closed-form expansion
    /// of the sandwich product `q p q*`, specialized for unit `q` (so
    /// the inverse is the conjugate).
    pub fn rotate(&self, v: Vec3<F>) -> (r: Vec3<F>)
        ensures
            r == rotate_s(self@, v),
    {
        let dot = v.dot(self.v);
        v.mul(
            self.w.mul(self.w).sub(self.v.x.mul(self.v.x)).sub(self.v.y.mul(self.v.y)).sub(
                self.v.z.mul(self.v.z),
            ),
        ).add(self.v.mul(dot.add(dot))).add(self.v.cross(v).mul(self.w.add(self.w)))
    }

    /// The rotation about a unit axis by an angle: the axis scaled by
    /// the sine of half the angle, with the cosine of half the angle
    /// as the scalar part, renormalized.  This always yields a unit
    /// quaternion given a unit axis (sine squared plus cosine squared
    /// is one); the angle must be an ordinary finite number.
    pub fn from_axis_angle(axis: &Direction3<F>, angle: &Angle<F>) -> (r: NQuat<F>)
        requires
            angle@.finite(),
        ensures
            r@ == qnormalize_s(axis_angle_quat_s(axis@, angle@)),
    {
        proof {
            use_type_invariant(*axis);
            F::law_axis_angle_normalizable(axis@.x, axis@.y, axis@.z, angle@);
        }
        let a = axis.into_vec3();
        let two: F = F::two();
        let (s, c) = angle.as_radians().div(two).sin_cos();
        let q = Quat { v: Vec3::new(a.x.mul(s), a.y.mul(s), a.z.mul(s)), w: c };
        NQuat::from_quat(q)
    }

    /// The rotation's axis and angle: the angle is twice the arc
    /// cosine of the scalar part, and the axis is the normalized
    /// vector part.  The vector part must be normalizable: at the
    /// identity rotation (angle near zero) it vanishes and no axis
    /// can be recovered.
    pub fn as_axis_angle(&self) -> (r: (Direction3<F>, Angle<F>))
        requires
            F::normalizable3(self@.v.x, self@.v.y, self@.v.z),
        ensures
            r.0@ == self@.v.spec_scale_div(mag3(self@.v.x, self@.v.y, self@.v.z)),
            r.1@ == self@.w.acos_s().mul_s(F::two_s()),
    {
        let two: F = F::two();
        let angle = self.w.acos().mul(two);
        let axis = self.v;
        (Direction3::from_vec3(axis), Angle::from_radians(angle))
    }

    /// The shortest rotation turning the start direction into the end
    /// direction, by the numerically stable half-angle construction.
    /// Yields nothing exactly when the directions' dot product is
    /// minus one (antipodal directions: infinitely many equally short
    /// rotations exist, and no unique answer).  Away from that the
    /// pair must be within the construction's tolerance, which
    /// degrades only near antipodal pairs.
    pub fn from_directions(start: Direction3<F>, end: Direction3<F>) -> (r: Option<NQuat<F>>)
        requires
            vdot3(start@, end@).eq_s(F::one_s().neg_s()) || F::directions_normalizable(
                start@.x,
                start@.y,
                start@.z,
                end@.x,
                end@.y,
                end@.z,
            ),
        ensures
            (r is None) <==> vdot3(start@, end@).eq_s(F::one_s().neg_s()),
            r matches Some(q) ==> q@ == arc_quat_s(start@, end@),
    {
        let two: F = F::two();
        let e = start.dot(end);
        if e.eq_val(F::one().neg()) {
            return None;
        }
        proof {
            use_type_invariant(start);
            use_type_invariant(end);
            F::law_directions_unit(start@.x, start@.y, start@.z, end@.x, end@.y, end@.z);
        }
        let term = two.mul(F::one().add(e)).sqrt();
        let v: Vec3<F> = start.cross(end);
        Some(NQuat::new_isnormal(v.div(term), term.div(two)))
    }

    /// The rotation matrix of this quaternion: the standard nine-term
    /// expansion.
    pub fn to_mat3(&self) -> (r: Mat3<F>)
        ensures
            r == mat_of_quat_s(self@),
    {
        let two: F = F::two();
        let x2 = self.v.x.mul(self.v.x);
        let y2 = self.v.y.mul(self.v.y);
        let z2 = self.v.z.mul(self.v.z);
        let xy = self.v.x.mul(self.v.y);
        let xz = self.v.x.mul(self.v.z);
        let yz = self.v.y.mul(self.v.z);
        let wx = self.w.mul(self.v.x);
        let wy = self.w.mul(self.v.y);
        let wz = self.w.mul(self.v.z);
        Mat3::new(
            F::one().sub(two.mul(y2.add(z2))),
            two.mul(xy.sub(wz)),
            two.mul(xz.add(wy)),
            two.mul(xy.add(wz)),
            F::one().sub(two.mul(x2.add(z2))),
            two.mul(yz.sub(wx)),
            two.mul(xz.sub(wy)),
            two.mul(yz.add(wx)),
            F::one().sub(two.mul(x2.add(y2))),
        )
    }

    /// Recover a unit quaternion from a rotation matrix with the
    /// four-branch largest-diagonal algorithm: the branch divides by
    /// the largest of the four candidate magnitudes, bounding the
    /// numerical error.  The recovered quaternion may be the
    /// conjugate of the one the matrix came from: both represent the
    /// same rotation (the double cover of the rotation group).
    pub fn from_mat3(m: Mat3<F>) -> (r: NQuat<F>)
        requires
            F::mat_extractable(
                entry3(m, 0, 0),
                entry3(m, 0, 1),
                entry3(m, 0, 2),
                entry3(m, 1, 0),
                entry3(m, 1, 1),
                entry3(m, 1, 2),
                entry3(m, 2, 0),
                entry3(m, 2, 1),
                entry3(m, 2, 2),
            ),
        ensures
            r@ == quat_of_mat3_s(m),
    {
        proof {
            F::law_mat_extract_unit(
                entry3(m, 0, 0),
                entry3(m, 0, 1),
                entry3(m, 0, 2),
                entry3(m, 1, 0),
                entry3(m, 1, 1),
                entry3(m, 1, 2),
                entry3(m, 2, 0),
                entry3(m, 2, 1),
                entry3(m, 2, 2),
            );
        }
        let one: F = F::one();
        let half: F = F::half();
        let quarter: F = F::quarter();

        let sum = m.x.x.add(m.y.y).add(m.z.z);
        let x;
        let y;
        let z;
        let w;
        if F::zero().lt(sum) {
            w = sum.add(one).sqrt().mul(half);
            let f = quarter.div(w);
            x = m.z.y.sub(m.y.z).mul(f);
            y = m.x.z.sub(m.z.x).mul(f);
            z = m.y.x.sub(m.x.y).mul(f);
        } else if m.y.y.lt(m.x.x) && m.z.z.lt(m.x.x) {
            x = m.x.x.sub(m.y.y).sub(m.z.z).add(one).sqrt().mul(half);
            let f = quarter.div(x);
            y = m.y.x.add(m.x.y).mul(f);
            z = m.x.z.add(m.z.x).mul(f);
            w = m.z.y.sub(m.y.z).mul(f);
        } else if m.z.z.lt(m.y.y) {
            y = m.y.y.sub(m.x.x).sub(m.z.z).add(one).sqrt().mul(half);
            let f = quarter.div(y);
            x = m.y.x.add(m.x.y).mul(f);
            z = m.z.y.add(m.y.z).mul(f);
            w = m.x.z.sub(m.z.x).mul(f);
        } else {
            z = m.z.z.sub(m.x.x).sub(m.y.y).add(one).sqrt().mul(half);
            let f = quarter.div(z);
            x = m.x.z.add(m.z.x).mul(f);
            y = m.z.y.add(m.y.z).mul(f);
            w = m.y.x.sub(m.x.y).mul(f);
        }

        NQuat { v: Vec3 { x, y, z }, w }
    }
}

impl<F: FullFloat> Default for NQuat<F> {
    /// The identity rotation.
    fn default() -> (r: NQuat<F>)
        ensures
            r@ == (Quat {
                v: Vec3 { x: F::zero_s(), y: F::zero_s(), z: F::zero_s() },
                w: F::one_s(),
            }),
    {
        NQuat::identity()
    }
}

/// Composition preserves the unit-quaternion invariant: for any two
/// quaternions that pass the unit test, their Hamiltonian product is
/// normalizable and renormalizing it passes the unit test again.  So
/// the magnitude stays (approximately) one after any sequence of
/// compositions.
pub proof fn lemma_composition_preserves_unit<F: FullFloat>(a: Quat<F>, b: Quat<F>)
    requires
        qunit(a),
        qunit(b),
    ensures
        F::normalizable4(
            hamilton_s(a, b).v.x,
            hamilton_s(a, b).v.y,
            hamilton_s(a, b).v.z,
            hamilton_s(a, b).w,
        ),
        qunit(qnormalize_s(hamilton_s(a, b))),
{
    F::law_product_normalizable(a.v.x, a.v.y, a.v.z, a.w, b.v.x, b.v.y, b.v.z, b.w);
    F::law_normalize4(
        hamilton_s(a, b).v.x,
        hamilton_s(a, b).v.y,
        hamilton_s(a, b).v.z,
        hamilton_s(a, b).w,
    );
}

} // verus!
