//! Square matrices of size 2x2, 3x3 and 4x4.
//!
//! Matrices are stored in column-major order (convenient for graphics
//! pipelines), but the public contract -- the `new` constructor's
//! parameter order, the `(row, col)` indexing, and every
//! specification here -- is row-major, the way matrices are written
//! on paper.  The `entry*` specification functions are the bridge:
//! all contracts speak of entries by row and column.

use vstd::prelude::*;
use crate::angle::Angle;
use crate::direction::Direction3;
use crate::point::Point3;
use crate::vector::{Vec2, Vec3, Vec4, vcross};
use crate::{FullFloat, ScalarOps, sqmag3};

verus! {

/// A 2x2 matrix.
#[derive(Debug, Clone, Copy, PartialEq, Eq, Hash)]
pub struct Mat2<F> {
    pub x: Vec2<F>,
    pub y: Vec2<F>,
}

/// A 3x3 matrix.
#[derive(Debug, Clone, Copy, PartialEq, Eq, Hash)]
pub struct Mat3<F> {
    pub x: Vec3<F>,
    pub y: Vec3<F>,
    pub z: Vec3<F>,
}

/// A 4x4 matrix.
#[derive(Debug, Clone, Copy, PartialEq, Eq, Hash)]
pub struct Mat4<F> {
    pub x: Vec4<F>,
    pub y: Vec4<F>,
    pub z: Vec4<F>,
    pub p: Vec4<F>,
}

// ---------------------------------------------------------------------------
// The row-major spec model

/// The component of a two-vector at the given position.
pub open spec fn sel2<F>(v: Vec2<F>, i: int) -> F {
    if i == 0 {
        v.x
    } else {
        v.y
    }
}

/// The component of a three-vector at the given position.
pub open spec fn sel3<F>(v: Vec3<F>, i: int) -> F {
    if i == 0 {
        v.x
    } else if i == 1 {
        v.y
    } else {
        v.z
    }
}

/// The component of a four-vector at the given position.
pub open spec fn sel4<F>(v: Vec4<F>, i: int) -> F {
    if i == 0 {
        v.x
    } else if i == 1 {
        v.y
    } else if i == 2 {
        v.z
    } else {
        v.w
    }
}

/// The matrix entry at the given row and column.
pub open spec fn entry2<F>(m: Mat2<F>, r: int, c: int) -> F {
    if c == 0 {
        sel2(m.x, r)
    } else {
        sel2(m.y, r)
    }
}

/// The matrix entry at the given row and column.
pub open spec fn entry3<F>(m: Mat3<F>, r: int, c: int) -> F {
    if c == 0 {
        sel3(m.x, r)
    } else if c == 1 {
        sel3(m.y, r)
    } else {
        sel3(m.z, r)
    }
}

/// The matrix entry at the given row and column.
pub open spec fn entry4<F>(m: Mat4<F>, r: int, c: int) -> F {
    if c == 0 {
        sel4(m.x, r)
    } else if c == 1 {
        sel4(m.y, r)
    } else if c == 2 {
        sel4(m.z, r)
    } else {
        sel4(m.p, r)
    }
}

/// The 2x2 matrix with the given entries, listed row by row.
pub open spec fn mat2_rm<F>(r0c0: F, r0c1: F, r1c0: F, r1c1: F) -> Mat2<F> {
    Mat2 { x: Vec2 { x: r0c0, y: r1c0 }, y: Vec2 { x: r0c1, y: r1c1 } }
}

/// The 3x3 matrix with the given entries, listed row by row.
pub open spec fn mat3_rm<F>(
    r0c0: F,
    r0c1: F,
    r0c2: F,
    r1c0: F,
    r1c1: F,
    r1c2: F,
    r2c0: F,
    r2c1: F,
    r2c2: F,
) -> Mat3<F> {
    Mat3 {
        x: Vec3 { x: r0c0, y: r1c0, z: r2c0 },
        y: Vec3 { x: r0c1, y: r1c1, z: r2c1 },
        z: Vec3 { x: r0c2, y: r1c2, z: r2c2 },
    }
}

/// The 4x4 matrix with the given entries, listed row by row.
pub open spec fn mat4_rm<F>(
    r0c0: F,
    r0c1: F,
    r0c2: F,
    r0c3: F,
    r1c0: F,
    r1c1: F,
    r1c2: F,
    r1c3: F,
    r2c0: F,
    r2c1: F,
    r2c2: F,
    r2c3: F,
    r3c0: F,
    r3c1: F,
    r3c2: F,
    r3c3: F,
) -> Mat4<F> {
    Mat4 {
        x: Vec4 { x: r0c0, y: r1c0, z: r2c0, w: r3c0 },
        y: Vec4 { x: r0c1, y: r1c1, z: r2c1, w: r3c1 },
        z: Vec4 { x: r0c2, y: r1c2, z: r2c2, w: r3c2 },
        p: Vec4 { x: r0c3, y: r1c3, z: r2c3, w: r3c3 },
    }
}

/// The transpose: entry `(r, c)` becomes entry `(c, r)`.
pub open spec fn transpose2_s<F>(m: Mat2<F>) -> Mat2<F> {
    Mat2 { x: Vec2 { x: m.x.x, y: m.y.x }, y: Vec2 { x: m.x.y, y: m.y.y } }
}

/// The transpose: entry `(r, c)` becomes entry `(c, r)`.
pub open spec fn transpose3_s<F>(m: Mat3<F>) -> Mat3<F> {
    Mat3 {
        x: Vec3 { x: m.x.x, y: m.y.x, z: m.z.x },
        y: Vec3 { x: m.x.y, y: m.y.y, z: m.z.y },
        z: Vec3 { x: m.x.z, y: m.y.z, z: m.z.z },
    }
}

/// The transpose: entry `(r, c)` becomes entry `(c, r)`.
pub open spec fn transpose4_s<F>(m: Mat4<F>) -> Mat4<F> {
    Mat4 {
        x: Vec4 { x: m.x.x, y: m.y.x, z: m.z.x, w: m.p.x },
        y: Vec4 { x: m.x.y, y: m.y.y, z: m.z.y, w: m.p.y },
        z: Vec4 { x: m.x.z, y: m.y.z, z: m.z.z, w: m.p.z },
        p: Vec4 { x: m.x.w, y: m.y.w, z: m.z.w, w: m.p.w },
    }
}

/// The determinant of a 2x2 matrix given by entries (row by row):
/// `ad - bc`.
pub open spec fn det2e<F: ScalarOps>(e00: F, e01: F, e10: F, e11: F) -> F {
    e00.mul_s(e11).sub_s(e01.mul_s(e10))
}

/// The determinant of a 3x3 matrix given by entries (row by row), by
/// cofactor expansion along the first row.
pub open spec fn det3e<F: ScalarOps>(
    e00: F,
    e01: F,
    e02: F,
    e10: F,
    e11: F,
    e12: F,
    e20: F,
    e21: F,
    e22: F,
) -> F {
    e00.mul_s(e11.mul_s(e22).sub_s(e12.mul_s(e21))).sub_s(
        e01.mul_s(e10.mul_s(e22).sub_s(e12.mul_s(e20))),
    ).add_s(e02.mul_s(e10.mul_s(e21).sub_s(e11.mul_s(e20))))
}

/// The determinant of a 2x2 matrix.
pub open spec fn det2_s<F: ScalarOps>(m: Mat2<F>) -> F {
    det2e(entry2(m, 0, 0), entry2(m, 0, 1), entry2(m, 1, 0), entry2(m, 1, 1))
}

/// The determinant of a 3x3 matrix.
pub open spec fn det3_s<F: ScalarOps>(m: Mat3<F>) -> F {
    det3e(
        entry3(m, 0, 0),
        entry3(m, 0, 1),
        entry3(m, 0, 2),
        entry3(m, 1, 0),
        entry3(m, 1, 1),
        entry3(m, 1, 2),
        entry3(m, 2, 0),
        entry3(m, 2, 1),
        entry3(m, 2, 2),
    )
}

/// The determinant of a 4x4 matrix, by cofactor expansion along the
/// first row into four 3x3 minors.
pub open spec fn det4_s<F: ScalarOps>(m: Mat4<F>) -> F {
    entry4(m, 0, 0).mul_s(
        det3e(
            entry4(m, 1, 1),
            entry4(m, 1, 2),
            entry4(m, 1, 3),
            entry4(m, 2, 1),
            entry4(m, 2, 2),
            entry4(m, 2, 3),
            entry4(m, 3, 1),
            entry4(m, 3, 2),
            entry4(m, 3, 3),
        ),
    ).sub_s(
        entry4(m, 0, 1).mul_s(
            det3e(
                entry4(m, 1, 0),
                entry4(m, 1, 2),
                entry4(m, 1, 3),
                entry4(m, 2, 0),
                entry4(m, 2, 2),
                entry4(m, 2, 3),
                entry4(m, 3, 0),
                entry4(m, 3, 2),
                entry4(m, 3, 3),
            ),
        ),
    ).add_s(
        entry4(m, 0, 2).mul_s(
            det3e(
                entry4(m, 1, 0),
                entry4(m, 1, 1),
                entry4(m, 1, 3),
                entry4(m, 2, 0),
                entry4(m, 2, 1),
                entry4(m, 2, 3),
                entry4(m, 3, 0),
                entry4(m, 3, 1),
                entry4(m, 3, 3),
            ),
        ),
    ).sub_s(
        entry4(m, 0, 3).mul_s(
            det3e(
                entry4(m, 1, 0),
                entry4(m, 1, 1),
                entry4(m, 1, 2),
                entry4(m, 2, 0),
                entry4(m, 2, 1),
                entry4(m, 2, 2),
                entry4(m, 3, 0),
                entry4(m, 3, 1),
                entry4(m, 3, 2),
            ),
        ),
    )
}

/// The inverse of a 2x2 matrix with nonzero determinant: the swapped
/// and negated entries, each divided by the determinant.
pub open spec fn inv2_s<F: ScalarOps>(m: Mat2<F>) -> Mat2<F> {
    let d = det2_s(m);
    mat2_rm(
        m.y.y.div_s(d),
        m.y.x.neg_s().div_s(d),
        m.x.y.neg_s().div_s(d),
        m.x.x.div_s(d),
    )
}

/// The inverse of a 3x3 matrix with nonzero determinant: the matrix
/// whose columns are the cross products of the original's column
/// pairs divided by the determinant, transposed (the adjugate divided
/// by the determinant).
pub open spec fn inv3_s<F: ScalarOps>(m: Mat3<F>) -> Mat3<F> {
    let d = det3_s(m);
    transpose3_s(
        Mat3 {
            x: vcross(m.y, m.z).spec_scale_div(d),
            y: vcross(m.z, m.x).spec_scale_div(d),
            z: vcross(m.x, m.y).spec_scale_div(d),
        },
    )
}

/// The three-vector left after dropping the component at position `j`
/// of a four-vector.
pub open spec fn trunc4_s<F>(v: Vec4<F>, j: int) -> Vec3<F> {
    if j == 0 {
        Vec3 { x: v.y, y: v.z, z: v.w }
    } else if j == 1 {
        Vec3 { x: v.x, y: v.z, z: v.w }
    } else if j == 2 {
        Vec3 { x: v.x, y: v.y, z: v.w }
    } else {
        Vec3 { x: v.x, y: v.y, z: v.z }
    }
}

/// The 3x3 matrix built from the columns of `t` other than the `i`-th,
/// each with its `j`-th component dropped.
pub open spec fn sub4_s<F>(t: Mat4<F>, i: int, j: int) -> Mat3<F> {
    if i == 0 {
        Mat3 { x: trunc4_s(t.y, j), y: trunc4_s(t.z, j), z: trunc4_s(t.p, j) }
    } else if i == 1 {
        Mat3 { x: trunc4_s(t.x, j), y: trunc4_s(t.z, j), z: trunc4_s(t.p, j) }
    } else if i == 2 {
        Mat3 { x: trunc4_s(t.x, j), y: trunc4_s(t.y, j), z: trunc4_s(t.p, j) }
    } else {
        Mat3 { x: trunc4_s(t.x, j), y: trunc4_s(t.y, j), z: trunc4_s(t.z, j) }
    }
}

/// The `(i, j)` cofactor term of the 4x4 inverse: the determinant of
/// the corresponding submatrix of the transpose, signed by the
/// checkerboard pattern, divided by the full determinant.
pub open spec fn cof4_s<F: ScalarOps>(m: Mat4<F>, i: int, j: int) -> F {
    let sign = if (i + j) % 2 == 1 {
        F::one_s().neg_s()
    } else {
        F::one_s()
    };
    det3_s(sub4_s(transpose4_s(m), i, j)).mul_s(sign).mul_s(F::one_s().div_s(det4_s(m)))
}

/// The inverse of a 4x4 matrix with nonzero determinant, from the
/// signed cofactors of its transpose divided by the determinant.
pub open spec fn inv4_s<F: ScalarOps>(m: Mat4<F>) -> Mat4<F> {
    mat4_rm(
        cof4_s(m, 0, 0),
        cof4_s(m, 1, 0),
        cof4_s(m, 2, 0),
        cof4_s(m, 3, 0),
        cof4_s(m, 0, 1),
        cof4_s(m, 1, 1),
        cof4_s(m, 2, 1),
        cof4_s(m, 3, 1),
        cof4_s(m, 0, 2),
        cof4_s(m, 1, 2),
        cof4_s(m, 2, 2),
        cof4_s(m, 3, 2),
        cof4_s(m, 0, 3),
        cof4_s(m, 1, 3),
        cof4_s(m, 2, 3),
        cof4_s(m, 3, 3),
    )
}

/// The row `r`, column `c` entry of the product of two 2x2 matrices:
/// the dot product of the left row with the right column.
pub open spec fn mulentry2<F: ScalarOps>(a: Mat2<F>, b: Mat2<F>, r: int, c: int) -> F {
    entry2(a, r, 0).mul_s(entry2(b, 0, c)).add_s(entry2(a, r, 1).mul_s(entry2(b, 1, c)))
}

/// The row `r`, column `c` entry of the product of two 3x3 matrices.
pub open spec fn mulentry3<F: ScalarOps>(a: Mat3<F>, b: Mat3<F>, r: int, c: int) -> F {
    entry3(a, r, 0).mul_s(entry3(b, 0, c)).add_s(entry3(a, r, 1).mul_s(entry3(b, 1, c))).add_s(
        entry3(a, r, 2).mul_s(entry3(b, 2, c)),
    )
}

/// The row `r`, column `c` entry of the product of two 4x4 matrices.
pub open spec fn mulentry4<F: ScalarOps>(a: Mat4<F>, b: Mat4<F>, r: int, c: int) -> F {
    entry4(a, r, 0).mul_s(entry4(b, 0, c)).add_s(entry4(a, r, 1).mul_s(entry4(b, 1, c))).add_s(
        entry4(a, r, 2).mul_s(entry4(b, 2, c)),
    ).add_s(entry4(a, r, 3).mul_s(entry4(b, 3, c)))
}

/// The product of two 2x2 matrices.
pub open spec fn mul2_s<F: ScalarOps>(a: Mat2<F>, b: Mat2<F>) -> Mat2<F> {
    mat2_rm(
        mulentry2(a, b, 0, 0),
        mulentry2(a, b, 0, 1),
        mulentry2(a, b, 1, 0),
        mulentry2(a, b, 1, 1),
    )
}

/// The product of two 3x3 matrices.
pub open spec fn mul3_s<F: ScalarOps>(a: Mat3<F>, b: Mat3<F>) -> Mat3<F> {
    mat3_rm(
        mulentry3(a, b, 0, 0),
        mulentry3(a, b, 0, 1),
        mulentry3(a, b, 0, 2),
        mulentry3(a, b, 1, 0),
        mulentry3(a, b, 1, 1),
        mulentry3(a, b, 1, 2),
        mulentry3(a, b, 2, 0),
        mulentry3(a, b, 2, 1),
        mulentry3(a, b, 2, 2),
    )
}

/// The product of two 4x4 matrices.
pub open spec fn mul4_s<F: ScalarOps>(a: Mat4<F>, b: Mat4<F>) -> Mat4<F> {
    mat4_rm(
        mulentry4(a, b, 0, 0),
        mulentry4(a, b, 0, 1),
        mulentry4(a, b, 0, 2),
        mulentry4(a, b, 0, 3),
        mulentry4(a, b, 1, 0),
        mulentry4(a, b, 1, 1),
        mulentry4(a, b, 1, 2),
        mulentry4(a, b, 1, 3),
        mulentry4(a, b, 2, 0),
        mulentry4(a, b, 2, 1),
        mulentry4(a, b, 2, 2),
        mulentry4(a, b, 2, 3),
        mulentry4(a, b, 3, 0),
        mulentry4(a, b, 3, 1),
        mulentry4(a, b, 3, 2),
        mulentry4(a, b, 3, 3),
    )
}

/// The axis-angle rotation matrix about the unit axis `a` by `theta`
/// radians (the standard `cos + (1-cos)` outer-product expansion).
pub open spec fn rot_axis3_s<F: ScalarOps>(a: Vec3<F>, theta: F) -> Mat3<F> {
    let s = theta.sin_s();
    let c = theta.cos_s();
    let ic = F::one_s().sub_s(c);
    mat3_rm(
        a.x.mul_s(a.x).mul_s(ic).add_s(c),
        a.x.mul_s(a.y).mul_s(ic).sub_s(a.z.mul_s(s)),
        a.x.mul_s(a.z).mul_s(ic).add_s(a.y.mul_s(s)),
        a.y.mul_s(a.x).mul_s(ic).add_s(a.z.mul_s(s)),
        a.y.mul_s(a.y).mul_s(ic).add_s(c),
        a.y.mul_s(a.z).mul_s(ic).sub_s(a.x.mul_s(s)),
        a.z.mul_s(a.x).mul_s(ic).sub_s(a.y.mul_s(s)),
        a.z.mul_s(a.y).mul_s(ic).add_s(a.x.mul_s(s)),
        a.z.mul_s(a.z).mul_s(ic).add_s(c),
    )
}

/// The matrix reflecting through the plane through the origin with
/// unit normal `a`: the identity minus twice the normal's outer
/// product.
pub open spec fn reflect3_s<F: ScalarOps>(a: Vec3<F>) -> Mat3<F> {
    let mt = F::two_s().neg_s();
    let x = a.x.mul_s(mt);
    let y = a.y.mul_s(mt);
    let z = a.z.mul_s(mt);
    let axay = x.mul_s(a.y);
    let axaz = x.mul_s(a.z);
    let ayaz = y.mul_s(a.z);
    mat3_rm(
        x.mul_s(a.x).add_s(F::one_s()),
        axay,
        axaz,
        axay,
        y.mul_s(a.y).add_s(F::one_s()),
        ayaz,
        axaz,
        ayaz,
        z.mul_s(a.z).add_s(F::one_s()),
    )
}

/// The involution matrix for the plane through the origin with unit
/// normal `a`: twice the normal's outer product minus the identity.
pub open spec fn involve3_s<F: ScalarOps>(a: Vec3<F>) -> Mat3<F> {
    let x = a.x.mul_s(F::two_s());
    let y = a.y.mul_s(F::two_s());
    let z = a.z.mul_s(F::two_s());
    let axay = x.mul_s(a.y);
    let axaz = x.mul_s(a.z);
    let ayaz = y.mul_s(a.z);
    mat3_rm(
        x.mul_s(a.x).sub_s(F::one_s()),
        axay,
        axaz,
        axay,
        y.mul_s(a.y).sub_s(F::one_s()),
        ayaz,
        axaz,
        ayaz,
        z.mul_s(a.z).sub_s(F::one_s()),
    )
}

/// The matrix scaling by factor `s` along the unit direction `a`
/// (and leaving the perpendicular plane fixed).
pub open spec fn scale_dir3_s<F: ScalarOps>(s: F, a: Vec3<F>) -> Mat3<F> {
    let sm = s.sub_s(F::one_s());
    let x = a.x.mul_s(sm);
    let y = a.y.mul_s(sm);
    let z = a.z.mul_s(sm);
    let axay = x.mul_s(a.y);
    let axaz = x.mul_s(a.z);
    let ayaz = y.mul_s(a.z);
    mat3_rm(
        x.mul_s(a.x).add_s(F::one_s()),
        axay,
        axaz,
        axay,
        y.mul_s(a.y).add_s(F::one_s()),
        ayaz,
        axaz,
        ayaz,
        z.mul_s(a.z).add_s(F::one_s()),
    )
}

/// The skew matrix by angle `theta` along direction `a` based on the
/// projected length along `b` (which must be perpendicular to `a`).
pub open spec fn skew3_s<F: ScalarOps>(theta: F, a: Vec3<F>, b: Vec3<F>) -> Mat3<F> {
    let t = theta.tan_s();
    let x = a.x.mul_s(t);
    let y = a.y.mul_s(t);
    let z = a.z.mul_s(t);
    mat3_rm(
        x.mul_s(b.x).add_s(F::one_s()),
        x.mul_s(b.y),
        x.mul_s(b.z),
        y.mul_s(b.x),
        y.mul_s(b.y).add_s(F::one_s()),
        y.mul_s(b.z),
        z.mul_s(b.x),
        z.mul_s(b.y),
        z.mul_s(b.z).add_s(F::one_s()),
    )
}

// ---------------------------------------------------------------------------
// Mat2

impl<F> Mat2<F> {
    /// Create a new 2x2 matrix.  Specify parameters in row-major
    /// order (as typically written on paper and in math texts).
    #[inline]
    pub fn new(r0c0: F, r0c1: F, r1c0: F, r1c1: F) -> (r: Mat2<F>)
        ensures
            r == mat2_rm(r0c0, r0c1, r1c0, r1c1),
    {
        // looks transposed because stored column-major
        Mat2 { x: Vec2::new(r0c0, r1c0), y: Vec2::new(r0c1, r1c1) }
    }

    /// Build the matrix from its two columns.
    #[inline]
    pub fn from_cols(x: Vec2<F>, y: Vec2<F>) -> (r: Mat2<F>)
        ensures
            r == (Mat2 { x, y }),
    {
        Mat2 { x, y }
    }
}

impl<F: Copy> Mat2<F> {
    /// The entry at the given row and column.
    #[inline]
    pub fn index(&self, row: usize, col: usize) -> (r: F)
        requires
            row < 2,
            col < 2,
        ensures
            r == entry2(*self, row as int, col as int),
    {
        let v = if col == 0 {
            self.x
        } else {
            self.y
        };
        if row == 0 {
            v.x
        } else {
            v.y
        }
    }

    /// Transpose in place: swap the off-diagonal pair.
    #[inline]
    pub fn transpose(&mut self)
        ensures
            *final(self) == transpose2_s(*old(self)),
    {
        let m = *self;
        self.x.y = m.y.x;
        self.y.x = m.x.y;
    }
}

impl<F: FullFloat> Mat2<F> {
    /// The zero matrix.
    #[inline]
    pub fn zero() -> (r: Mat2<F>)
        ensures
            r == mat2_rm(F::zero_s(), F::zero_s(), F::zero_s(), F::zero_s()),
    {
        Mat2::new(F::zero(), F::zero(), F::zero(), F::zero())
    }

    /// The identity matrix.
    #[inline]
    pub fn identity() -> (r: Mat2<F>)
        ensures
            r == mat2_rm(F::one_s(), F::zero_s(), F::zero_s(), F::one_s()),
    {
        Mat2::new(F::one(), F::zero(), F::zero(), F::one())
    }

    /// The determinant `ad - bc`.
    #[inline]
    pub fn determinant(&self) -> (r: F)
        ensures
            r == det2_s(*self),
    {
        self.x.x.mul(self.y.y).sub(self.y.x.mul(self.x.y))
    }

    /// The inverse, when the determinant is nonzero (tested exactly,
    /// not within a tolerance); `None` exactly when the matrix is
    /// singular.
    #[inline]
    pub fn inverse(&self) -> (r: Option<Mat2<F>>)
        ensures
            r == if det2_s(*self).eq_s(F::zero_s()) {
                None
            } else {
                Some(inv2_s(*self))
            },
    {
        let d = self.determinant();
        if d.eq_val(F::zero()) {
            return None;
        }
        Some(
            Mat2::new(
                self.y.y.div(d),
                self.y.x.neg().div(d),
                self.x.y.neg().div(d),
                self.x.x.div(d),
            ),
        )
    }

    /// The componentwise sum of two matrices.
    #[inline]
    pub fn add(&self, rhs: &Mat2<F>) -> (r: Mat2<F>)
        ensures
            r == (Mat2 { x: self.x.spec_add(rhs.x), y: self.y.spec_add(rhs.y) }),
    {
        Mat2::from_cols(self.x.add(rhs.x), self.y.add(rhs.y))
    }

    /// Every entry multiplied by a scalar.
    #[inline]
    pub fn mul_scalar(&self, rhs: F) -> (r: Mat2<F>)
        ensures
            r == (Mat2 { x: self.x.spec_scale(rhs), y: self.y.spec_scale(rhs) }),
    {
        Mat2::from_cols(self.x.mul(rhs), self.y.mul(rhs))
    }

    /// The matrix product: each entry is the dot product of the left
    /// row with the right column.
    #[inline]
    pub fn mul_mat(&self, rhs: &Mat2<F>) -> (r: Mat2<F>)
        ensures
            r == mul2_s(*self, *rhs),
    {
        Mat2::new(
            self.x.x.mul(rhs.x.x).add(self.y.x.mul(rhs.x.y)),
            self.x.x.mul(rhs.y.x).add(self.y.x.mul(rhs.y.y)),
            self.x.y.mul(rhs.x.x).add(self.y.y.mul(rhs.x.y)),
            self.x.y.mul(rhs.y.x).add(self.y.y.mul(rhs.y.y)),
        )
    }

    /// The matrix applied to a column vector on the right.
    #[inline]
    pub fn mul_vec(&self, rhs: &Vec2<F>) -> (r: Vec2<F>)
        ensures
            r == (Vec2 {
                x: entry2(*self, 0, 0).mul_s(rhs.x).add_s(entry2(*self, 0, 1).mul_s(rhs.y)),
                y: entry2(*self, 1, 0).mul_s(rhs.x).add_s(entry2(*self, 1, 1).mul_s(rhs.y)),
            }),
    {
        Vec2::new(
            self.x.x.mul(rhs.x).add(self.y.x.mul(rhs.y)),
            self.x.y.mul(rhs.x).add(self.y.y.mul(rhs.y)),
        )
    }

    /// A row vector applied to the matrix on the left.
    #[inline]
    pub fn premul_vec(&self, lhs: &Vec2<F>) -> (r: Vec2<F>)
        ensures
            r == (Vec2 {
                x: lhs.x.mul_s(entry2(*self, 0, 0)).add_s(lhs.y.mul_s(entry2(*self, 1, 0))),
                y: lhs.x.mul_s(entry2(*self, 0, 1)).add_s(lhs.y.mul_s(entry2(*self, 1, 1))),
            }),
    {
        Vec2::new(
            lhs.x.mul(self.x.x).add(lhs.y.mul(self.x.y)),
            lhs.x.mul(self.y.x).add(lhs.y.mul(self.y.y)),
        )
    }

    /// Whether both off-diagonal entries are exactly zero.
    #[inline]
    pub fn is_diagonal(&self) -> (r: bool)
        ensures
            r == (self.x.y.eq_s(F::zero_s()) && self.y.x.eq_s(F::zero_s())),
    {
        self.x.y.eq_val(F::zero()) && self.y.x.eq_val(F::zero())
    }

    /// Whether the matrix exactly equals its transpose.
    #[inline]
    pub fn is_symmetric(&self) -> (r: bool)
        ensures
            r == self.x.y.eq_s(self.y.x),
    {
        self.x.y.eq_val(self.y.x)
    }

    /// Whether the matrix exactly equals the negation of its
    /// transpose, ignoring the diagonal.
    #[inline]
    pub fn is_skew_symmetric(&self) -> (r: bool)
        ensures
            r == self.x.y.eq_s(self.y.x.neg_s()),
    {
        self.x.y.eq_val(self.y.x.neg())
    }

    /// The rotation matrix turning by the given angle
    /// counterclockwise.
    #[inline]
    pub fn from_angle(theta: Angle<F>) -> (r: Mat2<F>)
        ensures
            r == mat2_rm(
                theta@.cos_s(),
                theta@.sin_s().neg_s(),
                theta@.sin_s(),
                theta@.cos_s(),
            ),
    {
        let (s, c) = theta.as_radians().sin_cos();
        Mat2 { x: Vec2::new(c, s), y: Vec2::new(s.neg(), c) }
    }
}

// ---------------------------------------------------------------------------
// Mat3

impl<F> Mat3<F> {
    /// Create a new 3x3 matrix.  Specify parameters in row-major
    /// order (as typically written on paper and in math texts).
    #[inline]
    pub fn new(
        r0c0: F,
        r0c1: F,
        r0c2: F,
        r1c0: F,
        r1c1: F,
        r1c2: F,
        r2c0: F,
        r2c1: F,
        r2c2: F,
    ) -> (r: Mat3<F>)
        ensures
            r == mat3_rm(r0c0, r0c1, r0c2, r1c0, r1c1, r1c2, r2c0, r2c1, r2c2),
    {
        // looks transposed because stored column-major
        Mat3 {
            x: Vec3::new(r0c0, r1c0, r2c0),
            y: Vec3::new(r0c1, r1c1, r2c1),
            z: Vec3::new(r0c2, r1c2, r2c2),
        }
    }

    /// Build the matrix from its three columns.
    #[inline]
    pub fn from_cols(x: Vec3<F>, y: Vec3<F>, z: Vec3<F>) -> (r: Mat3<F>)
        ensures
            r == (Mat3 { x, y, z }),
    {
        Mat3 { x, y, z }
    }
}

impl<F: Copy> Mat3<F> {
    /// The entry at the given row and column.
    #[inline]
    pub fn index(&self, row: usize, col: usize) -> (r: F)
        requires
            row < 3,
            col < 3,
        ensures
            r == entry3(*self, row as int, col as int),
    {
        let v = if col == 0 {
            self.x
        } else if col == 1 {
            self.y
        } else {
            self.z
        };
        if row == 0 {
            v.x
        } else if row == 1 {
            v.y
        } else {
            v.z
        }
    }

    /// Transpose in place: swap the off-diagonal pairs.
    #[inline]
    pub fn transpose(&mut self)
        ensures
            *final(self) == transpose3_s(*old(self)),
    {
        let m = *self;
        self.x.y = m.y.x;
        self.y.x = m.x.y;
        self.x.z = m.z.x;
        self.z.x = m.x.z;
        self.y.z = m.z.y;
        self.z.y = m.y.z;
    }
}

impl<F: FullFloat> Mat3<F> {
    /// The zero matrix.
    #[inline]
    pub fn zero() -> (r: Mat3<F>)
        ensures
            r == mat3_rm(
                F::zero_s(),
                F::zero_s(),
                F::zero_s(),
                F::zero_s(),
                F::zero_s(),
                F::zero_s(),
                F::zero_s(),
                F::zero_s(),
                F::zero_s(),
            ),
    {
        Mat3::new(
            F::zero(),
            F::zero(),
            F::zero(),
            F::zero(),
            F::zero(),
            F::zero(),
            F::zero(),
            F::zero(),
            F::zero(),
        )
    }

    /// The identity matrix.
    #[inline]
    pub fn identity() -> (r: Mat3<F>)
        ensures
            r == mat3_rm(
                F::one_s(),
                F::zero_s(),
                F::zero_s(),
                F::zero_s(),
                F::one_s(),
                F::zero_s(),
                F::zero_s(),
                F::zero_s(),
                F::one_s(),
            ),
    {
        Mat3::new(
            F::one(),
            F::zero(),
            F::zero(),
            F::zero(),
            F::one(),
            F::zero(),
            F::zero(),
            F::zero(),
            F::one(),
        )
    }

    /// The determinant, by cofactor expansion along the first row
    /// (the scalar triple product of the columns).
    #[inline]
    pub fn determinant(&self) -> (r: F)
        ensures
            r == det3_s(*self),
    {
        self.x.x.mul(self.y.y.mul(self.z.z).sub(self.z.y.mul(self.y.z))).sub(
            self.y.x.mul(self.x.y.mul(self.z.z).sub(self.z.y.mul(self.x.z))),
        ).add(self.z.x.mul(self.x.y.mul(self.y.z).sub(self.y.y.mul(self.x.z))))
    }

    /// The inverse, when the determinant is nonzero (tested exactly,
    /// not within a tolerance); `None` exactly when the matrix is
    /// singular.  Built from the cross products of the column pairs
    /// divided by the determinant, then transposed (the adjugate
    /// divided by the determinant).
    #[inline]
    pub fn inverse(&self) -> (r: Option<Mat3<F>>)
        ensures
            r == if det3_s(*self).eq_s(F::zero_s()) {
                None
            } else {
                Some(inv3_s(*self))
            },
    {
        let d = self.determinant();
        if d.eq_val(F::zero()) {
            return None;
        }
        let mut out = Mat3::from_cols(
            self.y.cross(self.z).div(d),
            self.z.cross(self.x).div(d),
            self.x.cross(self.y).div(d),
        );
        out.transpose();
        Some(out)
    }

    /// The componentwise sum of two matrices.
    #[inline]
    pub fn add(&self, rhs: &Mat3<F>) -> (r: Mat3<F>)
        ensures
            r == (Mat3 {
                x: self.x.spec_add(rhs.x),
                y: self.y.spec_add(rhs.y),
                z: self.z.spec_add(rhs.z),
            }),
    {
        Mat3::from_cols(self.x.add(rhs.x), self.y.add(rhs.y), self.z.add(rhs.z))
    }

    /// Every entry multiplied by a scalar.
    #[inline]
    pub fn mul_scalar(&self, rhs: F) -> (r: Mat3<F>)
        ensures
            r == (Mat3 {
                x: self.x.spec_scale(rhs),
                y: self.y.spec_scale(rhs),
                z: self.z.spec_scale(rhs),
            }),
    {
        Mat3::from_cols(self.x.mul(rhs), self.y.mul(rhs), self.z.mul(rhs))
    }

    /// The matrix product: each entry is the dot product of the left
    /// row with the right column.
    #[inline]
    pub fn mul_mat(&self, rhs: &Mat3<F>) -> (r: Mat3<F>)
        ensures
            r == mul3_s(*self, *rhs),
    {
        Mat3::new(
            self.x.x.mul(rhs.x.x).add(self.y.x.mul(rhs.x.y)).add(self.z.x.mul(rhs.x.z)),
            self.x.x.mul(rhs.y.x).add(self.y.x.mul(rhs.y.y)).add(self.z.x.mul(rhs.y.z)),
            self.x.x.mul(rhs.z.x).add(self.y.x.mul(rhs.z.y)).add(self.z.x.mul(rhs.z.z)),
            self.x.y.mul(rhs.x.x).add(self.y.y.mul(rhs.x.y)).add(self.z.y.mul(rhs.x.z)),
            self.x.y.mul(rhs.y.x).add(self.y.y.mul(rhs.y.y)).add(self.z.y.mul(rhs.y.z)),
            self.x.y.mul(rhs.z.x).add(self.y.y.mul(rhs.z.y)).add(self.z.y.mul(rhs.z.z)),
            self.x.z.mul(rhs.x.x).add(self.y.z.mul(rhs.x.y)).add(self.z.z.mul(rhs.x.z)),
            self.x.z.mul(rhs.y.x).add(self.y.z.mul(rhs.y.y)).add(self.z.z.mul(rhs.y.z)),
            self.x.z.mul(rhs.z.x).add(self.y.z.mul(rhs.z.y)).add(self.z.z.mul(rhs.z.z)),
        )
    }

    /// The matrix applied to a column vector on the right.
    #[inline]
    pub fn mul_vec(&self, rhs: &Vec3<F>) -> (r: Vec3<F>)
        ensures
            r == (Vec3 {
                x: entry3(*self, 0, 0).mul_s(rhs.x).add_s(entry3(*self, 0, 1).mul_s(rhs.y)).add_s(
                    entry3(*self, 0, 2).mul_s(rhs.z),
                ),
                y: entry3(*self, 1, 0).mul_s(rhs.x).add_s(entry3(*self, 1, 1).mul_s(rhs.y)).add_s(
                    entry3(*self, 1, 2).mul_s(rhs.z),
                ),
                z: entry3(*self, 2, 0).mul_s(rhs.x).add_s(entry3(*self, 2, 1).mul_s(rhs.y)).add_s(
                    entry3(*self, 2, 2).mul_s(rhs.z),
                ),
            }),
    {
        Vec3::new(
            self.x.x.mul(rhs.x).add(self.y.x.mul(rhs.y)).add(self.z.x.mul(rhs.z)),
            self.x.y.mul(rhs.x).add(self.y.y.mul(rhs.y)).add(self.z.y.mul(rhs.z)),
            self.x.z.mul(rhs.x).add(self.y.z.mul(rhs.y)).add(self.z.z.mul(rhs.z)),
        )
    }

    /// A row vector applied to the matrix on the left.
    #[inline]
    pub fn premul_vec(&self, lhs: &Vec3<F>) -> (r: Vec3<F>)
        ensures
            r == (Vec3 {
                x: lhs.x.mul_s(entry3(*self, 0, 0)).add_s(lhs.y.mul_s(entry3(*self, 1, 0))).add_s(
                    lhs.z.mul_s(entry3(*self, 2, 0)),
                ),
                y: lhs.x.mul_s(entry3(*self, 0, 1)).add_s(lhs.y.mul_s(entry3(*self, 1, 1))).add_s(
                    lhs.z.mul_s(entry3(*self, 2, 1)),
                ),
                z: lhs.x.mul_s(entry3(*self, 0, 2)).add_s(lhs.y.mul_s(entry3(*self, 1, 2))).add_s(
                    lhs.z.mul_s(entry3(*self, 2, 2)),
                ),
            }),
    {
        Vec3::new(
            lhs.x.mul(self.x.x).add(lhs.y.mul(self.x.y)).add(lhs.z.mul(self.x.z)),
            lhs.x.mul(self.y.x).add(lhs.y.mul(self.y.y)).add(lhs.z.mul(self.y.z)),
            lhs.x.mul(self.z.x).add(lhs.y.mul(self.z.y)).add(lhs.z.mul(self.z.z)),
        )
    }

    /// Whether every off-diagonal entry is exactly zero.
    #[inline]
    pub fn is_diagonal(&self) -> (r: bool)
        ensures
            r == (self.x.y.eq_s(F::zero_s()) && self.x.z.eq_s(F::zero_s()) && self.y.x.eq_s(
                F::zero_s(),
            ) && self.y.z.eq_s(F::zero_s()) && self.z.x.eq_s(F::zero_s()) && self.z.y.eq_s(
                F::zero_s(),
            )),
    {
        self.x.y.eq_val(F::zero()) && self.x.z.eq_val(F::zero()) && self.y.x.eq_val(F::zero())
            && self.y.z.eq_val(F::zero()) && self.z.x.eq_val(F::zero()) && self.z.y.eq_val(
            F::zero(),
        )
    }

    /// Whether the matrix exactly equals its transpose.
    #[inline]
    pub fn is_symmetric(&self) -> (r: bool)
        ensures
            r == (self.x.y.eq_s(self.y.x) && self.x.z.eq_s(self.z.x) && self.y.z.eq_s(self.z.y)),
    {
        self.x.y.eq_val(self.y.x) && self.x.z.eq_val(self.z.x) && self.y.z.eq_val(self.z.y)
    }

    /// Whether the matrix exactly equals the negation of its
    /// transpose, ignoring the diagonal.
    #[inline]
    pub fn is_skew_symmetric(&self) -> (r: bool)
        ensures
            r == (self.x.y.eq_s(self.y.x.neg_s()) && self.x.z.eq_s(self.z.x.neg_s())
                && self.y.z.eq_s(self.z.y.neg_s())),
    {
        self.x.y.eq_val(self.y.x.neg()) && self.x.z.eq_val(self.z.x.neg()) && self.y.z.eq_val(
            self.z.y.neg(),
        )
    }

    /// The rotation matrix about the x axis by the given angle.
    #[inline]
    pub fn from_angle_x(theta: Angle<F>) -> (r: Mat3<F>)
        ensures
            r == mat3_rm(
                F::one_s(),
                F::zero_s(),
                F::zero_s(),
                F::zero_s(),
                theta@.cos_s(),
                theta@.sin_s().neg_s(),
                F::zero_s(),
                theta@.sin_s(),
                theta@.cos_s(),
            ),
    {
        let (s, c) = theta.as_radians().sin_cos();
        Mat3::new(F::one(), F::zero(), F::zero(), F::zero(), c, s.neg(), F::zero(), s, c)
    }

    /// The rotation matrix about the y axis by the given angle.
    #[inline]
    pub fn from_angle_y(theta: Angle<F>) -> (r: Mat3<F>)
        ensures
            r == mat3_rm(
                theta@.cos_s(),
                F::zero_s(),
                theta@.sin_s(),
                F::zero_s(),
                F::one_s(),
                F::zero_s(),
                theta@.sin_s().neg_s(),
                F::zero_s(),
                theta@.cos_s(),
            ),
    {
        let (s, c) = theta.as_radians().sin_cos();
        Mat3::new(c, F::zero(), s, F::zero(), F::one(), F::zero(), s.neg(), F::zero(), c)
    }

    /// The rotation matrix about the z axis by the given angle.
    #[inline]
    pub fn from_angle_z(theta: Angle<F>) -> (r: Mat3<F>)
        ensures
            r == mat3_rm(
                theta@.cos_s(),
                theta@.sin_s().neg_s(),
                F::zero_s(),
                theta@.sin_s(),
                theta@.cos_s(),
                F::zero_s(),
                F::zero_s(),
                F::zero_s(),
                F::one_s(),
            ),
    {
        let (s, c) = theta.as_radians().sin_cos();
        Mat3::new(c, s.neg(), F::zero(), s, c, F::zero(), F::zero(), F::zero(), F::one())
    }

    /// The rotation matrix about an arbitrary unit axis by the given
    /// angle.
    pub fn rotate_axis_angle(axis: Direction3<F>, theta: Angle<F>) -> (r: Mat3<F>)
        ensures
            r == rot_axis3_s(axis@, theta@),
    {
        let a = axis.into_vec3();
        let (s, c) = theta.as_radians().sin_cos();
        let ic = F::one().sub(c);
        Mat3::new(
            a.x.mul(a.x).mul(ic).add(c),
            a.x.mul(a.y).mul(ic).sub(a.z.mul(s)),
            a.x.mul(a.z).mul(ic).add(a.y.mul(s)),
            a.y.mul(a.x).mul(ic).add(a.z.mul(s)),
            a.y.mul(a.y).mul(ic).add(c),
            a.y.mul(a.z).mul(ic).sub(a.x.mul(s)),
            a.z.mul(a.x).mul(ic).sub(a.y.mul(s)),
            a.z.mul(a.y).mul(ic).add(a.x.mul(s)),
            a.z.mul(a.z).mul(ic).add(c),
        )
    }

    /// The reflection matrix through the plane through the origin
    /// with the given unit normal.
    #[inline]
    pub fn reflect_origin_plane(a: Direction3<F>) -> (r: Mat3<F>)
        ensures
            r == reflect3_s(a@),
    {
        let a = a.into_vec3();
        let mt = F::two().neg();
        let x = a.x.mul(mt);
        let y = a.y.mul(mt);
        let z = a.z.mul(mt);
        let axay = x.mul(a.y);
        let axaz = x.mul(a.z);
        let ayaz = y.mul(a.z);
        Mat3::new(
            x.mul(a.x).add(F::one()),
            axay,
            axaz,
            axay,
            y.mul(a.y).add(F::one()),
            ayaz,
            axaz,
            ayaz,
            z.mul(a.z).add(F::one()),
        )
    }

    /// The involution matrix for the plane through the origin with
    /// the given unit normal.
    #[inline]
    pub fn involve_origin_plane(a: Direction3<F>) -> (r: Mat3<F>)
        ensures
            r == involve3_s(a@),
    {
        let a = a.into_vec3();
        let x = a.x.mul(F::two());
        let y = a.y.mul(F::two());
        let z = a.z.mul(F::two());
        let axay = x.mul(a.y);
        let axaz = x.mul(a.z);
        let ayaz = y.mul(a.z);
        Mat3::new(
            x.mul(a.x).sub(F::one()),
            axay,
            axaz,
            axay,
            y.mul(a.y).sub(F::one()),
            ayaz,
            axaz,
            ayaz,
            z.mul(a.z).sub(F::one()),
        )
    }

    /// The matrix scaling each axis by the corresponding component of
    /// the given vector.
    #[inline]
    pub fn scale(a: &Vec3<F>) -> (r: Mat3<F>)
        ensures
            r == mat3_rm(
                a.x,
                F::zero_s(),
                F::zero_s(),
                F::zero_s(),
                a.y,
                F::zero_s(),
                F::zero_s(),
                F::zero_s(),
                a.z,
            ),
    {
        Mat3::new(
            a.x,
            F::zero(),
            F::zero(),
            F::zero(),
            a.y,
            F::zero(),
            F::zero(),
            F::zero(),
            a.z,
        )
    }

    /// The matrix scaling by factor `s` along the unit direction `a`.
    pub fn scale_in_direction(s: F, a: Direction3<F>) -> (r: Mat3<F>)
        ensures
            r == scale_dir3_s(s, a@),
    {
        let a = a.into_vec3();
        let sm = s.sub(F::one());
        let x = a.x.mul(sm);
        let y = a.y.mul(sm);
        let z = a.z.mul(sm);
        let axay = x.mul(a.y);
        let axaz = x.mul(a.z);
        let ayaz = y.mul(a.z);
        Mat3::new(
            x.mul(a.x).add(F::one()),
            axay,
            axaz,
            axay,
            y.mul(a.y).add(F::one()),
            ayaz,
            axaz,
            ayaz,
            z.mul(a.z).add(F::one()),
        )
    }

    /// Skew by the given angle in the given direction `a`, based on
    /// the projected length along the `proj` direction.  The two
    /// directions MUST BE PERPENDICULAR or else results are
    /// undefined.
    pub fn skew(angle: Angle<F>, a: Direction3<F>, proj: Direction3<F>) -> (r: Mat3<F>)
        ensures
            r == skew3_s(angle@, a@, proj@),
    {
        let a = a.into_vec3();
        let b = proj.into_vec3();
        let t = angle.as_radians().tan();
        let x = a.x.mul(t);
        let y = a.y.mul(t);
        let z = a.z.mul(t);
        Mat3::new(
            x.mul(b.x).add(F::one()),
            x.mul(b.y),
            x.mul(b.z),
            y.mul(b.x),
            y.mul(b.y).add(F::one()),
            y.mul(b.z),
            z.mul(b.x),
            z.mul(b.y),
            z.mul(b.z).add(F::one()),
        )
    }

    /// The matrix embedded in the upper-left corner of a 4x4 identity
    /// matrix.
    pub fn as_mat4(&self) -> (r: Mat4<F>)
        ensures
            r == (Mat4 {
                x: Vec4 { x: self.x.x, y: self.x.y, z: self.x.z, w: F::zero_s() },
                y: Vec4 { x: self.y.x, y: self.y.y, z: self.y.z, w: F::zero_s() },
                z: Vec4 { x: self.z.x, y: self.z.y, z: self.z.z, w: F::zero_s() },
                p: Vec4 { x: F::zero_s(), y: F::zero_s(), z: F::zero_s(), w: F::one_s() },
            }),
    {
        Mat4 {
            x: Vec4::new(self.x.x, self.x.y, self.x.z, F::zero()),
            y: Vec4::new(self.y.x, self.y.y, self.y.z, F::zero()),
            z: Vec4::new(self.z.x, self.z.y, self.z.z, F::zero()),
            p: Vec4::new(F::zero(), F::zero(), F::zero(), F::one()),
        }
    }
}


/// The axis-angle rotation about the unit axis `a` by `theta`
/// radians, embedded in a 4x4 homogeneous matrix.
pub open spec fn rot_axis4_s<F: ScalarOps>(a: Vec3<F>, theta: F) -> Mat4<F> {
    let s = theta.sin_s();
    let c = theta.cos_s();
    let ic = F::one_s().sub_s(c);
    mat4_rm(
        a.x.mul_s(a.x).mul_s(ic).add_s(c),
        a.x.mul_s(a.y).mul_s(ic).sub_s(a.z.mul_s(s)),
        a.x.mul_s(a.z).mul_s(ic).add_s(a.y.mul_s(s)),
        F::zero_s(),
        a.y.mul_s(a.x).mul_s(ic).add_s(a.z.mul_s(s)),
        a.y.mul_s(a.y).mul_s(ic).add_s(c),
        a.y.mul_s(a.z).mul_s(ic).sub_s(a.x.mul_s(s)),
        F::zero_s(),
        a.z.mul_s(a.x).mul_s(ic).sub_s(a.y.mul_s(s)),
        a.z.mul_s(a.y).mul_s(ic).add_s(a.x.mul_s(s)),
        a.z.mul_s(a.z).mul_s(ic).add_s(c),
        F::zero_s(),
        F::zero_s(),
        F::zero_s(),
        F::zero_s(),
        F::one_s(),
    )
}

// ---------------------------------------------------------------------------
// Mat4

impl<F> Mat4<F> {
    /// Create a new 4x4 matrix.  Specify parameters in row-major
    /// order (as typically written on paper and in math texts).
    #[inline]
    pub fn new(
        r0c0: F,
        r0c1: F,
        r0c2: F,
        r0c3: F,
        r1c0: F,
        r1c1: F,
        r1c2: F,
        r1c3: F,
        r2c0: F,
        r2c1: F,
        r2c2: F,
        r2c3: F,
        r3c0: F,
        r3c1: F,
        r3c2: F,
        r3c3: F,
    ) -> (r: Mat4<F>)
        ensures
            r == mat4_rm(
                r0c0,
                r0c1,
                r0c2,
                r0c3,
                r1c0,
                r1c1,
                r1c2,
                r1c3,
                r2c0,
                r2c1,
                r2c2,
                r2c3,
                r3c0,
                r3c1,
                r3c2,
                r3c3,
            ),
    {
        // looks transposed because stored column-major
        Mat4 {
            x: Vec4::new(r0c0, r1c0, r2c0, r3c0),
            y: Vec4::new(r0c1, r1c1, r2c1, r3c1),
            z: Vec4::new(r0c2, r1c2, r2c2, r3c2),
            p: Vec4::new(r0c3, r1c3, r2c3, r3c3),
        }
    }

    /// Build the matrix from its four columns.
    #[inline]
    pub fn from_cols(x: Vec4<F>, y: Vec4<F>, z: Vec4<F>, p: Vec4<F>) -> (r: Mat4<F>)
        ensures
            r == (Mat4 { x, y, z, p }),
    {
        Mat4 { x, y, z, p }
    }
}

impl<F: Copy> Mat4<F> {
    /// The entry at the given row and column.
    #[inline]
    pub fn index(&self, row: usize, col: usize) -> (r: F)
        requires
            row < 4,
            col < 4,
        ensures
            r == entry4(*self, row as int, col as int),
    {
        let v = if col == 0 {
            self.x
        } else if col == 1 {
            self.y
        } else if col == 2 {
            self.z
        } else {
            self.p
        };
        if row == 0 {
            v.x
        } else if row == 1 {
            v.y
        } else if row == 2 {
            v.z
        } else {
            v.w
        }
    }

    /// Transpose in place: swap the off-diagonal pairs.
    #[inline]
    pub fn transpose(&mut self)
        ensures
            *final(self) == transpose4_s(*old(self)),
    {
        let m = *self;
        self.x.y = m.y.x;
        self.y.x = m.x.y;
        self.x.z = m.z.x;
        self.z.x = m.x.z;
        self.x.w = m.p.x;
        self.p.x = m.x.w;
        self.y.z = m.z.y;
        self.z.y = m.y.z;
        self.y.w = m.p.y;
        self.p.y = m.y.w;
        self.z.w = m.p.z;
        self.p.z = m.z.w;
    }
}

impl<F: FullFloat> Mat4<F> {
    /// The homogeneous matrix with the three directions as its upper
    /// 3x3 columns and the point as its translation column.
    #[inline]
    pub fn from_components(
        x_dir: Direction3<F>,
        y_dir: Direction3<F>,
        z_dir: Direction3<F>,
        pos: Point3<F>,
    ) -> (r: Mat4<F>)
        ensures
            r == (Mat4 {
                x: Vec4 { x: x_dir@.x, y: x_dir@.y, z: x_dir@.z, w: F::zero_s() },
                y: Vec4 { x: y_dir@.x, y: y_dir@.y, z: y_dir@.z, w: F::zero_s() },
                z: Vec4 { x: z_dir@.x, y: z_dir@.y, z: z_dir@.z, w: F::zero_s() },
                p: Vec4 { x: pos.0.x, y: pos.0.y, z: pos.0.z, w: F::one_s() },
            }),
    {
        let x_dir = x_dir.into_vec3();
        let y_dir = y_dir.into_vec3();
        let z_dir = z_dir.into_vec3();
        Mat4 {  // looks transposed because stored column-major
            x: Vec4::new(x_dir.x, x_dir.y, x_dir.z, F::zero()),
            y: Vec4::new(y_dir.x, y_dir.y, y_dir.z, F::zero()),
            z: Vec4::new(z_dir.x, z_dir.y, z_dir.z, F::zero()),
            p: Vec4::new(pos.0.x, pos.0.y, pos.0.z, F::one()),
        }
    }

    /// The homogeneous matrix with the given 3x3 matrix as its upper
    /// corner and the point as its translation column.
    #[inline]
    pub fn from_mat3(mat3: Mat3<F>, pos: Point3<F>) -> (r: Mat4<F>)
        ensures
            r == (Mat4 {
                x: Vec4 { x: mat3.x.x, y: mat3.x.y, z: mat3.x.z, w: F::zero_s() },
                y: Vec4 { x: mat3.y.x, y: mat3.y.y, z: mat3.y.z, w: F::zero_s() },
                z: Vec4 { x: mat3.z.x, y: mat3.z.y, z: mat3.z.z, w: F::zero_s() },
                p: Vec4 { x: pos.0.x, y: pos.0.y, z: pos.0.z, w: F::one_s() },
            }),
    {
        Mat4 {  // looks transposed because stored column-major
            x: Vec4::new(mat3.x.x, mat3.x.y, mat3.x.z, F::zero()),
            y: Vec4::new(mat3.y.x, mat3.y.y, mat3.y.z, F::zero()),
            z: Vec4::new(mat3.z.x, mat3.z.y, mat3.z.z, F::zero()),
            p: Vec4::new(pos.0.x, pos.0.y, pos.0.z, F::one()),
        }
    }

    /// The zero matrix.
    #[inline]
    pub fn zero() -> (r: Mat4<F>)
        ensures
            forall|i: int, j: int|
                0 <= i < 4 && 0 <= j < 4 ==> entry4(r, i, j) == F::zero_s(),
    {
        Mat4 { x: Vec4::zero(), y: Vec4::zero(), z: Vec4::zero(), p: Vec4::zero() }
    }

    /// The identity matrix: ones on the diagonal, zeroes elsewhere.
    #[inline]
    pub fn identity() -> (r: Mat4<F>)
        ensures
            forall|i: int, j: int|
                0 <= i < 4 && 0 <= j < 4 ==> entry4(r, i, j) == if i == j {
                    F::one_s()
                } else {
                    F::zero_s()
                },
    {
        Mat4::new(
            F::one(),
            F::zero(),
            F::zero(),
            F::zero(),
            F::zero(),
            F::one(),
            F::zero(),
            F::zero(),
            F::zero(),
            F::zero(),
            F::one(),
            F::zero(),
            F::zero(),
            F::zero(),
            F::zero(),
            F::one(),
        )
    }

    /// The determinant, by cofactor expansion along the first row
    /// into four 3x3 minors.
    pub fn determinant(&self) -> (r: F)
        ensures
            r == det4_s(*self),
    {
        self.x.x.mul(
            Mat3::new(
                self.y.y,
                self.z.y,
                self.p.y,
                self.y.z,
                self.z.z,
                self.p.z,
                self.y.w,
                self.z.w,
                self.p.w,
            ).determinant(),
        ).sub(
            self.y.x.mul(
                Mat3::new(
                    self.x.y,
                    self.z.y,
                    self.p.y,
                    self.x.z,
                    self.z.z,
                    self.p.z,
                    self.x.w,
                    self.z.w,
                    self.p.w,
                ).determinant(),
            ),
        ).add(
            self.z.x.mul(
                Mat3::new(
                    self.x.y,
                    self.y.y,
                    self.p.y,
                    self.x.z,
                    self.y.z,
                    self.p.z,
                    self.x.w,
                    self.y.w,
                    self.p.w,
                ).determinant(),
            ),
        ).sub(
            self.p.x.mul(
                Mat3::new(
                    self.x.y,
                    self.y.y,
                    self.z.y,
                    self.x.z,
                    self.y.z,
                    self.z.z,
                    self.x.w,
                    self.y.w,
                    self.z.w,
                ).determinant(),
            ),
        )
    }

    /// One signed cofactor term of the inverse: the determinant of
    /// the submatrix of the (already transposed) matrix `t` that
    /// omits column `i` and row `j`, signed by the checkerboard
    /// pattern and scaled by the reciprocal determinant `id`.
    fn cofactor(t: &Mat4<F>, i: usize, j: usize, id: F) -> (r: F)
        requires
            i < 4,
            j < 4,
        ensures
            r == det3_s(sub4_s(*t, i as int, j as int)).mul_s(
                if (i + j) % 2 == 1 {
                    F::one_s().neg_s()
                } else {
                    F::one_s()
                },
            ).mul_s(id),
    {
        let mat = if i == 0 {
            Mat3::from_cols(t.y.truncate_n(j), t.z.truncate_n(j), t.p.truncate_n(j))
        } else if i == 1 {
            Mat3::from_cols(t.x.truncate_n(j), t.z.truncate_n(j), t.p.truncate_n(j))
        } else if i == 2 {
            Mat3::from_cols(t.x.truncate_n(j), t.y.truncate_n(j), t.p.truncate_n(j))
        } else {
            Mat3::from_cols(t.x.truncate_n(j), t.y.truncate_n(j), t.z.truncate_n(j))
        };
        let sign = if (i + j) % 2 == 1 {
            F::one().neg()
        } else {
            F::one()
        };
        mat.determinant().mul(sign).mul(id)
    }

    /// The inverse, when the determinant is nonzero (tested exactly,
    /// not within a tolerance); `None` exactly when the matrix is
    /// singular.  Built from the signed cofactors of the transpose
    /// divided by the determinant.
    pub fn inverse(&self) -> (r: Option<Mat4<F>>)
        ensures
            r == if det4_s(*self).eq_s(F::zero_s()) {
                None
            } else {
                Some(inv4_s(*self))
            },
    {
        let d = self.determinant();
        if d.eq_val(F::zero()) {
            return None;
        }
        let id = F::one().div(d);
        let mut t = *self;
        t.transpose();
        Some(
            Mat4::new(
                Self::cofactor(&t, 0, 0, id),
                Self::cofactor(&t, 1, 0, id),
                Self::cofactor(&t, 2, 0, id),
                Self::cofactor(&t, 3, 0, id),
                Self::cofactor(&t, 0, 1, id),
                Self::cofactor(&t, 1, 1, id),
                Self::cofactor(&t, 2, 1, id),
                Self::cofactor(&t, 3, 1, id),
                Self::cofactor(&t, 0, 2, id),
                Self::cofactor(&t, 1, 2, id),
                Self::cofactor(&t, 2, 2, id),
                Self::cofactor(&t, 3, 2, id),
                Self::cofactor(&t, 0, 3, id),
                Self::cofactor(&t, 1, 3, id),
                Self::cofactor(&t, 2, 3, id),
                Self::cofactor(&t, 3, 3, id),
            ),
        )
    }

    /// The componentwise sum of two matrices.
    #[inline]
    pub fn add(&self, rhs: &Mat4<F>) -> (r: Mat4<F>)
        ensures
            r == (Mat4 {
                x: self.x.spec_add(rhs.x),
                y: self.y.spec_add(rhs.y),
                z: self.z.spec_add(rhs.z),
                p: self.p.spec_add(rhs.p),
            }),
    {
        Mat4::from_cols(self.x.add(rhs.x), self.y.add(rhs.y), self.z.add(rhs.z), self.p.add(rhs.p))
    }

    /// Every entry multiplied by a scalar.
    #[inline]
    pub fn mul_scalar(&self, rhs: F) -> (r: Mat4<F>)
        ensures
            r == (Mat4 {
                x: self.x.spec_scale(rhs),
                y: self.y.spec_scale(rhs),
                z: self.z.spec_scale(rhs),
                p: self.p.spec_scale(rhs),
            }),
    {
        Mat4::from_cols(self.x.mul(rhs), self.y.mul(rhs), self.z.mul(rhs), self.p.mul(rhs))
    }

    /// The matrix product: each entry is the dot product of the left
    /// row with the right column.
    pub fn mul_mat(&self, rhs: &Mat4<F>) -> (r: Mat4<F>)
        ensures
            r == mul4_s(*self, *rhs),
    {
        Mat4::new(
            self.x.x.mul(rhs.x.x).add(self.y.x.mul(rhs.x.y)).add(self.z.x.mul(rhs.x.z)).add(self.p.x.mul(rhs.x.w)),
            self.x.x.mul(rhs.y.x).add(self.y.x.mul(rhs.y.y)).add(self.z.x.mul(rhs.y.z)).add(self.p.x.mul(rhs.y.w)),
            self.x.x.mul(rhs.z.x).add(self.y.x.mul(rhs.z.y)).add(self.z.x.mul(rhs.z.z)).add(self.p.x.mul(rhs.z.w)),
            self.x.x.mul(rhs.p.x).add(self.y.x.mul(rhs.p.y)).add(self.z.x.mul(rhs.p.z)).add(self.p.x.mul(rhs.p.w)),
            self.x.y.mul(rhs.x.x).add(self.y.y.mul(rhs.x.y)).add(self.z.y.mul(rhs.x.z)).add(self.p.y.mul(rhs.x.w)),
            self.x.y.mul(rhs.y.x).add(self.y.y.mul(rhs.y.y)).add(self.z.y.mul(rhs.y.z)).add(self.p.y.mul(rhs.y.w)),
            self.x.y.mul(rhs.z.x).add(self.y.y.mul(rhs.z.y)).add(self.z.y.mul(rhs.z.z)).add(self.p.y.mul(rhs.z.w)),
            self.x.y.mul(rhs.p.x).add(self.y.y.mul(rhs.p.y)).add(self.z.y.mul(rhs.p.z)).add(self.p.y.mul(rhs.p.w)),
            self.x.z.mul(rhs.x.x).add(self.y.z.mul(rhs.x.y)).add(self.z.z.mul(rhs.x.z)).add(self.p.z.mul(rhs.x.w)),
            self.x.z.mul(rhs.y.x).add(self.y.z.mul(rhs.y.y)).add(self.z.z.mul(rhs.y.z)).add(self.p.z.mul(rhs.y.w)),
            self.x.z.mul(rhs.z.x).add(self.y.z.mul(rhs.z.y)).add(self.z.z.mul(rhs.z.z)).add(self.p.z.mul(rhs.z.w)),
            self.x.z.mul(rhs.p.x).add(self.y.z.mul(rhs.p.y)).add(self.z.z.mul(rhs.p.z)).add(self.p.z.mul(rhs.p.w)),
            self.x.w.mul(rhs.x.x).add(self.y.w.mul(rhs.x.y)).add(self.z.w.mul(rhs.x.z)).add(self.p.w.mul(rhs.x.w)),
            self.x.w.mul(rhs.y.x).add(self.y.w.mul(rhs.y.y)).add(self.z.w.mul(rhs.y.z)).add(self.p.w.mul(rhs.y.w)),
            self.x.w.mul(rhs.z.x).add(self.y.w.mul(rhs.z.y)).add(self.z.w.mul(rhs.z.z)).add(self.p.w.mul(rhs.z.w)),
            self.x.w.mul(rhs.p.x).add(self.y.w.mul(rhs.p.y)).add(self.z.w.mul(rhs.p.z)).add(self.p.w.mul(rhs.p.w)),
        )
    }

    /// The matrix applied to a column vector on the right.
    #[inline]
    pub fn mul_vec(&self, rhs: &Vec4<F>) -> (r: Vec4<F>)
        ensures
            r == (Vec4 {
                x: entry4(*self, 0, 0).mul_s(rhs.x).add_s(entry4(*self, 0, 1).mul_s(rhs.y)).add_s(entry4(*self, 0, 2).mul_s(rhs.z)).add_s(entry4(*self, 0, 3).mul_s(rhs.w)),
                y: entry4(*self, 1, 0).mul_s(rhs.x).add_s(entry4(*self, 1, 1).mul_s(rhs.y)).add_s(entry4(*self, 1, 2).mul_s(rhs.z)).add_s(entry4(*self, 1, 3).mul_s(rhs.w)),
                z: entry4(*self, 2, 0).mul_s(rhs.x).add_s(entry4(*self, 2, 1).mul_s(rhs.y)).add_s(entry4(*self, 2, 2).mul_s(rhs.z)).add_s(entry4(*self, 2, 3).mul_s(rhs.w)),
                w: entry4(*self, 3, 0).mul_s(rhs.x).add_s(entry4(*self, 3, 1).mul_s(rhs.y)).add_s(entry4(*self, 3, 2).mul_s(rhs.z)).add_s(entry4(*self, 3, 3).mul_s(rhs.w)),
            }),
    {
        Vec4::new(
            self.x.x.mul(rhs.x).add(self.y.x.mul(rhs.y)).add(self.z.x.mul(rhs.z)).add(self.p.x.mul(rhs.w)),
            self.x.y.mul(rhs.x).add(self.y.y.mul(rhs.y)).add(self.z.y.mul(rhs.z)).add(self.p.y.mul(rhs.w)),
            self.x.z.mul(rhs.x).add(self.y.z.mul(rhs.y)).add(self.z.z.mul(rhs.z)).add(self.p.z.mul(rhs.w)),
            self.x.w.mul(rhs.x).add(self.y.w.mul(rhs.y)).add(self.z.w.mul(rhs.z)).add(self.p.w.mul(rhs.w)),
        )
    }

    /// A row vector applied to the matrix on the left.
    #[inline]
    pub fn premul_vec(&self, lhs: &Vec4<F>) -> (r: Vec4<F>)
        ensures
            r == (Vec4 {
                x: lhs.x.mul_s(entry4(*self, 0, 0)).add_s(lhs.y.mul_s(entry4(*self, 1, 0))).add_s(lhs.z.mul_s(entry4(*self, 2, 0))).add_s(lhs.w.mul_s(entry4(*self, 3, 0))),
                y: lhs.x.mul_s(entry4(*self, 0, 1)).add_s(lhs.y.mul_s(entry4(*self, 1, 1))).add_s(lhs.z.mul_s(entry4(*self, 2, 1))).add_s(lhs.w.mul_s(entry4(*self, 3, 1))),
                z: lhs.x.mul_s(entry4(*self, 0, 2)).add_s(lhs.y.mul_s(entry4(*self, 1, 2))).add_s(lhs.z.mul_s(entry4(*self, 2, 2))).add_s(lhs.w.mul_s(entry4(*self, 3, 2))),
                w: lhs.x.mul_s(entry4(*self, 0, 3)).add_s(lhs.y.mul_s(entry4(*self, 1, 3))).add_s(lhs.z.mul_s(entry4(*self, 2, 3))).add_s(lhs.w.mul_s(entry4(*self, 3, 3))),
            }),
    {
        Vec4::new(
            lhs.x.mul(self.x.x).add(lhs.y.mul(self.x.y)).add(lhs.z.mul(self.x.z)).add(lhs.w.mul(self.x.w)),
            lhs.x.mul(self.y.x).add(lhs.y.mul(self.y.y)).add(lhs.z.mul(self.y.z)).add(lhs.w.mul(self.y.w)),
            lhs.x.mul(self.z.x).add(lhs.y.mul(self.z.y)).add(lhs.z.mul(self.z.z)).add(lhs.w.mul(self.z.w)),
            lhs.x.mul(self.p.x).add(lhs.y.mul(self.p.y)).add(lhs.z.mul(self.p.z)).add(lhs.w.mul(self.p.w)),
        )
    }

    /// Whether every off-diagonal entry is exactly zero.
    pub fn is_diagonal(&self) -> (r: bool)
        ensures
            r == (self.x.y.eq_s(F::zero_s()) && self.x.z.eq_s(F::zero_s()) && self.x.w.eq_s(
                F::zero_s(),
            ) && self.y.x.eq_s(F::zero_s()) && self.y.z.eq_s(F::zero_s()) && self.y.w.eq_s(
                F::zero_s(),
            ) && self.z.x.eq_s(F::zero_s()) && self.z.y.eq_s(F::zero_s()) && self.z.w.eq_s(
                F::zero_s(),
            ) && self.p.x.eq_s(F::zero_s()) && self.p.y.eq_s(F::zero_s()) && self.p.z.eq_s(
                F::zero_s(),
            )),
    {
        self.x.y.eq_val(F::zero()) && self.x.z.eq_val(F::zero()) && self.x.w.eq_val(F::zero())
            && self.y.x.eq_val(F::zero()) && self.y.z.eq_val(F::zero()) && self.y.w.eq_val(
            F::zero(),
        ) && self.z.x.eq_val(F::zero()) && self.z.y.eq_val(F::zero()) && self.z.w.eq_val(F::zero())
            && self.p.x.eq_val(F::zero()) && self.p.y.eq_val(F::zero()) && self.p.z.eq_val(
            F::zero(),
        )
    }

    /// Whether the matrix exactly equals its transpose.
    pub fn is_symmetric(&self) -> (r: bool)
        ensures
            r == (self.x.y.eq_s(self.y.x) && self.x.z.eq_s(self.z.x) && self.x.w.eq_s(self.p.x)
                && self.y.z.eq_s(self.z.y) && self.y.w.eq_s(self.p.y) && self.z.w.eq_s(self.p.z)),
    {
        self.x.y.eq_val(self.y.x) && self.x.z.eq_val(self.z.x) && self.x.w.eq_val(self.p.x)
            && self.y.z.eq_val(self.z.y) && self.y.w.eq_val(self.p.y) && self.z.w.eq_val(self.p.z)
    }

    /// Whether the matrix exactly equals the negation of its
    /// transpose, ignoring the diagonal.
    pub fn is_skew_symmetric(&self) -> (r: bool)
        ensures
            r == (self.x.y.eq_s(self.y.x.neg_s()) && self.x.z.eq_s(self.z.x.neg_s())
                && self.x.w.eq_s(self.p.x.neg_s()) && self.y.z.eq_s(self.z.y.neg_s())
                && self.y.w.eq_s(self.p.y.neg_s()) && self.z.w.eq_s(self.p.z.neg_s())),
    {
        self.x.y.eq_val(self.y.x.neg()) && self.x.z.eq_val(self.z.x.neg()) && self.x.w.eq_val(
            self.p.x.neg(),
        ) && self.y.z.eq_val(self.z.y.neg()) && self.y.w.eq_val(self.p.y.neg()) && self.z.w.eq_val(
            self.p.z.neg(),
        )
    }

    /// The translation column as a point.
    #[inline]
    pub fn get_translation(&self) -> (r: Point3<F>)
        ensures
            r == (Point3(Vec3 { x: self.p.x, y: self.p.y, z: self.p.z })),
    {
        Point3(self.p.truncate_w())
    }

    /// Replace the translation column with the given point (its `w`
    /// becomes one); the rest of the matrix is unchanged.
    #[inline]
    pub fn set_translation(&mut self, p: Point3<F>)
        ensures
            final(self).p == (Vec4 { x: p.0.x, y: p.0.y, z: p.0.z, w: F::one_s() }),
            final(self).x == old(self).x,
            final(self).y == old(self).y,
            final(self).z == old(self).z,
    {
        self.p = Vec4::new(p.0.x, p.0.y, p.0.z, F::one());
    }

    /// The homogeneous rotation matrix about the x axis by the given
    /// angle.
    #[inline]
    pub fn from_angle_x(theta: Angle<F>) -> (r: Mat4<F>)
        ensures
            r == mat4_rm(
                F::one_s(),
                F::zero_s(),
                F::zero_s(),
                F::zero_s(),
                F::zero_s(),
                theta@.cos_s(),
                theta@.sin_s().neg_s(),
                F::zero_s(),
                F::zero_s(),
                theta@.sin_s(),
                theta@.cos_s(),
                F::zero_s(),
                F::zero_s(),
                F::zero_s(),
                F::zero_s(),
                F::one_s(),
            ),
    {
        let (s, c) = theta.as_radians().sin_cos();
        Mat4::new(
            F::one(),
            F::zero(),
            F::zero(),
            F::zero(),
            F::zero(),
            c,
            s.neg(),
            F::zero(),
            F::zero(),
            s,
            c,
            F::zero(),
            F::zero(),
            F::zero(),
            F::zero(),
            F::one(),
        )
    }

    /// The homogeneous rotation matrix about the y axis by the given
    /// angle.
    #[inline]
    pub fn from_angle_y(theta: Angle<F>) -> (r: Mat4<F>)
        ensures
            r == mat4_rm(
                theta@.cos_s(),
                F::zero_s(),
                theta@.sin_s(),
                F::zero_s(),
                F::zero_s(),
                F::one_s(),
                F::zero_s(),
                F::zero_s(),
                theta@.sin_s().neg_s(),
                F::zero_s(),
                theta@.cos_s(),
                F::zero_s(),
                F::zero_s(),
                F::zero_s(),
                F::zero_s(),
                F::one_s(),
            ),
    {
        let (s, c) = theta.as_radians().sin_cos();
        Mat4::new(
            c,
            F::zero(),
            s,
            F::zero(),
            F::zero(),
            F::one(),
            F::zero(),
            F::zero(),
            s.neg(),
            F::zero(),
            c,
            F::zero(),
            F::zero(),
            F::zero(),
            F::zero(),
            F::one(),
        )
    }

    /// The homogeneous rotation matrix about the z axis by the given
    /// angle.
    #[inline]
    pub fn from_angle_z(theta: Angle<F>) -> (r: Mat4<F>)
        ensures
            r == mat4_rm(
                theta@.cos_s(),
                theta@.sin_s(),
                F::zero_s(),
                F::zero_s(),
                theta@.sin_s().neg_s(),
                theta@.cos_s(),
                F::zero_s(),
                F::zero_s(),
                F::zero_s(),
                F::zero_s(),
                F::one_s(),
                F::zero_s(),
                F::zero_s(),
                F::zero_s(),
                F::zero_s(),
                F::one_s(),
            ),
    {
        let (s, c) = theta.as_radians().sin_cos();
        Mat4::new(
            c,
            s,
            F::zero(),
            F::zero(),
            s.neg(),
            c,
            F::zero(),
            F::zero(),
            F::zero(),
            F::zero(),
            F::one(),
            F::zero(),
            F::zero(),
            F::zero(),
            F::zero(),
            F::one(),
        )
    }

    /// The homogeneous rotation matrix about an arbitrary unit axis
    /// by the given angle.
    pub fn rotate_axis_angle(axis: Direction3<F>, theta: Angle<F>) -> (r: Mat4<F>)
        ensures
            r == rot_axis4_s(axis@, theta@),
    {
        let a = axis.into_vec3();
        let (s, c) = theta.as_radians().sin_cos();
        let ic = F::one().sub(c);
        Mat4::new(
            a.x.mul(a.x).mul(ic).add(c),
            a.x.mul(a.y).mul(ic).sub(a.z.mul(s)),
            a.x.mul(a.z).mul(ic).add(a.y.mul(s)),
            F::zero(),
            a.y.mul(a.x).mul(ic).add(a.z.mul(s)),
            a.y.mul(a.y).mul(ic).add(c),
            a.y.mul(a.z).mul(ic).sub(a.x.mul(s)),
            F::zero(),
            a.z.mul(a.x).mul(ic).sub(a.y.mul(s)),
            a.z.mul(a.y).mul(ic).add(a.x.mul(s)),
            a.z.mul(a.z).mul(ic).add(c),
            F::zero(),
            F::zero(),
            F::zero(),
            F::zero(),
            F::one(),
        )
    }

    /// The matrix scaling each axis by the corresponding component of
    /// the given vector.
    #[inline]
    pub fn scale(a: &Vec4<F>) -> (r: Mat4<F>)
        ensures
            forall|i: int, j: int|
                0 <= i < 4 && 0 <= j < 4 ==> entry4(r, i, j) == if i == j {
                    sel4(*a, i)
                } else {
                    F::zero_s()
                },
    {
        Mat4::new(
            a.x,
            F::zero(),
            F::zero(),
            F::zero(),
            F::zero(),
            a.y,
            F::zero(),
            F::zero(),
            F::zero(),
            F::zero(),
            a.z,
            F::zero(),
            F::zero(),
            F::zero(),
            F::zero(),
            a.w,
        )
    }

    /// The length of the first row of the upper 3x3 corner, negated
    /// when the corner's first diagonal entry is negative: the x
    /// scale factor of a transform built from scale and rotation.
    pub fn get_x_scale(&self) -> (r: F)
        ensures
            r == (if self.x.x.lt_s(F::zero_s()) {
                sqmag3(self.x.x, self.y.x, self.z.x).sqrt_s().neg_s()
            } else {
                sqmag3(self.x.x, self.y.x, self.z.x).sqrt_s()
            }),
    {
        let scale = self.x.x.mul(self.x.x).add(self.y.x.mul(self.y.x)).add(
            self.z.x.mul(self.z.x),
        ).sqrt();
        if self.x.x.lt(F::zero()) {
            scale.neg()
        } else {
            scale
        }
    }

    /// The y scale factor, as `get_x_scale` but for the second row.
    pub fn get_y_scale(&self) -> (r: F)
        ensures
            r == (if self.y.y.lt_s(F::zero_s()) {
                sqmag3(self.x.y, self.y.y, self.z.y).sqrt_s().neg_s()
            } else {
                sqmag3(self.x.y, self.y.y, self.z.y).sqrt_s()
            }),
    {
        let scale = self.x.y.mul(self.x.y).add(self.y.y.mul(self.y.y)).add(
            self.z.y.mul(self.z.y),
        ).sqrt();
        if self.y.y.lt(F::zero()) {
            scale.neg()
        } else {
            scale
        }
    }

    /// The z scale factor, as `get_x_scale` but for the third row.
    pub fn get_z_scale(&self) -> (r: F)
        ensures
            r == (if self.z.z.lt_s(F::zero_s()) {
                sqmag3(self.x.z, self.y.z, self.z.z).sqrt_s().neg_s()
            } else {
                sqmag3(self.x.z, self.y.z, self.z.z).sqrt_s()
            }),
    {
        let scale = self.x.z.mul(self.x.z).add(self.y.z.mul(self.y.z)).add(
            self.z.z.mul(self.z.z),
        ).sqrt();
        if self.z.z.lt(F::zero()) {
            scale.neg()
        } else {
            scale
        }
    }

    /// The upper-left 3x3 corner.
    #[inline]
    pub fn as_mat3(&self) -> (r: Mat3<F>)
        ensures
            r == (Mat3 {
                x: Vec3 { x: self.x.x, y: self.x.y, z: self.x.z },
                y: Vec3 { x: self.y.x, y: self.y.y, z: self.y.z },
                z: Vec3 { x: self.z.x, y: self.z.y, z: self.z.z },
            }),
    {
        Mat3 {
            x: Vec3::new(self.x.x, self.x.y, self.x.z),
            y: Vec3::new(self.y.x, self.y.y, self.y.z),
            z: Vec3::new(self.z.x, self.z.y, self.z.z),
        }
    }
}


} // verus!
