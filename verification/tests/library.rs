//! Tests for the library at single- and double-precision scalars.

use float_cmp::ApproxEq;
use float_cmp::ApproxEqUlps;
use float_cmp::F32Margin;
use float_cmp::F64Margin;
use siege_math::Angle;
use siege_math::Direction3;
use siege_math::FullFloat;
use siege_math::Mat2;
use siege_math::Mat3;
use siege_math::Mat4;
use siege_math::NQuat;
use siege_math::Point3;
use siege_math::Quat;
use siege_math::ScalarOps;
use siege_math::Vec2;
use siege_math::Vec3;
use siege_math::Vec4;

/// A single-precision scalar for instantiating the library.
#[derive(Debug, Clone, Copy, PartialEq)]
struct Fs(f32);

impl ScalarOps for Fs {
    fn zero_s() -> Self {
        Fs(0.0)
    }
    fn one_s() -> Self {
        Fs(1.0)
    }
    fn two_s() -> Self {
        Fs(2.0)
    }
    fn half_s() -> Self {
        Fs(0.5)
    }
    fn quarter_s() -> Self {
        Fs(0.25)
    }
    fn one_eighty_s() -> Self {
        Fs(180.0)
    }
    fn pi_s() -> Self {
        Fs(std::f32::consts::PI)
    }
    fn add_s(self, rhs: Self) -> Self {
        Fs(self.0 + rhs.0)
    }
    fn sub_s(self, rhs: Self) -> Self {
        Fs(self.0 - rhs.0)
    }
    fn mul_s(self, rhs: Self) -> Self {
        Fs(self.0 * rhs.0)
    }
    fn div_s(self, rhs: Self) -> Self {
        Fs(self.0 / rhs.0)
    }
    fn neg_s(self) -> Self {
        Fs(-self.0)
    }
    fn rem_s(self, rhs: Self) -> Self {
        Fs(self.0 % rhs.0)
    }
    fn sqrt_s(self) -> Self {
        Fs(self.0.sqrt())
    }
    fn sin_s(self) -> Self {
        Fs(self.0.sin())
    }
    fn cos_s(self) -> Self {
        Fs(self.0.cos())
    }
    fn tan_s(self) -> Self {
        Fs(self.0.tan())
    }
    fn acos_s(self) -> Self {
        Fs(self.0.acos())
    }
    fn atan2_s(self, other: Self) -> Self {
        Fs(self.0.atan2(other.0))
    }
    fn eq_s(self, rhs: Self) -> bool {
        self.0 == rhs.0
    }
    fn lt_s(self, rhs: Self) -> bool {
        self.0 < rhs.0
    }
    fn approx_one(self) -> bool {
        self.0.approx_eq(1.0, F32Margin::default())
    }
    fn approx_one_wide(self) -> bool {
        self.0.approx_eq(1.0, F32Margin { epsilon: 10.0 * f32::EPSILON, ulps: 10 })
    }
    fn finite(self) -> bool {
        self.0.is_finite()
    }
    fn normalizable2(x: Self, y: Self) -> bool {
        let m = (x.0 * x.0 + y.0 * y.0).sqrt();
        let (nx, ny) = (x.0 / m, y.0 / m);
        (nx * nx + ny * ny).sqrt().approx_eq(1.0, F32Margin { epsilon: 10.0 * f32::EPSILON, ulps: 10 })
    }
    fn normalizable3(x: Self, y: Self, z: Self) -> bool {
        let m = (x.0 * x.0 + y.0 * y.0 + z.0 * z.0).sqrt();
        let (nx, ny, nz) = (x.0 / m, y.0 / m, z.0 / m);
        (nx * nx + ny * ny + nz * nz).sqrt().approx_eq(1.0, F32Margin { epsilon: 10.0 * f32::EPSILON, ulps: 10 })
    }
    fn normalizable4(x: Self, y: Self, z: Self, w: Self) -> bool {
        let m = (w.0 * w.0 + (x.0 * x.0 + y.0 * y.0 + z.0 * z.0)).sqrt();
        let (nx, ny, nz, nw) = (x.0 / m, y.0 / m, z.0 / m, w.0 / m);
        (nw * nw + (nx * nx + ny * ny + nz * nz)).sqrt().approx_eq(1.0, F32Margin::default())
    }
    fn directions_normalizable(
        sx: Self,
        sy: Self,
        sz: Self,
        ex: Self,
        ey: Self,
        ez: Self,
    ) -> bool {
        let e = sx.0 * ex.0 + sy.0 * ey.0 + sz.0 * ez.0;
        let term = (2.0 * (1.0 + e)).sqrt();
        let (vx, vy, vz) = (sy.0 * ez.0 - sz.0 * ey.0, sz.0 * ex.0 - sx.0 * ez.0, sx.0 * ey.0 - sy.0 * ex.0);
        let (qx, qy, qz, qw) = (vx / term, vy / term, vz / term, term / 2.0);
        (qw * qw + (qx * qx + qy * qy + qz * qz)).sqrt().approx_eq(1.0, F32Margin::default())
    }
    fn mat_extractable(
        e00: Self,
        e01: Self,
        e02: Self,
        e10: Self,
        e11: Self,
        e12: Self,
        e20: Self,
        e21: Self,
        e22: Self,
    ) -> bool {
        let sum = e00.0 + e11.0 + e22.0;
        let x;
        let y;
        let z;
        let w;
        if sum > 0.0 {
            w = (sum + 1.0).sqrt() * 0.5;
            let f = 0.25 / w;
            x = (e12.0 - e21.0) * f;
            y = (e20.0 - e02.0) * f;
            z = (e01.0 - e10.0) * f;
        } else if e00.0 > e11.0 && e00.0 > e22.0 {
            x = (e00.0 - e11.0 - e22.0 + 1.0).sqrt() * 0.5;
            let f = 0.25 / x;
            y = (e01.0 + e10.0) * f;
            z = (e20.0 + e02.0) * f;
            w = (e12.0 - e21.0) * f;
        } else if e11.0 > e22.0 {
            y = (e11.0 - e00.0 - e22.0 + 1.0).sqrt() * 0.5;
            let f = 0.25 / y;
            x = (e01.0 + e10.0) * f;
            z = (e12.0 + e21.0) * f;
            w = (e20.0 - e02.0) * f;
        } else {
            z = (e22.0 - e00.0 - e11.0 + 1.0).sqrt() * 0.5;
            let f = 0.25 / z;
            x = (e20.0 + e02.0) * f;
            y = (e12.0 + e21.0) * f;
            w = (e01.0 - e10.0) * f;
        }
        Fs((w * w + (x * x + y * y + z * z)).sqrt()).approx_one()
    }
    fn zero() -> Self {
        Fs(0.0)
    }
    fn one() -> Self {
        Fs(1.0)
    }
    fn two() -> Self {
        Fs(2.0)
    }
    fn half() -> Self {
        Fs(0.5)
    }
    fn quarter() -> Self {
        Fs(0.25)
    }
    fn one_eighty() -> Self {
        Fs(180.0)
    }
    fn pi() -> Self {
        Fs(std::f32::consts::PI)
    }
    fn add(self, rhs: Self) -> Self {
        Fs(self.0 + rhs.0)
    }
    fn sub(self, rhs: Self) -> Self {
        Fs(self.0 - rhs.0)
    }
    fn mul(self, rhs: Self) -> Self {
        Fs(self.0 * rhs.0)
    }
    fn div(self, rhs: Self) -> Self {
        Fs(self.0 / rhs.0)
    }
    fn neg(self) -> Self {
        Fs(-self.0)
    }
    fn rem(self, rhs: Self) -> Self {
        Fs(self.0 % rhs.0)
    }
    fn sqrt(self) -> Self {
        Fs(self.0.sqrt())
    }
    fn sin_cos(self) -> (Self, Self) {
        let (s, c) = self.0.sin_cos();
        (Fs(s), Fs(c))
    }
    fn tan(self) -> Self {
        Fs(self.0.tan())
    }
    fn acos(self) -> Self {
        Fs(self.0.acos())
    }
    fn atan2(self, other: Self) -> Self {
        Fs(self.0.atan2(other.0))
    }
    fn eq_val(self, rhs: Self) -> bool {
        self.0 == rhs.0
    }
    fn lt(self, rhs: Self) -> bool {
        self.0 < rhs.0
    }
    fn is_approx_one(self) -> bool {
        ScalarOps::approx_one(self)
    }
    fn is_approx_one_wide(self) -> bool {
        ScalarOps::approx_one_wide(self)
    }
}

impl FullFloat for Fs {
    fn law_identity_unit() {
    }
    fn law_unit4_conjugate(_x: Self, _y: Self, _z: Self, _w: Self) {
    }
    fn law_unit3_negate(_x: Self, _y: Self, _z: Self) {
    }
    fn law_normalize2(_x: Self, _y: Self) {
    }
    fn law_normalize3(_x: Self, _y: Self, _z: Self) {
    }
    fn law_normalize4(_x: Self, _y: Self, _z: Self, _w: Self) {
    }
    fn law_product_normalizable(
        _ax: Self,
        _ay: Self,
        _az: Self,
        _aw: Self,
        _bx: Self,
        _by: Self,
        _bz: Self,
        _bw: Self,
    ) {
    }
    fn law_axis_angle_normalizable(_x: Self, _y: Self, _z: Self, _theta: Self) {
    }
    fn law_directions_unit(_sx: Self, _sy: Self, _sz: Self, _ex: Self, _ey: Self, _ez: Self) {
    }
    fn law_mat_extract_unit(
        _e00: Self,
        _e01: Self,
        _e02: Self,
        _e10: Self,
        _e11: Self,
        _e12: Self,
        _e20: Self,
        _e21: Self,
        _e22: Self,
    ) {
    }
    fn law_lat_long_unit(_lat: Self, _lon: Self) {
    }
}

/// A double-precision scalar for instantiating the library.
#[derive(Debug, Clone, Copy, PartialEq)]
struct Fd(f64);

impl ScalarOps for Fd {
    fn zero_s() -> Self {
        Fd(0.0)
    }
    fn one_s() -> Self {
        Fd(1.0)
    }
    fn two_s() -> Self {
        Fd(2.0)
    }
    fn half_s() -> Self {
        Fd(0.5)
    }
    fn quarter_s() -> Self {
        Fd(0.25)
    }
    fn one_eighty_s() -> Self {
        Fd(180.0)
    }
    fn pi_s() -> Self {
        Fd(std::f64::consts::PI)
    }
    fn add_s(self, rhs: Self) -> Self {
        Fd(self.0 + rhs.0)
    }
    fn sub_s(self, rhs: Self) -> Self {
        Fd(self.0 - rhs.0)
    }
    fn mul_s(self, rhs: Self) -> Self {
        Fd(self.0 * rhs.0)
    }
    fn div_s(self, rhs: Self) -> Self {
        Fd(self.0 / rhs.0)
    }
    fn neg_s(self) -> Self {
        Fd(-self.0)
    }
    fn rem_s(self, rhs: Self) -> Self {
        Fd(self.0 % rhs.0)
    }
    fn sqrt_s(self) -> Self {
        Fd(self.0.sqrt())
    }
    fn sin_s(self) -> Self {
        Fd(self.0.sin())
    }
    fn cos_s(self) -> Self {
        Fd(self.0.cos())
    }
    fn tan_s(self) -> Self {
        Fd(self.0.tan())
    }
    fn acos_s(self) -> Self {
        Fd(self.0.acos())
    }
    fn atan2_s(self, other: Self) -> Self {
        Fd(self.0.atan2(other.0))
    }
    fn eq_s(self, rhs: Self) -> bool {
        self.0 == rhs.0
    }
    fn lt_s(self, rhs: Self) -> bool {
        self.0 < rhs.0
    }
    fn approx_one(self) -> bool {
        self.0.approx_eq(1.0, F64Margin::default())
    }
    fn approx_one_wide(self) -> bool {
        self.0.approx_eq(1.0, F64Margin { epsilon: 10.0 * f64::EPSILON, ulps: 10 })
    }
    fn finite(self) -> bool {
        self.0.is_finite()
    }
    fn normalizable2(x: Self, y: Self) -> bool {
        let m = (x.0 * x.0 + y.0 * y.0).sqrt();
        let (nx, ny) = (x.0 / m, y.0 / m);
        (nx * nx + ny * ny).sqrt().approx_eq(1.0, F64Margin { epsilon: 10.0 * f64::EPSILON, ulps: 10 })
    }
    fn normalizable3(x: Self, y: Self, z: Self) -> bool {
        let m = (x.0 * x.0 + y.0 * y.0 + z.0 * z.0).sqrt();
        let (nx, ny, nz) = (x.0 / m, y.0 / m, z.0 / m);
        (nx * nx + ny * ny + nz * nz).sqrt().approx_eq(1.0, F64Margin { epsilon: 10.0 * f64::EPSILON, ulps: 10 })
    }
    fn normalizable4(x: Self, y: Self, z: Self, w: Self) -> bool {
        let m = (w.0 * w.0 + (x.0 * x.0 + y.0 * y.0 + z.0 * z.0)).sqrt();
        let (nx, ny, nz, nw) = (x.0 / m, y.0 / m, z.0 / m, w.0 / m);
        (nw * nw + (nx * nx + ny * ny + nz * nz)).sqrt().approx_eq(1.0, F64Margin::default())
    }
    fn directions_normalizable(
        sx: Self,
        sy: Self,
        sz: Self,
        ex: Self,
        ey: Self,
        ez: Self,
    ) -> bool {
        let e = sx.0 * ex.0 + sy.0 * ey.0 + sz.0 * ez.0;
        let term = (2.0 * (1.0 + e)).sqrt();
        let (vx, vy, vz) = (sy.0 * ez.0 - sz.0 * ey.0, sz.0 * ex.0 - sx.0 * ez.0, sx.0 * ey.0 - sy.0 * ex.0);
        let (qx, qy, qz, qw) = (vx / term, vy / term, vz / term, term / 2.0);
        (qw * qw + (qx * qx + qy * qy + qz * qz)).sqrt().approx_eq(1.0, F64Margin::default())
    }
    fn mat_extractable(
        e00: Self,
        e01: Self,
        e02: Self,
        e10: Self,
        e11: Self,
        e12: Self,
        e20: Self,
        e21: Self,
        e22: Self,
    ) -> bool {
        let sum = e00.0 + e11.0 + e22.0;
        let x;
        let y;
        let z;
        let w;
        if sum > 0.0 {
            w = (sum + 1.0).sqrt() * 0.5;
            let f = 0.25 / w;
            x = (e12.0 - e21.0) * f;
            y = (e20.0 - e02.0) * f;
            z = (e01.0 - e10.0) * f;
        } else if e00.0 > e11.0 && e00.0 > e22.0 {
            x = (e00.0 - e11.0 - e22.0 + 1.0).sqrt() * 0.5;
            let f = 0.25 / x;
            y = (e01.0 + e10.0) * f;
            z = (e20.0 + e02.0) * f;
            w = (e12.0 - e21.0) * f;
        } else if e11.0 > e22.0 {
            y = (e11.0 - e00.0 - e22.0 + 1.0).sqrt() * 0.5;
            let f = 0.25 / y;
            x = (e01.0 + e10.0) * f;
            z = (e12.0 + e21.0) * f;
            w = (e20.0 - e02.0) * f;
        } else {
            z = (e22.0 - e00.0 - e11.0 + 1.0).sqrt() * 0.5;
            let f = 0.25 / z;
            x = (e20.0 + e02.0) * f;
            y = (e12.0 + e21.0) * f;
            w = (e01.0 - e10.0) * f;
        }
        Fd((w * w + (x * x + y * y + z * z)).sqrt()).approx_one()
    }
    fn zero() -> Self {
        Fd(0.0)
    }
    fn one() -> Self {
        Fd(1.0)
    }
    fn two() -> Self {
        Fd(2.0)
    }
    fn half() -> Self {
        Fd(0.5)
    }
    fn quarter() -> Self {
        Fd(0.25)
    }
    fn one_eighty() -> Self {
        Fd(180.0)
    }
    fn pi() -> Self {
        Fd(std::f64::consts::PI)
    }
    fn add(self, rhs: Self) -> Self {
        Fd(self.0 + rhs.0)
    }
    fn sub(self, rhs: Self) -> Self {
        Fd(self.0 - rhs.0)
    }
    fn mul(self, rhs: Self) -> Self {
        Fd(self.0 * rhs.0)
    }
    fn div(self, rhs: Self) -> Self {
        Fd(self.0 / rhs.0)
    }
    fn neg(self) -> Self {
        Fd(-self.0)
    }
    fn rem(self, rhs: Self) -> Self {
        Fd(self.0 % rhs.0)
    }
    fn sqrt(self) -> Self {
        Fd(self.0.sqrt())
    }
    fn sin_cos(self) -> (Self, Self) {
        let (s, c) = self.0.sin_cos();
        (Fd(s), Fd(c))
    }
    fn tan(self) -> Self {
        Fd(self.0.tan())
    }
    fn acos(self) -> Self {
        Fd(self.0.acos())
    }
    fn atan2(self, other: Self) -> Self {
        Fd(self.0.atan2(other.0))
    }
    fn eq_val(self, rhs: Self) -> bool {
        self.0 == rhs.0
    }
    fn lt(self, rhs: Self) -> bool {
        self.0 < rhs.0
    }
    fn is_approx_one(self) -> bool {
        ScalarOps::approx_one(self)
    }
    fn is_approx_one_wide(self) -> bool {
        ScalarOps::approx_one_wide(self)
    }
}

impl FullFloat for Fd {
    fn law_identity_unit() {
    }
    fn law_unit4_conjugate(_x: Self, _y: Self, _z: Self, _w: Self) {
    }
    fn law_unit3_negate(_x: Self, _y: Self, _z: Self) {
    }
    fn law_normalize2(_x: Self, _y: Self) {
    }
    fn law_normalize3(_x: Self, _y: Self, _z: Self) {
    }
    fn law_normalize4(_x: Self, _y: Self, _z: Self, _w: Self) {
    }
    fn law_product_normalizable(
        _ax: Self,
        _ay: Self,
        _az: Self,
        _aw: Self,
        _bx: Self,
        _by: Self,
        _bz: Self,
        _bw: Self,
    ) {
    }
    fn law_axis_angle_normalizable(_x: Self, _y: Self, _z: Self, _theta: Self) {
    }
    fn law_directions_unit(_sx: Self, _sy: Self, _sz: Self, _ex: Self, _ey: Self, _ez: Self) {
    }
    fn law_mat_extract_unit(
        _e00: Self,
        _e01: Self,
        _e02: Self,
        _e10: Self,
        _e11: Self,
        _e12: Self,
        _e20: Self,
        _e21: Self,
        _e22: Self,
    ) {
    }
    fn law_lat_long_unit(_lat: Self, _lon: Self) {
    }
}

fn aeq(a: Fs, b: Fs, epsilon: f32, ulps: i32) -> bool {
    a.0.approx_eq(b.0, F32Margin { epsilon, ulps })
}

// ---------------------------------------------------------------------------
// Angle

#[test]
fn test_radians() {
    let f: f32 = 1.234;
    let a = Angle::from_radians(f);
    assert_eq!(a.as_radians(), f);
}

#[test]
fn test_degrees() {
    let f = Fs(1.234);
    let a = Angle::from_degrees(f);
    assert_eq!(a.as_degrees(), f);
}

#[test]
fn test_cycles() {
    let f = Fs(1.234);
    let a = Angle::from_cycles(f);
    assert_eq!(a.as_cycles(), f);
}

#[test]
fn test_relations() {
    let h1 = Angle::from_radians(Fs(std::f32::consts::PI));
    let h2 = Angle::from_degrees(Fs(180.0));
    let h3 = Angle::from_cycles(Fs(0.5));
    assert!(aeq(h1.as_radians(), h2.as_radians(), 2.0 * f32::EPSILON, 2));
    assert!(aeq(h1.as_radians(), h3.as_radians(), 2.0 * f32::EPSILON, 2));
    assert!(aeq(h2.as_radians(), h3.as_radians(), 2.0 * f32::EPSILON, 2));
}

#[test]
fn test_vector_angle() {
    let q1 = Vec2::new(Fs(1.0), Fs(1.0));
    let q2 = Vec2::new(Fs(-1.0), Fs(1.0));
    let q3 = Vec2::new(Fs(-1.0), Fs(-1.0));
    let q4 = Vec2::new(Fs(1.0), Fs(-1.0));

    let e = 2.0 * f32::EPSILON;
    assert!(aeq(
        Angle::of_vector(&q1).as_radians(),
        Angle::from_cycles(Fs(1.0 / 8.0)).as_radians(),
        e,
        2
    ));
    assert!(aeq(
        Angle::of_vector(&q2).as_radians(),
        Angle::from_cycles(Fs(3.0 / 8.0)).as_radians(),
        e,
        2
    ));
    assert!(aeq(
        Angle::of_vector(&q3).as_radians(),
        Angle::from_cycles(Fs(-3.0 / 8.0)).as_radians(),
        e,
        2
    ));
    assert!(aeq(
        Angle::of_vector(&q4).as_radians(),
        Angle::from_cycles(Fs(-1.0 / 8.0)).as_radians(),
        e,
        2
    ));
}

#[test]
fn test_normalize() {
    let mut a1 = Angle::from_degrees(Fs(370.0_f32));
    a1.normalize();
    assert!(aeq(a1.as_degrees(), Fs(10.0), 2.0 * f32::EPSILON, 2));

    let mut a1 = Angle::from_degrees(Fs(-370.0_f32));
    a1.normalize();
    assert!(aeq(a1.as_degrees(), Fs(350.0), 2.0 * f32::EPSILON, 2));
}

#[test]
fn angle_arithmetic() {
    let a = Angle::from_radians(Fs(1.5));
    let b = Angle::from_radians(Fs(0.25));
    assert_eq!(a.add(b).as_radians(), Fs(1.75));
    assert_eq!(a.sub(b).as_radians(), Fs(1.25));
    assert_eq!(a.mul(Fs(2.0)).as_radians(), Fs(3.0));
    assert_eq!(a.div(Fs(2.0)).as_radians(), Fs(0.75));
    assert_eq!(a.neg().as_radians(), Fs(-1.5));
}

// ---------------------------------------------------------------------------
// Vectors

#[test]
fn vector_test_new() {
    assert_eq!(Vec2::new(1.0_f32, 2.0_f32), Vec2 { x: 1.0, y: 2.0 });
}

#[test]
fn mod_test_new() {
    assert_eq!(Vec2::new(1.0_f32, 2.0_f32), Vec2 { x: 1.0, y: 2.0 });
}

#[test]
fn vector_test_zero() {
    assert_eq!(Vec2::new(Fs(0.0), Fs(0.0)), Vec2::zero());
    let z: Vec2<Fs> = Vec2::zero();
    assert_eq!(z.index(0), Fs(0.0));
    assert_eq!(z.index(1), Fs(0.0));
}

#[test]
fn mod_test_zero() {
    assert_eq!(Vec2::new(Fs(0.0), Fs(0.0)), Vec2::zero());
    let z: Vec2<Fs> = Vec2::zero();
    assert_eq!(z.index(0), Fs(0.0));
    assert_eq!(z.index(1), Fs(0.0));
}

#[test]
fn vector_test_squared_magnitude() {
    let v = Vec2::new(Fs(1.0), Fs(2.0));
    assert!(aeq(v.squared_magnitude(), Fs(5.0), f32::EPSILON, 1));
}

#[test]
fn mod_test_squared_magnitude() {
    let v = Vec2::new(Fs(1.0), Fs(2.0));
    assert!(aeq(v.squared_magnitude(), Fs(5.0), f32::EPSILON, 1));
}

#[test]
fn vector_test_index() {
    let v: Vec2<f32> = Vec2::new(1.0, 2.0);
    assert_eq!(v.index(0), v.x);
    assert_eq!(v.index(1), v.y);
}

#[test]
fn test_index() {
    let v: Vec2<f32> = Vec2::new(1.0, 2.0);
    assert_eq!(v.index(0), v.x);
    assert_eq!(v.index(1), v.y);
}

#[test]
fn mod_test_index() {
    let v: Vec2<f32> = Vec2::new(1.0, 2.0);
    assert_eq!(v.index(0), v.x);
    assert_eq!(v.index(1), v.y);
}

#[test]
fn test_new() {
    assert_eq!(Vec2::new(1.0_f32, 2.0_f32), Vec2 { x: 1.0, y: 2.0 });
}

#[test]
fn test_zero() {
    assert_eq!(Vec2::new(Fs(0.0), Fs(0.0)), Vec2::zero());
    let z: Vec2<Fs> = Vec2::zero();
    assert_eq!(z.index(0), Fs(0.0));
    assert_eq!(z.index(1), Fs(0.0));
}

#[test]
fn test_squared_magnitude() {
    let v = Vec2::new(Fs(1.0), Fs(2.0));
    assert!(aeq(v.squared_magnitude(), Fs(5.0), f32::EPSILON, 1));
}

#[test]
fn vector_products() {
    let a = Vec3::new(Fs(1.0), Fs(2.0), Fs(3.0));
    let b = Vec3::new(Fs(4.0), Fs(5.0), Fs(6.0));
    assert_eq!(a.dot(b), Fs(32.0));
    assert_eq!(a.cross(b), Vec3::new(Fs(-3.0), Fs(6.0), Fs(-3.0)));
    let c = Vec3::new(Fs(7.0), Fs(8.0), Fs(9.0));
    assert_eq!(a.triple_product(b, c), Fs(0.0));
    assert_eq!(a.add(b), Vec3::new(Fs(5.0), Fs(7.0), Fs(9.0)));
    assert_eq!(b.sub(a), Vec3::new(Fs(3.0), Fs(3.0), Fs(3.0)));
    assert_eq!(a.mul(Fs(2.0)), Vec3::new(Fs(2.0), Fs(4.0), Fs(6.0)));
    assert_eq!(a.div(Fs(2.0)), Vec3::new(Fs(0.5), Fs(1.0), Fs(1.5)));
    assert_eq!(a.neg(), Vec3::new(Fs(-1.0), Fs(-2.0), Fs(-3.0)));
    assert_eq!(Vec3::new(Fs(3.0), Fs(4.0), Fs(0.0)).magnitude(), Fs(5.0));
}

#[test]
fn vector_projection() {
    let v = Vec3::new(Fs(3.0), Fs(4.0), Fs(5.0));
    let axis = Vec3::new(Fs(2.0), Fs(0.0), Fs(0.0));
    assert_eq!(v.project_onto(axis), Vec3::new(Fs(3.0), Fs(0.0), Fs(0.0)));
    assert_eq!(v.reject_onto(axis), Vec3::new(Fs(0.0), Fs(4.0), Fs(5.0)));
}

#[test]
fn vector_truncate() {
    let v = Vec4::new(Fs(1.0), Fs(2.0), Fs(3.0), Fs(4.0));
    assert_eq!(v.truncate_n(0), Vec3::new(Fs(2.0), Fs(3.0), Fs(4.0)));
    assert_eq!(v.truncate_w(), Vec3::new(Fs(1.0), Fs(2.0), Fs(3.0)));
    let u = Vec3::new(Fs(1.0), Fs(2.0), Fs(3.0));
    assert_eq!(u.truncate_n(1), Vec2::new(Fs(1.0), Fs(3.0)));
    assert_eq!(u.truncate_y(), Vec2::new(Fs(1.0), Fs(3.0)));
}

// ---------------------------------------------------------------------------
// Matrices

#[test]
fn matrix_test_index() {
    let m: Mat2<f32> = Mat2::new(1.0, 2.0, 3.0, 4.0);
    assert_eq!(m.index(0, 0), 1.0);
    assert_eq!(m.index(0, 1), 2.0);
    assert_eq!(m.index(1, 0), 3.0);
    assert_eq!(m.index(1, 1), 4.0);
}

#[test]
fn test_transpose() {
    let mut m: Mat2<f32> = Mat2::new(1.0, 2.0, 3.0, 4.0);
    m.transpose();
    assert_eq!(m, Mat2::new(1.0, 3.0, 2.0, 4.0));

    let mut m: Mat3<f32> = Mat3::new(1.0, 2.0, 3.0, 4.0, 5.0, 6.0, 7.0, 8.0, 9.0);
    m.transpose();
    assert_eq!(m, Mat3::new(1.0, 4.0, 7.0, 2.0, 5.0, 8.0, 3.0, 6.0, 9.0));

    let mut m: Mat4<f32> = Mat4::new(
        1.0, 2.0, 3.0, 4.0, 5.0, 6.0, 7.0, 8.0, 9.0, 10.0, 11.0, 12.0, 13.0, 14.0, 15.0, 16.0,
    );
    m.transpose();
    assert_eq!(
        m,
        Mat4::new(
            1.0, 5.0, 9.0, 13.0, 2.0, 6.0, 10.0, 14.0, 3.0, 7.0, 11.0, 15.0, 4.0, 8.0, 12.0, 16.0,
        )
    );
}

#[test]
fn test_mul_mat() {
    let left: Mat2<Fs> = Mat2::new(Fs(1.0), Fs(2.0), Fs(3.0), Fs(4.0));
    let right: Mat2<Fs> = Mat2::new(Fs(6.0), Fs(7.0), Fs(8.0), Fs(9.0));
    let product = left.mul_mat(&right);
    assert_eq!(product, Mat2::new(Fs(22.0), Fs(25.0), Fs(50.0), Fs(57.0)));

    let left: Mat3<Fs> = Mat3::new(
        Fs(1.0),
        Fs(2.0),
        Fs(3.0),
        Fs(4.0),
        Fs(5.0),
        Fs(6.0),
        Fs(7.0),
        Fs(8.0),
        Fs(9.0),
    );
    let right: Mat3<Fs> = Mat3::new(
        Fs(10.0),
        Fs(11.0),
        Fs(12.0),
        Fs(13.0),
        Fs(14.0),
        Fs(15.0),
        Fs(16.0),
        Fs(17.0),
        Fs(18.0),
    );
    let product = left.mul_mat(&right);
    assert_eq!(product.index(0, 0), Fs(84.0));
    assert_eq!(product.index(0, 1), Fs(90.0));
    assert_eq!(product.index(0, 2), Fs(96.0));
    assert_eq!(product.index(1, 0), Fs(201.0));
    assert_eq!(product.index(1, 1), Fs(216.0));
    assert_eq!(product.index(1, 2), Fs(231.0));
    assert_eq!(product.index(2, 0), Fs(318.0));
    assert_eq!(product.index(2, 1), Fs(342.0));
    assert_eq!(product.index(2, 2), Fs(366.0));

    let left: Mat4<Fs> = Mat4::new(
        Fs(1.0),
        Fs(2.0),
        Fs(3.0),
        Fs(4.0),
        Fs(4.0),
        Fs(3.0),
        Fs(2.0),
        Fs(1.0),
        Fs(5.0),
        Fs(6.0),
        Fs(2.0),
        Fs(4.0),
        Fs(7.0),
        Fs(1.0),
        Fs(0.0),
        Fs(3.0),
    );
    let right: Mat4<Fs> = Mat4::new(
        Fs(1.0),
        Fs(6.0),
        Fs(5.0),
        Fs(2.0),
        Fs(3.0),
        Fs(3.0),
        Fs(3.0),
        Fs(3.0),
        Fs(7.0),
        Fs(8.0),
        Fs(4.0),
        Fs(1.0),
        Fs(9.0),
        Fs(2.0),
        Fs(0.0),
        Fs(5.0),
    );
    let product = left.mul_mat(&right);
    assert_eq!(product.index(0, 0), Fs(64.0));
    assert_eq!(product.index(0, 1), Fs(44.0));
    assert_eq!(product.index(0, 2), Fs(23.0));
    assert_eq!(product.index(0, 3), Fs(31.0));
    assert_eq!(product.index(1, 0), Fs(36.0));
    assert_eq!(product.index(1, 1), Fs(51.0));
    assert_eq!(product.index(1, 2), Fs(37.0));
    assert_eq!(product.index(1, 3), Fs(24.0));
    assert_eq!(product.index(2, 0), Fs(73.0));
    assert_eq!(product.index(2, 1), Fs(72.0));
    assert_eq!(product.index(2, 2), Fs(51.0));
    assert_eq!(product.index(2, 3), Fs(50.0));
    assert_eq!(product.index(3, 0), Fs(37.0));
    assert_eq!(product.index(3, 1), Fs(51.0));
    assert_eq!(product.index(3, 2), Fs(38.0));
    assert_eq!(product.index(3, 3), Fs(32.0));
}

#[test]
fn test_mul_vec() {
    let left: Mat2<Fs> = Mat2::new(Fs(1.0), Fs(2.0), Fs(3.0), Fs(4.0));
    let right: Vec2<Fs> = Vec2::new(Fs(10.0), Fs(20.0));
    let product = left.mul_vec(&right);
    assert_eq!(product.index(0), Fs(50.0));
    assert_eq!(product.index(1), Fs(110.0));
    let product = left.premul_vec(&right);
    assert_eq!(product.index(0), Fs(70.0));
    assert_eq!(product.index(1), Fs(100.0));

    let left: Mat3<Fs> = Mat3::new(
        Fs(1.0),
        Fs(2.0),
        Fs(3.0),
        Fs(4.0),
        Fs(5.0),
        Fs(6.0),
        Fs(7.0),
        Fs(8.0),
        Fs(9.0),
    );
    let right: Vec3<Fs> = Vec3::new(Fs(10.0), Fs(20.0), Fs(30.0));
    let product = left.mul_vec(&right);
    assert_eq!(product.index(0), Fs(140.0));
    assert_eq!(product.index(1), Fs(320.0));
    assert_eq!(product.index(2), Fs(500.0));
    let product = left.premul_vec(&right);
    assert_eq!(product.index(0), Fs(300.0));
    assert_eq!(product.index(1), Fs(360.0));
    assert_eq!(product.index(2), Fs(420.0));

    let left: Mat4<Fs> = Mat4::new(
        Fs(1.0),
        Fs(2.0),
        Fs(3.0),
        Fs(4.0),
        Fs(5.0),
        Fs(6.0),
        Fs(7.0),
        Fs(8.0),
        Fs(9.0),
        Fs(10.0),
        Fs(11.0),
        Fs(12.0),
        Fs(13.0),
        Fs(14.0),
        Fs(15.0),
        Fs(16.0),
    );
    let right: Vec4<Fs> = Vec4::new(Fs(1.0), Fs(2.0), Fs(3.0), Fs(4.0));
    let product = left.mul_vec(&right);
    assert_eq!(product.index(0), Fs(30.0));
    assert_eq!(product.index(1), Fs(70.0));
    assert_eq!(product.index(2), Fs(110.0));
    assert_eq!(product.index(3), Fs(150.0));
    let product = left.premul_vec(&right);
    assert_eq!(product.index(0), Fs(90.0));
    assert_eq!(product.index(1), Fs(100.0));
    assert_eq!(product.index(2), Fs(110.0));
    assert_eq!(product.index(3), Fs(120.0));
}

#[test]
fn test_inverse() {
    assert_eq!(Mat2::<Fd>::identity().inverse().unwrap(), Mat2::<Fd>::identity());
    assert_eq!(Mat3::<Fd>::identity().inverse().unwrap(), Mat3::<Fd>::identity());
    assert_eq!(Mat4::<Fd>::identity().inverse().unwrap(), Mat4::<Fd>::identity());

    // This one works even with floating point inaccuracies.
    let m = Mat3::new(
        Fd(7.0),
        Fd(2.0),
        Fd(1.0),
        Fd(0.0),
        Fd(3.0),
        Fd(-1.0),
        Fd(-3.0),
        Fd(4.0),
        Fd(-2.0),
    );
    let inv = m.inverse().unwrap();
    assert_eq!(
        inv,
        Mat3::new(
            Fd(-2.0),
            Fd(8.0),
            Fd(-5.0),
            Fd(3.0),
            Fd(-11.0),
            Fd(7.0),
            Fd(9.0),
            Fd(-34.0),
            Fd(21.0),
        )
    );

    // This one works even with floating point inaccuracies.
    let m = Mat4::new(
        Fd(1.0),
        Fd(1.0),
        Fd(1.0),
        Fd(0.0),
        Fd(0.0),
        Fd(3.0),
        Fd(1.0),
        Fd(2.0),
        Fd(2.0),
        Fd(3.0),
        Fd(1.0),
        Fd(0.0),
        Fd(1.0),
        Fd(0.0),
        Fd(2.0),
        Fd(1.0),
    );
    let inv = m.inverse().unwrap();
    assert_eq!(
        inv,
        Mat4::new(
            Fd(-3.0),
            Fd(-0.5),
            Fd(1.5),
            Fd(1.0),
            Fd(1.0),
            Fd(0.25),
            Fd(-0.25),
            Fd(-0.5),
            Fd(3.0),
            Fd(0.25),
            Fd(-1.25),
            Fd(-0.5),
            Fd(-3.0),
            Fd(0.0),
            Fd(1.0),
            Fd(1.0),
        )
    );
}

#[test]
fn matrix_test_axis_angle() {
    let axis: Direction3<Fs> = Direction3::from_vec3(Vec3::new(Fs(1.0), Fs(0.0), Fs(0.0)));
    let angle = Angle::new_radians(Fs(std::f32::consts::FRAC_PI_4));

    let start: Mat4<Fs> = Mat4::new(
        Fs(1.0),
        Fs(0.0),
        Fs(0.0),
        Fs(5.0),
        Fs(0.0),
        Fs(1.0),
        Fs(0.0),
        Fs(5.0),
        Fs(0.0),
        Fs(0.0),
        Fs(1.0),
        Fs(5.0),
        Fs(0.0),
        Fs(0.0),
        Fs(0.0),
        Fs(1.0),
    );

    let rot = Mat4::<Fs>::rotate_axis_angle(axis, angle);

    let end = rot.mul_mat(&start);

    let (s, c) = angle.as_radians().sin_cos();
    // This equality comparison works even with floating point
    // inaccuracies.
    assert_eq!(
        end,
        Mat4::new(
            Fs(1.0),
            Fs(0.0),
            Fs(0.0),
            Fs(5.0),
            Fs(0.0),
            c,
            s.neg(),
            Fs(0.0),
            Fs(0.0),
            s,
            c,
            c.mul(Fs(10.0)),
            Fs(0.0),
            Fs(0.0),
            Fs(0.0),
            Fs(1.0),
        )
    );
}

#[test]
fn singular_inverse_is_none() {
    // A 3x3 matrix with a zero row is singular.
    let m = Mat3::new(
        Fd(1.0),
        Fd(2.0),
        Fd(3.0),
        Fd(0.0),
        Fd(0.0),
        Fd(0.0),
        Fd(4.0),
        Fd(5.0),
        Fd(6.0),
    );
    assert_eq!(m.determinant(), Fd(0.0));
    assert!(m.inverse().is_none());

    let m = Mat2::new(Fd(1.0), Fd(2.0), Fd(2.0), Fd(4.0));
    assert!(m.inverse().is_none());

    let m = Mat4::new(
        Fd(1.0),
        Fd(2.0),
        Fd(3.0),
        Fd(4.0),
        Fd(0.0),
        Fd(0.0),
        Fd(0.0),
        Fd(0.0),
        Fd(5.0),
        Fd(6.0),
        Fd(7.0),
        Fd(8.0),
        Fd(9.0),
        Fd(10.0),
        Fd(11.0),
        Fd(12.0),
    );
    assert!(m.inverse().is_none());
}

#[test]
fn inverse_times_matrix_is_identity() {
    let m = Mat2::new(Fd(3.0), Fd(1.0), Fd(2.0), Fd(5.0));
    let inv = m.inverse().unwrap();
    let p = inv.mul_mat(&m);
    let id = Mat2::<Fd>::identity();
    for r in 0..2 {
        for c in 0..2 {
            assert!((p.index(r, c).0 - id.index(r, c).0).abs() < 1e-12);
        }
    }

    let m = Mat3::new(
        Fd(7.0),
        Fd(2.0),
        Fd(1.0),
        Fd(0.0),
        Fd(3.0),
        Fd(-1.0),
        Fd(-3.0),
        Fd(4.0),
        Fd(-2.0),
    );
    let inv = m.inverse().unwrap();
    let p = inv.mul_mat(&m);
    let id = Mat3::<Fd>::identity();
    for r in 0..3 {
        for c in 0..3 {
            assert!((p.index(r, c).0 - id.index(r, c).0).abs() < 1e-12);
        }
    }

    let m = Mat4::new(
        Fd(1.0),
        Fd(1.0),
        Fd(1.0),
        Fd(0.0),
        Fd(0.0),
        Fd(3.0),
        Fd(1.0),
        Fd(2.0),
        Fd(2.0),
        Fd(3.0),
        Fd(1.0),
        Fd(0.0),
        Fd(1.0),
        Fd(0.0),
        Fd(2.0),
        Fd(1.0),
    );
    let inv = m.inverse().unwrap();
    let p = inv.mul_mat(&m);
    let id = Mat4::<Fd>::identity();
    for r in 0..4 {
        for c in 0..4 {
            assert!((p.index(r, c).0 - id.index(r, c).0).abs() < 1e-12);
        }
    }
}

#[test]
fn matrix_add_scale_and_predicates() {
    let a = Mat2::new(Fs(1.0), Fs(2.0), Fs(3.0), Fs(4.0));
    let b = Mat2::new(Fs(10.0), Fs(20.0), Fs(30.0), Fs(40.0));
    assert_eq!(a.add(&b), Mat2::new(Fs(11.0), Fs(22.0), Fs(33.0), Fs(44.0)));
    assert_eq!(a.mul_scalar(Fs(2.0)), Mat2::new(Fs(2.0), Fs(4.0), Fs(6.0), Fs(8.0)));
    assert_eq!(a.determinant(), Fs(-2.0));

    assert!(Mat3::<Fs>::identity().is_diagonal());
    assert!(Mat3::<Fs>::identity().is_symmetric());
    assert!(!Mat3::new(
        Fs(1.0),
        Fs(2.0),
        Fs(0.0),
        Fs(0.0),
        Fs(1.0),
        Fs(0.0),
        Fs(0.0),
        Fs(0.0),
        Fs(1.0),
    ).is_diagonal());
    assert!(Mat2::new(Fs(0.0), Fs(3.0), Fs(-3.0), Fs(0.0)).is_skew_symmetric());

    let s = Mat3::scale(&Vec3::new(Fs(2.0), Fs(3.0), Fs(4.0)));
    assert_eq!(
        s.mul_vec(&Vec3::new(Fs(1.0), Fs(1.0), Fs(1.0))),
        Vec3::new(Fs(2.0), Fs(3.0), Fs(4.0))
    );
}

#[test]
fn matrix_translation_and_scales() {
    let mut m = Mat4::<Fd>::identity();
    m.set_translation(Point3::new(Fd(1.0), Fd(2.0), Fd(3.0)));
    let t = m.get_translation();
    assert_eq!(t.into_vec3(), Vec3::new(Fd(1.0), Fd(2.0), Fd(3.0)));

    let s = Mat4::scale(&Vec4::new(Fd(2.0), Fd(3.0), Fd(4.0), Fd(1.0)));
    assert_eq!(s.get_x_scale(), Fd(2.0));
    assert_eq!(s.get_y_scale(), Fd(3.0));
    assert_eq!(s.get_z_scale(), Fd(4.0));

    let corner = s.as_mat3();
    assert_eq!(corner.index(0, 0), Fd(2.0));
    assert_eq!(corner.index(1, 1), Fd(3.0));
    assert_eq!(corner.index(2, 2), Fd(4.0));
    assert_eq!(corner.as_mat4().index(3, 3), Fd(1.0));
}

#[test]
fn matrix_reflect_example() {
    // Reflecting across the plane with normal z flips the z
    // coordinate.
    let n = Direction3::from_vec3(Vec3::new(Fd(0.0), Fd(0.0), Fd(1.0)));
    let m = Mat3::reflect_origin_plane(n);
    let v = m.mul_vec(&Vec3::new(Fd(1.0), Fd(2.0), Fd(3.0)));
    assert_eq!(v, Vec3::new(Fd(1.0), Fd(2.0), Fd(-3.0)));
}

// ---------------------------------------------------------------------------
// Quaternions

#[test]
fn test_quat_basic() {
    let q = Quat::<Fd>::new(Vec3::new(Fd(3.0), Fd(4.0), Fd(5.0)), Fd(6.0));
    assert_eq!(q.v.x, Fd(3.0));
    assert_eq!(q.v.y, Fd(4.0));
    assert_eq!(q.v.z, Fd(5.0));
    assert_eq!(q.w, Fd(6.0));

    let q = Quat::<Fd>::identity();
    assert_eq!(q.v.x, Fd(0.0));
    assert_eq!(q.v.y, Fd(0.0));
    assert_eq!(q.v.z, Fd(0.0));
    assert_eq!(q.w, Fd(1.0));

    let q2 = Quat::<Fd>::default();
    assert_eq!(q, q2);

    let q: NQuat<Fd> = NQuat::from_quat(Quat::<Fd>::new(Vec3::new(Fd(3.0), Fd(4.0), Fd(5.0)), Fd(6.0)));
    let q2: Quat<Fd> = q.into_quat();
    assert!(0.999999999 < q2.magnitude().0);
    assert!(q2.magnitude().0 < 1.000000001);
}

#[test]
fn test_quat_mat_conversion() {
    let v = Vec3::<Fs>::new(Fs(1.0), Fs(0.2), Fs(-0.3));
    let q: NQuat<Fs> = NQuat::from_quat(Quat::new(v, Fs(5.0)));

    let m: Mat3<Fs> = q.to_mat3();

    // Conversion through a matrix could return the conjugate (which
    // represents the same rotation) so we have to check for either.
    let q2: NQuat<Fs> = NQuat::from_mat3(m);
    let q2c: NQuat<Fs> = q2.conjugate();

    let qq = q.into_quat();
    let a = q2.into_quat();
    let b = q2c.into_quat();
    let close = |p: Quat<Fs>, r: Quat<Fs>| -> bool {
        p.v.x.0.approx_eq_ulps(&r.v.x.0, 2) && p.v.y.0.approx_eq_ulps(&r.v.y.0, 2)
            && p.v.z.0.approx_eq_ulps(&r.v.z.0, 2) && p.w.0.approx_eq_ulps(&r.w.0, 2)
    };
    assert!(close(a, qq) || close(b, qq));
}

#[test]
fn quat_test_axis_angle() {
    let axis: Direction3<Fs> = Direction3::from_vec3(Vec3::new(Fs(1.0), Fs(1.0), Fs(1.0)));
    let angle = Angle::<Fs>::from_degrees(Fs(90.0));
    let q = NQuat::<Fs>::from_axis_angle(&axis, &angle);
    let (axis2, angle2) = q.as_axis_angle();
    println!(
        "axis {:?} angle {:?} axis {:?} angle {:?}",
        axis, angle, axis2, angle2
    );
    let av = axis.into_vec3();
    let av2 = axis2.into_vec3();
    assert!(
        av.x.0.approx_eq_ulps(&av2.x.0, 2) && av.y.0.approx_eq_ulps(&av2.y.0, 2)
            && av.z.0.approx_eq_ulps(&av2.z.0, 2)
    );
    assert!(angle.as_radians().0.approx_eq_ulps(&angle2.as_radians().0, 2));
}

#[test]
fn test_rotation_x() {
    let axis: Direction3<Fs> = Direction3::from_vec3(Vec3::new(Fs(1.0), Fs(0.0), Fs(0.0)));
    let angle = Angle::<Fs>::from_degrees(Fs(90.0));
    let q = NQuat::<Fs>::from_axis_angle(&axis, &angle);

    let object = Vec3::<Fs>::new(Fs(10.0), Fs(5.0), Fs(3.0));

    let object2 = q.rotate(object);

    assert!(object2.x.0.approx_eq_ulps(&10.0, 2));
    assert!(object2.y.0.approx_eq_ulps(&-3.0, 2));
    assert!(object2.z.0.approx_eq_ulps(&5.0, 2));
}

#[test]
fn quat_algebra_examples() {
    let a = Quat::new(Vec3::new(Fd(1.0), Fd(2.0), Fd(3.0)), Fd(4.0));
    let b = Quat::new(Vec3::new(Fd(5.0), Fd(6.0), Fd(7.0)), Fd(8.0));
    assert_eq!(a.add(b), Quat::new(Vec3::new(Fd(6.0), Fd(8.0), Fd(10.0)), Fd(12.0)));
    assert_eq!(b.sub(a), Quat::new(Vec3::new(Fd(4.0), Fd(4.0), Fd(4.0)), Fd(4.0)));
    assert_eq!(a.mul_scalar(Fd(2.0)), Quat::new(Vec3::new(Fd(2.0), Fd(4.0), Fd(6.0)), Fd(8.0)));
    assert_eq!(a.dot(b), Fd(70.0));
    assert_eq!(a.conjugate(), Quat::new(Vec3::new(Fd(-1.0), Fd(-2.0), Fd(-3.0)), Fd(4.0)));
    assert_eq!(a.squared_magnitude(), Fd(30.0));

    // The Hamiltonian product of (1,2,3;4) and (5,6,7;8):
    // cross = (-4, 8, -4), so v = (-4+5*4+1*8, 8+6*4+2*8, -4+7*4+3*8)
    // and w = 4*8 - 38.
    let p = a.mul(b);
    assert_eq!(p, Quat::new(Vec3::new(Fd(24.0), Fd(48.0), Fd(48.0)), Fd(-6.0)));
}

#[test]
fn composition_stays_normal() {
    let x = Direction3::from_vec3(Vec3::new(Fd(1.0), Fd(0.0), Fd(0.0)));
    let y = Direction3::from_vec3(Vec3::new(Fd(0.0), Fd(1.0), Fd(0.0)));
    let z = Direction3::from_vec3(Vec3::new(Fd(0.0), Fd(0.0), Fd(1.0)));
    let q1 = NQuat::from_axis_angle(&x, &Angle::from_degrees(Fd(30.0)));
    let q2 = NQuat::from_axis_angle(&y, &Angle::from_degrees(Fd(125.0)));
    let q3 = NQuat::from_axis_angle(&z, &Angle::from_degrees(Fd(-77.0)));
    let composed = q3.mul(q2).mul(q1).mul(q3).mul(q2.mul(q1));
    assert!(composed.into_quat().is_normal());
}

#[test]
fn quat_mat_round_trip() {
    // Extracting the quaternion from a rotation matrix and rebuilding
    // the matrix reproduces the rotation up to the inverse: the
    // extraction may return the conjugate quaternion (both represent
    // the same matrix decomposition), whose matrix is the transpose.
    let axis = Direction3::from_vec3(Vec3::new(Fd(1.0), Fd(2.0), Fd(2.0)));
    let q = NQuat::from_axis_angle(&axis, &Angle::from_degrees(Fd(40.0)));
    let m = q.to_mat3();
    let m2 = NQuat::from_mat3(m).to_mat3();
    let mut same = true;
    let mut transposed = true;
    for r in 0..3 {
        for c in 0..3 {
            if (m.index(r, c).0 - m2.index(r, c).0).abs() > 1e-9 {
                same = false;
            }
            if (m.index(r, c).0 - m2.index(c, r).0).abs() > 1e-9 {
                transposed = false;
            }
        }
    }
    assert!(same || transposed);

    // A symmetric rotation matrix (a half turn) comes back exactly as
    // itself.
    let half_turn = NQuat::from_axis_angle(
        &Direction3::from_vec3(Vec3::new(Fd(0.0), Fd(0.0), Fd(1.0))),
        &Angle::from_degrees(Fd(180.0)),
    );
    let hm = half_turn.to_mat3();
    let hm2 = NQuat::from_mat3(hm).to_mat3();
    for r in 0..3 {
        for c in 0..3 {
            assert!((hm.index(r, c).0 - hm2.index(r, c).0).abs() < 1e-9);
        }
    }
}

#[test]
fn from_directions_identity_and_antipodal() {
    let d = Direction3::from_vec3(Vec3::new(Fd(0.0), Fd(0.0), Fd(1.0)));
    let q = NQuat::from_directions(d, d).unwrap();
    let qq = q.into_quat();
    assert!(qq.v.x.0.abs() < 1e-12);
    assert!(qq.v.y.0.abs() < 1e-12);
    assert!(qq.v.z.0.abs() < 1e-12);
    assert!((qq.w.0 - 1.0).abs() < 1e-12);

    let nd = d.neg();
    assert!(NQuat::from_directions(d, nd).is_none());
}

#[test]
fn from_directions_quarter_turn() {
    let x = Direction3::from_vec3(Vec3::new(Fd(1.0), Fd(0.0), Fd(0.0)));
    let y = Direction3::from_vec3(Vec3::new(Fd(0.0), Fd(1.0), Fd(0.0)));
    let q = NQuat::from_directions(x, y).unwrap();
    let rotated = q.rotate(x.into_vec3());
    assert!((rotated.x.0 - 0.0).abs() < 1e-12);
    assert!((rotated.y.0 - 1.0).abs() < 1e-12);
    assert!((rotated.z.0 - 0.0).abs() < 1e-12);
}

// ---------------------------------------------------------------------------
// Directions and points

#[test]
fn direction_basics() {
    let d = Direction3::from_vec3(Vec3::new(Fd(3.0), Fd(0.0), Fd(4.0)));
    let v = d.into_vec3();
    assert_eq!(v, Vec3::new(Fd(0.6), Fd(0.0), Fd(0.8)));
    assert!(v.is_normal());

    let x = Direction3::from_vec3(Vec3::new(Fd(1.0), Fd(0.0), Fd(0.0)));
    let y = Direction3::from_vec3(Vec3::new(Fd(0.0), Fd(1.0), Fd(0.0)));
    assert_eq!(x.dot(y), Fd(0.0));
    assert_eq!(x.cross(y), Vec3::new(Fd(0.0), Fd(0.0), Fd(1.0)));
    assert_eq!(x.neg().into_vec3(), Vec3::new(Fd(-1.0), Fd(0.0), Fd(0.0)));
    assert_eq!(x.into_vec4(), Vec4::new(Fd(1.0), Fd(0.0), Fd(0.0), Fd(0.0)));

    let ne = Direction3::<Fd>::new_isnormal(Fd(0.0), Fd(1.0), Fd(0.0));
    assert_eq!(ne.into_vec3(), Vec3::new(Fd(0.0), Fd(1.0), Fd(0.0)));
}

#[test]
fn direction_lat_long() {
    // Latitude zero, longitude zero points along positive z.
    let d = Direction3::from_lat_long(Angle::from_degrees(Fd(0.0)), Angle::from_degrees(Fd(0.0)));
    let v = d.into_vec3();
    assert!((v.x.0 - 0.0).abs() < 1e-12);
    assert!((v.y.0 - 0.0).abs() < 1e-12);
    assert!((v.z.0 - 1.0).abs() < 1e-12);
    assert!(v.is_normal());

    // Latitude ninety degrees points along positive y.
    let d = Direction3::from_lat_long(Angle::from_degrees(Fd(90.0)), Angle::from_degrees(Fd(0.0)));
    let v = d.into_vec3();
    assert!((v.y.0 - 1.0).abs() < 1e-12);
    assert!(v.is_normal());
}

#[test]
fn point_ops() {
    let p = Point3::new(Fd(1.0), Fd(2.0), Fd(3.0));
    let v = Vec3::new(Fd(10.0), Fd(20.0), Fd(30.0));
    assert_eq!(p.add_vec(v).into_vec3(), Vec3::new(Fd(11.0), Fd(22.0), Fd(33.0)));
    assert_eq!(p.sub_vec(v).into_vec3(), Vec3::new(Fd(-9.0), Fd(-18.0), Fd(-27.0)));
    let q = Point3::new(Fd(5.0), Fd(5.0), Fd(5.0));
    assert_eq!(q.sub_point(p), Vec3::new(Fd(4.0), Fd(3.0), Fd(2.0)));
    assert_eq!(p.neg().into_vec3(), Vec3::new(Fd(-1.0), Fd(-2.0), Fd(-3.0)));
    assert_eq!(p.into_vec4(), Vec4::new(Fd(1.0), Fd(2.0), Fd(3.0), Fd(1.0)));
    assert_eq!(Point3::from_vec4(Vec4::new(Fd(1.0), Fd(2.0), Fd(3.0), Fd(9.0))).into_vec3(),
        Vec3::new(Fd(1.0), Fd(2.0), Fd(3.0)));
}

#[test]
fn position_pairs_point_and_orientation() {
    let p = Point3::new(Fd(1.0), Fd(2.0), Fd(3.0));
    let ori = NQuat::<Fd>::identity();
    let pos = siege_math::Position::new(p, ori);
    assert_eq!(pos.point, p);
    assert_eq!(pos.ori, ori);
}

#[test]
fn rotation_matrices_exact_examples() {
    // A quarter turn in the plane carries the x axis to the y axis.
    let m = Mat2::from_angle(Angle::from_degrees(Fd(90.0)));
    let v = m.mul_vec(&Vec2::new(Fd(1.0), Fd(0.0)));
    assert!(v.x.0.abs() < 1e-15);
    assert!((v.y.0 - 1.0).abs() < 1e-15);

    // A quarter turn about x carries the y axis to the z axis.
    let m = Mat3::from_angle_x(Angle::from_degrees(Fd(90.0)));
    let v = m.mul_vec(&Vec3::new(Fd(0.0), Fd(1.0), Fd(0.0)));
    assert!(v.x.0.abs() < 1e-15);
    assert!(v.y.0.abs() < 1e-15);
    assert!((v.z.0 - 1.0).abs() < 1e-15);

    // The axis-angle rotation matrix about z matches the closed form.
    let z = Direction3::from_vec3(Vec3::new(Fd(0.0), Fd(0.0), Fd(1.0)));
    let m = Mat3::rotate_axis_angle(z, Angle::from_degrees(Fd(90.0)));
    let v = m.mul_vec(&Vec3::new(Fd(1.0), Fd(0.0), Fd(0.0)));
    assert!(v.x.0.abs() < 1e-15);
    assert!((v.y.0 - 1.0).abs() < 1e-15);
    assert!(v.z.0.abs() < 1e-15);
}

#[test]
fn scale_in_direction_example() {
    // Scaling by two along x leaves y and z alone.
    let x = Direction3::from_vec3(Vec3::new(Fd(1.0), Fd(0.0), Fd(0.0)));
    let m = Mat3::scale_in_direction(Fd(2.0), x);
    let v = m.mul_vec(&Vec3::new(Fd(1.0), Fd(1.0), Fd(1.0)));
    assert_eq!(v, Vec3::new(Fd(2.0), Fd(1.0), Fd(1.0)));

    // Involution through the z plane is reflection there.
    let z = Direction3::from_vec3(Vec3::new(Fd(0.0), Fd(0.0), Fd(1.0)));
    let m = Mat3::involve_origin_plane(z);
    let v = m.mul_vec(&Vec3::new(Fd(1.0), Fd(2.0), Fd(3.0)));
    assert_eq!(v, Vec3::new(Fd(-1.0), Fd(-2.0), Fd(3.0)));
}

#[test]
fn skew_example() {
    // Skew along x based on the y projection shears x by tan of the
    // angle times y.
    let x = Direction3::from_vec3(Vec3::new(Fd(1.0), Fd(0.0), Fd(0.0)));
    let y = Direction3::from_vec3(Vec3::new(Fd(0.0), Fd(1.0), Fd(0.0)));
    let m = Mat3::skew(Angle::from_degrees(Fd(45.0)), x, y);
    let v = m.mul_vec(&Vec3::new(Fd(0.0), Fd(1.0), Fd(0.0)));
    assert!((v.x.0 - 1.0).abs() < 1e-15);
    assert_eq!(v.y, Fd(1.0));
    assert_eq!(v.z, Fd(0.0));
}

#[test]
fn determinant_exact_examples() {
    let m = Mat3::new(
        Fd(7.0),
        Fd(2.0),
        Fd(1.0),
        Fd(0.0),
        Fd(3.0),
        Fd(-1.0),
        Fd(-3.0),
        Fd(4.0),
        Fd(-2.0),
    );
    assert_eq!(m.determinant(), Fd(1.0));

    let m = Mat2::new(Fd(1.0), Fd(2.0), Fd(3.0), Fd(4.0));
    assert_eq!(m.determinant(), Fd(-2.0));

    let m = Mat4::new(
        Fd(1.0),
        Fd(1.0),
        Fd(1.0),
        Fd(0.0),
        Fd(0.0),
        Fd(3.0),
        Fd(1.0),
        Fd(2.0),
        Fd(2.0),
        Fd(3.0),
        Fd(1.0),
        Fd(0.0),
        Fd(1.0),
        Fd(0.0),
        Fd(2.0),
        Fd(1.0),
    );
    assert_eq!(m.determinant(), Fd(-4.0));
}

#[test]
fn homogeneous_assembly() {
    let x = Direction3::from_vec3(Vec3::new(Fd(1.0), Fd(0.0), Fd(0.0)));
    let y = Direction3::from_vec3(Vec3::new(Fd(0.0), Fd(1.0), Fd(0.0)));
    let z = Direction3::from_vec3(Vec3::new(Fd(0.0), Fd(0.0), Fd(1.0)));
    let p = Point3::new(Fd(7.0), Fd(8.0), Fd(9.0));
    let m = Mat4::from_components(x, y, z, p);
    assert_eq!(m.get_translation().into_vec3(), Vec3::new(Fd(7.0), Fd(8.0), Fd(9.0)));
    assert_eq!(m.index(3, 3), Fd(1.0));
    assert_eq!(m.index(0, 0), Fd(1.0));

    let m2 = Mat4::from_mat3(Mat3::<Fd>::identity(), p);
    assert_eq!(m, m2);
}
