//! Cubic Bezier evaluation, exact over the rationals.
//!
//! A curve parameter is a fraction num/den in [0, 1]. Evaluating the
//! Bernstein form at such a parameter and clearing denominators gives integer
//! coordinates over the denominator den^3 (den^2 for the derivative), so
//! position and velocity are computed exactly, with no rounding at all.

use vstd::prelude::*;

verus! {

use crate::vec::{fits3, rat_is, RatVec3, Vec3};
use crate::{COORD_MAX, DEN_MAX};

/// A curve parameter t = num / den with 0 <= t <= 1, den bounded so that
/// den^3 times a coordinate still fits comfortably in 128 bits.
#[derive(Clone, Copy, Debug, PartialEq, Eq, Structural)]
pub struct Param {
    pub num: u32,
    pub den: u32,
}

impl Param {
    /// A valid parameter: a fraction in [0, 1] with a bounded denominator.
    pub open spec fn wf(&self) -> bool {
        &&& 1 <= self.den <= DEN_MAX
        &&& self.num <= self.den
    }

    /// Builds num / den, refusing fractions outside [0, 1] and denominators
    /// that are zero or too large for exact evaluation.
    pub fn new(num: u32, den: u32) -> (r: Option<Param>)
        ensures
            match r {
                Some(p) => p.num == num && p.den == den && p.wf(),
                None => !(1 <= den <= DEN_MAX && num <= den),
            },
    {
        if 1 <= den && den <= DEN_MAX && num <= den {
            Some(Param { num, den })
        } else {
            None
        }
    }
}

/// One coordinate of the Bernstein form, denominators cleared: with m = d - n,
/// this is d^3 * B(n/d) for B(t) = (1-t)^3 a0 + 3(1-t)^2 t a1 + 3(1-t) t^2 a2 + t^3 a3.
pub open spec fn bez_pos_coord(a0: int, a1: int, a2: int, a3: int, n: int, d: int) -> int {
    let m = d - n;
    m * m * m * a0 + 3 * (m * m * n * a1) + 3 * (m * n * n * a2) + n * n * n * a3
}

/// One coordinate of the derivative, denominators cleared: with m = d - n,
/// this is d^2 * B'(n/d) for B'(t) = 3(1-t)^2 (a1-a0) + 6(1-t) t (a2-a1) + 3 t^2 (a3-a2).
pub open spec fn bez_vel_coord(a0: int, a1: int, a2: int, a3: int, n: int, d: int) -> int {
    let m = d - n;
    3 * (m * m * (a1 - a0)) + 6 * (m * n * (a2 - a1)) + 3 * (n * n * (a3 - a2))
}

/// Bounds on every partial product of a cleared-denominator Bernstein term,
/// used to discharge the overflow checks of exact evaluation.
proof fn lemma_pos_term_bounds(m: int, n: int, a: int)
    by (nonlinear_arith)
    requires
        0 <= m <= 4096,
        0 <= n <= 4096,
        -0x4000_0000 <= a <= 0x4000_0000,
    ensures
        0 <= m * m <= 0x100_0000,
        0 <= m * m * m <= 0x10_0000_0000,
        0 <= m * m * n <= 0x10_0000_0000,
        0 <= m * n <= 0x100_0000,
        0 <= m * n * n <= 0x10_0000_0000,
        0 <= n * n <= 0x100_0000,
        0 <= n * n * n <= 0x10_0000_0000,
        -0x4_0000_0000_0000_0000 <= m * m * m * a <= 0x4_0000_0000_0000_0000,
        -0x4_0000_0000_0000_0000 <= m * m * n * a <= 0x4_0000_0000_0000_0000,
        -0x4_0000_0000_0000_0000 <= m * n * n * a <= 0x4_0000_0000_0000_0000,
        -0x4_0000_0000_0000_0000 <= n * n * n * a <= 0x4_0000_0000_0000_0000,
{
}

/// The evaluated position numerator stays inside the control hull: it is
/// bounded by w * d^3 whenever every control coordinate is bounded by w.
pub proof fn lemma_pos_coord_in_hull(a0: int, a1: int, a2: int, a3: int, n: int, d: int, w: int)
    by (nonlinear_arith)
    requires
        0 <= n <= d,
        1 <= d,
        0 <= w,
        -w <= a0 <= w,
        -w <= a1 <= w,
        -w <= a2 <= w,
        -w <= a3 <= w,
    ensures
        -(w * (d * d * d)) <= bez_pos_coord(a0, a1, a2, a3, n, d) <= w * (d * d * d),
{
}

/// The evaluated velocity numerator is bounded by 6 * w * d^2 whenever every
/// control coordinate is bounded by w.
pub proof fn lemma_vel_coord_bound(a0: int, a1: int, a2: int, a3: int, n: int, d: int, w: int)
    requires
        0 <= n <= d,
        1 <= d,
        0 <= w,
        -w <= a0 <= w,
        -w <= a1 <= w,
        -w <= a2 <= w,
        -w <= a3 <= w,
    ensures
        -(6 * w * (d * d)) <= bez_vel_coord(a0, a1, a2, a3, n, d) <= 6 * w * (d * d),
{
    let m = d - n;
    let t1 = m * m * (a1 - a0);
    let t2 = m * n * (a2 - a1);
    let t3 = n * n * (a3 - a2);
    assert(-((m * m) * (2 * w)) <= t1 <= (m * m) * (2 * w)) by (nonlinear_arith)
        requires
            0 <= m,
            0 <= w,
            -w <= a0 <= w,
            -w <= a1 <= w,
            t1 == m * m * (a1 - a0),
    ;
    assert(-((m * n) * (2 * w)) <= t2 <= (m * n) * (2 * w)) by (nonlinear_arith)
        requires
            0 <= m,
            0 <= n,
            0 <= w,
            -w <= a1 <= w,
            -w <= a2 <= w,
            t2 == m * n * (a2 - a1),
    ;
    assert(-((n * n) * (2 * w)) <= t3 <= (n * n) * (2 * w)) by (nonlinear_arith)
        requires
            0 <= n,
            0 <= w,
            -w <= a2 <= w,
            -w <= a3 <= w,
            t3 == n * n * (a3 - a2),
    ;
    assert(3 * ((m * m) * (2 * w)) + 6 * ((m * n) * (2 * w)) + 3 * ((n * n) * (2 * w))
        == 6 * w * (d * d)) by (nonlinear_arith)
        requires
            m == d - n,
    ;
}

/// One coordinate of the position, exactly, over denominator d^3.
fn pos_coord_exec(a0: i64, a1: i64, a2: i64, a3: i64, n: u32, d: u32) -> (r: i128)
    requires
        n <= d,
        1 <= d <= DEN_MAX,
        -COORD_MAX <= a0 <= COORD_MAX,
        -COORD_MAX <= a1 <= COORD_MAX,
        -COORD_MAX <= a2 <= COORD_MAX,
        -COORD_MAX <= a3 <= COORD_MAX,
    ensures
        r == bez_pos_coord(a0 as int, a1 as int, a2 as int, a3 as int, n as int, d as int),
        -((COORD_MAX as int) * ((d as int) * (d as int) * (d as int))) <= r
            <= (COORD_MAX as int) * ((d as int) * (d as int) * (d as int)),
{
    let m: i128 = (d - n) as i128;
    let nn: i128 = n as i128;
    proof {
        lemma_pos_term_bounds(m as int, nn as int, a0 as int);
        lemma_pos_term_bounds(m as int, nn as int, a1 as int);
        lemma_pos_term_bounds(m as int, nn as int, a2 as int);
        lemma_pos_term_bounds(m as int, nn as int, a3 as int);
        lemma_pos_coord_in_hull(
            a0 as int, a1 as int, a2 as int, a3 as int, nn as int, d as int, COORD_MAX as int);
    }
    let t0: i128 = m * m * m * (a0 as i128);
    let t1: i128 = m * m * nn * (a1 as i128);
    let t2: i128 = m * nn * nn * (a2 as i128);
    let t3: i128 = nn * nn * nn * (a3 as i128);
    t0 + 3 * t1 + 3 * t2 + t3
}

/// One coordinate of the velocity, exactly, over denominator d^2.
fn vel_coord_exec(a0: i64, a1: i64, a2: i64, a3: i64, n: u32, d: u32) -> (r: i128)
    requires
        n <= d,
        1 <= d <= DEN_MAX,
        -COORD_MAX <= a0 <= COORD_MAX,
        -COORD_MAX <= a1 <= COORD_MAX,
        -COORD_MAX <= a2 <= COORD_MAX,
        -COORD_MAX <= a3 <= COORD_MAX,
    ensures
        r == bez_vel_coord(a0 as int, a1 as int, a2 as int, a3 as int, n as int, d as int),
        -(6 * (COORD_MAX as int) * ((d as int) * (d as int))) <= r
            <= 6 * (COORD_MAX as int) * ((d as int) * (d as int)),
{
    let m: i128 = (d - n) as i128;
    let nn: i128 = n as i128;
    let d10: i128 = (a1 as i128) - (a0 as i128);
    let d21: i128 = (a2 as i128) - (a1 as i128);
    let d32: i128 = (a3 as i128) - (a2 as i128);
    proof {
        lemma_pos_term_bounds(m as int, nn as int, 0);
        assert(-0x8_0000_0000_0000_0000 <= m * m * d10 <= 0x8_0000_0000_0000_0000
            && -0x8_0000_0000_0000_0000 <= m * nn * d21 <= 0x8_0000_0000_0000_0000
            && -0x8_0000_0000_0000_0000 <= nn * nn * d32 <= 0x8_0000_0000_0000_0000)
            by (nonlinear_arith)
            requires
                0 <= m * m <= 0x100_0000,
                0 <= m * nn <= 0x100_0000,
                0 <= nn * nn <= 0x100_0000,
                -0x8000_0000 <= d10 <= 0x8000_0000,
                -0x8000_0000 <= d21 <= 0x8000_0000,
                -0x8000_0000 <= d32 <= 0x8000_0000,
        ;
        lemma_vel_coord_bound(
            a0 as int, a1 as int, a2 as int, a3 as int, nn as int, d as int, COORD_MAX as int);
    }
    let t0: i128 = m * m * d10;
    let t1: i128 = m * nn * d21;
    let t2: i128 = nn * nn * d32;
    3 * t0 + 6 * t1 + 3 * t2
}

/// A cubic Bezier segment over four control points.
#[derive(Clone, Copy, Debug, PartialEq, Eq, Structural)]
pub struct CubicBezierCurve {
    pub p0: Vec3,
    pub p1: Vec3,
    pub p2: Vec3,
    pub p3: Vec3,
}

impl CubicBezierCurve {
    /// All control coordinates are on the allowed grid range.
    pub open spec fn wf(&self) -> bool {
        &&& fits3(self.p0, COORD_MAX as int)
        &&& fits3(self.p1, COORD_MAX as int)
        &&& fits3(self.p2, COORD_MAX as int)
        &&& fits3(self.p3, COORD_MAX as int)
    }

    pub fn new(p0: Vec3, p1: Vec3, p2: Vec3, p3: Vec3) -> (r: CubicBezierCurve)
        ensures
            r.p0 == p0 && r.p1 == p1 && r.p2 == p2 && r.p3 == p3,
    {
        CubicBezierCurve { p0, p1, p2, p3 }
    }

    /// The exact position at parameter t: the Bernstein form over
    /// denominator t.den^3, with no rounding.
    pub fn position(&self, t: Param) -> (r: RatVec3)
        requires
            self.wf(),
            t.wf(),
        ensures
            r.den == (t.den as int) * (t.den as int) * (t.den as int),
            r.x == bez_pos_coord(
                self.p0.x as int, self.p1.x as int, self.p2.x as int, self.p3.x as int,
                t.num as int, t.den as int),
            r.y == bez_pos_coord(
                self.p0.y as int, self.p1.y as int, self.p2.y as int, self.p3.y as int,
                t.num as int, t.den as int),
            r.z == bez_pos_coord(
                self.p0.z as int, self.p1.z as int, self.p2.z as int, self.p3.z as int,
                t.num as int, t.den as int),
            -((COORD_MAX as int) * r.den) <= r.x <= (COORD_MAX as int) * r.den,
            -((COORD_MAX as int) * r.den) <= r.y <= (COORD_MAX as int) * r.den,
            -((COORD_MAX as int) * r.den) <= r.z <= (COORD_MAX as int) * r.den,
    {
        let dd: i128 = t.den as i128;
        proof {
            assert(0 <= dd * dd <= 0x100_0000 && 0 <= dd * dd * dd <= 0x10_0000_0000)
                by (nonlinear_arith)
                requires
                    1 <= dd <= 4096,
            ;
        }
        RatVec3 {
            x: pos_coord_exec(self.p0.x, self.p1.x, self.p2.x, self.p3.x, t.num, t.den),
            y: pos_coord_exec(self.p0.y, self.p1.y, self.p2.y, self.p3.y, t.num, t.den),
            z: pos_coord_exec(self.p0.z, self.p1.z, self.p2.z, self.p3.z, t.num, t.den),
            den: dd * dd * dd,
        }
    }

    /// The exact velocity (tangent, not normalised) at parameter t: the
    /// derivative of the Bernstein form over denominator t.den^2. Callers
    /// that need a direction must reject the zero vector first.
    pub fn velocity(&self, t: Param) -> (r: RatVec3)
        requires
            self.wf(),
            t.wf(),
        ensures
            r.den == (t.den as int) * (t.den as int),
            r.x == bez_vel_coord(
                self.p0.x as int, self.p1.x as int, self.p2.x as int, self.p3.x as int,
                t.num as int, t.den as int),
            r.y == bez_vel_coord(
                self.p0.y as int, self.p1.y as int, self.p2.y as int, self.p3.y as int,
                t.num as int, t.den as int),
            r.z == bez_vel_coord(
                self.p0.z as int, self.p1.z as int, self.p2.z as int, self.p3.z as int,
                t.num as int, t.den as int),
            -((6 * COORD_MAX as int) * r.den) <= r.x <= (6 * COORD_MAX as int) * r.den,
            -((6 * COORD_MAX as int) * r.den) <= r.y <= (6 * COORD_MAX as int) * r.den,
            -((6 * COORD_MAX as int) * r.den) <= r.z <= (6 * COORD_MAX as int) * r.den,
    {
        let dd: i128 = t.den as i128;
        proof {
            assert(0 <= dd * dd <= 0x100_0000 && 0 <= dd * dd * dd <= 0x10_0000_0000)
                by (nonlinear_arith)
                requires
                    1 <= dd <= 4096,
            ;
        }
        RatVec3 {
            x: vel_coord_exec(self.p0.x, self.p1.x, self.p2.x, self.p3.x, t.num, t.den),
            y: vel_coord_exec(self.p0.y, self.p1.y, self.p2.y, self.p3.y, t.num, t.den),
            z: vel_coord_exec(self.p0.z, self.p1.z, self.p2.z, self.p3.z, t.num, t.den),
            den: dd * dd,
        }
    }
}

/// At parameter 0 the Bernstein form collapses to the first control
/// coordinate over denominator d^3.
proof fn lemma_pos_at_zero(a0: int, a1: int, a2: int, a3: int, d: int)
    by (nonlinear_arith)
    ensures
        bez_pos_coord(a0, a1, a2, a3, 0, d) == a0 * (d * d * d),
{
}

/// At parameter 1 the Bernstein form collapses to the last control
/// coordinate over denominator d^3.
proof fn lemma_pos_at_one(a0: int, a1: int, a2: int, a3: int, d: int)
    by (nonlinear_arith)
    ensures
        bez_pos_coord(a0, a1, a2, a3, d, d) == a3 * (d * d * d),
{
}

/// Endpoint interpolation: a position sample taken at parameter 0 is exactly
/// the first control point, and one taken at parameter 1 exactly the last,
/// as exact rationals over any denominator.
pub proof fn lemma_endpoint_interpolation(c: CubicBezierCurve, r0: RatVec3, r1: RatVec3, d: int)
    requires
        d >= 1,
        r0.den == d * d * d,
        r0.x == bez_pos_coord(c.p0.x as int, c.p1.x as int, c.p2.x as int, c.p3.x as int, 0, d),
        r0.y == bez_pos_coord(c.p0.y as int, c.p1.y as int, c.p2.y as int, c.p3.y as int, 0, d),
        r0.z == bez_pos_coord(c.p0.z as int, c.p1.z as int, c.p2.z as int, c.p3.z as int, 0, d),
        r1.den == d * d * d,
        r1.x == bez_pos_coord(c.p0.x as int, c.p1.x as int, c.p2.x as int, c.p3.x as int, d, d),
        r1.y == bez_pos_coord(c.p0.y as int, c.p1.y as int, c.p2.y as int, c.p3.y as int, d, d),
        r1.z == bez_pos_coord(c.p0.z as int, c.p1.z as int, c.p2.z as int, c.p3.z as int, d, d),
    ensures
        rat_is(r0, c.p0),
        rat_is(r1, c.p3),
{
    assert(d * d * d >= 1) by (nonlinear_arith)
        requires
            d >= 1,
    ;
    lemma_pos_at_zero(c.p0.x as int, c.p1.x as int, c.p2.x as int, c.p3.x as int, d);
    lemma_pos_at_zero(c.p0.y as int, c.p1.y as int, c.p2.y as int, c.p3.y as int, d);
    lemma_pos_at_zero(c.p0.z as int, c.p1.z as int, c.p2.z as int, c.p3.z as int, d);
    lemma_pos_at_one(c.p0.x as int, c.p1.x as int, c.p2.x as int, c.p3.x as int, d);
    lemma_pos_at_one(c.p0.y as int, c.p1.y as int, c.p2.y as int, c.p3.y as int, d);
    lemma_pos_at_one(c.p0.z as int, c.p1.z as int, c.p2.z as int, c.p3.z as int, d);
}

/// a * x - a * y with the factor pulled out.
proof fn lemma_mul_diff(x: int, y: int, a: int)
    by (nonlinear_arith)
    ensures
        x * a - y * a == (x - y) * a,
{
}

/// A factor distributed over a difference.
proof fn lemma_mul_sub(t: int, x: int, y: int)
    by (nonlinear_arith)
    ensures
        t * (x - y) == t * x - t * y,
{
}

/// Swapping the last two factors of a triple product.
proof fn lemma_ac3(x: int, y: int, z: int)
    by (nonlinear_arith)
    ensures
        (x * y) * z == (x * z) * y,
{
}

/// Pulling a scalar out of the right factor.
proof fn lemma_scale_right(k: int, x: int, y: int)
    by (nonlinear_arith)
    ensures
        x * (k * y) == k * (x * y),
{
}

/// Pulling a scalar out of the left factor.
proof fn lemma_scale_left(k: int, x: int, y: int)
    by (nonlinear_arith)
    ensures
        (k * x) * y == k * (x * y),
{
}

/// A three-term sum distributed over a final factor.
proof fn lemma_sum3_mul(x: int, y: int, z: int, a: int)
    by (nonlinear_arith)
    ensures
        (x + y + z) * a == x * a + y * a + z * a,
{
}

/// A three-term linear combination distributed over a final factor.
proof fn lemma_lincomb3_mul(c1: int, p: int, c2: int, q: int, c3: int, r: int, a: int)
    ensures
        (c1 * p + c2 * q + c3 * r) * a == c1 * (p * a) + c2 * (q * a) + c3 * (r * a),
{
    lemma_sum3_mul(c1 * p, c2 * q, c3 * r, a);
    lemma_scale_left(c1, p, a);
    lemma_scale_left(c2, q, a);
    lemma_scale_left(c3, r, a);
}

/// The difference of a quadratic form in m -/+ e times two different factors.
proof fn lemma_quad_lin_diff(w2: int, me: int, ee: int, u: int, v: int, s: int, sv: int)
    by (nonlinear_arith)
    requires
        s == (w2 - 2 * me + ee) * u,
        sv == (w2 + 2 * me + ee) * v,
    ensures
        s - sv == w2 * (u - v) - 2 * (me * (u + v)) + ee * (u - v),
{
}

/// The difference of a linear form in m -/+ e times two different factors.
proof fn lemma_lin_quad_diff(m: int, e: int, t1: int, t2: int, s: int, sv: int)
    by (nonlinear_arith)
    requires
        s == (m - e) * t1,
        sv == (m + e) * t2,
    ensures
        s - sv == m * (t1 - t2) - e * (t1 + t2),
{
}

/// A factor distributed over the leading-coefficient combination.
proof fn lemma_mul_lead(t: int, x: int, y: int, p: int, q: int)
    by (nonlinear_arith)
    ensures
        t * ((x - y) + 3 * (p - q)) == t * x - t * y + 3 * (t * p) - 3 * (t * q),
{
}

/// One coordinate of the symmetric-difference identity below.
proof fn lemma_sym_diff_coord(a0: int, a1: int, a2: int, a3: int, a: int, e: int, d: int)
    ensures
        bez_pos_coord(a0, a1, a2, a3, a + e, d) - bez_pos_coord(a0, a1, a2, a3, a - e, d)
            == 2 * e * bez_vel_coord(a0, a1, a2, a3, a, d)
                + 2 * (e * e * e) * ((a3 - a0) + 3 * (a1 - a2)),
{
    let m = d - a;
    let u = a + e;
    let v = a - e;
    let mu = d - u;
    let mv = d - v;

    // canonical monomials: (m*m)*e, (m*e)*a, (a*a)*e, (e*e)*e

    // cube differences, two variables each
    let s0 = mu * mu * mu;
    let s0v = mv * mv * mv;
    assert(s0 - s0v == -6 * ((m * m) * e) - 2 * ((e * e) * e)) by (nonlinear_arith)
        requires
            s0 == (m - e) * (m - e) * (m - e),
            s0v == (m + e) * (m + e) * (m + e),
    ;
    let s3 = u * u * u;
    let s3v = v * v * v;
    assert(s3 - s3v == 6 * ((a * a) * e) + 2 * ((e * e) * e)) by (nonlinear_arith)
        requires
            s3 == (a + e) * (a + e) * (a + e),
            s3v == (a - e) * (a - e) * (a - e),
    ;

    // the a1 terms: (mu*mu)*u - (mv*mv)*v
    let q1 = mu * mu;
    let q1v = mv * mv;
    assert(q1 == m * m - 2 * (m * e) + e * e) by (nonlinear_arith)
        requires
            q1 == (m - e) * (m - e),
    ;
    assert(q1v == m * m + 2 * (m * e) + e * e) by (nonlinear_arith)
        requires
            q1v == (m + e) * (m + e),
    ;
    let s1 = q1 * u;
    let s1v = q1v * v;
    lemma_quad_lin_diff(m * m, m * e, e * e, u, v, s1, s1v);
    lemma_scale_right(2, m * m, e);
    lemma_scale_right(2, m * e, a);
    lemma_scale_right(2, e * e, e);
    assert(s1 - s1v == 2 * ((m * m) * e) - 4 * ((m * e) * a) + 2 * ((e * e) * e));

    // the a2 terms: (mu*u)*u - (mv*v)*v
    let r1 = u * u;
    let r1v = v * v;
    assert(r1 == a * a + 2 * (a * e) + e * e) by (nonlinear_arith)
        requires
            r1 == (a + e) * (a + e),
    ;
    assert(r1v == a * a - 2 * (a * e) + e * e) by (nonlinear_arith)
        requires
            r1v == (a - e) * (a - e),
    ;
    let s2 = (mu * u) * u;
    let s2v = (mv * v) * v;
    assert(s2 == mu * (u * u) && s2v == mv * (v * v)) by (nonlinear_arith)
        requires
            s2 == (mu * u) * u,
            s2v == (mv * v) * v,
    ;
    lemma_lin_quad_diff(m, e, r1, r1v, s2, s2v);
    assert(r1 - r1v == 4 * (a * e) && r1 + r1v == 2 * (a * a) + 2 * (e * e));
    lemma_scale_right(4, m, a * e);
    assert(m * (a * e) == (m * e) * a) by (nonlinear_arith);
    assert(e * (2 * (a * a) + 2 * (e * e)) == 2 * ((a * a) * e) + 2 * ((e * e) * e))
        by (nonlinear_arith);
    assert(s2 - s2v == 4 * ((m * e) * a) - 2 * ((a * a) * e) - 2 * ((e * e) * e));

    // attach the control coefficients and normalise each atom
    lemma_mul_diff(s0, s0v, a0);
    lemma_lincomb3_mul(-6, (m * m) * e, -2, (e * e) * e, 0, 0, a0);
    assert(s0 * a0 - s0v * a0 == -6 * (((m * m) * e) * a0) - 2 * (((e * e) * e) * a0));

    lemma_mul_diff(s1, s1v, a1);
    lemma_lincomb3_mul(2, (m * m) * e, -4, (m * e) * a, 2, (e * e) * e, a1);
    assert(s1 * a1 - s1v * a1
        == 2 * (((m * m) * e) * a1) - 4 * (((m * e) * a) * a1) + 2 * (((e * e) * e) * a1));

    lemma_mul_diff(s2, s2v, a2);
    lemma_lincomb3_mul(4, (m * e) * a, -2, (a * a) * e, -2, (e * e) * e, a2);
    assert(s2 * a2 - s2v * a2
        == 4 * (((m * e) * a) * a2) - 2 * (((a * a) * e) * a2) - 2 * (((e * e) * e) * a2));

    lemma_mul_diff(s3, s3v, a3);
    lemma_lincomb3_mul(6, (a * a) * e, 2, (e * e) * e, 0, 0, a3);
    assert(s3 * a3 - s3v * a3 == 6 * (((a * a) * e) * a3) + 2 * (((e * e) * e) * a3));

    // the position difference as a combination of canonical atoms
    assert(bez_pos_coord(a0, a1, a2, a3, a + e, d) == s0 * a0 + 3 * (s1 * a1) + 3 * (s2 * a2)
        + s3 * a3);
    assert(bez_pos_coord(a0, a1, a2, a3, a - e, d) == s0v * a0 + 3 * (s1v * a1) + 3 * (s2v * a2)
        + s3v * a3);

    // the velocity times 2e as a combination of the same atoms
    let w2 = m * m;
    let x1 = w2 * (a1 - a0);
    let y1 = (m * a) * (a2 - a1);
    let z1 = (a * a) * (a3 - a2);
    assert(bez_vel_coord(a0, a1, a2, a3, a, d) == 3 * x1 + 6 * y1 + 3 * z1);
    lemma_lincomb3_mul(3, x1, 6, y1, 3, z1, 2 * e);
    lemma_scale_right(2, x1, e);
    lemma_scale_right(2, y1, e);
    lemma_scale_right(2, z1, e);
    assert(2 * e * bez_vel_coord(a0, a1, a2, a3, a, d)
        == 6 * (x1 * e) + 12 * (y1 * e) + 6 * (z1 * e)) by {
        assert(2 * e * bez_vel_coord(a0, a1, a2, a3, a, d)
            == (3 * x1 + 6 * y1 + 3 * z1) * (2 * e)) by (nonlinear_arith)
            requires
                bez_vel_coord(a0, a1, a2, a3, a, d) == 3 * x1 + 6 * y1 + 3 * z1,
        ;
    }

    lemma_mul_sub(w2, a1, a0);
    lemma_mul_diff(w2 * a1, w2 * a0, e);
    lemma_ac3(w2, a1, e);
    lemma_ac3(w2, a0, e);
    assert(x1 * e == ((m * m) * e) * a1 - ((m * m) * e) * a0);

    lemma_mul_sub(m * a, a2, a1);
    lemma_mul_diff((m * a) * a2, (m * a) * a1, e);
    lemma_ac3(m * a, a2, e);
    lemma_ac3(m * a, a1, e);
    lemma_ac3(m, a, e);
    assert(y1 * e == ((m * e) * a) * a2 - ((m * e) * a) * a1);

    lemma_mul_sub(a * a, a3, a2);
    lemma_mul_diff((a * a) * a3, (a * a) * a2, e);
    lemma_ac3(a * a, a3, e);
    lemma_ac3(a * a, a2, e);
    assert(z1 * e == ((a * a) * e) * a3 - ((a * a) * e) * a2);

    // the leading-coefficient remainder over the same atoms
    lemma_mul_lead(2 * (e * e * e), a3, a0, a1, a2);
    lemma_scale_left(2, (e * e) * e, a3);
    lemma_scale_left(2, (e * e) * e, a0);
    lemma_scale_left(2, (e * e) * e, a1);
    lemma_scale_left(2, (e * e) * e, a2);
    assert(2 * (e * e * e) * ((a3 - a0) + 3 * (a1 - a2))
        == 2 * (((e * e) * e) * a3) - 2 * (((e * e) * e) * a0) + 6 * (((e * e) * e) * a1)
            - 6 * (((e * e) * e) * a2));
}

/// The velocity is the analytic derivative of the position: over a common
/// denominator d, the exact symmetric difference of positions taken at
/// parameters (a + e) / d and (a - e) / d equals twice e / d times the
/// velocity at a / d, plus an exact remainder of order (e / d)^3 whose
/// coefficient is the leading Bezier coefficient p3 - p0 + 3 (p1 - p2).
/// Dividing both sides by 2 e d^2 gives the familiar difference quotient
/// (B(t + h) - B(t - h)) / (2 h) = B'(t) + h^2 (p3 - p0 + 3 (p1 - p2)).
pub proof fn lemma_velocity_is_derivative(c: CubicBezierCurve, a: int, e: int, d: int)
    ensures
        bez_pos_coord(c.p0.x as int, c.p1.x as int, c.p2.x as int, c.p3.x as int, a + e, d)
            - bez_pos_coord(c.p0.x as int, c.p1.x as int, c.p2.x as int, c.p3.x as int, a - e, d)
            == 2 * e * bez_vel_coord(c.p0.x as int, c.p1.x as int, c.p2.x as int, c.p3.x as int, a, d)
                + 2 * (e * e * e) * ((c.p3.x - c.p0.x) + 3 * (c.p1.x - c.p2.x)),
        bez_pos_coord(c.p0.y as int, c.p1.y as int, c.p2.y as int, c.p3.y as int, a + e, d)
            - bez_pos_coord(c.p0.y as int, c.p1.y as int, c.p2.y as int, c.p3.y as int, a - e, d)
            == 2 * e * bez_vel_coord(c.p0.y as int, c.p1.y as int, c.p2.y as int, c.p3.y as int, a, d)
                + 2 * (e * e * e) * ((c.p3.y - c.p0.y) + 3 * (c.p1.y - c.p2.y)),
        bez_pos_coord(c.p0.z as int, c.p1.z as int, c.p2.z as int, c.p3.z as int, a + e, d)
            - bez_pos_coord(c.p0.z as int, c.p1.z as int, c.p2.z as int, c.p3.z as int, a - e, d)
            == 2 * e * bez_vel_coord(c.p0.z as int, c.p1.z as int, c.p2.z as int, c.p3.z as int, a, d)
                + 2 * (e * e * e) * ((c.p3.z - c.p0.z) + 3 * (c.p1.z - c.p2.z)),
{
    lemma_sym_diff_coord(c.p0.x as int, c.p1.x as int, c.p2.x as int, c.p3.x as int, a, e, d);
    lemma_sym_diff_coord(c.p0.y as int, c.p1.y as int, c.p2.y as int, c.p3.y as int, a, e, d);
    lemma_sym_diff_coord(c.p0.z as int, c.p1.z as int, c.p2.z as int, c.p3.z as int, a, e, d);
}

/// The rational point s is the exact curve position at parameter i / (n - 1).
pub open spec fn sample_at(c: CubicBezierCurve, n: int, i: int, s: RatVec3) -> bool {
    let d = n - 1;
    &&& s.den == d * d * d
    &&& s.x == bez_pos_coord(c.p0.x as int, c.p1.x as int, c.p2.x as int, c.p3.x as int, i, d)
    &&& s.y == bez_pos_coord(c.p0.y as int, c.p1.y as int, c.p2.y as int, c.p3.y as int, i, d)
    &&& s.z == bez_pos_coord(c.p0.z as int, c.p1.z as int, c.p2.z as int, c.p3.z as int, i, d)
}

impl CubicBezierCurve {
    /// Exactly n evenly spaced position samples over [0, 1], both endpoints
    /// included: the i-th sample is the exact position at parameter
    /// i / (n - 1), so the first sample is the position at 0 and the last
    /// the position at 1.
    pub fn sample_positions(&self, n: usize) -> (r: Vec<RatVec3>)
        requires
            self.wf(),
            2 <= n <= DEN_MAX + 1,
        ensures
            r@.len() == n,
            forall|i: int| 0 <= i < n ==> sample_at(*self, n as int, i, #[trigger] r@[i]),
    {
        let d: u32 = (n - 1) as u32;
        let mut out: Vec<RatVec3> = Vec::new();
        let mut i: usize = 0;
        while i < n
            invariant
                self.wf(),
                2 <= n <= DEN_MAX + 1,
                d == n - 1,
                i <= n,
                out@.len() == i,
                forall|j: int| 0 <= j < i ==> sample_at(*self, n as int, j, #[trigger] out@[j]),
            decreases n - i,
        {
            let p = self.position(Param { num: i as u32, den: d });
            out.push(p);
            i = i + 1;
        }
        out
    }
}

/// The endpoint half of exact sampling: in any run of n evenly spaced
/// samples, the first sample is exactly the first control point and the
/// last sample exactly the last, as exact rationals.
pub proof fn lemma_sample_endpoints(c: CubicBezierCurve, n: int, s_first: RatVec3, s_last: RatVec3)
    requires
        n >= 2,
        sample_at(c, n, 0, s_first),
        sample_at(c, n, n - 1, s_last),
    ensures
        rat_is(s_first, c.p0),
        rat_is(s_last, c.p3),
{
    lemma_endpoint_interpolation(c, s_first, s_last, n - 1);
}

} // verus!
