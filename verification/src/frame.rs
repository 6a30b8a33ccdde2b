//! Oriented frames: a position plus the unit forward direction of the curve,
//! in fixed point at scale [`crate::SCALE`].
//!
//! The frame stands for the shortest-arc rotation taking the canonical +Z
//! axis onto the forward direction. For a unit forward f that rotation sends
//! a profile-plane point (px, py, 0) to
//! (px, py, 0) + (0, 0, c) + (fx c, fy c, 0) / (1 + fz), with
//! c = -(fx px + fy py); the formulas below are that map with every quantity
//! at scale SCALE and every division rounding toward zero. When the
//! forward's Z component is -SCALE — for the direction exactly opposite
//! +Z, where the shortest arc is not unique, but also for some nearly
//! opposite directions that fixed-point normalisation flattens onto it —
//! the frame instead uses the 180-degree turn about the X axis, which
//! sends (px, py, 0) to (px, -py, 0).

use vstd::prelude::*;

verus! {

use crate::bezier::{bez_pos_coord, bez_vel_coord, CubicBezierCurve, Param};
use crate::num::{lemma_trunc_div_bound, sqrt_floor, trunc_div, trunc_div_i128};
use crate::vec::{fits2, fits3, Vec2, Vec3};
use crate::{COORD_MAX, SCALE};

/// The squared Euclidean norm.
pub open spec fn norm_sq3(x: int, y: int, z: int) -> int {
    x * x + y * y + z * z
}

/// One coordinate of fixed-point normalisation: the coordinate scaled to
/// SCALE and divided by the vector's norm, rounding toward zero.
pub open spec fn unit_comp(c: int, l: int) -> int {
    trunc_div(c * (SCALE as int), l)
}

/// The fixed-point shortest-arc rotation of a profile-plane point l by the
/// rotation that takes +Z to the unit forward direction f (both at scale
/// SCALE); a forward whose Z component is -SCALE turns 180 degrees about
/// the X axis.
pub open spec fn rotate_fp(f: (int, int, int), l: (int, int)) -> (int, int, int) {
    if f.2 == -(SCALE as int) {
        (l.0, -l.1, 0)
    } else {
        let c = -(f.0 * l.0 + f.1 * l.1);
        let den = (SCALE as int) * ((SCALE as int) + f.2);
        (
            l.0 + trunc_div(f.0 * c, den),
            l.1 + trunc_div(f.1 * c, den),
            trunc_div(c, SCALE as int),
        )
    }
}

/// Fixed-point normalisation. Returns None exactly on the zero vector;
/// otherwise every component is the exact truncated quotient c * SCALE / |v|,
/// so the result lies in the cube of radius SCALE. Precision is relative to
/// the vector's own magnitude: a vector only a few grid steps long
/// quantises coarsely.
pub fn unit_dir(v: Vec3) -> (r: Option<Vec3>)
    requires
        fits3(v, 0x200_0000_0000_0000),
    ensures
        match r {
            None => v.x == 0 && v.y == 0 && v.z == 0,
            Some(u) => {
                let l = sqrt_floor(norm_sq3(v.x as int, v.y as int, v.z as int) as nat) as int;
                &&& !(v.x == 0 && v.y == 0 && v.z == 0)
                &&& u.x == unit_comp(v.x as int, l)
                &&& u.y == unit_comp(v.y as int, l)
                &&& u.z == unit_comp(v.z as int, l)
                &&& fits3(u, SCALE as int)
            },
        },
{
    proof {
        assert(0 <= (v.x as int) * (v.x as int) <= 0x4_0000_0000_0000_0000_0000_0000_0000
            && 0 <= (v.y as int) * (v.y as int) <= 0x4_0000_0000_0000_0000_0000_0000_0000
            && 0 <= (v.z as int) * (v.z as int) <= 0x4_0000_0000_0000_0000_0000_0000_0000)
            by (nonlinear_arith)
            requires
                -0x200_0000_0000_0000 <= v.x <= 0x200_0000_0000_0000,
                -0x200_0000_0000_0000 <= v.y <= 0x200_0000_0000_0000,
                -0x200_0000_0000_0000 <= v.z <= 0x200_0000_0000_0000,
        ;
    }
    let xx: i128 = (v.x as i128) * (v.x as i128);
    let yy: i128 = (v.y as i128) * (v.y as i128);
    let zz: i128 = (v.z as i128) * (v.z as i128);
    let n_sq: u128 = (xx + yy + zz) as u128;
    let l: u64 = crate::num::isqrt(n_sq);
    proof {
        assert(xx == (v.x as int) * (v.x as int) && yy == (v.y as int) * (v.y as int) && zz == (
        v.z as int) * (v.z as int));
        assert(n_sq == xx + yy + zz);
        assert((n_sq as int) < ((l as int) + 1) * ((l as int) + 1)) by (nonlinear_arith)
            requires
                (n_sq as nat) < ((l as nat) + 1) * ((l as nat) + 1),
                l >= 0,
                n_sq >= 0,
        ;
    }
    if l == 0 {
        proof {
            assert(((l as int) + 1) * ((l as int) + 1) == 1) by (nonlinear_arith)
                requires
                    l == 0,
            ;
            assert(v.x == 0 && v.y == 0 && v.z == 0) by (nonlinear_arith)
                requires
                    (v.x as int) * (v.x as int) + (v.y as int) * (v.y as int) + (v.z as int) * (
                    v.z as int) < 1,
            ;
        }
        None
    } else {
        proof {
            assert(!(v.x == 0 && v.y == 0 && v.z == 0)) by (nonlinear_arith)
                requires
                    (l as int) * (l as int) <= (v.x as int) * (v.x as int) + (v.y as int) * (
                    v.y as int) + (v.z as int) * (v.z as int),
                    l >= 1,
            ;
            // each coordinate is bounded by the norm
            assert(-(l as int) <= v.x <= l as int && -(l as int) <= v.y <= l as int && -(
            l as int) <= v.z <= l as int) by (nonlinear_arith)
                requires
                    (v.x as int) * (v.x as int) <= ((l as int) + 1) * ((l as int) + 1) - 1,
                    (v.y as int) * (v.y as int) <= ((l as int) + 1) * ((l as int) + 1) - 1,
                    (v.z as int) * (v.z as int) <= ((l as int) + 1) * ((l as int) + 1) - 1,
                    l >= 1,
            ;
            assert(-((SCALE as int) * (l as int)) <= (v.x as int) * (SCALE as int) <= (
            SCALE as int) * (l as int) && -((SCALE as int) * (l as int)) <= (v.y as int) * (
            SCALE as int) <= (SCALE as int) * (l as int) && -((SCALE as int) * (l as int)) <= (
            v.z as int) * (SCALE as int) <= (SCALE as int) * (l as int)) by (nonlinear_arith)
                requires
                    -(l as int) <= v.x <= l as int,
                    -(l as int) <= v.y <= l as int,
                    -(l as int) <= v.z <= l as int,
                    l >= 1,
            ;
            lemma_trunc_div_bound((v.x as int) * (SCALE as int), l as int, SCALE as int);
            lemma_trunc_div_bound((v.y as int) * (SCALE as int), l as int, SCALE as int);
            lemma_trunc_div_bound((v.z as int) * (SCALE as int), l as int, SCALE as int);
        }
        let ux: i128 = trunc_div_i128((v.x as i128) * (SCALE as i128), l as i128);
        let uy: i128 = trunc_div_i128((v.y as i128) * (SCALE as i128), l as i128);
        let uz: i128 = trunc_div_i128((v.z as i128) * (SCALE as i128), l as i128);
        Some(Vec3 { x: ux as i64, y: uy as i64, z: uz as i64 })
    }
}

/// A position on the grid together with the unit forward direction (at scale
/// SCALE) that orients the profile plane there.
#[derive(Clone, Copy, Debug, PartialEq, Eq, Structural)]
pub struct OrientedPoint {
    pub pos: Vec3,
    pub fwd: Vec3,
}

impl OrientedPoint {
    /// The position is on the grid and the forward direction lies in the
    /// fixed-point unit cube.
    pub open spec fn wf(&self) -> bool {
        &&& fits3(self.pos, COORD_MAX as int)
        &&& fits3(self.fwd, SCALE as int)
    }

    /// Builds the frame at a position whose forward axis is the given unit
    /// direction (at scale SCALE, as produced by normalisation): the frame
    /// stands for the shortest-arc rotation from +Z onto that direction.
    pub fn from_forward(pos: Vec3, forward: Vec3) -> (r: OrientedPoint)
        requires
            fits3(pos, COORD_MAX as int),
            fits3(forward, SCALE as int),
        ensures
            r.pos == pos,
            r.fwd == forward,
            r.wf(),
    {
        OrientedPoint { pos, fwd: forward }
    }

    /// Rotates a direction from the profile plane into world space;
    /// no translation, so it serves for normals.
    pub fn local_to_world_vect(self, local: Vec2) -> (r: Vec3)
        requires
            self.wf(),
            fits2(local, COORD_MAX as int),
        ensures
            r@ == rotate_fp(self.fwd@, local@),
            fits3(r, 0x8_0000_0000_0000),
    {
        if self.fwd.z == -SCALE {
            Vec3 { x: local.x, y: -local.y, z: 0 }
        } else {
            let fx: i128 = self.fwd.x as i128;
            let fy: i128 = self.fwd.y as i128;
            let fz: i128 = self.fwd.z as i128;
            proof {
                assert(-0x2_0000_0000_0000 <= fx * (local.x as i128) <= 0x2_0000_0000_0000
                    && -0x2_0000_0000_0000 <= fy * (local.y as i128) <= 0x2_0000_0000_0000)
                    by (nonlinear_arith)
                    requires
                        -0x1_0000 <= fx <= 0x1_0000,
                        -0x1_0000 <= fy <= 0x1_0000,
                        -0x4000_0000 <= local.x <= 0x4000_0000,
                        -0x4000_0000 <= local.y <= 0x4000_0000,
                ;
            }
            let c: i128 = -(fx * (local.x as i128) + fy * (local.y as i128));
            let den: i128 = (SCALE as i128) * ((SCALE as i128) + fz);
            proof {
                assert((SCALE as int) <= den <= 0x2_0000_0000 && -0x8000_0000_0000_0000_0000 <= fx
                    * c <= 0x8000_0000_0000_0000_0000 && -0x8000_0000_0000_0000_0000 <= fy * c
                    <= 0x8000_0000_0000_0000_0000 && -(0x4_0000_0000_0000 * den) <= fx * c
                    <= 0x4_0000_0000_0000 * den && -(0x4_0000_0000_0000 * den) <= fy * c
                    <= 0x4_0000_0000_0000 * den) by (nonlinear_arith)
                    requires
                        den == (SCALE as int) * ((SCALE as int) + fz),
                        SCALE == 0x1_0000,
                        -0x1_0000 <= fx <= 0x1_0000,
                        -0x1_0000 <= fy <= 0x1_0000,
                        -0x1_0000 < fz <= 0x1_0000,
                        -0x4_0000_0000_0000 <= c <= 0x4_0000_0000_0000,
                ;
                lemma_trunc_div_bound(fx * c, den as int, 0x4_0000_0000_0000);
                lemma_trunc_div_bound(fy * c, den as int, 0x4_0000_0000_0000);
                lemma_trunc_div_bound(c as int, SCALE as int, 0x4_0000_0000_0000);
            }
            let wx: i128 = trunc_div_i128(fx * c, den);
            let wy: i128 = trunc_div_i128(fy * c, den);
            let wz: i128 = trunc_div_i128(c, SCALE as i128);
            Vec3 {
                x: local.x + (wx as i64),
                y: local.y + (wy as i64),
                z: wz as i64,
            }
        }
    }

    /// Maps a point of the profile plane into world space: rotation about
    /// the frame's position, then translation to it.
    pub fn local_to_world_pos(self, local: Vec2) -> (r: Vec3)
        requires
            self.wf(),
            fits2(local, COORD_MAX as int),
        ensures
            ({
                let w = rotate_fp(self.fwd@, local@);
                r@ == (self.pos.x + w.0, self.pos.y + w.1, self.pos.z + w.2)
            }),
            fits3(r, 0x10_0000_0000_0000),
    {
        let w = self.local_to_world_vect(local);
        Vec3 { x: self.pos.x + w.x, y: self.pos.y + w.y, z: self.pos.z + w.z }
    }
}

/// The exact (cleared-denominator) velocity of the curve at parameter n / d.
pub open spec fn param_tangent(c: CubicBezierCurve, n: int, d: int) -> (int, int, int) {
    (
        bez_vel_coord(c.p0.x as int, c.p1.x as int, c.p2.x as int, c.p3.x as int, n, d),
        bez_vel_coord(c.p0.y as int, c.p1.y as int, c.p2.y as int, c.p3.y as int, n, d),
        bez_vel_coord(c.p0.z as int, c.p1.z as int, c.p2.z as int, c.p3.z as int, n, d),
    )
}

/// The exact curve position at parameter n / d, truncated to the grid.
pub open spec fn param_center(c: CubicBezierCurve, n: int, d: int) -> (int, int, int) {
    let dd = d * d * d;
    (
        trunc_div(bez_pos_coord(c.p0.x as int, c.p1.x as int, c.p2.x as int, c.p3.x as int, n, d), dd),
        trunc_div(bez_pos_coord(c.p0.y as int, c.p1.y as int, c.p2.y as int, c.p3.y as int, n, d), dd),
        trunc_div(bez_pos_coord(c.p0.z as int, c.p1.z as int, c.p2.z as int, c.p3.z as int, n, d), dd),
    )
}

/// The unit forward direction at parameter n / d, at scale SCALE: the
/// tangent, normalised in fixed point.
pub open spec fn param_forward(c: CubicBezierCurve, n: int, d: int) -> (int, int, int) {
    let t = param_tangent(c, n, d);
    let l = sqrt_floor(norm_sq3(t.0, t.1, t.2) as nat) as int;
    (unit_comp(t.0, l), unit_comp(t.1, l), unit_comp(t.2, l))
}

/// The oriented frame of the curve at parameter t: the quantised curve
/// position, facing along the normalised tangent. Returns None exactly
/// when the velocity vanishes at t, the one configuration with no
/// direction to face.
pub fn oriented_point_at(curve: &CubicBezierCurve, t: Param) -> (r: Option<OrientedPoint>)
    requires
        curve.wf(),
        t.wf(),
    ensures
        match r {
            None => param_tangent(*curve, t.num as int, t.den as int) == (0int, 0int, 0int),
            Some(op) => {
                &&& param_tangent(*curve, t.num as int, t.den as int) != (0int, 0int, 0int)
                &&& op.pos@ == param_center(*curve, t.num as int, t.den as int)
                &&& op.fwd@ == param_forward(*curve, t.num as int, t.den as int)
                &&& op.wf()
            },
        },
{
    let d: u32 = t.den;
    let vel = curve.velocity(t);
    proof {
        assert((d as int) * (d as int) <= 0x100_0000) by (nonlinear_arith)
            requires
                1 <= d <= 4096,
        ;
        assert(6 * (COORD_MAX as int) == 0x1_8000_0000);
        assert(-0x180_0000_0000_0000 <= vel.x <= 0x180_0000_0000_0000 && -0x180_0000_0000_0000
            <= vel.y <= 0x180_0000_0000_0000 && -0x180_0000_0000_0000 <= vel.z
            <= 0x180_0000_0000_0000) by (nonlinear_arith)
            requires
                -(0x1_8000_0000 * vel.den) <= vel.x <= 0x1_8000_0000 * vel.den,
                -(0x1_8000_0000 * vel.den) <= vel.y <= 0x1_8000_0000 * vel.den,
                -(0x1_8000_0000 * vel.den) <= vel.z <= 0x1_8000_0000 * vel.den,
                0 <= vel.den <= 0x100_0000,
        ;
    }
    let tang = Vec3 { x: vel.x as i64, y: vel.y as i64, z: vel.z as i64 };
    let dir = match unit_dir(tang) {
        Option::Some(u) => u,
        Option::None => {
            return None;
        },
    };
    let ctr = center_at(curve, t);
    Some(OrientedPoint::from_forward(ctr, dir))
}

/// The quantised curve position at parameter t: the exact rational position
/// with each coordinate truncated to the grid. It stays inside the control
/// hull, so it is a valid grid coordinate.
pub fn center_at(curve: &CubicBezierCurve, t: Param) -> (r: Vec3)
    requires
        curve.wf(),
        t.wf(),
    ensures
        r@ == param_center(*curve, t.num as int, t.den as int),
        fits3(r, COORD_MAX as int),
{
    let d: u32 = t.den;
    let pos_rat = curve.position(t);
    proof {
        assert(1 <= pos_rat.den <= 0x10_0000_0000) by (nonlinear_arith)
            requires
                pos_rat.den == (d as int) * (d as int) * (d as int),
                1 <= d <= 4096,
        ;
        assert(COORD_MAX == 0x4000_0000);
        assert(pos_rat.x > i128::MIN && pos_rat.y > i128::MIN && pos_rat.z > i128::MIN && -((
        i64::MAX as int) * pos_rat.den) <= pos_rat.x <= (i64::MAX as int) * pos_rat.den && -((
        i64::MAX as int) * pos_rat.den) <= pos_rat.y <= (i64::MAX as int) * pos_rat.den && -((
        i64::MAX as int) * pos_rat.den) <= pos_rat.z <= (i64::MAX as int) * pos_rat.den)
            by (nonlinear_arith)
            requires
                -(0x4000_0000 * pos_rat.den) <= pos_rat.x <= 0x4000_0000 * pos_rat.den,
                -(0x4000_0000 * pos_rat.den) <= pos_rat.y <= 0x4000_0000 * pos_rat.den,
                -(0x4000_0000 * pos_rat.den) <= pos_rat.z <= 0x4000_0000 * pos_rat.den,
                1 <= pos_rat.den <= 0x10_0000_0000,
        ;
        lemma_trunc_div_bound(pos_rat.x as int, pos_rat.den as int, COORD_MAX as int);
        lemma_trunc_div_bound(pos_rat.y as int, pos_rat.den as int, COORD_MAX as int);
        lemma_trunc_div_bound(pos_rat.z as int, pos_rat.den as int, COORD_MAX as int);
    }
    pos_rat.to_vec3()
}

} // verus!
