//! A curve segment: the owner of exactly four control-point positions,
//! from which the cubic Bezier curve and everything derived from it are
//! recomputed on demand, so no stale curve can ever be observed.

use vstd::prelude::*;

verus! {

use crate::bezier::{CubicBezierCurve, Param, sample_at};
use crate::frame::{
    center_at, oriented_point_at, param_center, param_forward, param_tangent, rotate_fp,
    OrientedPoint,
};
use crate::num::{lemma_trunc_div_bound, sqrt_floor, trunc_div, trunc_div_i128};
use crate::profile::ProfileShape;
use crate::vec::{fits3, RatVec3, Vec3};
use crate::{COORD_MAX, DEN_MAX, SCALE};

/// The world position of profile vertex j at the frame of parameter n / d:
/// the quantised curve position plus the rotated profile point.
pub open spec fn world_point(c: CubicBezierCurve, p: ProfileShape, n: int, d: int, j: int) -> (
    int,
    int,
    int,
) {
    let ctr = param_center(c, n, d);
    let f = param_forward(c, n, d);
    let w = rotate_fp(f, (p.vertices@[j].point.x as int, p.vertices@[j].point.y as int));
    (ctr.0 + w.0, ctr.1 + w.1, ctr.2 + w.2)
}

/// The distance (rounded down to the grid) between consecutive quantised
/// curve samples i - 1 and i out of n.
pub open spec fn sample_dist(c: CubicBezierCurve, n: int, i: int) -> int {
    let a = param_center(c, i - 1, n - 1);
    let b = param_center(c, i, n - 1);
    sqrt_floor(
        ((b.0 - a.0) * (b.0 - a.0) + (b.1 - a.1) * (b.1 - a.1) + (b.2 - a.2) * (b.2 - a.2)) as nat,
    ) as int
}

/// The length of the polyline through the first k of n quantised curve
/// samples.
pub open spec fn approx_len_sum(c: CubicBezierCurve, n: int, k: int) -> int
    decreases k,
{
    if k <= 1 {
        0
    } else {
        approx_len_sum(c, n, k - 1) + sample_dist(c, n, k - 1)
    }
}

/// The truncated tangent offset dir * scale / SCALE, componentwise, for a
/// unit direction dir at scale SCALE.
pub open spec fn tangent_offset(dir: Vec3, scale: int) -> (int, int, int) {
    (
        trunc_div(dir.x * scale, SCALE as int),
        trunc_div(dir.y * scale, SCALE as int),
        trunc_div(dir.z * scale, SCALE as int),
    )
}

/// Owns the four control points of one cubic Bezier segment.
#[derive(Clone, Copy, Debug, PartialEq, Eq, Structural)]
pub struct CurveSegment {
    pub p0: Vec3,
    pub p1: Vec3,
    pub p2: Vec3,
    pub p3: Vec3,
}

impl CurveSegment {
    /// All control points on the grid.
    pub open spec fn wf(&self) -> bool {
        &&& fits3(self.p0, COORD_MAX as int)
        &&& fits3(self.p1, COORD_MAX as int)
        &&& fits3(self.p2, COORD_MAX as int)
        &&& fits3(self.p3, COORD_MAX as int)
    }

    /// The curve these control points define.
    pub open spec fn curve_spec(&self) -> CubicBezierCurve {
        CubicBezierCurve { p0: self.p0, p1: self.p1, p2: self.p2, p3: self.p3 }
    }

    pub fn new(p0: Vec3, p1: Vec3, p2: Vec3, p3: Vec3) -> (r: CurveSegment)
        requires
            fits3(p0, COORD_MAX as int),
            fits3(p1, COORD_MAX as int),
            fits3(p2, COORD_MAX as int),
            fits3(p3, COORD_MAX as int),
        ensures
            r.p0 == p0 && r.p1 == p1 && r.p2 == p2 && r.p3 == p3,
            r.wf(),
    {
        CurveSegment { p0, p1, p2, p3 }
    }

    /// Recomputes the cubic Bezier curve from the current control points.
    pub fn curve(&self) -> (r: CubicBezierCurve)
        requires
            self.wf(),
        ensures
            r == self.curve_spec(),
            r.wf(),
    {
        CubicBezierCurve { p0: self.p0, p1: self.p1, p2: self.p2, p3: self.p3 }
    }

    /// Recomputes the curve and samples n exact positions along it, both
    /// endpoints included: a preview polyline.
    pub fn curve_points(&self, n: usize) -> (r: Vec<RatVec3>)
        requires
            self.wf(),
            2 <= n <= DEN_MAX + 1,
        ensures
            r@.len() == n,
            forall|i: int|
                0 <= i < n ==> sample_at(self.curve_spec(), n as int, i, #[trigger] r@[i]),
    {
        let c = self.curve();
        c.sample_positions(n)
    }

    /// The oriented frame of the curve at parameter t, or None exactly when
    /// the tangent vanishes there.
    pub fn get_bezier_oriented_point(&self, t: Param) -> (r: Option<OrientedPoint>)
        requires
            self.wf(),
            t.wf(),
        ensures
            match r {
                None => param_tangent(self.curve_spec(), t.num as int, t.den as int) == (
                    0int,
                    0int,
                    0int,
                ),
                Some(op) => {
                    &&& param_tangent(self.curve_spec(), t.num as int, t.den as int) != (
                        0int,
                        0int,
                        0int,
                    )
                    &&& op.pos@ == param_center(self.curve_spec(), t.num as int, t.den as int)
                    &&& op.fwd@ == param_forward(self.curve_spec(), t.num as int, t.den as int)
                    &&& op.wf()
                },
            },
    {
        let c = self.curve();
        oriented_point_at(&c, t)
    }

    /// The frame at parameter t together with the world-space endpoint
    /// pairs of every profile edge there: the wireframe preview of one
    /// ring. None exactly when the tangent vanishes at t.
    pub fn get_profile_center_and_lines(&self, t: Param, profile: &ProfileShape) -> (r: Option<
        (OrientedPoint, Vec<(Vec3, Vec3)>),
    >)
        requires
            self.wf(),
            t.wf(),
            profile.wf(),
        ensures
            match r {
                None => param_tangent(self.curve_spec(), t.num as int, t.den as int) == (
                    0int,
                    0int,
                    0int,
                ),
                Some(pair) => {
                    let c = self.curve_spec();
                    let n = t.num as int;
                    let d = t.den as int;
                    &&& param_tangent(c, n, d) != (0int, 0int, 0int)
                    &&& pair.0.pos@ == param_center(c, n, d)
                    &&& pair.0.fwd@ == param_forward(c, n, d)
                    &&& pair.1@.len() == profile.line_indices@.len() as int / 2
                    &&& forall|e: int|
                        0 <= e < pair.1@.len() ==> (#[trigger] pair.1@[e]).0@ == world_point(
                            c,
                            *profile,
                            n,
                            d,
                            profile.line_indices@[2 * e] as int,
                        ) && pair.1@[e].1@ == world_point(
                            c,
                            *profile,
                            n,
                            d,
                            profile.line_indices@[2 * e + 1] as int,
                        )
                },
            },
    {
        let op = match self.get_bezier_oriented_point(t) {
            Option::Some(op) => op,
            Option::None => {
                return None;
            },
        };
        let e_count: usize = profile.line_count() / 2;
        let mut lines: Vec<(Vec3, Vec3)> = Vec::new();
        let mut e: usize = 0;
        while e < e_count
            invariant
                self.wf(),
                t.wf(),
                profile.wf(),
                e_count == profile.line_indices@.len() as int / 2,
                e <= e_count,
                op.wf(),
                op.pos@ == param_center(self.curve_spec(), t.num as int, t.den as int),
                op.fwd@ == param_forward(self.curve_spec(), t.num as int, t.den as int),
                lines@.len() == e,
                forall|j: int|
                    0 <= j < e ==> (#[trigger] lines@[j]).0@ == world_point(
                        self.curve_spec(),
                        *profile,
                        t.num as int,
                        t.den as int,
                        profile.line_indices@[2 * j] as int,
                    ) && lines@[j].1@ == world_point(
                        self.curve_spec(),
                        *profile,
                        t.num as int,
                        t.den as int,
                        profile.line_indices@[2 * j + 1] as int,
                    ),
            decreases e_count - e,
        {
            let a: usize = profile.line_indices[2 * e];
            let b: usize = profile.line_indices[2 * e + 1];
            let wa = op.local_to_world_pos(profile.vertices[a].point);
            let wb = op.local_to_world_pos(profile.vertices[b].point);
            lines.push((wa, wb));
            e = e + 1;
        }
        Some((op, lines))
    }

    /// The approximate curve length: the length of the polyline through
    /// eight evenly spaced quantised curve samples.
    pub fn get_approx_len(&self) -> (r: u64)
        requires
            self.wf(),
        ensures
            r == approx_len_sum(self.curve_spec(), 8, 8),
    {
        let c = self.curve();
        let mut acc: u64 = 0;
        let mut prev: Vec3 = center_at(&c, Param { num: 0, den: 7 });
        let mut i: usize = 1;
        while i < 8
            invariant
                c == self.curve_spec(),
                c.wf(),
                1 <= i <= 8,
                prev@ == param_center(c, i - 1, 7),
                fits3(prev, COORD_MAX as int),
                acc == approx_len_sum(c, 8, i as int),
                acc <= i * 0x1_0000_0000,
            decreases 8 - i,
        {
            let cur: Vec3 = center_at(&c, Param { num: i as u32, den: 7 });
            let dx: i64 = cur.x - prev.x;
            let dy: i64 = cur.y - prev.y;
            let dz: i64 = cur.z - prev.z;
            proof {
                assert(0 <= (dx as int) * (dx as int) <= 0x4000_0000_0000_0000 && 0 <= (dy as int)
                    * (dy as int) <= 0x4000_0000_0000_0000 && 0 <= (dz as int) * (dz as int)
                    <= 0x4000_0000_0000_0000) by (nonlinear_arith)
                    requires
                        -0x8000_0000 <= dx <= 0x8000_0000,
                        -0x8000_0000 <= dy <= 0x8000_0000,
                        -0x8000_0000 <= dz <= 0x8000_0000,
                ;
            }
            let d_sq: u128 = ((dx as i128) * (dx as i128) + (dy as i128) * (dy as i128) + (
            dz as i128) * (dz as i128)) as u128;
            let len: u64 = crate::num::isqrt(d_sq);
            proof {
                assert(len <= 0xffff_ffff) by (nonlinear_arith)
                    requires
                        (len as int) * (len as int) <= 0xc000_0000_0000_0000,
                        len >= 0,
                ;
            }
            acc = acc + len;
            prev = cur;
            i = i + 1;
        }
        acc
    }

    /// Locks the two interior control points to the tangents of their
    /// adjacent endpoints: the first interior point is placed at the start
    /// point plus its tangent direction (unit, at scale SCALE) times the
    /// start tangent-scale, and the second at the end point plus its
    /// tangent direction times the end tangent-scale. This yields a smooth
    /// start and end tangent that each endpoint adjusts independently.
    pub fn lock_midpoints(
        &mut self,
        start_dir: Vec3,
        start_scale: i64,
        end_dir: Vec3,
        end_scale: i64,
    )
        requires
            old(self).wf(),
            fits3(start_dir, SCALE as int),
            fits3(end_dir, SCALE as int),
            0 <= start_scale,
            0 <= end_scale,
            fits3(old(self).p0, COORD_MAX - start_scale),
            fits3(old(self).p3, COORD_MAX - end_scale),
        ensures
            final(self).wf(),
            final(self).p0 == old(self).p0,
            final(self).p3 == old(self).p3,
            final(self).p1@ == ({
                let o = tangent_offset(start_dir, start_scale as int);
                (old(self).p0.x + o.0, old(self).p0.y + o.1, old(self).p0.z + o.2)
            }),
            final(self).p2@ == ({
                let o = tangent_offset(end_dir, end_scale as int);
                (old(self).p3.x + o.0, old(self).p3.y + o.1, old(self).p3.z + o.2)
            }),
    {
        let new_p1 = locked_point(self.p0, start_dir, start_scale);
        let new_p2 = locked_point(self.p3, end_dir, end_scale);
        self.p1 = new_p1;
        self.p2 = new_p2;
    }
}

/// One locked interior point: the anchor endpoint plus its tangent
/// direction scaled by the tangent-scale, rounded toward zero.
fn locked_point(anchor: Vec3, dir: Vec3, scale: i64) -> (r: Vec3)
    requires
        fits3(dir, SCALE as int),
        0 <= scale,
        fits3(anchor, COORD_MAX - scale),
    ensures
        r@ == ({
            let o = tangent_offset(dir, scale as int);
            (anchor.x + o.0, anchor.y + o.1, anchor.z + o.2)
        }),
        fits3(r, COORD_MAX as int),
{
    proof {
        assert(-((scale as int) * (SCALE as int)) <= (dir.x as int) * (scale as int) <= (
        scale as int) * (SCALE as int) && -((scale as int) * (SCALE as int)) <= (dir.y as int) * (
        scale as int) <= (scale as int) * (SCALE as int) && -((scale as int) * (SCALE as int)) <= (
        dir.z as int) * (scale as int) <= (scale as int) * (SCALE as int)) by (nonlinear_arith)
            requires
                -(SCALE as int) <= dir.x <= SCALE as int,
                -(SCALE as int) <= dir.y <= SCALE as int,
                -(SCALE as int) <= dir.z <= SCALE as int,
                0 <= scale,
        ;
        lemma_trunc_div_bound((dir.x as int) * (scale as int), SCALE as int, scale as int);
        lemma_trunc_div_bound((dir.y as int) * (scale as int), SCALE as int, scale as int);
        lemma_trunc_div_bound((dir.z as int) * (scale as int), SCALE as int, scale as int);
    }
    let ox: i64 = trunc_div_i128((dir.x as i128) * (scale as i128), SCALE as i128) as i64;
    let oy: i64 = trunc_div_i128((dir.y as i128) * (scale as i128), SCALE as i128) as i64;
    let oz: i64 = trunc_div_i128((dir.z as i128) * (scale as i128), SCALE as i128) as i64;
    Vec3 { x: anchor.x + ox, y: anchor.y + oy, z: anchor.z + oz }
}

} // verus!
