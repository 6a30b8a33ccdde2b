//! The tube mesh generator: sweeps the cross-section profile along the
//! curve and stitches consecutive rings into a triangulated surface.
//!
//! For a ring count R, ring r sits at curve parameter r / (R - 1): R rings
//! spread evenly over the whole segment, endpoints included. Each ring is
//! the profile transformed by the oriented frame at its parameter; the
//! vertex buffers are ring-major (ring r occupies indices r * V .. r * V + V
//! for a profile of V vertices). Between each pair of adjacent rings every
//! profile edge (a, b) contributes the two triangles
//! (curr a, curr b, next b) and (curr a, next b, next a), which face outward
//! under a counter-clockwise front-face convention; a clockwise-front
//! renderer must reverse the winding.

use vstd::prelude::*;

verus! {

use crate::bezier::{CubicBezierCurve, Param};
use crate::frame::{
    oriented_point_at, param_center, param_forward, param_tangent, rotate_fp, OrientedPoint,
};
use crate::num::trunc_div;
use crate::profile::ProfileShape;
use crate::vec::{Vec2, Vec3};
use crate::{DEN_MAX, SCALE};

/// Why mesh generation refused to run. Every failure is an input-validation
/// failure: the caller keeps its previous mesh and retries next tick.
#[derive(Clone, Copy, Debug, PartialEq, Eq, Structural)]
pub enum MeshError {
    /// Fewer than two rings leave no ring pair to connect.
    TooFewRings,
    /// A profile without vertices has nothing to sweep.
    EmptyProfile,
    /// The curve's velocity vanishes at some ring, so no frame orientation
    /// exists there.
    DegenerateTangent,
}

/// The generated buffers: flat vertex positions, parallel normals and
/// texture coordinates, and a triangle index list, three entries per
/// triangle.
#[derive(Clone, Debug)]
pub struct TubeMesh {
    pub positions: Vec<Vec3>,
    pub normals: Vec<Vec3>,
    pub uvs: Vec<Vec2>,
    pub indices: Vec<u32>,
}

/// The exact velocity of the curve at ring r of R.
pub open spec fn ring_tangent(c: CubicBezierCurve, rings: int, r: int) -> (int, int, int) {
    param_tangent(c, r, rings - 1)
}

/// The curve's velocity vanishes exactly at ring r: no frame can be
/// oriented there.
pub open spec fn ring_degenerate(c: CubicBezierCurve, rings: int, r: int) -> bool {
    ring_tangent(c, rings, r) == (0int, 0int, 0int)
}

/// The centre of ring r: the exact curve position at r / (R - 1), truncated
/// to the grid.
pub open spec fn ring_center(c: CubicBezierCurve, rings: int, r: int) -> (int, int, int) {
    param_center(c, r, rings - 1)
}

/// The unit forward direction of ring r, at scale SCALE.
pub open spec fn ring_forward(c: CubicBezierCurve, rings: int, r: int) -> (int, int, int) {
    param_forward(c, r, rings - 1)
}

/// The world position of entry k of the vertex buffer: ring k / V, profile
/// vertex k % V, for a profile of V vertices.
pub open spec fn mesh_position(c: CubicBezierCurve, p: ProfileShape, rings: int, k: int) -> (
    int,
    int,
    int,
) {
    let vc = p.vertices@.len() as int;
    let r = k / vc;
    let i = k % vc;
    let ctr = ring_center(c, rings, r);
    let f = ring_forward(c, rings, r);
    let w = rotate_fp(f, (p.vertices@[i].point.x as int, p.vertices@[i].point.y as int));
    (ctr.0 + w.0, ctr.1 + w.1, ctr.2 + w.2)
}

/// The world normal of entry k of the normal buffer: the profile normal of
/// vertex k % V rotated by the frame of ring k / V.
pub open spec fn mesh_normal(c: CubicBezierCurve, p: ProfileShape, rings: int, k: int) -> (
    int,
    int,
    int,
) {
    let vc = p.vertices@.len() as int;
    let r = k / vc;
    let i = k % vc;
    let f = ring_forward(c, rings, r);
    rotate_fp(f, (p.vertices@[i].normal.x as int, p.vertices@[i].normal.y as int))
}

/// The texture coordinates of entry k: the profile U of vertex k % V, and
/// for V the ring's curve parameter at scale SCALE.
pub open spec fn mesh_uv(p: ProfileShape, rings: int, k: int) -> (int, int) {
    let vc = p.vertices@.len() as int;
    let r = k / vc;
    let i = k % vc;
    (p.vertices@[i].u as int, trunc_div(r * (SCALE as int), rings - 1))
}

/// Entry k of the triangle index buffer. Six entries make the quad of edge
/// e = (k / 6) % E between rings r = (k / 6) / E and r + 1, where E is the
/// profile's edge count; the winding is counter-clockwise-front.
pub open spec fn mesh_index(p: ProfileShape, k: int) -> int {
    let vc = p.vertices@.len() as int;
    let ec = p.line_indices@.len() as int / 2;
    let q = k / 6;
    let rem = k % 6;
    let r = q / ec;
    let e = q % ec;
    let a = p.line_indices@[2 * e] as int;
    let b = p.line_indices@[2 * e + 1] as int;
    if rem == 0 {
        r * vc + a
    } else if rem == 1 {
        r * vc + b
    } else if rem == 2 {
        (r + 1) * vc + b
    } else if rem == 3 {
        r * vc + a
    } else if rem == 4 {
        (r + 1) * vc + b
    } else {
        (r + 1) * vc + a
    }
}

/// The buffers of m are exactly the mesh of the given curve, profile and
/// ring count: every entry of every buffer is pinned.
pub open spec fn mesh_ok(c: CubicBezierCurve, p: ProfileShape, rings: int, m: TubeMesh) -> bool {
    let vc = p.vertices@.len() as int;
    let ec = p.line_indices@.len() as int / 2;
    &&& m.positions@.len() == rings * vc
    &&& m.normals@.len() == rings * vc
    &&& m.uvs@.len() == rings * vc
    &&& m.indices@.len() == (rings - 1) * ec * 6
    &&& forall|k: int|
        0 <= k < rings * vc ==> (#[trigger] m.positions@[k])@ == mesh_position(c, p, rings, k)
    &&& forall|k: int|
        0 <= k < rings * vc ==> (#[trigger] m.normals@[k])@ == mesh_normal(c, p, rings, k)
    &&& forall|k: int| 0 <= k < rings * vc ==> (#[trigger] m.uvs@[k])@ == mesh_uv(p, rings, k)
    &&& forall|k: int|
        0 <= k < (rings - 1) * ec * 6 ==> (#[trigger] m.indices@[k]) == mesh_index(p, k)
}

/// Sweeps the profile along the curve and produces the tube mesh.
///
/// Succeeds if and only if there are at least two rings, the profile is not
/// empty, and the curve's velocity vanishes at no ring; each failure names
/// its reason. On success the buffer lengths obey
/// positions = normals = uvs = R * V and indices = (R - 1) * (E) * 6 for V
/// profile vertices and E profile edges, and every entry is the exact value
/// given by the ring frames.
pub fn generate_tube_mesh(curve: &CubicBezierCurve, profile: &ProfileShape, rings: usize) -> (res:
    Result<TubeMesh, MeshError>)
    requires
        curve.wf(),
        profile.wf(),
        rings <= DEN_MAX,
    ensures
        match res {
            Result::Ok(m) => {
                &&& rings >= 2
                &&& profile.vertices@.len() > 0
                &&& forall|r: int| 0 <= r < rings ==> !ring_degenerate(*curve, rings as int, r)
                &&& mesh_ok(*curve, *profile, rings as int, m)
            },
            Result::Err(MeshError::TooFewRings) => rings < 2,
            Result::Err(MeshError::EmptyProfile) => rings >= 2 && profile.vertices@.len() == 0,
            Result::Err(MeshError::DegenerateTangent) => {
                &&& rings >= 2
                &&& profile.vertices@.len() > 0
                &&& exists|r: int| 0 <= r < rings && ring_degenerate(*curve, rings as int, r)
            },
        },
{
    if rings < 2 {
        return Err(MeshError::TooFewRings);
    }
    let v_count: usize = profile.vertex_count();
    if v_count == 0 {
        return Err(MeshError::EmptyProfile);
    }
    let d: u32 = (rings - 1) as u32;
    let mut positions: Vec<Vec3> = Vec::new();
    let mut normals: Vec<Vec3> = Vec::new();
    let mut uvs: Vec<Vec2> = Vec::new();

    let mut ring: usize = 0;
    while ring < rings
        invariant
            curve.wf(),
            profile.wf(),
            2 <= rings <= DEN_MAX,
            d == rings - 1,
            v_count == profile.vertices@.len(),
            v_count > 0,
            ring <= rings,
            positions@.len() == ring * v_count,
            normals@.len() == ring * v_count,
            uvs@.len() == ring * v_count,
            forall|r: int| 0 <= r < ring ==> !ring_degenerate(*curve, rings as int, r),
            forall|k: int|
                0 <= k < ring * v_count ==> (#[trigger] positions@[k])@ == mesh_position(
                    *curve,
                    *profile,
                    rings as int,
                    k,
                ),
            forall|k: int|
                0 <= k < ring * v_count ==> (#[trigger] normals@[k])@ == mesh_normal(
                    *curve,
                    *profile,
                    rings as int,
                    k,
                ),
            forall|k: int|
                0 <= k < ring * v_count ==> (#[trigger] uvs@[k])@ == mesh_uv(
                    *profile,
                    rings as int,
                    k,
                ),
        decreases rings - ring,
    {
        let t = Param { num: ring as u32, den: d };
        let frame = match oriented_point_at(curve, t) {
            Option::Some(op) => op,
            Option::None => {
                proof {
                    assert(ring_degenerate(*curve, rings as int, ring as int));
                }
                return Err(MeshError::DegenerateTangent);
            },
        };
        let v_coord: i64 = ((ring as u64) * 65536u64 / (d as u64)) as i64;
        proof {
            vstd::arithmetic::div_mod::lemma_div_nonincreasing(
                (ring as int) * (SCALE as int),
                d as int,
            );
            vstd::arithmetic::div_mod::lemma_div_pos_is_pos(
                (ring as int) * (SCALE as int),
                d as int,
            );
        }

        let mut i: usize = 0;
        while i < v_count
            invariant
                curve.wf(),
                profile.wf(),
                2 <= rings <= DEN_MAX,
                d == rings - 1,
                v_count == profile.vertices@.len(),
                v_count > 0,
                ring < rings,
                i <= v_count,
                positions@.len() == ring * v_count + i,
                normals@.len() == ring * v_count + i,
                uvs@.len() == ring * v_count + i,
                frame.wf(),
                frame.pos@ == ring_center(*curve, rings as int, ring as int),
                frame.fwd@ == ring_forward(*curve, rings as int, ring as int),
                v_coord == trunc_div((ring as int) * (SCALE as int), d as int),
                forall|k: int|
                    0 <= k < ring * v_count + i ==> (#[trigger] positions@[k])@ == mesh_position(
                        *curve,
                        *profile,
                        rings as int,
                        k,
                    ),
                forall|k: int|
                    0 <= k < ring * v_count + i ==> (#[trigger] normals@[k])@ == mesh_normal(
                        *curve,
                        *profile,
                        rings as int,
                        k,
                    ),
                forall|k: int|
                    0 <= k < ring * v_count + i ==> (#[trigger] uvs@[k])@ == mesh_uv(
                        *profile,
                        rings as int,
                        k,
                    ),
            decreases v_count - i,
        {
            let vert = profile.vertices[i];
            let wp = frame.local_to_world_pos(vert.point);
            let wn = frame.local_to_world_vect(vert.normal);
            proof {
                vstd::arithmetic::div_mod::lemma_fundamental_div_mod_converse(
                    (ring as int) * (v_count as int) + (i as int),
                    v_count as int,
                    ring as int,
                    i as int,
                );
            }
            positions.push(wp);
            normals.push(wn);
            uvs.push(Vec2 { x: vert.u, y: v_coord });
            i = i + 1;
        }
        proof {
            assert(!ring_degenerate(*curve, rings as int, ring as int));
            assert(((ring as int) + 1) * (v_count as int) == (ring as int) * (v_count as int) + (
            v_count as int)) by (nonlinear_arith);
        }
        ring = ring + 1;
    }

    // triangles between each pair of adjacent rings
    let e_count: usize = profile.line_count() / 2;
    let mut indices: Vec<u32> = Vec::new();
    let mut r2: usize = 0;
    while r2 < rings - 1
        invariant
            profile.wf(),
            2 <= rings <= DEN_MAX,
            v_count == profile.vertices@.len(),
            v_count > 0,
            e_count == profile.line_indices@.len() as int / 2,
            r2 <= rings - 1,
            indices@.len() == r2 * e_count * 6,
            forall|k: int|
                0 <= k < r2 * e_count * 6 ==> (#[trigger] indices@[k]) == mesh_index(*profile, k),
        decreases rings - 1 - r2,
    {
        let mut e: usize = 0;
        proof {
            assert(r2 * e_count * 6 + e_count * 6 == (r2 + 1) * e_count * 6) by (nonlinear_arith);
            assert(0 <= r2 * e_count * 6 && r2 * e_count <= 4096 * 0x40000) by (nonlinear_arith)
                requires
                    0 <= r2 <= 4096,
                    0 <= e_count <= 0x40000,
            ;
        }
        while e < e_count
            invariant
                profile.wf(),
                2 <= rings <= DEN_MAX,
                v_count == profile.vertices@.len(),
                v_count > 0,
                e_count == profile.line_indices@.len() as int / 2,
                r2 < rings,
                e <= e_count,
                indices@.len() == r2 * e_count * 6 + e * 6,
                forall|k: int|
                    0 <= k < r2 * e_count * 6 + e * 6 ==> (#[trigger] indices@[k]) == mesh_index(
                        *profile,
                        k,
                    ),
            decreases e_count - e,
        {
            let a: usize = profile.line_indices[2 * e];
            let b: usize = profile.line_indices[2 * e + 1];
            proof {
                assert(0 <= r2 * v_count && r2 * v_count + v_count <= 0x4000_0000)
                    by (nonlinear_arith)
                    requires
                        0 <= r2 < 4096,
                        0 < v_count <= 0x40000,
                ;
            }
            let curr: usize = r2 * v_count;
            let next: usize = curr + v_count;
            let curr_a: u32 = (curr + a) as u32;
            let curr_b: u32 = (curr + b) as u32;
            let next_a: u32 = (next + a) as u32;
            let next_b: u32 = (next + b) as u32;
            let ghost base: int = (r2 as int) * (e_count as int) * 6 + (e as int) * 6;
            let ghost q: int = (r2 as int) * (e_count as int) + (e as int);
            proof {
                assert(base == q * 6) by (nonlinear_arith)
                    requires
                        base == (r2 as int) * (e_count as int) * 6 + (e as int) * 6,
                        q == (r2 as int) * (e_count as int) + (e as int),
                ;
                vstd::arithmetic::div_mod::lemma_fundamental_div_mod_converse(base + 0, 6, q, 0);
                vstd::arithmetic::div_mod::lemma_fundamental_div_mod_converse(base + 1, 6, q, 1);
                vstd::arithmetic::div_mod::lemma_fundamental_div_mod_converse(base + 2, 6, q, 2);
                vstd::arithmetic::div_mod::lemma_fundamental_div_mod_converse(base + 3, 6, q, 3);
                vstd::arithmetic::div_mod::lemma_fundamental_div_mod_converse(base + 4, 6, q, 4);
                vstd::arithmetic::div_mod::lemma_fundamental_div_mod_converse(base + 5, 6, q, 5);
                vstd::arithmetic::div_mod::lemma_fundamental_div_mod_converse(
                    q,
                    e_count as int,
                    r2 as int,
                    e as int,
                );
                assert(((r2 as int) + 1) * (v_count as int) == (r2 as int) * (v_count as int) + (
                v_count as int)) by (nonlinear_arith);
            }
            indices.push(curr_a);
            indices.push(curr_b);
            indices.push(next_b);
            indices.push(curr_a);
            indices.push(next_b);
            indices.push(next_a);
            proof {
                assert(indices@.len() == base + 6);
                assert(indices@[base + 0] == curr_a && indices@[base + 1] == curr_b && indices@[base
                    + 2] == next_b && indices@[base + 3] == curr_a && indices@[base + 4] == next_b
                    && indices@[base + 5] == next_a);
                assert(mesh_index(*profile, base + 0) == curr + a);
                assert(mesh_index(*profile, base + 1) == curr + b);
                assert(mesh_index(*profile, base + 2) == next + b);
                assert(mesh_index(*profile, base + 3) == curr + a);
                assert(mesh_index(*profile, base + 4) == next + b);
                assert(mesh_index(*profile, base + 5) == next + a);
                assert forall|k: int| 0 <= k < base + 6 implies (#[trigger] indices@[k])
                    == mesh_index(*profile, k) by {
                    if k >= base {
                        assert(k == base + 0 || k == base + 1 || k == base + 2 || k == base + 3
                            || k == base + 4 || k == base + 5);
                    }
                }
            }
            e = e + 1;
        }
        r2 = r2 + 1;
    }
    proof {
        assert(((rings - 1) as int) * (e_count as int) * 6 == ((rings as int) - 1) * (
        profile.line_indices@.len() as int / 2) * 6);
    }
    Ok(TubeMesh { positions, normals, uvs, indices })
}

/// Mesh generation is deterministic and idempotent: any two meshes that
/// satisfy the generation contract for the same curve, profile and ring
/// count carry identical buffers, so regenerating from unchanged inputs
/// always reproduces the same mesh.
pub proof fn lemma_mesh_deterministic(
    c: CubicBezierCurve,
    p: ProfileShape,
    rings: int,
    m1: TubeMesh,
    m2: TubeMesh,
)
    requires
        mesh_ok(c, p, rings, m1),
        mesh_ok(c, p, rings, m2),
    ensures
        m1.positions@ == m2.positions@,
        m1.normals@ == m2.normals@,
        m1.uvs@ == m2.uvs@,
        m1.indices@ == m2.indices@,
{
    assert forall|k: int| 0 <= k < m1.positions@.len() implies m1.positions@[k]
        == m2.positions@[k] by {
        assert(m1.positions@[k]@ == m2.positions@[k]@);
    }
    assert(m1.positions@ =~= m2.positions@);
    assert forall|k: int| 0 <= k < m1.normals@.len() implies m1.normals@[k] == m2.normals@[k] by {
        assert(m1.normals@[k]@ == m2.normals@[k]@);
    }
    assert(m1.normals@ =~= m2.normals@);
    assert forall|k: int| 0 <= k < m1.uvs@.len() implies m1.uvs@[k] == m2.uvs@[k] by {
        assert(m1.uvs@[k]@ == m2.uvs@[k]@);
    }
    assert(m1.uvs@ =~= m2.uvs@);
    assert(m1.indices@ =~= m2.indices@);
}

/// The vertex buffers of a generated mesh are ring-major: entry r * V + i
/// is profile vertex i swept to ring r — its position the ring centre plus
/// the rotated profile point, its normal the rotated profile normal, and
/// its texture coordinates the profile U with the ring parameter for V.
pub proof fn lemma_mesh_ring_major(
    c: CubicBezierCurve,
    p: ProfileShape,
    rings: int,
    m: TubeMesh,
    r: int,
    i: int,
)
    requires
        mesh_ok(c, p, rings, m),
        0 <= r < rings,
        0 <= i < p.vertices@.len(),
    ensures
        ({
            let vc = p.vertices@.len() as int;
            let ctr = ring_center(c, rings, r);
            let f = ring_forward(c, rings, r);
            let w = rotate_fp(f, (p.vertices@[i].point.x as int, p.vertices@[i].point.y as int));
            &&& m.positions@[r * vc + i]@ == (ctr.0 + w.0, ctr.1 + w.1, ctr.2 + w.2)
            &&& m.normals@[r * vc + i]@ == rotate_fp(
                f,
                (p.vertices@[i].normal.x as int, p.vertices@[i].normal.y as int),
            )
            &&& m.uvs@[r * vc + i]@ == (
                p.vertices@[i].u as int,
                trunc_div(r * (SCALE as int), rings - 1),
            )
        }),
{
    let vc = p.vertices@.len() as int;
    vstd::arithmetic::div_mod::lemma_fundamental_div_mod_converse(r * vc + i, vc, r, i);
    assert(0 <= r * vc + i && r * vc + i < rings * vc) by (nonlinear_arith)
        requires
            0 <= r < rings,
            0 <= i < vc,
            vc > 0,
    ;
    assert(m.positions@[r * vc + i]@ == mesh_position(c, p, rings, r * vc + i));
    assert(m.normals@[r * vc + i]@ == mesh_normal(c, p, rings, r * vc + i));
    assert(m.uvs@[r * vc + i]@ == mesh_uv(p, rings, r * vc + i));
}

/// Every entry of the index buffer names a vertex that the vertex buffers
/// actually hold: the mesh can be handed to a renderer as is.
pub proof fn lemma_mesh_indices_in_range(c: CubicBezierCurve, p: ProfileShape, rings: int, m: TubeMesh)
    requires
        mesh_ok(c, p, rings, m),
        p.wf(),
        rings >= 2,
        p.vertices@.len() > 0,
    ensures
        forall|k: int|
            0 <= k < m.indices@.len() ==> 0 <= #[trigger] m.indices@[k] < rings * p.vertices@.len(),
{
    let vc = p.vertices@.len() as int;
    let ec = p.line_indices@.len() as int / 2;
    assert forall|k: int| 0 <= k < m.indices@.len() implies 0 <= #[trigger] m.indices@[k]
        && m.indices@[k] < rings * vc by {
        assert(m.indices@[k] == mesh_index(p, k));
        let q = k / 6;
        let rem = k % 6;
        let r = q / ec;
        let e = q % ec;
        vstd::arithmetic::div_mod::lemma_div_pos_is_pos(k, 6);
        assert(6 * ((rings - 1) * ec) == (rings - 1) * ec * 6) by (nonlinear_arith);
        vstd::arithmetic::div_mod::lemma_multiply_divide_lt(k, 6, (rings - 1) * ec);
        vstd::arithmetic::div_mod::lemma_div_pos_is_pos(q, ec);
        assert(ec * (rings - 1) == (rings - 1) * ec) by (nonlinear_arith);
        vstd::arithmetic::div_mod::lemma_multiply_divide_lt(q, ec, rings - 1);
        vstd::arithmetic::div_mod::lemma_mod_bound(q, ec);
        let a = p.line_indices@[2 * e] as int;
        let b = p.line_indices@[2 * e + 1] as int;
        assert(a < vc && b < vc);
        assert(0 <= r * vc && r * vc + vc == (r + 1) * vc && (r + 1) * vc <= (rings - 1) * vc && (
        rings - 1) * vc + vc == rings * vc) by (nonlinear_arith)
            requires
                0 <= r,
                r + 1 <= rings - 1,
                vc > 0,
        ;
    }
}

} // verus!
