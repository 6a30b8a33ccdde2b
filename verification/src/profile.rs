//! The 2D cross-section profile that is swept along the curve: an ordered
//! list of vertices, each with an outward normal and a texture coordinate,
//! plus the index pairs that connect them into silhouette edges.

use vstd::prelude::*;

verus! {

use crate::num::sqrt_floor;
use crate::vec::{fits2, Vec2};
use crate::{COORD_MAX, SCALE};

/// One profile vertex: a point of the cross-section plane, its outward
/// normal (at scale SCALE), and its U texture coordinate (at scale SCALE).
/// Sharp corners are represented by duplicated vertices so that each copy
/// can carry the normal of its own face.
#[derive(Clone, Copy, Debug, PartialEq, Eq, Structural)]
pub struct Vertex {
    pub point: Vec2,
    pub normal: Vec2,
    pub u: i64,
}

impl Vertex {
    pub fn new(point: Vec2, normal: Vec2, u: i64) -> (r: Vertex)
        ensures
            r.point == point,
            r.normal == normal,
            r.u == u,
    {
        Vertex { point, normal, u }
    }
}

/// The squared distance between the points of two profile vertices.
pub open spec fn edge_len_sq(a: Vertex, b: Vertex) -> int {
    (a.point.x - b.point.x) * (a.point.x - b.point.x) + (a.point.y - b.point.y) * (a.point.y
        - b.point.y)
}

/// The sum of the rounded Euclidean lengths of the first k edges described
/// by the index list ls over the vertex list vs.
pub open spec fn u_span_sum(vs: Seq<Vertex>, ls: Seq<usize>, k: int) -> int
    decreases k,
{
    if k <= 0 {
        0
    } else {
        u_span_sum(vs, ls, k - 1) + sqrt_floor(
            edge_len_sq(vs[ls[2 * (k - 1)] as int], vs[ls[2 * (k - 1) + 1] as int]) as nat,
        )
    }
}

/// A fixed cross-section polyline, immutable once constructed and shared by
/// every ring of a generated mesh.
#[derive(Clone, Debug)]
pub struct ProfileShape {
    pub vertices: Vec<Vertex>,
    pub line_indices: Vec<usize>,
}

impl ProfileShape {
    /// A usable profile: the edge list pairs up, every edge index names a
    /// vertex, and all coordinates lie on the allowed grid range.
    pub open spec fn wf(&self) -> bool {
        &&& self.vertices@.len() <= 0x40000
        &&& self.line_indices@.len() % 2 == 0
        &&& self.line_indices@.len() <= 0x80000
        &&& forall|k: int|
            0 <= k < self.line_indices@.len() ==> (#[trigger] self.line_indices@[k]) < self.vertices@.len()
        &&& forall|i: int|
            0 <= i < self.vertices@.len() ==> fits2((#[trigger] self.vertices@[i]).point, COORD_MAX as int)
                && fits2(self.vertices@[i].normal, COORD_MAX as int)
    }

    /// How many vertices one ring of the swept tube carries.
    pub fn vertex_count(&self) -> (r: usize)
        ensures
            r == self.vertices@.len(),
    {
        self.vertices.len()
    }

    /// How many entries the edge index list holds; each consecutive pair is
    /// one silhouette edge.
    pub fn line_count(&self) -> (r: usize)
        ensures
            r == self.line_indices@.len(),
    {
        self.line_indices.len()
    }

    /// The total length of the cross-section outline: the sum over all edges
    /// of the Euclidean edge length, each rounded down to the grid. Serves to
    /// reparametrise texture V coordinates by arc length.
    pub fn calc_u_span(&self) -> (r: u64)
        requires
            self.wf(),
        ensures
            r == u_span_sum(self.vertices@, self.line_indices@, self.line_indices@.len() as int / 2),
    {
        let mut acc: u64 = 0;
        let mut k: usize = 0;
        let edges: usize = self.line_indices.len() / 2;
        while k < edges
            invariant
                self.wf(),
                edges == self.line_indices@.len() as int / 2,
                k <= edges,
                acc == u_span_sum(self.vertices@, self.line_indices@, k as int),
                acc <= k * 0x1_0000_0000,
            decreases edges - k,
        {
            let ia: usize = self.line_indices[2 * k];
            let ib: usize = self.line_indices[2 * k + 1];
            let a: Vertex = self.vertices[ia];
            let b: Vertex = self.vertices[ib];
            let dx: i64 = a.point.x - b.point.x;
            let dy: i64 = a.point.y - b.point.y;
            proof {
                assert(0 <= (dx as int) * (dx as int) <= 0x4000_0000_0000_0000 && 0 <= (
                dy as int) * (dy as int) <= 0x4000_0000_0000_0000) by (nonlinear_arith)
                    requires
                        -0x8000_0000 <= dx <= 0x8000_0000,
                        -0x8000_0000 <= dy <= 0x8000_0000,
                ;
            }
            let d_sq: u128 = ((dx as i128) * (dx as i128) + (dy as i128) * (dy as i128)) as u128;
            let len: u64 = crate::num::isqrt(d_sq);
            proof {
                assert(len <= 0xffff_ffff) by (nonlinear_arith)
                    requires
                        (len as int) * (len as int) <= 0x8000_0000_0000_0000,
                        len >= 0,
                ;
            }
            acc = acc + len;
            k = k + 1;
        }
        acc
    }

    /// The standard cross-section: an 8-sided approximation of the unit
    /// circle (radius SCALE on the grid), each corner duplicated so that
    /// the two faces meeting there carry their own outward normals — the
    /// eight octagon face normals, unit length at scale SCALE, rounded to
    /// the grid — and U coordinates evenly spaced over [0, SCALE] with the
    /// seam at the top.
    pub fn circle_8() -> (r: ProfileShape)
        ensures
            r.wf(),
            r.vertices@.len() == 16,
            r.line_indices@.len() == 16,
            forall|i: int|
                0 <= i < 16 ==> (#[trigger] r.vertices@[i]) == circle8_vertex(i),
            forall|k: int|
                0 <= k < 16 ==> (#[trigger] r.line_indices@[k]) == circle8_line_index(k),
    {
        let dg: i64 = 46341;
        let fl: i64 = 60547;
        let fs: i64 = 25080;
        let mut vs: Vec<Vertex> = Vec::new();
        vs.push(Vertex { point: Vec2 { x: 0, y: SCALE }, normal: Vec2 { x: fs, y: fl }, u: SCALE });
        vs.push(Vertex { point: Vec2 { x: 0, y: SCALE }, normal: Vec2 { x: -fs, y: fl }, u: 0 });
        vs.push(Vertex { point: Vec2 { x: -dg, y: dg }, normal: Vec2 { x: -fs, y: fl }, u: 8192 });
        vs.push(Vertex { point: Vec2 { x: -dg, y: dg }, normal: Vec2 { x: -fl, y: fs }, u: 8192 });
        vs.push(Vertex { point: Vec2 { x: -SCALE, y: 0 }, normal: Vec2 { x: -fl, y: fs }, u: 16384 });
        vs.push(Vertex { point: Vec2 { x: -SCALE, y: 0 }, normal: Vec2 { x: -fl, y: -fs }, u: 16384 });
        vs.push(Vertex { point: Vec2 { x: -dg, y: -dg }, normal: Vec2 { x: -fl, y: -fs }, u: 24576 });
        vs.push(Vertex { point: Vec2 { x: -dg, y: -dg }, normal: Vec2 { x: -fs, y: -fl }, u: 24576 });
        vs.push(Vertex { point: Vec2 { x: 0, y: -SCALE }, normal: Vec2 { x: -fs, y: -fl }, u: 32768 });
        vs.push(Vertex { point: Vec2 { x: 0, y: -SCALE }, normal: Vec2 { x: fs, y: -fl }, u: 32768 });
        vs.push(Vertex { point: Vec2 { x: dg, y: -dg }, normal: Vec2 { x: fs, y: -fl }, u: 40960 });
        vs.push(Vertex { point: Vec2 { x: dg, y: -dg }, normal: Vec2 { x: fl, y: -fs }, u: 40960 });
        vs.push(Vertex { point: Vec2 { x: SCALE, y: 0 }, normal: Vec2 { x: fl, y: -fs }, u: 49152 });
        vs.push(Vertex { point: Vec2 { x: SCALE, y: 0 }, normal: Vec2 { x: fl, y: fs }, u: 49152 });
        vs.push(Vertex { point: Vec2 { x: dg, y: dg }, normal: Vec2 { x: fl, y: fs }, u: 57344 });
        vs.push(Vertex { point: Vec2 { x: dg, y: dg }, normal: Vec2 { x: fs, y: fl }, u: 57344 });
        let mut ls: Vec<usize> = Vec::new();
        ls.push(1);
        ls.push(2);
        ls.push(3);
        ls.push(4);
        ls.push(5);
        ls.push(6);
        ls.push(7);
        ls.push(8);
        ls.push(9);
        ls.push(10);
        ls.push(11);
        ls.push(12);
        ls.push(13);
        ls.push(14);
        ls.push(15);
        ls.push(0);
        ProfileShape { vertices: vs, line_indices: ls }
    }
}

/// The corner of the circle_8 profile that vertex copy i sits on: the
/// octagon corners in counter-clockwise order starting at the top, each
/// corner held by copies 2k and 2k + 1.
pub open spec fn circle8_point(i: int) -> Vec2 {
    let s = SCALE;
    let dg = 46341i64;
    if i == 0 || i == 1 {
        Vec2 { x: 0, y: s }
    } else if i == 2 || i == 3 {
        Vec2 { x: ((-dg) as i64), y: dg }
    } else if i == 4 || i == 5 {
        Vec2 { x: ((-s) as i64), y: 0 }
    } else if i == 6 || i == 7 {
        Vec2 { x: ((-dg) as i64), y: ((-dg) as i64) }
    } else if i == 8 || i == 9 {
        Vec2 { x: 0, y: ((-s) as i64) }
    } else if i == 10 || i == 11 {
        Vec2 { x: dg, y: ((-dg) as i64) }
    } else if i == 12 || i == 13 {
        Vec2 { x: s, y: 0 }
    } else {
        Vec2 { x: dg, y: dg }
    }
}

/// The outward normal of the face that vertex copy i belongs to: each edge
/// of the profile joins an odd copy to the next even one, so consecutive
/// copies (1, 2), (3, 4), ..., (15, 0) share one of the eight octagon face
/// normals (unit length at scale SCALE, rounded to the grid).
pub open spec fn circle8_normal(i: int) -> Vec2 {
    let fl = 60547i64;
    let fs = 25080i64;
    if i == 1 || i == 2 {
        Vec2 { x: ((-fs) as i64), y: fl }
    } else if i == 3 || i == 4 {
        Vec2 { x: ((-fl) as i64), y: fs }
    } else if i == 5 || i == 6 {
        Vec2 { x: ((-fl) as i64), y: ((-fs) as i64) }
    } else if i == 7 || i == 8 {
        Vec2 { x: ((-fs) as i64), y: ((-fl) as i64) }
    } else if i == 9 || i == 10 {
        Vec2 { x: fs, y: ((-fl) as i64) }
    } else if i == 11 || i == 12 {
        Vec2 { x: fl, y: ((-fs) as i64) }
    } else if i == 13 || i == 14 {
        Vec2 { x: fl, y: fs }
    } else {
        Vec2 { x: fs, y: fl }
    }
}

/// The U texture coordinate of vertex copy i: one eighth of SCALE per
/// corner, with the seam at the top (copy 0 carries 1.0, copy 1 carries 0).
pub open spec fn circle8_u(i: int) -> i64 {
    let s = SCALE;
    if i == 0 {
        s
    } else if i == 1 {
        0
    } else if i == 2 || i == 3 {
        8192
    } else if i == 4 || i == 5 {
        16384
    } else if i == 6 || i == 7 {
        24576
    } else if i == 8 || i == 9 {
        32768
    } else if i == 10 || i == 11 {
        40960
    } else if i == 12 || i == 13 {
        49152
    } else {
        57344
    }
}

/// The i-th vertex of the circle_8 profile.
pub open spec fn circle8_vertex(i: int) -> Vertex {
    Vertex { point: circle8_point(i), normal: circle8_normal(i), u: circle8_u(i) }
}

/// The k-th entry of the circle_8 edge index list: each edge joins a vertex
/// to the next odd-numbered copy, closing the loop back at the top.
pub open spec fn circle8_line_index(k: int) -> usize {
    if k == 15 {
        0
    } else {
        (k + 1) as usize
    }
}

} // verus!
