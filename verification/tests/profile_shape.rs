use tube_segment::profile::{ProfileShape, Vertex};
use tube_segment::vec::Vec2;

#[test]
fn circle_8_has_sixteen_duplicated_vertices() {
    let p = ProfileShape::circle_8();
    assert_eq!(p.vertex_count(), 16);
    assert_eq!(p.line_count(), 16);
    // duplicated corners carry one entry per incident face
    assert_eq!(p.vertices[0].point, p.vertices[1].point);
    assert_eq!(p.vertices[2].point, p.vertices[3].point);
    // the top corner: (0, 1.0), seam at U = 1.0 / 0.0; its two copies
    // carry the outward normals of the two faces meeting there
    assert_eq!(p.vertices[0].point, Vec2 { x: 0, y: 65536 });
    assert_eq!(p.vertices[0].normal, Vec2 { x: 25080, y: 60547 });
    assert_eq!(p.vertices[1].normal, Vec2 { x: -25080, y: 60547 });
    assert_eq!(p.vertices[0].u, 65536);
    assert_eq!(p.vertices[1].u, 0);
    // a diagonal corner: 1/sqrt(2) at scale 65536; each copy takes its own
    // face's outward normal (the hard-edge representation)
    assert_eq!(p.vertices[2].point, Vec2 { x: -46341, y: 46341 });
    assert_eq!(p.vertices[2].normal, Vec2 { x: -25080, y: 60547 });
    assert_eq!(p.vertices[3].normal, Vec2 { x: -60547, y: 25080 });
    assert_ne!(p.vertices[2].normal, p.vertices[3].normal);
    assert_eq!(p.vertices[2].u, 8192);
    // an axis corner
    assert_eq!(p.vertices[4].point, Vec2 { x: -65536, y: 0 });
    assert_eq!(p.vertices[4].u, 16384);
}

#[test]
fn circle_8_edges_close_the_loop() {
    let p = ProfileShape::circle_8();
    let expect: Vec<usize> = vec![1, 2, 3, 4, 5, 6, 7, 8, 9, 10, 11, 12, 13, 14, 15, 0];
    assert_eq!(p.line_indices, expect);
}

#[test]
fn u_span_of_circle_8_sums_the_eight_edge_lengths() {
    // eight edges of the octagon inscribed at radius 65536, each length
    // rounded down to the grid before summing
    let p = ProfileShape::circle_8();
    assert_eq!(p.calc_u_span(), 401272);
}

#[test]
fn u_span_of_a_unit_square_profile() {
    // a square of side 1000 with one edge per side: span 4000 exactly
    let corners = [(500i64, 500i64), (-500, 500), (-500, -500), (500, -500)];
    let mut vertices = Vec::new();
    for (x, y) in corners {
        vertices.push(Vertex::new(Vec2::new(x, y), Vec2::new(0, 65536), 0));
    }
    let shape = ProfileShape { vertices, line_indices: vec![0, 1, 1, 2, 2, 3, 3, 0] };
    assert_eq!(shape.calc_u_span(), 4000);
}

#[test]
fn u_span_of_an_edgeless_profile_is_zero() {
    let shape = ProfileShape {
        vertices: vec![Vertex::new(Vec2::new(0, 0), Vec2::new(0, 65536), 0)],
        line_indices: vec![],
    };
    assert_eq!(shape.calc_u_span(), 0);
}

#[test]
fn circle_8_normals_face_outward_along_their_edges() {
    // every stored normal has unit length on the grid (up to rounding) and
    // is perpendicular to its own face, again up to grid rounding
    let p = ProfileShape::circle_8();
    let s2 = 65536i64 * 65536;
    for e in 0..8usize {
        let ia = p.line_indices[2 * e];
        let ib = p.line_indices[2 * e + 1];
        let a = &p.vertices[ia];
        let b = &p.vertices[ib];
        // the edge's two endpoints share that face's normal
        assert_eq!(a.normal, b.normal);
        let n2 = a.normal.x * a.normal.x + a.normal.y * a.normal.y;
        assert!((n2 - s2).abs() < 65536);
        // perpendicular to the edge direction, and pointing away from the
        // centre (positive dot with the edge midpoint)
        let ex = b.point.x - a.point.x;
        let ey = b.point.y - a.point.y;
        let dot = ex * a.normal.x + ey * a.normal.y;
        assert!(dot.abs() < 65536);
        let mx = a.point.x + b.point.x;
        let my = a.point.y + b.point.y;
        assert!(mx * a.normal.x + my * a.normal.y > 0);
    }
}
