use tube_segment::bezier::CubicBezierCurve;
use tube_segment::profile::ProfileShape;
use tube_segment::tube::{generate_tube_mesh, MeshError};
use tube_segment::vec::{Vec2, Vec3};

fn square_curve() -> CubicBezierCurve {
    CubicBezierCurve::new(
        Vec3::new(-10, 0, 10),
        Vec3::new(-10, 0, -10),
        Vec3::new(10, 0, -10),
        Vec3::new(10, 0, 10),
    )
}

#[test]
fn buffer_sizes_match_formulas_for_many_ring_counts() {
    let c = square_curve();
    let profile = ProfileShape::circle_8();
    for rings in 2usize..=6 {
        let m = generate_tube_mesh(&c, &profile, rings).unwrap();
        assert_eq!(m.positions.len(), rings * 16);
        assert_eq!(m.normals.len(), rings * 16);
        assert_eq!(m.uvs.len(), rings * 16);
        assert_eq!(m.indices.len(), (rings - 1) * (16 / 2) * 6);
    }
}

#[test]
fn three_ring_square_scenario() {
    // control points (-10,0,10), (-10,0,-10), (10,0,-10), (10,0,10) with
    // ring count 3: vertex buffer length 3 * 16
    let c = square_curve();
    let profile = ProfileShape::circle_8();
    let m = generate_tube_mesh(&c, &profile, 3).unwrap();
    assert_eq!(m.positions.len(), 3 * 16);

    // ring 0 faces exactly -Z (the first control leg), which is the
    // degenerate shortest-arc case: the profile is turned 180 degrees
    // about X, so the top vertex (0, 65536) lands below the centre
    assert_eq!(m.positions[0], Vec3 { x: -10, y: -65536, z: 10 });

    // ring 1 sits at the quantised curve midpoint (0, 0, -5) facing +X;
    // the top vertex keeps its height there, and its face normal
    // (25080, 60547) turns its X component into -Z
    assert_eq!(m.positions[16], Vec3 { x: 0, y: 65536, z: -5 });
    assert_eq!(m.normals[16], Vec3 { x: 0, y: 60547, z: -25080 });

    // the V texture coordinate of ring 1 is the parameter 1/2 at scale
    // 65536; the U of vertex 0 is the seam value 1.0
    assert_eq!(m.uvs[16], Vec2 { x: 65536, y: 32768 });
    assert_eq!(m.uvs[0], Vec2 { x: 65536, y: 0 });

    // the first quad joins edge (1, 2) of rings 0 and 1 with the
    // counter-clockwise winding (curr a, curr b, next b), (curr a, next b,
    // next a)
    assert_eq!(&m.indices[0..6], &[1, 2, 18, 1, 18, 17]);
}

#[test]
fn regeneration_is_bit_identical() {
    let c = square_curve();
    let profile = ProfileShape::circle_8();
    let m1 = generate_tube_mesh(&c, &profile, 5).unwrap();
    let m2 = generate_tube_mesh(&c, &profile, 5).unwrap();
    assert_eq!(m1.positions, m2.positions);
    assert_eq!(m1.normals, m2.normals);
    assert_eq!(m1.uvs, m2.uvs);
    assert_eq!(m1.indices, m2.indices);
}

#[test]
fn fewer_than_two_rings_is_refused() {
    let c = square_curve();
    let profile = ProfileShape::circle_8();
    assert!(matches!(generate_tube_mesh(&c, &profile, 0), Err(MeshError::TooFewRings)));
    assert!(matches!(generate_tube_mesh(&c, &profile, 1), Err(MeshError::TooFewRings)));
}

#[test]
fn empty_profile_is_refused() {
    let c = square_curve();
    let profile = ProfileShape { vertices: Vec::new(), line_indices: Vec::new() };
    assert!(matches!(generate_tube_mesh(&c, &profile, 3), Err(MeshError::EmptyProfile)));
}

#[test]
fn coincident_control_points_are_refused_as_degenerate() {
    let p = Vec3::new(3, 4, 5);
    let c = CubicBezierCurve::new(p, p, p, p);
    let profile = ProfileShape::circle_8();
    assert!(matches!(generate_tube_mesh(&c, &profile, 4), Err(MeshError::DegenerateTangent)));
}

#[test]
fn all_indices_stay_inside_the_vertex_buffer() {
    let c = square_curve();
    let profile = ProfileShape::circle_8();
    let m = generate_tube_mesh(&c, &profile, 7).unwrap();
    for &ix in m.indices.iter() {
        assert!((ix as usize) < m.positions.len());
    }
}
