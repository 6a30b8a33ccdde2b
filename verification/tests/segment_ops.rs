use tube_segment::bezier::Param;
use tube_segment::frame::{unit_dir, OrientedPoint};
use tube_segment::num::isqrt;
use tube_segment::profile::ProfileShape;
use tube_segment::segment::CurveSegment;
use tube_segment::vec::{RatVec3, Vec2, Vec3};

fn square_segment() -> CurveSegment {
    CurveSegment::new(
        Vec3::new(-10, 0, 10),
        Vec3::new(-10, 0, -10),
        Vec3::new(10, 0, -10),
        Vec3::new(10, 0, 10),
    )
}

#[test]
fn oriented_point_at_the_midpoint_faces_plus_x() {
    let seg = square_segment();
    let op = seg.get_bezier_oriented_point(Param::new(1, 2).unwrap()).unwrap();
    assert_eq!(op.pos, Vec3::new(0, 0, -5));
    assert_eq!(op.fwd, Vec3::new(65536, 0, 0));
}

#[test]
fn oriented_point_is_refused_on_a_degenerate_curve() {
    let p = Vec3::new(1, 1, 1);
    let seg = CurveSegment::new(p, p, p, p);
    assert!(seg.get_bezier_oriented_point(Param::new(1, 2).unwrap()).is_none());
}

#[test]
fn profile_preview_lines_follow_the_frame() {
    let seg = square_segment();
    let profile = ProfileShape::circle_8();
    let (op, lines) = seg
        .get_profile_center_and_lines(Param::new(1, 2).unwrap(), &profile)
        .unwrap();
    assert_eq!(op.pos, Vec3::new(0, 0, -5));
    assert_eq!(lines.len(), 8);
    // the first edge joins vertex 1 (top) to vertex 2 (upper-left corner),
    // both mapped into the frame at the curve midpoint
    assert_eq!(lines[0].0, Vec3::new(0, 65536, -5));
    assert_eq!(lines[0].1, Vec3::new(0, 46341, 46336));
}

#[test]
fn approx_len_of_the_square_curve() {
    // the polyline through eight quantised samples of this curve
    let seg = square_segment();
    assert_eq!(seg.get_approx_len(), 36);
}

#[test]
fn curve_points_delegate_to_exact_sampling() {
    let seg = square_segment();
    let pts = seg.curve_points(3);
    assert_eq!(pts.len(), 3);
    assert_eq!(pts[0], RatVec3 { x: -80, y: 0, z: 80, den: 8 });
    assert_eq!(pts[1], RatVec3 { x: 0, y: 0, z: -40, den: 8 });
    assert_eq!(pts[2], RatVec3 { x: 80, y: 0, z: 80, den: 8 });
}

#[test]
fn lock_midpoints_places_interior_points_on_the_tangents() {
    let mut seg = square_segment();
    // start tangent -Z, end tangent +Z, both with tangent-scale 5
    seg.lock_midpoints(Vec3::new(0, 0, -65536), 5, Vec3::new(0, 0, 65536), 5);
    assert_eq!(seg.p0, Vec3::new(-10, 0, 10));
    assert_eq!(seg.p1, Vec3::new(-10, 0, 5));
    assert_eq!(seg.p2, Vec3::new(10, 0, 15));
    assert_eq!(seg.p3, Vec3::new(10, 0, 10));
}

#[test]
fn unit_dir_normalises_a_pythagorean_vector() {
    let u = unit_dir(Vec3::new(3, 4, 0)).unwrap();
    assert_eq!(u, Vec3::new(39321, 52428, 0));
    assert!(unit_dir(Vec3::new(0, 0, 0)).is_none());
}

#[test]
fn frame_maps_local_points_about_its_position() {
    let op = OrientedPoint::from_forward(Vec3::new(5, 6, 7), Vec3::new(0, 0, 65536));
    // forward +Z is the canonical axis: the rotation is the identity
    assert_eq!(op.local_to_world_pos(Vec2::new(30, 40)), Vec3::new(35, 46, 7));
    assert_eq!(op.local_to_world_vect(Vec2::new(30, 40)), Vec3::new(30, 40, 0));
    // forward -Z turns 180 degrees about X
    let opposite = OrientedPoint::from_forward(Vec3::new(0, 0, 0), Vec3::new(0, 0, -65536));
    assert_eq!(opposite.local_to_world_vect(Vec2::new(30, 40)), Vec3::new(30, -40, 0));
}

#[test]
fn project_onto_xz_drops_the_height() {
    assert_eq!(Vec3::new(1, 2, 3).project_onto_xz(), Vec3::new(1, 0, 3));
}

#[test]
fn isqrt_rounds_down() {
    assert_eq!(isqrt(0), 0);
    assert_eq!(isqrt(15), 3);
    assert_eq!(isqrt(16), 4);
    assert_eq!(isqrt(u128::MAX), u64::MAX);
}
