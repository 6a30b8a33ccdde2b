use tube_segment::bezier::{CubicBezierCurve, Param};
use tube_segment::vec::{RatVec3, Vec3};

fn square_curve() -> CubicBezierCurve {
    CubicBezierCurve::new(
        Vec3::new(-10, 0, 10),
        Vec3::new(-10, 0, -10),
        Vec3::new(10, 0, -10),
        Vec3::new(10, 0, 10),
    )
}

#[test]
fn position_at_zero_is_first_control_point() {
    let c = square_curve();
    let t = Param::new(0, 1).unwrap();
    let p = c.position(t);
    assert_eq!(p, RatVec3 { x: -10, y: 0, z: 10, den: 1 });
}

#[test]
fn position_at_one_is_last_control_point() {
    let c = square_curve();
    let t = Param::new(1, 1).unwrap();
    let p = c.position(t);
    assert_eq!(p, RatVec3 { x: 10, y: 0, z: 10, den: 1 });
}

#[test]
fn position_at_half_matches_hand_midpoint() {
    // 0.125 p0 + 0.375 p1 + 0.375 p2 + 0.125 p3 = (0, 0, -5), here as the
    // exact rational (0, 0, -40) / 8
    let c = square_curve();
    let t = Param::new(1, 2).unwrap();
    let p = c.position(t);
    assert_eq!(p, RatVec3 { x: 0, y: 0, z: -40, den: 8 });
}

#[test]
fn velocity_at_endpoints_points_along_control_legs() {
    let c = square_curve();
    let v0 = c.velocity(Param::new(0, 2).unwrap());
    // 3 (p1 - p0) over denominator 4: (0, 0, -60) * 4
    assert_eq!(v0, RatVec3 { x: 0, y: 0, z: -240, den: 4 });
    let v1 = c.velocity(Param::new(1, 2).unwrap());
    assert_eq!(v1, RatVec3 { x: 120, y: 0, z: 0, den: 4 });
}

#[test]
fn symmetric_difference_matches_velocity_exactly() {
    // over the common denominator 4: position(2/4) - position(0/4) equals
    // 2 e velocity(1/4) + 2 e^3 (p3 - p0 + 3 (p1 - p2)) with e = 1
    let c = square_curve();
    let hi = c.position(Param::new(2, 4).unwrap());
    let lo = c.position(Param::new(0, 4).unwrap());
    let v = c.velocity(Param::new(1, 4).unwrap());
    let lead = (-40i128, 0i128, 0i128);
    assert_eq!(hi.x - lo.x, 2 * v.x + 2 * lead.0);
    assert_eq!(hi.y - lo.y, 2 * v.y + 2 * lead.1);
    assert_eq!(hi.z - lo.z, 2 * v.z + 2 * lead.2);
}

#[test]
fn numerical_derivative_approximates_velocity() {
    // (B(t + h) - B(t - h)) / (2 h) is close to B'(t) for small h
    let c = square_curve();
    let hi = c.position(Param::new(17, 64).unwrap());
    let lo = c.position(Param::new(15, 64).unwrap());
    let v = c.velocity(Param::new(16, 64).unwrap());
    let h = 1.0f64 / 64.0;
    let num_x = (hi.x as f64 - lo.x as f64) / (hi.den as f64) / (2.0 * h);
    let num_z = (hi.z as f64 - lo.z as f64) / (hi.den as f64) / (2.0 * h);
    let vel_x = v.x as f64 / v.den as f64;
    let vel_z = v.z as f64 / v.den as f64;
    assert!((num_x - vel_x).abs() < 0.02 * (1.0 + vel_x.abs()));
    assert!((num_z - vel_z).abs() < 0.02 * (1.0 + vel_z.abs()));
}

#[test]
fn sample_positions_covers_both_endpoints() {
    let c = square_curve();
    let samples = c.sample_positions(5);
    assert_eq!(samples.len(), 5);
    // denominator (5 - 1)^3 = 64; first sample is position(0), last is
    // position(1)
    assert_eq!(samples[0], RatVec3 { x: -640, y: 0, z: 640, den: 64 });
    assert_eq!(samples[4], RatVec3 { x: 640, y: 0, z: 640, den: 64 });
    // samples are exact: the middle one is the hand midpoint
    assert_eq!(samples[2], RatVec3 { x: 0, y: 0, z: -320, den: 64 });
}

#[test]
fn sample_positions_two_points_are_the_endpoints() {
    let c = square_curve();
    let samples = c.sample_positions(2);
    assert_eq!(samples.len(), 2);
    assert_eq!(samples[0], RatVec3 { x: -10, y: 0, z: 10, den: 1 });
    assert_eq!(samples[1], RatVec3 { x: 10, y: 0, z: 10, den: 1 });
}

#[test]
fn param_new_rejects_bad_fractions() {
    assert!(Param::new(0, 0).is_none());
    assert!(Param::new(3, 2).is_none());
    assert!(Param::new(1, 5000).is_none());
    assert!(Param::new(2, 2).is_some());
}

#[test]
fn quantised_positions_stay_inside_the_control_hull() {
    let c = square_curve();
    for i in 0..=16u32 {
        let p = c.position(Param::new(i, 16).unwrap());
        let den = p.den;
        assert!(p.x.abs() <= 10 * den);
        assert!(p.y.abs() <= 10 * den);
        assert!(p.z.abs() <= 10 * den);
    }
}
