//! Tests of the seam pattern: point count, canonical centroid, the canonical
//! formula itself, and the periodicity of rigid rotation about an axis.

use baseball_flight::ball_flight_state::BaseballFlightState;
use baseball_flight::ball_flight_state::canonical_seam_points;
use baseball_flight::fx::SCALE;
use baseball_flight::fx::TWO_PI_FX;
use baseball_flight::quat::Quat;
use baseball_flight::vec3::Vec3;

fn to_f64(raw: i64) -> f64 {
    raw as f64 / SCALE as f64
}

#[test]
fn canonical_pattern_has_108_points_and_zero_centroid() {
    let pts = canonical_seam_points();
    assert_eq!(pts.len(), 108);
    let mut sx: i64 = 0;
    let mut sy: i64 = 0;
    let mut sz: i64 = 0;
    for p in &pts {
        sx += p.x;
        sy += p.y;
        sz += p.z;
    }
    // the centroid of the closed curve vanishes up to fixed-point rounding
    let n = pts.len() as f64;
    assert!((to_f64(sx) / n).abs() < 1e-3);
    assert!((to_f64(sy) / n).abs() < 1e-3);
    assert!((to_f64(sz) / n).abs() < 1e-3);
}

#[test]
fn canonical_points_match_the_seam_formula() {
    let pts = canonical_seam_points();
    let seam_r = 2.9375 / 2.0;
    for (i, p) in pts.iter().enumerate() {
        let alpha = 2.0 * std::f64::consts::PI * (i as f64) / 108.0;
        let x = (9.0 * alpha.cos() - 4.0 * (3.0 * alpha).cos()) / 13.0 * seam_r;
        let y = (9.0 * alpha.sin() + 4.0 * (3.0 * alpha).sin()) / 13.0 * seam_r;
        let z = 12.0 / 13.0 * (2.0 * alpha).cos() * seam_r;
        assert!((to_f64(p.x) - x).abs() < 1e-5, "point {} x", i);
        assert!((to_f64(p.y) - y).abs() < 1e-5, "point {} y", i);
        assert!((to_f64(p.z) - z).abs() < 1e-5, "point {} z", i);
    }
}

#[test]
fn activation_produces_full_seam_set() {
    let s = BaseballFlightState::from_params(
        Vec3::zero(),
        Vec3::new(141_200_000_000, 0, 0),
        Vec3::new(0, 0, 251_327_412_000),
        0,
        0,
    );
    assert_eq!(s.seams.len(), 108);
    assert!(s.active);
    assert_eq!(s.time_elapsed, 0);
    // the curve lies on the seam sphere, and rigid reorientation keeps it there
    for p in &s.seams {
        let r = (to_f64(p.x).powi(2) + to_f64(p.y).powi(2) + to_f64(p.z).powi(2)).sqrt();
        assert!((r - 1.46875).abs() < 1e-3, "radius {}", r);
    }
}

#[test]
fn rotation_over_a_full_period_returns_each_point() {
    // 1000 steps of 2 pi / 1000 about a unit axis bring a point back
    let axis = Vec3::new(0, 0, SCALE);
    let step = TWO_PI_FX / 1000;
    let q = Quat::from_axis_angle(&axis, step);
    let start = Vec3::new(1_468_750_000, 0, 0);
    let mut p = start;
    for _ in 0..1000 {
        p = q.mul_vec3(&p);
    }
    assert!((to_f64(p.x) - to_f64(start.x)).abs() < 1e-2);
    assert!((to_f64(p.y) - to_f64(start.y)).abs() < 1e-2);
    assert!((to_f64(p.z) - to_f64(start.z)).abs() < 1e-2);
}
