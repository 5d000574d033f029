//! Tests of the clock-face tilt parameterization and the frame conversions.

use baseball_flight::ball_flight_state::GyroPole;
use baseball_flight::ball_flight_state::Tilt;
use baseball_flight::fx::SCALE;
use baseball_flight::vec3::Vec3;

fn to_f64(raw: i64) -> f64 {
    raw as f64 / SCALE as f64
}

#[test]
fn gyro_pole_defaults_to_right() {
    assert_eq!(GyroPole::default(), GyroPole::Right);
}

#[test]
fn tilt_from_clock_reading() {
    // 12:30 -> (12 - 3) * pi/6 + 30 * pi/360, computed with the raw constants
    let t = Tilt::from_hour_mintes(12, 30);
    assert_eq!(t.get(), 523_598_776 * 9 + 8_726_646 * 30);
    let expect = 9.0 * std::f64::consts::PI / 6.0 + 30.0 * std::f64::consts::PI / 360.0;
    assert!((to_f64(t.get()) - expect).abs() < 1e-6);
    // 3:00 is the zero tilt
    assert_eq!(Tilt::from_hour_mintes(3, 0).get(), 0);
}

#[test]
fn frame_conversions_swap_and_scale() {
    let v = Vec3::new(SCALE, 2 * SCALE, -3 * SCALE); // metres, engine frame
    let b = v.from_bevy_to_baseball_coord();
    assert!((to_f64(b.x) - -3.28084).abs() < 1e-8);
    assert!((to_f64(b.y) - -3.0 * 3.28084).abs() < 1e-7);
    assert!((to_f64(b.z) - 2.0 * 3.28084).abs() < 1e-7);
    let back = b.from_baseball_coord_to_bevy();
    assert!((back.x - v.x).abs() < 5);
    assert!((back.y - v.y).abs() < 5);
    assert!((back.z - v.z).abs() < 5);
}
