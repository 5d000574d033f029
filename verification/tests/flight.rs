//! End-to-end tests of the force model and the integrator.

use baseball_flight::ball_flight_state::BaseballFlightState;
use baseball_flight::config::BaseballPluginConfig;
use baseball_flight::config::SeamShiftedWake;
use baseball_flight::fx::SCALE;
use baseball_flight::vec3::Vec3;

fn to_f64(raw: i64) -> f64 {
    raw as f64 / SCALE as f64
}

fn speed(v: &Vec3) -> f64 {
    (to_f64(v.x).powi(2) + to_f64(v.y).powi(2) + to_f64(v.z).powi(2)).sqrt()
}

fn ssw_params() -> SeamShiftedWake {
    SeamShiftedWake {
        seam_shift_factor: 500_000_000,
        activation_min: Vec3::new(-2_000_000_000, -2_000_000_000, -1_600_000_000),
        activation_max: Vec3::new(2_000_000_000, 2_000_000_000, -200_000_000),
        separated_flow_range: 300_000_000,
    }
}

fn config(drag: bool, magnus: bool, ssw: bool) -> BaseballPluginConfig {
    BaseballPluginConfig { drag_on: drag, magnus_on: magnus, ssw_on: ssw, ssw: ssw_params() }
}

/// Launch at 96 mph (141.2 ft/s) along x with backspin of 2400 rpm
/// (251.327 rad/s about -y, so that spin x velocity points up).
fn launch() -> BaseballFlightState {
    BaseballFlightState::from_params(
        Vec3::new(0, 0, 6_000_000_000),
        Vec3::new(141_200_000_000, 0, 0),
        Vec3::new(0, -251_327_412_000, 0),
        0,
        0,
    )
}

#[test]
fn force_model_is_zero_with_all_toggles_off() {
    let s = launch();
    let active: Vec<usize> = vec![0, 5, 17];
    let a = BaseballFlightState::derivs(
        &config(false, false, false),
        &s.v,
        &s.spin,
        &s.seams,
        250_000_000,
        &active,
    );
    assert_eq!((a.x, a.y, a.z), (0, 0, 0));
}

#[test]
fn drag_acceleration_has_the_exact_expected_value() {
    // v = (100, 0, 0) ft/s: |v| = 100 exactly, and
    // a = ((v * -C_0) * CD) * |v| follows step by step in raw units:
    // 100 * -0.005436395 = -0.5436395, * 0.33 = -0.179401035 (exact),
    // * 100 = -17.940103500
    let s = launch();
    let v = Vec3::new(100_000_000_000, 0, 0);
    let active: Vec<usize> = Vec::new();
    let a = BaseballFlightState::derivs(&config(true, false, false), &v, &s.spin, &s.seams, 0, &active);
    assert_eq!(a.x, -17_940_103_500);
    assert_eq!(a.y, 0);
    assert_eq!(a.z, 0);
}

#[test]
fn all_toggles_off_matches_projectile_motion() {
    let mut s = launch();
    let z0 = s.translation.z;
    s.update_state(&config(false, false, false), 500_000_000);
    // the discrete closed form: 500 sub-steps of gravity-only integration
    assert_eq!(s.v.x, 141_200_000_000);
    assert_eq!(s.v.y, 0);
    assert_eq!(s.v.z, -500 * 32_200_000);
    assert_eq!(s.translation.x, 500 * 141_200_000);
    assert_eq!(s.translation.z - z0, -32_200 * (500 * 501) / 2);
    // and the continuous parabola up to the documented discretization error
    let drop = to_f64(z0 - s.translation.z);
    let parabola = 0.5 * 32.2 * 0.5 * 0.5;
    assert!((drop - parabola).abs() <= 32.2 * 0.001 * 0.5 / 2.0 + 1e-6, "drop {}", drop);
    assert_eq!(s.time_elapsed, 500_000_000);
}

#[test]
fn magnus_lift_reduces_the_gravity_drop() {
    let mut plain = launch();
    plain.update_state(&config(false, false, false), 500_000_000);
    let mut lifted = launch();
    lifted.update_state(&config(false, true, false), 500_000_000);
    let drop_plain = to_f64(6_000_000_000 - plain.translation.z);
    let drop_lifted = to_f64(6_000_000_000 - lifted.translation.z);
    assert!(drop_plain > 3.9, "gravity drop {}", drop_plain);
    assert!(drop_lifted < drop_plain - 0.5, "lifted {} plain {}", drop_lifted, drop_plain);
}

#[test]
fn drag_reduces_the_final_speed() {
    let mut s = launch();
    let v0 = speed(&s.v);
    s.update_state(&config(true, false, false), 500_000_000);
    let v1 = speed(&s.v);
    assert!(v1 < v0 - 5.0, "{} -> {}", v0, v1);
}

#[test]
fn all_forces_on_behaves_like_the_scenario() {
    let mut s = launch();
    let v0 = speed(&s.v);
    s.update_state(&config(true, true, true), 500_000_000);
    let drop = to_f64(6_000_000_000 - s.translation.z);
    // with lift on, the drop stays well below the pure-gravity 4.03 feet
    assert!(drop < 3.6, "drop {}", drop);
    assert!(speed(&s.v) < v0, "speed did not fall");
}

#[test]
fn sub_millisecond_remainders_are_dropped() {
    let mut a = launch();
    let mut b = launch();
    a.update_state(&config(true, true, false), 10_999_999);
    b.update_state(&config(true, true, false), 10_000_000);
    assert_eq!(a.translation, b.translation);
    assert_eq!(a.v, b.v);
    assert_eq!(a.time_elapsed, b.time_elapsed);
    // a nonpositive duration runs no sub-step at all
    let before = b.translation;
    b.update_state(&config(true, true, false), -5);
    assert_eq!(b.translation, before);
}

#[test]
fn degenerate_launch_stays_defined() {
    // zero velocity and zero spin are outside the supported flight envelope,
    // but every fixed-point operation is total (division by a zero length
    // yields zero), so stepping still terminates with defined values
    let mut s = BaseballFlightState::from_params(Vec3::zero(), Vec3::zero(), Vec3::zero(), 0, 0);
    s.update_state(&config(true, true, true), 10_000_000);
    assert_eq!(s.seams.len(), 108);
    assert!(s.active);
    assert_eq!(s.time_elapsed, 10_000_000);
}

#[test]
fn deactivate_resets_clock_and_flag_only() {
    let mut s = launch();
    s.update_state(&config(true, true, true), 120_000_000);
    let pos = s.translation;
    let vel = s.v;
    let spin = s.spin;
    assert!(s.time_elapsed > 0);
    s.deactivate();
    assert!(!s.active);
    assert_eq!(s.time_elapsed, 0);
    assert_eq!(s.translation, pos);
    assert_eq!(s.v, vel);
    assert_eq!(s.spin, spin);
    assert_eq!(s.seams.len(), 108);
    // deactivating an already-inactive state is just as final
    s.deactivate();
    assert!(!s.active);
    assert_eq!(s.time_elapsed, 0);
}

#[test]
fn the_three_update_entry_points_share_one_trajectory() {
    let cfg = config(true, true, true);
    let mut a = launch();
    let mut b = launch();
    let mut c = launch();
    let delta: i64 = 50_000_000;
    a.update_state(&cfg, delta);
    let pos_b = b.translation;
    let velo = b.update_state_and_get_velo(&cfg, pos_b, delta);
    let pos_c = c.translation;
    let vel_c = c.v;
    let accel = c.update_state_and_get_acceleration(&cfg, pos_c, vel_c, delta);
    // identical integer trajectories
    assert_eq!(a.translation, b.translation);
    assert_eq!(a.translation, c.translation);
    assert_eq!(a.v, b.v);
    assert_eq!(a.v, c.v);
    // the returned averages are consistent with the shared trajectory
    let avg_x = to_f64(velo.x);
    let true_avg = (to_f64(a.translation.x) - to_f64(pos_b.x)) / 0.05;
    assert!((avg_x - true_avg).abs() < 1e-6);
    let dist_x = to_f64(a.translation.x) - to_f64(pos_c.x);
    let expect_ax = (to_f64(a.v.x).powi(2) - to_f64(vel_c.x).powi(2)) / (2.0 * dist_x);
    assert!((to_f64(accel.x) - expect_ax).abs() < 1e-3, "{} vs {}", to_f64(accel.x), expect_ax);
}

#[test]
fn averaged_velocity_is_exact_for_pure_gravity() {
    // with all forces off the x displacement over 500 sub-steps is exactly
    // 70.6 feet, so the returned average x velocity is exactly 141.2 ft/s
    let mut s = launch();
    let pos = s.translation;
    let velo = s.update_state_and_get_velo(&config(false, false, false), pos, 500_000_000);
    assert_eq!(s.translation.x - pos.x, 70_600_000_000);
    assert_eq!(velo.x, 141_200_000_000);
}

#[test]
fn integrator_converges_at_euler_order() {
    // gravity joins after the four stages and the position update is a plain
    // Euler step, so the combined step has simple-Euler accuracy order: the
    // same total time integrated with sub-steps h, h/2 and h/4 gives endpoint
    // differences that shrink by about a factor of two per halving, not 2^4
    let cfg = config(true, true, false);
    let h1: i64 = 800_000_000;
    let run = |h: i64, n: usize| {
        let mut s = launch();
        for _ in 0..n {
            s.step_once(&cfg, h);
        }
        s
    };
    let a = run(h1, 2);
    let b = run(h1 / 2, 4);
    let c = run(h1 / 4, 8);
    let diff = |p: &Vec3, q: &Vec3| {
        ((to_f64(p.x) - to_f64(q.x)).powi(2) + (to_f64(p.y) - to_f64(q.y)).powi(2) + (to_f64(p.z)
            - to_f64(q.z)).powi(2)).sqrt()
    };
    let e1 = diff(&a.v, &b.v);
    let e2 = diff(&b.v, &c.v);
    assert!(e1 > 0.0 && e2 > 0.0);
    let ratio = e1 / e2;
    assert!(1.5 < ratio && ratio < 4.0, "velocity ratio {}", ratio);
    let p1 = diff(&a.translation, &b.translation);
    let p2 = diff(&b.translation, &c.translation);
    let pratio = p1 / p2;
    assert!(1.5 < pratio && pratio < 4.0, "position ratio {}", pratio);
}
