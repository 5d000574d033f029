//! Tests of the seam-shifted-wake activation detector.

use baseball_flight::ball_flight_state::BaseballFlightState;
use baseball_flight::config::SeamShiftedWake;
use baseball_flight::vec3::Vec3;

fn launch() -> BaseballFlightState {
    BaseballFlightState::from_params(
        Vec3::zero(),
        Vec3::new(141_200_000_000, 0, 0),
        Vec3::new(0, -251_327_412_000, 10_000_000_000),
        300_000_000,
        200_000_000,
    )
}

fn wide_box() -> SeamShiftedWake {
    SeamShiftedWake {
        seam_shift_factor: 500_000_000,
        activation_min: Vec3::new(-2_000_000_000, -2_000_000_000, -1_600_000_000),
        activation_max: Vec3::new(2_000_000_000, 2_000_000_000, -200_000_000),
        separated_flow_range: 300_000_000, // 0.3 rad
    }
}

#[test]
fn detector_agrees_with_the_per_index_test() {
    let s = launch();
    let ssw = wide_box();
    let found = s.find_ssw_seams(&ssw);
    let mut expected: Vec<usize> = Vec::new();
    for i in 0..108 {
        if s.seam_active(&ssw, i) {
            expected.push(i);
        }
    }
    assert_eq!(found, expected);
}

#[test]
fn detector_is_order_independent() {
    // visiting the indices backwards selects the same set
    let s = launch();
    let ssw = wide_box();
    let forward = s.find_ssw_seams(&ssw);
    let mut backward: Vec<usize> = Vec::new();
    for i in (0..108).rev() {
        if s.seam_active(&ssw, i) {
            backward.push(i);
        }
    }
    backward.reverse();
    assert_eq!(forward, backward);
}

#[test]
fn detector_finds_some_and_not_all() {
    let s = launch();
    let ssw = wide_box();
    let found = s.find_ssw_seams(&ssw);
    assert!(!found.is_empty());
    assert!(found.len() < 108);
    for &i in &found {
        assert!(i < 108);
    }
    // strictly increasing order
    for w in found.windows(2) {
        assert!(w[0] < w[1]);
    }
}

#[test]
fn empty_activation_region_gives_no_active_seams() {
    let s = launch();
    let ssw = SeamShiftedWake {
        seam_shift_factor: 500_000_000,
        activation_min: Vec3::new(100_000_000_000, 100_000_000_000, 100_000_000_000),
        activation_max: Vec3::new(101_000_000_000, 101_000_000_000, 101_000_000_000),
        separated_flow_range: 300_000_000,
    };
    let found = s.find_ssw_seams(&ssw);
    assert!(found.is_empty());
}
