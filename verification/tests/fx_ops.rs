//! Exact and tolerance tests of the fixed-point scalar kernel.

use baseball_flight::common::KG_TO_IBS;
use baseball_flight::common::kg_to_pound;
use baseball_flight::common::pound_to_kg;
use baseball_flight::common::swap_coordinates_dvec3;
use baseball_flight::common::swap_coordinates_vec3;
use baseball_flight::fx::EXP_NEG1_FX;
use baseball_flight::fx::HALF_PI_FX;
use baseball_flight::fx::PI_FX;
use baseball_flight::fx::SCALE;
use baseball_flight::fx::TWO_PI_FX;
use baseball_flight::fx::fx_add;
use baseball_flight::fx::fx_cos;
use baseball_flight::fx::fx_div;
use baseball_flight::fx::fx_exp_neg;
use baseball_flight::fx::fx_mul;
use baseball_flight::fx::fx_neg;
use baseball_flight::fx::fx_sin;
use baseball_flight::fx::fx_sqrt;
use baseball_flight::fx::fx_sub;
use baseball_flight::vec3::Vec3;

fn to_f64(raw: i64) -> f64 {
    raw as f64 / SCALE as f64
}

#[test]
fn add_sub_exact_and_saturating() {
    assert_eq!(fx_add(1_500_000_000, 2_500_000_000), 4_000_000_000);
    assert_eq!(fx_sub(1_500_000_000, 2_500_000_000), -1_000_000_000);
    assert_eq!(fx_add(i64::MAX, 1), i64::MAX);
    assert_eq!(fx_sub(i64::MIN, 1), i64::MIN);
    assert_eq!(fx_neg(i64::MIN), i64::MAX);
    assert_eq!(fx_neg(25), -25);
}

#[test]
fn mul_exact_values() {
    // 1.5 * 2 = 3
    assert_eq!(fx_mul(1_500_000_000, 2_000_000_000), 3_000_000_000);
    // -1.5 * 2 = -3
    assert_eq!(fx_mul(-1_500_000_000, 2_000_000_000), -3_000_000_000);
    // the smallest positive value times 0.5 truncates toward zero ...
    assert_eq!(fx_mul(1, 500_000_000), 0);
    // ... and so does its negation (no rounding toward minus infinity)
    assert_eq!(fx_mul(-1, 500_000_000), 0);
}

#[test]
fn div_exact_values() {
    // 3 / 2 = 1.5
    assert_eq!(fx_div(3_000_000_000, 2_000_000_000), 1_500_000_000);
    assert_eq!(fx_div(-3_000_000_000, 2_000_000_000), -1_500_000_000);
    // division by zero is defined as zero
    assert_eq!(fx_div(123, 0), 0);
    // 1 / 3 truncates
    assert_eq!(fx_div(SCALE, 3_000_000_000), 333_333_333);
}

#[test]
fn sqrt_exact_values() {
    assert_eq!(fx_sqrt(4_000_000_000), 2_000_000_000);
    assert_eq!(fx_sqrt(0), 0);
    assert_eq!(fx_sqrt(-5), 0);
    // floor(sqrt(2) * 10^9)
    assert_eq!(fx_sqrt(2_000_000_000), 1_414_213_562);
}

#[test]
fn sine_and_cosine_against_reference() {
    // exact zeros of the kernel
    assert_eq!(fx_sin(0), 0);
    assert_eq!(fx_sin(PI_FX), 0);
    for k in -20..=20i64 {
        let x = k * 300_000_000; // every 0.3 rad over [-6, 6]
        let s = to_f64(fx_sin(x));
        let c = to_f64(fx_cos(x));
        assert!((s - to_f64(x).sin()).abs() < 2e-6, "sin({}) = {}", to_f64(x), s);
        assert!((c - to_f64(x).cos()).abs() < 2e-6, "cos({}) = {}", to_f64(x), c);
    }
    assert!((to_f64(fx_sin(HALF_PI_FX)) - 1.0).abs() < 1e-6);
    assert!((to_f64(fx_cos(TWO_PI_FX)) - 1.0).abs() < 1e-6);
}

#[test]
fn exponential_against_reference() {
    assert_eq!(fx_exp_neg(0), SCALE);
    assert!((fx_exp_neg(SCALE) - EXP_NEG1_FX).abs() < 400);
    for k in 0..30i64 {
        let t = k * 700_000_000; // every 0.7 over [0, 20.3]
        let e = to_f64(fx_exp_neg(t));
        assert!((e - (-to_f64(t)).exp()).abs() < 1e-5, "exp(-{}) = {}", to_f64(t), e);
    }
    // far beyond the cutoff the value underflows to exactly zero
    assert_eq!(fx_exp_neg(22 * SCALE), 0);
}

#[test]
fn weight_conversions() {
    assert_eq!(kg_to_pound(SCALE), KG_TO_IBS);
    let w = 145_000_000; // 0.145 kg
    let lb = kg_to_pound(w);
    assert!((to_f64(lb) - 0.145 * 2.20462).abs() < 1e-8);
    let back = pound_to_kg(lb);
    assert!((back - w).abs() < 5);
}

#[test]
fn swap_coordinates_is_an_involution() {
    let v = Vec3::new(1_000_000_000, -2_000_000_000, 3_000_000_000);
    let s = swap_coordinates_vec3(&v);
    assert_eq!((s.x, s.y, s.z), (-1_000_000_000, 3_000_000_000, -2_000_000_000));
    let back = swap_coordinates_vec3(&s);
    assert_eq!((back.x, back.y, back.z), (v.x, v.y, v.z));
    let s2 = swap_coordinates_dvec3(&v);
    assert_eq!((s2.x, s2.y, s2.z), (s.x, s.y, s.z));
}
