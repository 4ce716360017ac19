//! Fixed-point scalar and trigonometry checks.

use renik::fixed::{fx_clamp, fx_div, fx_mul, fx_sqrt, isqrt, FX_ONE};
use renik::trig::{cos_fx, safe_acos, sin_fx, wrap_angle, HALF_PI_FX, PI_FX, TAU_FX};

fn assert_close(actual: i64, expected: i64, tol: i64, what: &str) {
    let diff = (actual - expected).abs();
    assert!(
        diff <= tol,
        "{what}: actual {actual}, expected {expected}, diff {diff} > tol {tol}"
    );
}

#[test]
fn fx_mul_truncates_toward_zero() {
    assert_eq!(fx_mul(2_000_000, 3_000_000), 6_000_000);
    assert_eq!(fx_mul(1, 1), 0);
    assert_eq!(fx_mul(-1, 1), 0);
    assert_eq!(fx_mul(-1_500_000, 1_000_001), -1_500_001);
    assert_eq!(fx_mul(1_500_000, -1_000_001), -1_500_001);
    assert_eq!(fx_mul(-2_000_000, -500_000), 1_000_000);
}

#[test]
fn fx_div_truncates_toward_zero() {
    assert_eq!(fx_div(1_000_000, 2_000_000), 500_000);
    assert_eq!(fx_div(-1_000_000, 3_000_000), -333_333);
    assert_eq!(fx_div(1_000_000, -3_000_000), -333_333);
    assert_eq!(fx_div(-1_000_000, -3_000_000), 333_333);
}

#[test]
fn isqrt_exact_values() {
    assert_eq!(isqrt(0), 0);
    assert_eq!(isqrt(1), 1);
    assert_eq!(isqrt(2), 1);
    assert_eq!(isqrt(4), 2);
    assert_eq!(isqrt(1_000_000_000_000), 1_000_000);
    assert_eq!(isqrt(999_999_999_999), 999_999);
    assert_eq!(isqrt(4_000_000_000_000_000_000), 2_000_000_000);
}

#[test]
fn fx_sqrt_of_four_is_two() {
    assert_eq!(fx_sqrt(4_000_000), 2_000_000);
    assert_eq!(fx_sqrt(2_000_000), 1_414_213);
}

#[test]
fn fx_clamp_works() {
    assert_eq!(fx_clamp(5, -1, 1), 1);
    assert_eq!(fx_clamp(-5, -1, 1), -1);
    assert_eq!(fx_clamp(0, -1, 1), 0);
}

#[test]
fn cosine_and_sine_at_known_angles() {
    assert_eq!(cos_fx(0), FX_ONE);
    assert_eq!(sin_fx(0), 0);
    assert_close(cos_fx(PI_FX), -FX_ONE, 50, "cos(pi)");
    assert_close(sin_fx(HALF_PI_FX), FX_ONE, 50, "sin(pi/2)");
    assert_close(cos_fx(1_047_198), 500_000, 50, "cos(pi/3)");
    assert_close(sin_fx(523_599), 500_000, 50, "sin(pi/6)");
    assert_close(cos_fx(-PI_FX), -FX_ONE, 50, "cos(-pi)");
    assert_close(sin_fx(-HALF_PI_FX), -FX_ONE, 50, "sin(-pi/2)");
    assert_close(cos_fx(TAU_FX), FX_ONE, 50, "cos(tau)");
}

#[test]
fn arccosine_clamps_and_hits_known_values() {
    assert_eq!(safe_acos(FX_ONE), 0);
    assert_eq!(safe_acos(2_000_000), 0);
    assert_close(safe_acos(0), HALF_PI_FX, 100, "acos(0)");
    assert_close(safe_acos(-FX_ONE), PI_FX, 100, "acos(-1)");
    assert_close(safe_acos(-2_000_000), PI_FX, 100, "acos(clamped -2)");
    assert_close(safe_acos(500_000), 1_047_198, 100, "acos(1/2)");
    assert_close(safe_acos(800_000), 643_501, 100, "acos(0.8)");
}

#[test]
fn wrap_angle_brings_into_pi_range() {
    assert_eq!(wrap_angle(0), 0);
    assert_eq!(wrap_angle(PI_FX), PI_FX);
    let w = wrap_angle(TAU_FX + 1_000);
    assert_close(w, 1_000, 2, "wrap(tau + 1000)");
    let w2 = wrap_angle(-TAU_FX - 1_000);
    assert_close(w2, -1_000, 2, "wrap(-tau - 1000)");
}
