//! Twist-overflow state machine checks: locking, releasing, and the
//! no-jump guarantee while locked.

use renik::trig::{PI_FX, TAU_FX};
use renik::twist::twist_overflow_step;

const OFFSET: i64 = 349_066;
const WIDTH: i64 = 785_398;

fn inflection() -> i64 {
    PI_FX - OFFSET
}

#[test]
fn unlocked_state_locks_inside_the_band() {
    let ip = inflection();
    let below = ip - 17_453;
    let (s, out) = twist_overflow_step(0, below, OFFSET, WIDTH);
    assert_eq!(s, 1);
    assert_eq!(out, below);
    let above = ip + 17_453;
    let (s2, out2) = twist_overflow_step(0, above, OFFSET, WIDTH);
    assert_eq!(s2, -1);
    assert_eq!(out2, above - TAU_FX);
}

#[test]
fn locked_state_releases_outside_the_band() {
    let ip = inflection();
    let far_below = ip - WIDTH - 1_000;
    let (s, _) = twist_overflow_step(1, far_below, OFFSET, WIDTH);
    assert_eq!(s, 0);
    let (s2, _) = twist_overflow_step(-1, far_below, OFFSET, WIDTH);
    assert_eq!(s2, 0);
}

#[test]
fn oscillation_around_the_boundary_does_not_jump_once_locked() {
    let ip = inflection();
    let degree: i64 = 17_453;
    let t_low = ip - degree;
    let t_high = ip + degree;

    // First frame, unlocked below the boundary: the state locks positive and
    // the angle passes through unwrapped.
    let (s1, out1) = twist_overflow_step(0, t_low, OFFSET, WIDTH);
    assert_eq!(s1, 1);
    assert_eq!(out1, t_low);

    // Second frame, one degree above the boundary: still locked, the shifted
    // boundary keeps the angle unwrapped, and the output moves by exactly
    // the input change.
    let (s2, out2) = twist_overflow_step(s1, t_high, OFFSET, WIDTH);
    assert_eq!(s2, 1);
    assert_eq!(out2, t_high);
    assert_eq!(out2 - out1, t_high - t_low);

    // Back below: still no jump.
    let (s3, out3) = twist_overflow_step(s2, t_low, OFFSET, WIDTH);
    assert_eq!(s3, 1);
    assert_eq!(out3 - out2, t_low - t_high);
}

#[test]
fn negative_lock_wraps_both_sides_of_the_boundary() {
    let ip = inflection();
    let degree: i64 = 17_453;
    let (s1, out1) = twist_overflow_step(-1, ip - degree, OFFSET, WIDTH);
    assert_eq!(s1, -1);
    assert_eq!(out1, ip - degree - TAU_FX);
    let (s2, out2) = twist_overflow_step(s1, ip + degree, OFFSET, WIDTH);
    assert_eq!(s2, -1);
    assert_eq!(out2, ip + degree - TAU_FX);
    assert_eq!(out2 - out1, 2 * degree);
}

#[test]
fn negative_angles_use_the_negative_boundary() {
    let ip = -PI_FX - OFFSET;
    let t = ip + 17_453;
    let (s, out) = twist_overflow_step(0, t, OFFSET, WIDTH);
    assert_eq!(s, -1);
    // Unlocked shift is zero, and t > ip, so no wrap on the negative side.
    assert_eq!(out, t);
}
