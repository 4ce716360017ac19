//! End-to-end solver scenarios: the law-of-cosines triangle, reachable and
//! clamped targets, kinematic closure, and the shoulder stage.

use renik::limb::RenikLimb;
use renik::quat::{quat_identity, quat_rotate, Quat};
use renik::solver::{do_ik_bullshit, shoulder_rotation, trig_angles, IkPose};
use renik::transform::Transform3;
use renik::trig::HALF_PI_FX;
use renik::vec3::{vec3_add, vec3_length, vec3_normalize, vec3_scale, vec3_sub, Vec3};

fn assert_close(actual: i64, expected: i64, tol: i64, what: &str) {
    let diff = (actual - expected).abs();
    assert!(
        diff <= tol,
        "{what}: actual {actual}, expected {expected}, diff {diff} > tol {tol}"
    );
}

fn identity_frame(x: i64, y: i64, z: i64) -> Transform3 {
    Transform3 { rotation: quat_identity(), translation: Vec3 { x, y, z } }
}

/// The solved leaf position in true-root space: the upper rotation carries
/// the lower joint offset and, composed with the lower rotation, the leaf
/// offset.
fn leaf_position(pose: &IkPose, lower_t: &Vec3, leaf_t: &Vec3) -> Vec3 {
    let elbow = quat_rotate(&pose.upper, lower_t);
    let lower_world = renik::quat::quat_mul(&pose.upper, &pose.lower);
    let hand = quat_rotate(&lower_world, leaf_t);
    vec3_add(&elbow, &hand)
}

#[test]
fn trig_angles_right_triangle() {
    // A 3-4-5 right triangle (the first side is doubled inside): the angle
    // between the doubled first side and the second is exactly ninety
    // degrees.
    let s1 = Vec3 { x: 3_000_000, y: 0, z: 0 };
    let s2 = Vec3 { x: 0, y: 4_000_000, z: 0 };
    let s3 = Vec3 { x: 0, y: 0, z: 5_000_000 };
    let (a1, a2) = trig_angles(&s1, &s2, &s3);
    println!("trig angles: {a1} {a2}");
    assert_close(a2, HALF_PI_FX, 5, "right angle");
    // angle1 = acos((9 + 25 - 16) / (6 * 5)) = acos(0.6)
    assert_close(a1, 927_295, 100, "acos(0.6)");
}

#[test]
fn solve_reachable_target_closes_the_chain() {
    let limb = RenikLimb::default();
    let root = identity_frame(0, 0, 0);
    let upper_rest = identity_frame(0, 0, 0);
    let lower_rest = identity_frame(0, 250_000, 0);
    let leaf_rest = identity_frame(0, 250_000, 0);
    let target = identity_frame(0, 0, 400_000);
    let pose = do_ik_bullshit(&limb, 0, &root, &target, &upper_rest, &lower_rest, &leaf_rest)
        .expect("reachable solve");
    let leaf = leaf_position(&pose, &lower_rest.translation, &leaf_rest.translation);
    println!("leaf at {leaf:?}, pose {pose:?}");
    let err = vec3_length(&vec3_sub(&leaf, &target.translation));
    println!("closure error {err}");
    assert!(err <= 100, "closure error {err} exceeds tolerance");
}

#[test]
fn solve_bends_both_joints_for_short_target() {
    // Bend angles for the same scenario, read off the triangle solve.
    let upper = Vec3 { x: 0, y: 250_000, z: 0 };
    let lower = Vec3 { x: 0, y: 250_000, z: 0 };
    let target = Vec3 { x: 0, y: 0, z: 400_000 };
    let (a1, a2) = trig_angles(&upper, &lower, &target);
    println!("bend angles: {a1} {a2}");
    assert!(a1 > 0, "first bend angle {a1} not positive");
    assert!(a2 > 0, "second bend angle {a2} not positive");
}

#[test]
fn clamped_target_sits_at_full_reach() {
    // The clamped substitute for an unreachable target is exact: direction
    // kept, magnitude the total reach.
    let tv = Vec3 { x: 0, y: 0, z: 600_000 };
    let reach: i64 = 500_000;
    let clamped = vec3_scale(&vec3_normalize(&tv), reach);
    assert_eq!(clamped, Vec3 { x: 0, y: 0, z: 500_000 });
    assert_eq!(vec3_length(&clamped), 500_000);

    let diag = Vec3 { x: 3_000_000, y: 4_000_000, z: 0 };
    let clamped2 = vec3_scale(&vec3_normalize(&diag), reach);
    assert_eq!(clamped2, Vec3 { x: 300_000, y: 400_000, z: 0 });
    assert_eq!(vec3_length(&clamped2), 500_000);
}

#[test]
fn solve_unreachable_target_lands_on_the_reach_sphere() {
    let limb = RenikLimb::default();
    let root = identity_frame(0, 0, 0);
    let upper_rest = identity_frame(0, 0, 0);
    let lower_rest = identity_frame(0, 250_000, 0);
    let leaf_rest = identity_frame(0, 250_000, 0);
    let target = identity_frame(0, 0, 600_000);
    let pose = do_ik_bullshit(&limb, 0, &root, &target, &upper_rest, &lower_rest, &leaf_rest)
        .expect("clamped solve");
    let leaf = leaf_position(&pose, &lower_rest.translation, &leaf_rest.translation);
    let expected = Vec3 { x: 0, y: 0, z: 500_000 };
    println!("clamped leaf at {leaf:?}");
    let err = vec3_length(&vec3_sub(&leaf, &expected));
    println!("clamped closure error {err}");
    assert!(err <= 100, "clamped closure error {err} exceeds tolerance");
}

#[test]
fn solve_skips_degenerate_target() {
    let limb = RenikLimb::default();
    let root = identity_frame(0, 0, 0);
    let upper_rest = identity_frame(0, 0, 0);
    let lower_rest = identity_frame(0, 250_000, 0);
    let leaf_rest = identity_frame(0, 250_000, 0);
    // Target at the true root: zero-length target vector, skip.
    let target = identity_frame(0, 0, 0);
    assert!(
        do_ik_bullshit(&limb, 0, &root, &target, &upper_rest, &lower_rest, &leaf_rest).is_none()
    );
}

#[test]
fn solve_skips_zero_length_segment() {
    let limb = RenikLimb::default();
    let root = identity_frame(0, 0, 0);
    let upper_rest = identity_frame(0, 0, 0);
    let lower_rest = identity_frame(0, 0, 0);
    let leaf_rest = identity_frame(0, 250_000, 0);
    let target = identity_frame(0, 0, 400_000);
    assert!(
        do_ik_bullshit(&limb, 0, &root, &target, &upper_rest, &lower_rest, &leaf_rest).is_none()
    );
}

#[test]
fn solve_rejects_out_of_envelope_limb() {
    let mut limb = RenikLimb::default();
    limb.roll_offset = 1_000_000_000;
    let root = identity_frame(0, 0, 0);
    let upper_rest = identity_frame(0, 0, 0);
    let lower_rest = identity_frame(0, 250_000, 0);
    let leaf_rest = identity_frame(0, 250_000, 0);
    let target = identity_frame(0, 0, 400_000);
    assert!(
        do_ik_bullshit(&limb, 0, &root, &target, &upper_rest, &lower_rest, &leaf_rest).is_none()
    );
}

#[test]
fn solve_is_deterministic() {
    let limb = RenikLimb::default();
    let root = identity_frame(0, 0, 0);
    let upper_rest = identity_frame(0, 0, 0);
    let lower_rest = identity_frame(0, 250_000, 0);
    let leaf_rest = identity_frame(0, 250_000, 0);
    let target = identity_frame(100_000, 150_000, 350_000);
    let a = do_ik_bullshit(&limb, 0, &root, &target, &upper_rest, &lower_rest, &leaf_rest);
    let b = do_ik_bullshit(&limb, 0, &root, &target, &upper_rest, &lower_rest, &leaf_rest);
    assert_eq!(a, b);
    assert!(a.is_some());
}

#[test]
fn shoulder_rotation_for_straight_up_target_is_near_identity() {
    // With identity offsets, a target along the canonical up vector needs no
    // clavicle correction.
    let limb = RenikLimb::default();
    let target = Vec3 { x: 0, y: 400_000, z: 0 };
    let q = shoulder_rotation(&limb, &target).expect("shoulder solve");
    println!("shoulder rotation {q:?}");
    let id = quat_identity();
    assert_close(q.x, id.x, 3_000, "shoulder x");
    assert_close(q.y, id.y, 3_000, "shoulder y");
    assert_close(q.z, id.z, 3_000, "shoulder z");
    assert_close(q.w, id.w, 3_000, "shoulder w");
}

#[test]
fn shoulder_rotation_tilts_toward_forward_target() {
    let limb = RenikLimb::default();
    let target = Vec3 { x: 0, y: 0, z: 400_000 };
    let q: Quat = shoulder_rotation(&limb, &target).expect("shoulder solve");
    println!("forward shoulder rotation {q:?}");
    // A quarter of the ninety-degree look-at: a rotation of about 22.5
    // degrees, so |x| should be near sin(11.25 deg) = 0.195.
    assert!(q.x.abs() > 100_000, "shoulder barely rotated: {q:?}");
}
