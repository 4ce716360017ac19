//! The default limb parameter set.

use renik::fixed::FX_ONE;
use renik::limb::{limb_in_envelope, left_arm_pole_offset, RenikLimb};
use renik::quat::quat_identity;
use renik::vec3::Vec3;

#[test]
fn default_limb_matches_the_documented_constants() {
    let limb = RenikLimb::default();
    assert_eq!(limb.upper_twist_offset, -872_640);
    assert_eq!(limb.lower_twist_offset, -872_640);
    assert_eq!(limb.roll_offset, -1_221_730);
    assert_eq!(limb.upper_limb_twist, 500_000);
    assert_eq!(limb.lower_limb_twist, 666_660);
    assert_eq!(limb.twist_inflection_point_offset, 349_066);
    assert_eq!(limb.twist_overflow, 785_398);
    assert_eq!(limb.target_rotation_influence, 330_000);
    assert_eq!(limb.pole_offset, left_arm_pole_offset());
    assert_eq!(
        limb.target_position_influence,
        Vec3 { x: 2_000_000, y: -1_500_000, z: -1_000_000 }
    );
    assert_eq!(limb.shoulder_pole_offset, quat_identity());
    assert_eq!(limb.a, Vec3 { x: 0, y: FX_ONE, z: 0 });
    assert_eq!(limb.b, Vec3 { x: FX_ONE, y: 0, z: 0 });
    assert_eq!(limb.c, Vec3 { x: 0, y: FX_ONE, z: 0 });
    assert_eq!(limb.left_shoulder_offset, quat_identity());
}

#[test]
fn default_limb_is_inside_the_solver_envelope() {
    let limb = RenikLimb::default();
    assert!(limb_in_envelope(&limb));
}

#[test]
fn out_of_envelope_limb_is_rejected() {
    let mut limb = RenikLimb::default();
    limb.upper_limb_twist = 2_000_000;
    assert!(!limb_in_envelope(&limb));
}
