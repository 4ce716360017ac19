//! Per-limb tunable parameters: twist offsets and ratios, roll offset,
//! hysteresis thresholds, pole vectors, basis hints, and influence weights.

use crate::fixed::FX_ONE;
use crate::quat::{q4_from_euler_xyz_s, q4_identity_s, q4_ok, quat_from_euler_xyz, quat_identity, quat_in_range, Quat};
use crate::vec3::{v3_ok, vec3_in_range, Vec3};
use vstd::math::abs;
use vstd::prelude::*;

verus! {

/// Tunable per-limb configuration, read-only during a solve.  Scalars are
/// micro-radians or micro-ratios; quaternions are unit rotations; vectors are
/// unit-scale direction or weight hints.
#[derive(Clone, Copy, PartialEq, Eq, Structural, Debug)]
pub struct RenikLimb {
    pub upper_twist_offset: i64,
    pub lower_twist_offset: i64,
    pub roll_offset: i64,
    pub upper_limb_twist: i64,
    pub lower_limb_twist: i64,
    pub twist_inflection_point_offset: i64,
    pub twist_overflow: i64,
    pub target_rotation_influence: i64,
    pub pole_offset: Quat,
    pub target_position_influence: Vec3,
    pub shoulder_pole_offset: Quat,
    pub a: Vec3,
    pub b: Vec3,
    pub c: Vec3,
    pub left_shoulder_offset: Quat,
}

/// The limb parameters are inside the solver's working envelope: angles
/// within sixteen radians, ratios within one, rotations unit-scale, weight
/// vectors within eight units.
pub open spec fn limb_ok(l: RenikLimb) -> bool {
    &&& abs(l.upper_twist_offset as int) <= 16_000_000
    &&& abs(l.lower_twist_offset as int) <= 16_000_000
    &&& abs(l.roll_offset as int) <= 16_000_000
    &&& abs(l.upper_limb_twist as int) <= 1_000_000
    &&& abs(l.lower_limb_twist as int) <= 1_000_000
    &&& abs(l.twist_inflection_point_offset as int) <= 16_000_000
    &&& 0 <= l.twist_overflow <= 16_000_000
    &&& abs(l.target_rotation_influence as int) <= 1_000_000
    &&& q4_ok(l.pole_offset@, 2_100_000)
    &&& v3_ok(l.target_position_influence@, 8_000_000)
    &&& q4_ok(l.shoulder_pole_offset@, 2_100_000)
    &&& v3_ok(l.a@, 2_100_000)
    &&& v3_ok(l.b@, 2_100_000)
    &&& v3_ok(l.c@, 2_100_000)
    &&& q4_ok(l.left_shoulder_offset@, 2_100_000)
}

/// Whether the limb parameters are inside the solver's working envelope.
pub fn limb_in_envelope(l: &RenikLimb) -> (r: bool)
    ensures
        r == limb_ok(*l),
{
    let scalar_ok: bool = -16_000_000 <= l.upper_twist_offset && l.upper_twist_offset <= 16_000_000
        && -16_000_000 <= l.lower_twist_offset && l.lower_twist_offset <= 16_000_000
        && -16_000_000 <= l.roll_offset && l.roll_offset <= 16_000_000 && -1_000_000
        <= l.upper_limb_twist && l.upper_limb_twist <= 1_000_000 && -1_000_000
        <= l.lower_limb_twist && l.lower_limb_twist <= 1_000_000 && -16_000_000
        <= l.twist_inflection_point_offset && l.twist_inflection_point_offset <= 16_000_000 && 0
        <= l.twist_overflow && l.twist_overflow <= 16_000_000 && -1_000_000
        <= l.target_rotation_influence && l.target_rotation_influence <= 1_000_000;
    scalar_ok && quat_in_range(&l.pole_offset, 2_100_000) && vec3_in_range(
        &l.target_position_influence,
        8_000_000,
    ) && quat_in_range(&l.shoulder_pole_offset, 2_100_000) && vec3_in_range(&l.a, 2_100_000)
        && vec3_in_range(&l.b, 2_100_000) && vec3_in_range(&l.c, 2_100_000) && quat_in_range(
        &l.left_shoulder_offset,
        2_100_000,
    )
}

/// `l` carries the default left-arm parameters: a bit over a quarter-turn of
/// negative twist offset on both segments, a seventy-degree negative roll,
/// half and two-thirds twist ratios, a twenty-degree inflection offset with a
/// forty-five-degree hysteresis band, and a pole offset of fifteen degrees
/// about X and sixty about Z.
pub open spec fn is_default_limb(l: RenikLimb) -> bool {
    &&& l.upper_twist_offset == -872_640
    &&& l.lower_twist_offset == -872_640
    &&& l.roll_offset == -1_221_730
    &&& l.upper_limb_twist == 500_000
    &&& l.lower_limb_twist == 666_660
    &&& l.twist_inflection_point_offset == 349_066
    &&& l.twist_overflow == 785_398
    &&& l.target_rotation_influence == 330_000
    &&& l.pole_offset@ == q4_from_euler_xyz_s(261_799, 0, 1_047_198)
    &&& l.target_position_influence@ == (crate::vec3::V3 { x: 2_000_000, y: -1_500_000, z: -1_000_000 })
    &&& l.shoulder_pole_offset@ == q4_identity_s()
    &&& l.a@ == (crate::vec3::V3 { x: 0, y: FX_ONE as int, z: 0 })
    &&& l.b@ == (crate::vec3::V3 { x: FX_ONE as int, y: 0, z: 0 })
    &&& l.c@ == (crate::vec3::V3 { x: 0, y: FX_ONE as int, z: 0 })
    &&& l.left_shoulder_offset@ == q4_identity_s()
}

/// The default pole offset rotation for a left arm: fifteen degrees about X,
/// sixty about Z.
pub fn left_arm_pole_offset() -> (r: Quat)
    ensures
        r@ == q4_from_euler_xyz_s(261_799, 0, 1_047_198),
{
    quat_from_euler_xyz(261_799, 0, 1_047_198)
}

/// A configuration's preferred pole offset rotation.
pub trait PoleOffset {
    /// The pole offset rotation of this configuration.
    fn pole_offset(&self) -> Quat;
}

impl Default for RenikLimb {
    /// The default left-arm parameter set.
    fn default() -> (r: Self)
        ensures
            is_default_limb(r),
    {
        RenikLimb {
            upper_twist_offset: -872_640,
            lower_twist_offset: -872_640,
            roll_offset: -1_221_730,
            upper_limb_twist: 500_000,
            lower_limb_twist: 666_660,
            twist_inflection_point_offset: 349_066,
            twist_overflow: 785_398,
            target_rotation_influence: 330_000,
            pole_offset: left_arm_pole_offset(),
            target_position_influence: Vec3 { x: 2_000_000, y: -1_500_000, z: -1_000_000 },
            shoulder_pole_offset: quat_identity(),
            a: Vec3 { x: 0, y: FX_ONE, z: 0 },
            b: Vec3 { x: FX_ONE, y: 0, z: 0 },
            c: Vec3 { x: 0, y: FX_ONE, z: 0 },
            left_shoulder_offset: quat_identity(),
        }
    }
}

} // verus!
