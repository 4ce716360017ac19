//! The two-bone analytic IK solver: from limb parameters, a root frame, a
//! target frame, and the three rest transforms, to local rotations for the
//! upper, lower, and leaf joints, plus the next twist-overflow state.
//!
//! The solve is closed-form and total: degenerate geometry (a zero-length
//! segment or target at this resolution) and any intermediate value outside
//! the fixed-point working envelope yield `None`, the per-frame "skip, hold
//! the previous pose" outcome, never a wrong pose.

use crate::fixed::{fx_mul, fx_mul_s, fx_div, fx_div_s, lemma_fx_mul_bound, FX_ONE};
use crate::limb::{limb_in_envelope, limb_ok, RenikLimb};
use crate::mat3::{q4_from_m3_s, quat_from_mat3, transpose_quat, transpose_quat_s, Mat3, M3};
use crate::quat::{
    align_vectors, align_vectors_s, lemma_q4_mul_bound, q4_conj_s, q4_from_axis_angle_s, q4_mul_s,
    q4_norm2_s, q4_normalize_s, q4_ok, q4_rotate_s, quat_from_axis_angle, quat_in_range,
    quat_inverse, quat_mul, quat_norm2, quat_normalize, quat_rotate, Q4, Quat,
};
use crate::transform::{
    t3_from_translation_s, t3_inv_mul_s, t3_mul_s, transform_from_translation, transform_inv_mul,
    transform_mul, Transform3, T3,
};
use crate::trig::{safe_acos, safe_acos_s, ANGLE_LIM, PI_FX};
use crate::twist::{
    twist_next_state_s, twist_overflow_step, twist_state_ok, twist_wrapped_angle_s,
};
use crate::vec3::{
    v3_add_s, v3_cross_s, v3_dot_s, v3_len2_s, v3_len_s, v3_normalize_s, v3_ok, v3_scale_s,
    v3_sub_s, vec3_add, vec3_angle_between, vec3_angle_between_s, vec3_cross, vec3_dot,
    vec3_in_range, vec3_length, vec3_length_squared, vec3_normalize, vec3_scale, vec3_sub,
    vector_rejection, vector_rejection_s, V3, Vec3,
};
use vstd::math::abs;
use vstd::prelude::*;

verus! {

/// Spec-level solved pose.
pub ghost struct IkPoseS {
    pub upper: Q4,
    pub lower: Q4,
    pub leaf: Q4,
    pub overflow_state: int,
}

/// A solved pose: local rotations for the upper, lower, and leaf joints, and
/// the twist-overflow state to carry to the next frame.
#[derive(Clone, Copy, PartialEq, Eq, Structural, Debug)]
pub struct IkPose {
    pub upper: Quat,
    pub lower: Quat,
    pub leaf: Quat,
    pub overflow_state: i64,
}

impl View for IkPose {
    type V = IkPoseS;

    open spec fn view(&self) -> IkPoseS {
        IkPoseS {
            upper: self.upper@,
            lower: self.lower@,
            leaf: self.leaf@,
            overflow_state: self.overflow_state as int,
        }
    }
}

/// A frame is well-scaled: unit-scale rotation, translation within fifty
/// units.
pub open spec fn frame_ok_s(t: T3) -> bool {
    &&& q4_ok(t.rotation, 2_100_000)
    &&& v3_ok(t.translation, 50_000_000)
}

/// Whether a frame is well-scaled.
pub fn frame_in_envelope(t: &Transform3) -> (r: bool)
    ensures
        r == frame_ok_s(t@),
{
    quat_in_range(&t.rotation, 2_100_000) && vec3_in_range(&t.translation, 50_000_000)
}

/// The law-of-cosines ratio, with the saturated value that a vanishing
/// denominator yields after clamping.
pub open spec fn cos_ratio_s(num: int, den: int) -> int {
    if den == 0 {
        if num >= 0 {
            FX_ONE as int
        } else {
            -FX_ONE as int
        }
    } else {
        fx_div_s(num, den)
    }
}

/// The two interior bend angles of the limb triangle, by the law of cosines.
/// The first side's length is doubled before use, matching a triangle whose
/// long side is split at the joint.
pub open spec fn trig_angles_s(side1: V3, side2: V3, side3: V3) -> (int, int) {
    let l1sq = v3_len2_s(side1);
    let l2sq = v3_len2_s(side2);
    let l3sq = v3_len2_s(side3);
    let len1 = 2 * v3_len_s(side1);
    let len2 = v3_len_s(side2);
    let len3 = v3_len_s(side3);
    let angle1 = safe_acos_s(cos_ratio_s(l1sq + l3sq - l2sq, fx_mul_s(len1, len3)));
    let angle2 = (PI_FX as int) - safe_acos_s(cos_ratio_s(l1sq + l2sq - l3sq, fx_mul_s(len1, len2)));
    (angle1, angle2)
}

/// The two interior bend angles of the limb triangle.
pub fn trig_angles(side1: &Vec3, side2: &Vec3, side3: &Vec3) -> (r: (i64, i64))
    requires
        v3_ok(side1@, 50_000_000),
        v3_ok(side2@, 50_000_000),
        v3_ok(side3@, 50_000_000),
    ensures
        r.0 == trig_angles_s(side1@, side2@, side3@).0,
        r.1 == trig_angles_s(side1@, side2@, side3@).1,
        -1_700_000 <= r.0 <= 5_000_000,
        -1_900_000 <= r.1 <= 4_900_000,
{
    proof {
        lemma_v3_len2_tight(side1@, 50_000_000);
        lemma_v3_len2_tight(side2@, 50_000_000);
        lemma_v3_len2_tight(side3@, 50_000_000);
    }
    let l1sq: i64 = vec3_length_squared(side1);
    let l2sq: i64 = vec3_length_squared(side2);
    let l3sq: i64 = vec3_length_squared(side3);
    let half_len1: i64 = vec3_length(side1);
    let len2: i64 = vec3_length(side2);
    let len3: i64 = vec3_length(side3);
    proof {
        lemma_len_tight(v3_len2_s(side1@), half_len1 as int);
        lemma_len_tight(v3_len2_s(side2@), len2 as int);
        lemma_len_tight(v3_len2_s(side3@), len3 as int);
    }
    let len1: i64 = 2 * half_len1;
    proof {
        lemma_fx_mul_bound(len1 as int, len3 as int, 173_205_082, 86_602_541);
        lemma_fx_mul_bound(len1 as int, len2 as int, 173_205_082, 86_602_541);
    }
    let den1: i64 = fx_mul(len1, len3);
    let den2: i64 = fx_mul(len1, len2);
    let num1: i64 = l1sq + l3sq - l2sq;
    let num2: i64 = l1sq + l2sq - l3sq;
    let ratio1: i64 = if den1 == 0 {
        if num1 >= 0 {
            FX_ONE
        } else {
            -FX_ONE
        }
    } else {
        fx_div(num1, den1)
    };
    let ratio2: i64 = if den2 == 0 {
        if num2 >= 0 {
            FX_ONE
        } else {
            -FX_ONE
        }
    } else {
        fx_div(num2, den2)
    };
    let angle1: i64 = safe_acos(ratio1);
    let angle2: i64 = PI_FX - safe_acos(ratio2);
    (angle1, angle2)
}

/// The whole two-bone solve, step for step, guards included: `None` exactly
/// when an input, a degenerate length, or an intermediate leaves the working
/// envelope.
pub open spec fn do_ik_s(
    limb: RenikLimb,
    overflow_state: int,
    root: T3,
    target: T3,
    upper_rest: T3,
    lower_rest: T3,
    leaf_rest: T3,
) -> Option<IkPoseS> {
    if !(limb_ok(limb) && frame_ok_s(root) && frame_ok_s(target) && frame_ok_s(upper_rest)
        && frame_ok_s(lower_rest) && frame_ok_s(leaf_rest)) {
        None
    } else {
        let true_root = t3_mul_s(root, t3_from_translation_s(upper_rest.translation));
        if !frame_ok_s(true_root) {
            None
        } else {
            let local_target = t3_inv_mul_s(true_root, target);
            if !frame_ok_s(local_target) {
                None
            } else {
                let upper_vector = lower_rest.translation;
                let lower_vector = leaf_rest.translation;
                let target_vector0 = local_target.translation;
                if v3_len2_s(upper_vector) == 0 || v3_len2_s(lower_vector) == 0 || v3_len2_s(
                    target_vector0,
                ) == 0 {
                    None
                } else {
                    let normalized_target = v3_normalize_s(target_vector0);
                    let limb_length = v3_len_s(upper_vector) + v3_len_s(lower_vector);
                    let target_vector = if v3_len_s(target_vector0) > limb_length {
                        v3_scale_s(normalized_target, limb_length)
                    } else {
                        target_vector0
                    };
                    if !v3_ok(target_vector, 50_000_000) {
                        None
                    } else {
                        do_ik_core_s(
                            limb,
                            overflow_state,
                            local_target,
                            upper_rest,
                            lower_rest,
                            leaf_rest,
                            normalized_target,
                            target_vector,
                        )
                    }
                }
            }
        }
    }
}

/// The solve after target clamping: joint-plane axis, roll corrections,
/// twist distribution, and basis reconstruction.
pub open spec fn do_ik_core_s(
    limb: RenikLimb,
    overflow_state: int,
    local_target: T3,
    upper_rest: T3,
    lower_rest: T3,
    leaf_rest: T3,
    normalized_target: V3,
    target_vector: V3,
) -> Option<IkPoseS> {
    let angles = trig_angles_s(lower_rest.translation, leaf_rest.translation, target_vector);
    let starting_pole = q4_rotate_s(limb.pole_offset@, limb.a@);
    if !v3_ok(starting_pole, 8_000_000) {
        None
    } else {
        let align_q = align_vectors_s(starting_pole, target_vector, FX_ONE as int);
        let pole_x = q4_rotate_s(limb.pole_offset@, limb.b@);
        if !v3_ok(pole_x, 8_000_000) {
            None
        } else {
            let joint_axis0 = q4_rotate_s(align_q, pole_x);
            if !v3_ok(joint_axis0, 2_100_000) {
                None
            } else {
                let chain = v3_add_s(
                    lower_rest.translation,
                    q4_rotate_s(lower_rest.rotation, leaf_rest.translation),
                );
                if !v3_ok(chain, 50_000_000) {
                    None
                } else {
                    let leaf_rest_vector = q4_rotate_s(upper_rest.rotation, chain);
                    if !v3_ok(leaf_rest_vector, 50_000_000) {
                        None
                    } else {
                        let positional_offset = v3_dot_s(
                            limb.target_position_influence@,
                            v3_sub_s(target_vector, leaf_rest_vector),
                        );
                        let roll1 = positional_offset + limb.roll_offset;
                        if !(-(ANGLE_LIM as int) <= roll1 <= ANGLE_LIM as int) {
                            None
                        } else {
                            let joint_axis1 = q4_rotate_s(
                                q4_from_axis_angle_s(normalized_target, roll1),
                                joint_axis0,
                            );
                            if !v3_ok(joint_axis1, 2_100_000) {
                                None
                            } else {
                                do_ik_roll_s(
                                    limb,
                                    overflow_state,
                                    local_target,
                                    upper_rest,
                                    lower_rest,
                                    leaf_rest,
                                    normalized_target,
                                    angles,
                                    positional_offset,
                                    joint_axis1,
                                )
                            }
                        }
                    }
                }
            }
        }
    }
}

/// The roll-correction and twist stage of the solve.
pub open spec fn do_ik_roll_s(
    limb: RenikLimb,
    overflow_state: int,
    local_target: T3,
    upper_rest: T3,
    lower_rest: T3,
    leaf_rest: T3,
    normalized_target: V3,
    angles: (int, int),
    positional_offset: int,
    joint_axis1: V3,
) -> Option<IkPoseS> {
    let unit_y = V3 { x: 0, y: FX_ONE as int, z: 0 };
    let unit_x = V3 { x: FX_ONE as int, y: 0, z: 0 };
    let local_leaf_vector = q4_rotate_s(local_target.rotation, unit_y);
    if !v3_ok(local_leaf_vector, 8_000_000) {
        None
    } else {
        let llv_raw = q4_rotate_s(
            q4_from_axis_angle_s(joint_axis1, angles.0 - angles.1),
            normalized_target,
        );
        if !v3_ok(llv_raw, 8_000_000) || v3_len2_s(llv_raw) == 0 {
            None
        } else {
            let local_lower_vector = v3_normalize_s(llv_raw);
            let leaf_rejection = vector_rejection_s(local_leaf_vector, normalized_target);
            let lower_rejection = vector_rejection_s(local_lower_vector, normalized_target);
            if !v3_ok(leaf_rejection, 8_000_000) || !v3_ok(lower_rejection, 8_000_000) {
                None
            } else {
                let roll_base = fx_mul_s(
                    vec3_angle_between_s(leaf_rejection, lower_rejection),
                    limb.target_rotation_influence as int,
                );
                let roll_gated = if v3_len_s(lower_rejection) <= 1_000 {
                    0
                } else {
                    roll_base
                };
                let trip = v3_dot_s(
                    v3_cross_s(local_leaf_vector, local_lower_vector),
                    normalized_target,
                );
                let roll_weighted = fx_mul_s(roll_gated, abs(trip) as int);
                let joint_roll_amount = if v3_dot_s(
                    v3_cross_s(leaf_rejection, lower_rejection),
                    normalized_target,
                ) > 0 {
                    -roll_weighted
                } else {
                    roll_weighted
                };
                let joint_axis2 = q4_rotate_s(
                    q4_from_axis_angle_s(normalized_target, joint_roll_amount),
                    joint_axis1,
                );
                if !v3_ok(joint_axis2, 2_100_000) {
                    None
                } else {
                    let total_roll = joint_roll_amount + positional_offset + limb.roll_offset;
                    if !(-(ANGLE_LIM as int) <= total_roll <= ANGLE_LIM as int) {
                        None
                    } else {
                        do_ik_twist_s(
                            limb,
                            overflow_state,
                            local_target,
                            upper_rest,
                            lower_rest,
                            leaf_rest,
                            normalized_target,
                            angles,
                            positional_offset,
                            joint_roll_amount,
                            total_roll,
                            joint_axis2,
                            local_leaf_vector,
                            local_lower_vector,
                        )
                    }
                }
            }
        }
    }
}

/// The twist-angle extraction, hysteresis step, and twist distribution.
pub open spec fn do_ik_twist_s(
    limb: RenikLimb,
    overflow_state: int,
    local_target: T3,
    upper_rest: T3,
    lower_rest: T3,
    leaf_rest: T3,
    normalized_target: V3,
    angles: (int, int),
    positional_offset: int,
    joint_roll_amount: int,
    total_roll: int,
    joint_axis2: V3,
    local_leaf_vector: V3,
    local_lower_vector: V3,
) -> Option<IkPoseS> {
    let unit_x = V3 { x: FX_ONE as int, y: 0, z: 0 };
    let q_roll2 = q4_from_axis_angle_s(normalized_target, joint_roll_amount);
    let rot_leaf = q4_rotate_s(q_roll2, local_leaf_vector);
    let rot_lower = q4_rotate_s(q_roll2, local_lower_vector);
    if !v3_ok(rot_leaf, 8_000_000) || !v3_ok(rot_lower, 8_000_000) {
        None
    } else {
        let target_x = q4_rotate_s(local_target.rotation, unit_x);
        if !v3_ok(target_x, 8_000_000) {
            None
        } else {
            let leaf_x = q4_rotate_s(align_vectors_s(rot_leaf, rot_lower, FX_ONE as int), target_x);
            if !v3_ok(leaf_x, 8_000_000) {
                None
            } else {
                let rolled_joint_axis = q4_rotate_s(
                    q4_from_axis_angle_s(local_lower_vector, -total_roll),
                    joint_axis2,
                );
                if !v3_ok(rolled_joint_axis, 8_000_000) {
                    None
                } else {
                    let lower_z = v3_cross_s(rolled_joint_axis, local_lower_vector);
                    let twist_raw = vec3_angle_between_s(leaf_x, rolled_joint_axis);
                    let twist_signed = if v3_dot_s(leaf_x, lower_z) > 0 {
                        -twist_raw
                    } else {
                        twist_raw
                    };
                    let new_state = twist_next_state_s(
                        overflow_state,
                        twist_signed,
                        limb.twist_inflection_point_offset as int,
                        limb.twist_overflow as int,
                    );
                    let twist_angle = twist_wrapped_angle_s(
                        overflow_state,
                        twist_signed,
                        limb.twist_inflection_point_offset as int,
                        limb.twist_overflow as int,
                    );
                    let lower_twist0 = fx_mul_s(twist_angle, limb.lower_limb_twist as int);
                    let upper_twist = fx_mul_s(lower_twist0, limb.upper_limb_twist as int)
                        + limb.upper_twist_offset - total_roll;
                    let lower_twist = lower_twist0 + limb.lower_twist_offset - 2 * limb.roll_offset
                        - positional_offset - joint_roll_amount;
                    if !(-(ANGLE_LIM as int) <= upper_twist <= ANGLE_LIM as int) || !(-(
                    ANGLE_LIM as int) <= lower_twist <= ANGLE_LIM as int) {
                        None
                    } else {
                        let joint_axis = q4_rotate_s(
                            q4_from_axis_angle_s(
                                normalized_target,
                                fx_mul_s(twist_angle, limb.target_rotation_influence as int),
                            ),
                            joint_axis2,
                        );
                        if !v3_ok(joint_axis, 2_100_000) {
                            None
                        } else {
                            do_ik_bases_s(
                                limb,
                                new_state,
                                local_target,
                                upper_rest,
                                lower_rest,
                                leaf_rest,
                                normalized_target,
                                angles,
                                upper_twist,
                                lower_twist,
                                joint_axis,
                            )
                        }
                    }
                }
            }
        }
    }
}

/// The basis reconstruction and conversion to joint-local rotations.
pub open spec fn do_ik_bases_s(
    limb: RenikLimb,
    new_state: int,
    local_target: T3,
    upper_rest: T3,
    lower_rest: T3,
    leaf_rest: T3,
    normalized_target: V3,
    angles: (int, int),
    upper_twist: int,
    lower_twist: int,
    joint_axis: V3,
) -> Option<IkPoseS> {
    let unit_y = V3 { x: 0, y: FX_ONE as int, z: 0 };
    let unit_x = V3 { x: FX_ONE as int, y: 0, z: 0 };
    let upper_joint_vector = q4_rotate_s(
        q4_from_axis_angle_s(joint_axis, angles.0),
        normalized_target,
    );
    if !v3_ok(upper_joint_vector, 2_100_000) {
        None
    } else {
        let rolled_lower_joint_axis = q4_rotate_s(
            q4_from_axis_angle_s(unit_y, -limb.roll_offset),
            unit_x,
        );
        if !v3_ok(rolled_lower_joint_axis, 2_100_000) {
            None
        } else {
            let lower_joint_vector = q4_rotate_s(
                q4_from_axis_angle_s(rolled_lower_joint_axis, angles.1),
                unit_y,
            );
            if !v3_ok(lower_joint_vector, 2_100_000) {
                None
            } else {
                let twisted_joint_axis = q4_rotate_s(
                    q4_from_axis_angle_s(upper_joint_vector, upper_twist),
                    joint_axis,
                );
                if !v3_ok(twisted_joint_axis, 2_100_000) {
                    None
                } else {
                    let upper_basis = q4_from_m3_s(
                        M3 {
                            x_axis: twisted_joint_axis,
                            y_axis: upper_joint_vector,
                            z_axis: v3_cross_s(twisted_joint_axis, upper_joint_vector),
                        },
                    );
                    let lower_basis0 = q4_from_m3_s(
                        M3 {
                            x_axis: rolled_lower_joint_axis,
                            y_axis: lower_joint_vector,
                            z_axis: v3_cross_s(rolled_lower_joint_axis, lower_joint_vector),
                        },
                    );
                    if !q4_ok(upper_basis, 2_100_000) || !q4_ok(lower_basis0, 2_100_000) {
                        None
                    } else {
                        let lower_basis1 = transpose_quat_s(lower_basis0);
                        if !q4_ok(lower_basis1, 2_100_000) {
                            None
                        } else {
                            let lower_basis2 = q4_mul_s(
                                lower_basis1,
                                q4_from_axis_angle_s(unit_y, lower_twist),
                            );
                            let lower_basis = q4_mul_s(
                                q4_from_axis_angle_s(unit_y, -upper_twist),
                                lower_basis2,
                            );
                            let upper_pre = q4_mul_s(q4_conj_s(upper_rest.rotation), upper_basis);
                            let lower_pre = q4_mul_s(q4_conj_s(lower_rest.rotation), lower_basis);
                            if !q4_ok(lower_pre, 8_000_000) || q4_norm2_s(upper_pre) == 0
                                || q4_norm2_s(lower_pre) == 0 {
                                None
                            } else {
                                let leaf = q4_mul_s(
                                    q4_mul_s(
                                        q4_mul_s(
                                            q4_conj_s(leaf_rest.rotation),
                                            q4_conj_s(q4_mul_s(upper_basis, lower_basis)),
                                        ),
                                        local_target.rotation,
                                    ),
                                    leaf_rest.rotation,
                                );
                                Some(
                                    IkPoseS {
                                        upper: q4_normalize_s(upper_pre),
                                        lower: q4_normalize_s(lower_pre),
                                        leaf,
                                        overflow_state: new_state,
                                    },
                                )
                            }
                        }
                    }
                }
            }
        }
    }
}

/// Solve the two-bone chain.  `root` is the post-shoulder root frame,
/// `target` the target frame in the same space as `root`, and the rest
/// transforms are the local rest poses of the three joints (each child's
/// translation is its offset from its parent).  Returns the three joint-local
/// rotations and the next overflow state, or `None` when the inputs are
/// degenerate or an intermediate leaves the working envelope — the caller
/// then holds the previous pose for this frame.
pub fn do_ik_bullshit(
    limb: &RenikLimb,
    overflow_state: i64,
    root: &Transform3,
    target: &Transform3,
    upper_rest: &Transform3,
    lower_rest: &Transform3,
    leaf_rest: &Transform3,
) -> (r: Option<IkPose>)
    requires
        twist_state_ok(overflow_state as int),
    ensures
        (r is Some) == (do_ik_s(
            *limb,
            overflow_state as int,
            root@,
            target@,
            upper_rest@,
            lower_rest@,
            leaf_rest@,
        ) is Some),
        r is Some ==> r.unwrap()@ == do_ik_s(
            *limb,
            overflow_state as int,
            root@,
            target@,
            upper_rest@,
            lower_rest@,
            leaf_rest@,
        ).unwrap(),
        r is Some ==> twist_state_ok(r.unwrap().overflow_state as int),
{
    if !(limb_in_envelope(limb) && frame_in_envelope(root) && frame_in_envelope(target)
        && frame_in_envelope(upper_rest) && frame_in_envelope(lower_rest) && frame_in_envelope(
        leaf_rest,
    )) {
        return None;
    }
    let true_root: Transform3 = transform_mul(
        root,
        &transform_from_translation(&upper_rest.translation),
    );
    if !frame_in_envelope(&true_root) {
        return None;
    }
    let local_target: Transform3 = transform_inv_mul(&true_root, target);
    if !frame_in_envelope(&local_target) {
        return None;
    }
    let upper_vector: Vec3 = lower_rest.translation;
    let lower_vector: Vec3 = leaf_rest.translation;
    let target_vector0: Vec3 = local_target.translation;
    let uv_l2: i64 = vec3_length_squared(&upper_vector);
    let lv_l2: i64 = vec3_length_squared(&lower_vector);
    let tv_l2: i64 = vec3_length_squared(&target_vector0);
    if uv_l2 == 0 || lv_l2 == 0 || tv_l2 == 0 {
        return None;
    }
    let normalized_target: Vec3 = vec3_normalize(&target_vector0);
    let limb_length: i64 = vec3_length(&upper_vector) + vec3_length(&lower_vector);
    let target_len: i64 = vec3_length(&target_vector0);
    let target_vector: Vec3 = if target_len > limb_length {
        vec3_scale(&normalized_target, limb_length)
    } else {
        target_vector0
    };
    if !vec3_in_range(&target_vector, 50_000_000) {
        return None;
    }
    ik_core(
        limb,
        overflow_state,
        &local_target,
        upper_rest,
        lower_rest,
        leaf_rest,
        &normalized_target,
        &target_vector,
    )
}

/// The joint-plane stage: bend angles, pole-aligned joint axis, and the
/// positional roll term.
fn ik_core(
    limb: &RenikLimb,
    overflow_state: i64,
    local_target: &Transform3,
    upper_rest: &Transform3,
    lower_rest: &Transform3,
    leaf_rest: &Transform3,
    normalized_target: &Vec3,
    target_vector: &Vec3,
) -> (r: Option<IkPose>)
    requires
        twist_state_ok(overflow_state as int),
        limb_ok(*limb),
        frame_ok_s(local_target@),
        frame_ok_s(upper_rest@),
        frame_ok_s(lower_rest@),
        frame_ok_s(leaf_rest@),
        v3_ok(normalized_target@, 2_000_000),
        v3_len2_s(normalized_target@) >= 1,
        v3_ok(target_vector@, 50_000_000),
    ensures
        (r is Some) == (do_ik_core_s(
            *limb,
            overflow_state as int,
            local_target@,
            upper_rest@,
            lower_rest@,
            leaf_rest@,
            normalized_target@,
            target_vector@,
        ) is Some),
        r is Some ==> r.unwrap()@ == do_ik_core_s(
            *limb,
            overflow_state as int,
            local_target@,
            upper_rest@,
            lower_rest@,
            leaf_rest@,
            normalized_target@,
            target_vector@,
        ).unwrap(),
        r is Some ==> twist_state_ok(r.unwrap().overflow_state as int),
{
    let angles: (i64, i64) = trig_angles(&lower_rest.translation, &leaf_rest.translation, target_vector);
    let starting_pole: Vec3 = quat_rotate(&limb.pole_offset, &limb.a);
    if !vec3_in_range(&starting_pole, 8_000_000) {
        return None;
    }
    let align_q: Quat = align_vectors(&starting_pole, target_vector, FX_ONE);
    let pole_x: Vec3 = quat_rotate(&limb.pole_offset, &limb.b);
    if !vec3_in_range(&pole_x, 8_000_000) {
        return None;
    }
    let joint_axis0: Vec3 = quat_rotate(&align_q, &pole_x);
    if !vec3_in_range(&joint_axis0, 2_100_000) {
        return None;
    }
    let inner: Vec3 = quat_rotate(&lower_rest.rotation, &leaf_rest.translation);
    let chain: Vec3 = vec3_add(&lower_rest.translation, &inner);
    if !vec3_in_range(&chain, 50_000_000) {
        return None;
    }
    let leaf_rest_vector: Vec3 = quat_rotate(&upper_rest.rotation, &chain);
    if !vec3_in_range(&leaf_rest_vector, 50_000_000) {
        return None;
    }
    let deviation: Vec3 = vec3_sub(target_vector, &leaf_rest_vector);
    let positional_offset: i64 = vec3_dot(&limb.target_position_influence, &deviation);
    proof {
        lemma_v3_dot_bound(limb.target_position_influence@, deviation@, 8_000_000, 100_000_000);
    }
    let roll1: i64 = positional_offset + limb.roll_offset;
    if roll1 < -ANGLE_LIM || roll1 > ANGLE_LIM {
        return None;
    }
    let q_roll1: Quat = quat_from_axis_angle(normalized_target, roll1);
    let joint_axis1: Vec3 = quat_rotate(&q_roll1, &joint_axis0);
    if !vec3_in_range(&joint_axis1, 2_100_000) {
        return None;
    }
    ik_roll(
        limb,
        overflow_state,
        local_target,
        upper_rest,
        lower_rest,
        leaf_rest,
        normalized_target,
        angles,
        positional_offset,
        &joint_axis1,
    )
}

/// The roll-correction stage: rejections, the empirically tuned roll
/// weighting, and the rolled joint axis.
fn ik_roll(
    limb: &RenikLimb,
    overflow_state: i64,
    local_target: &Transform3,
    upper_rest: &Transform3,
    lower_rest: &Transform3,
    leaf_rest: &Transform3,
    normalized_target: &Vec3,
    angles: (i64, i64),
    positional_offset: i64,
    joint_axis1: &Vec3,
) -> (r: Option<IkPose>)
    requires
        twist_state_ok(overflow_state as int),
        limb_ok(*limb),
        frame_ok_s(local_target@),
        frame_ok_s(upper_rest@),
        frame_ok_s(lower_rest@),
        frame_ok_s(leaf_rest@),
        v3_ok(normalized_target@, 2_000_000),
        v3_ok(joint_axis1@, 2_100_000),
        -1_700_000 <= angles.0 <= 5_000_000,
        -1_900_000 <= angles.1 <= 4_900_000,
        abs(positional_offset as int) <= 2_400_000_000,
    ensures
        (r is Some) == (do_ik_roll_s(
            *limb,
            overflow_state as int,
            local_target@,
            upper_rest@,
            lower_rest@,
            leaf_rest@,
            normalized_target@,
            (angles.0 as int, angles.1 as int),
            positional_offset as int,
            joint_axis1@,
        ) is Some),
        r is Some ==> r.unwrap()@ == do_ik_roll_s(
            *limb,
            overflow_state as int,
            local_target@,
            upper_rest@,
            lower_rest@,
            leaf_rest@,
            normalized_target@,
            (angles.0 as int, angles.1 as int),
            positional_offset as int,
            joint_axis1@,
        ).unwrap(),
        r is Some ==> twist_state_ok(r.unwrap().overflow_state as int),
{
    let unit_y: Vec3 = Vec3 { x: 0, y: FX_ONE, z: 0 };
    let local_leaf_vector: Vec3 = quat_rotate(&local_target.rotation, &unit_y);
    if !vec3_in_range(&local_leaf_vector, 8_000_000) {
        return None;
    }
    let bend: i64 = angles.0 - angles.1;
    let q_bend: Quat = quat_from_axis_angle(joint_axis1, bend);
    let llv_raw: Vec3 = quat_rotate(&q_bend, normalized_target);
    if !vec3_in_range(&llv_raw, 8_000_000) {
        return None;
    }
    let llv_l2: i64 = vec3_length_squared(&llv_raw);
    if llv_l2 == 0 {
        return None;
    }
    let local_lower_vector: Vec3 = vec3_normalize(&llv_raw);
    let leaf_rejection: Vec3 = vector_rejection(&local_leaf_vector, normalized_target);
    let lower_rejection: Vec3 = vector_rejection(&local_lower_vector, normalized_target);
    if !vec3_in_range(&leaf_rejection, 8_000_000) || !vec3_in_range(&lower_rejection, 8_000_000) {
        return None;
    }
    let rej_angle: i64 = vec3_angle_between(&leaf_rejection, &lower_rejection);
    let roll_base: i64 = fx_mul(rej_angle, limb.target_rotation_influence);
    proof {
        lemma_fx_mul_bound(
            rej_angle as int,
            limb.target_rotation_influence as int,
            5_000_000,
            1_000_000,
        );
    }
    let lower_rej_len: i64 = vec3_length(&lower_rejection);
    let roll_gated: i64 = if lower_rej_len <= 1_000 {
        0
    } else {
        roll_base
    };
    let cross_ll: Vec3 = vec3_cross(&local_leaf_vector, &local_lower_vector);
    proof {
        lemma_v3_cross_bound(local_leaf_vector@, local_lower_vector@, 8_000_000, 2_000_000);
    }
    let trip: i64 = vec3_dot(&cross_ll, normalized_target);
    proof {
        lemma_v3_dot_bound(cross_ll@, normalized_target@, 32_000_000, 2_000_000);
    }
    let trip_abs: i64 = if trip < 0 {
        -trip
    } else {
        trip
    };
    let roll_weighted: i64 = fx_mul(roll_gated, trip_abs);
    proof {
        lemma_fx_mul_bound(roll_gated as int, trip_abs as int, 5_000_000, 192_000_000);
    }
    let cross_rej: Vec3 = vec3_cross(&leaf_rejection, &lower_rejection);
    proof {
        lemma_v3_cross_bound(leaf_rejection@, lower_rejection@, 8_000_000, 8_000_000);
    }
    let rej_handed: i64 = vec3_dot(&cross_rej, normalized_target);
    let joint_roll_amount: i64 = if rej_handed > 0 {
        -roll_weighted
    } else {
        roll_weighted
    };
    let q_roll2: Quat = quat_from_axis_angle(normalized_target, joint_roll_amount);
    let joint_axis2: Vec3 = quat_rotate(&q_roll2, joint_axis1);
    if !vec3_in_range(&joint_axis2, 2_100_000) {
        return None;
    }
    let total_roll: i64 = joint_roll_amount + positional_offset + limb.roll_offset;
    if total_roll < -ANGLE_LIM || total_roll > ANGLE_LIM {
        return None;
    }
    ik_twist(
        limb,
        overflow_state,
        local_target,
        upper_rest,
        lower_rest,
        leaf_rest,
        normalized_target,
        angles,
        positional_offset,
        joint_roll_amount,
        total_roll,
        &joint_axis2,
        &local_leaf_vector,
        &local_lower_vector,
    )
}

/// The twist stage: twist-angle extraction, the hysteresis step, and the
/// twist distribution between the segments.
fn ik_twist(
    limb: &RenikLimb,
    overflow_state: i64,
    local_target: &Transform3,
    upper_rest: &Transform3,
    lower_rest: &Transform3,
    leaf_rest: &Transform3,
    normalized_target: &Vec3,
    angles: (i64, i64),
    positional_offset: i64,
    joint_roll_amount: i64,
    total_roll: i64,
    joint_axis2: &Vec3,
    local_leaf_vector: &Vec3,
    local_lower_vector: &Vec3,
) -> (r: Option<IkPose>)
    requires
        twist_state_ok(overflow_state as int),
        limb_ok(*limb),
        frame_ok_s(local_target@),
        frame_ok_s(upper_rest@),
        frame_ok_s(lower_rest@),
        frame_ok_s(leaf_rest@),
        v3_ok(normalized_target@, 2_000_000),
        v3_ok(joint_axis2@, 2_100_000),
        v3_ok(local_leaf_vector@, 8_000_000),
        v3_ok(local_lower_vector@, 2_000_000),
        -1_700_000 <= angles.0 <= 5_000_000,
        -1_900_000 <= angles.1 <= 4_900_000,
        abs(positional_offset as int) <= 2_400_000_000,
        abs(joint_roll_amount as int) <= 960_000_000,
        -ANGLE_LIM <= total_roll <= ANGLE_LIM,
    ensures
        (r is Some) == (do_ik_twist_s(
            *limb,
            overflow_state as int,
            local_target@,
            upper_rest@,
            lower_rest@,
            leaf_rest@,
            normalized_target@,
            (angles.0 as int, angles.1 as int),
            positional_offset as int,
            joint_roll_amount as int,
            total_roll as int,
            joint_axis2@,
            local_leaf_vector@,
            local_lower_vector@,
        ) is Some),
        r is Some ==> r.unwrap()@ == do_ik_twist_s(
            *limb,
            overflow_state as int,
            local_target@,
            upper_rest@,
            lower_rest@,
            leaf_rest@,
            normalized_target@,
            (angles.0 as int, angles.1 as int),
            positional_offset as int,
            joint_roll_amount as int,
            total_roll as int,
            joint_axis2@,
            local_leaf_vector@,
            local_lower_vector@,
        ).unwrap(),
        r is Some ==> twist_state_ok(r.unwrap().overflow_state as int),
{
    let unit_x: Vec3 = Vec3 { x: FX_ONE, y: 0, z: 0 };
    let q_roll2: Quat = quat_from_axis_angle(normalized_target, joint_roll_amount);
    let rot_leaf: Vec3 = quat_rotate(&q_roll2, local_leaf_vector);
    let rot_lower: Vec3 = quat_rotate(&q_roll2, local_lower_vector);
    if !vec3_in_range(&rot_leaf, 8_000_000) || !vec3_in_range(&rot_lower, 8_000_000) {
        return None;
    }
    let target_x: Vec3 = quat_rotate(&local_target.rotation, &unit_x);
    if !vec3_in_range(&target_x, 8_000_000) {
        return None;
    }
    let align2: Quat = align_vectors(&rot_leaf, &rot_lower, FX_ONE);
    let leaf_x: Vec3 = quat_rotate(&align2, &target_x);
    if !vec3_in_range(&leaf_x, 8_000_000) {
        return None;
    }
    let q_total_roll_neg: Quat = quat_from_axis_angle(local_lower_vector, -total_roll);
    let rolled_joint_axis: Vec3 = quat_rotate(&q_total_roll_neg, joint_axis2);
    if !vec3_in_range(&rolled_joint_axis, 8_000_000) {
        return None;
    }
    let lower_z: Vec3 = vec3_cross(&rolled_joint_axis, local_lower_vector);
    proof {
        lemma_v3_cross_bound(rolled_joint_axis@, local_lower_vector@, 8_000_000, 2_000_000);
    }
    let twist_raw: i64 = vec3_angle_between(&leaf_x, &rolled_joint_axis);
    let leaf_handed: i64 = vec3_dot(&leaf_x, &lower_z);
    let twist_signed: i64 = if leaf_handed > 0 {
        -twist_raw
    } else {
        twist_raw
    };
    let step: (i64, i64) = twist_overflow_step(
        overflow_state,
        twist_signed,
        limb.twist_inflection_point_offset,
        limb.twist_overflow,
    );
    let new_state: i64 = step.0;
    let twist_angle: i64 = step.1;
    let lower_twist0: i64 = fx_mul(twist_angle, limb.lower_limb_twist);
    proof {
        lemma_fx_mul_bound(twist_angle as int, limb.lower_limb_twist as int, 12_000_000, 1_000_000);
    }
    let upper_twist_base: i64 = fx_mul(lower_twist0, limb.upper_limb_twist);
    proof {
        lemma_fx_mul_bound(
            lower_twist0 as int,
            limb.upper_limb_twist as int,
            12_000_000,
            1_000_000,
        );
    }
    let upper_twist: i64 = upper_twist_base + limb.upper_twist_offset - total_roll;
    let lower_twist: i64 = lower_twist0 + limb.lower_twist_offset - 2 * limb.roll_offset
        - positional_offset - joint_roll_amount;
    if upper_twist < -ANGLE_LIM || upper_twist > ANGLE_LIM || lower_twist < -ANGLE_LIM
        || lower_twist > ANGLE_LIM {
        return None;
    }
    let twist_infl: i64 = fx_mul(twist_angle, limb.target_rotation_influence);
    proof {
        lemma_fx_mul_bound(
            twist_angle as int,
            limb.target_rotation_influence as int,
            12_000_000,
            1_000_000,
        );
    }
    let q_twist: Quat = quat_from_axis_angle(normalized_target, twist_infl);
    let joint_axis: Vec3 = quat_rotate(&q_twist, joint_axis2);
    if !vec3_in_range(&joint_axis, 2_100_000) {
        return None;
    }
    ik_bases(
        limb,
        new_state,
        local_target,
        upper_rest,
        lower_rest,
        leaf_rest,
        normalized_target,
        angles,
        upper_twist,
        lower_twist,
        &joint_axis,
    )
}

/// The basis stage: orthonormal joint bases from the twisted axis and swing
/// vectors, converted to joint-local rotations.
#[verifier::rlimit(100)]
#[verifier::spinoff_prover]
fn ik_bases(
    limb: &RenikLimb,
    new_state: i64,
    local_target: &Transform3,
    upper_rest: &Transform3,
    lower_rest: &Transform3,
    leaf_rest: &Transform3,
    normalized_target: &Vec3,
    angles: (i64, i64),
    upper_twist: i64,
    lower_twist: i64,
    joint_axis: &Vec3,
) -> (r: Option<IkPose>)
    requires
        twist_state_ok(new_state as int),
        limb_ok(*limb),
        frame_ok_s(local_target@),
        frame_ok_s(upper_rest@),
        frame_ok_s(lower_rest@),
        frame_ok_s(leaf_rest@),
        v3_ok(normalized_target@, 2_000_000),
        v3_ok(joint_axis@, 2_100_000),
        -1_700_000 <= angles.0 <= 5_000_000,
        -1_900_000 <= angles.1 <= 4_900_000,
        -ANGLE_LIM <= upper_twist <= ANGLE_LIM,
        -ANGLE_LIM <= lower_twist <= ANGLE_LIM,
    ensures
        (r is Some) == (do_ik_bases_s(
            *limb,
            new_state as int,
            local_target@,
            upper_rest@,
            lower_rest@,
            leaf_rest@,
            normalized_target@,
            (angles.0 as int, angles.1 as int),
            upper_twist as int,
            lower_twist as int,
            joint_axis@,
        ) is Some),
        r is Some ==> r.unwrap()@ == do_ik_bases_s(
            *limb,
            new_state as int,
            local_target@,
            upper_rest@,
            lower_rest@,
            leaf_rest@,
            normalized_target@,
            (angles.0 as int, angles.1 as int),
            upper_twist as int,
            lower_twist as int,
            joint_axis@,
        ).unwrap(),
        r is Some ==> r.unwrap().overflow_state == new_state,
{
    let unit_y: Vec3 = Vec3 { x: 0, y: FX_ONE, z: 0 };
    let unit_x: Vec3 = Vec3 { x: FX_ONE, y: 0, z: 0 };
    let q_ujv: Quat = quat_from_axis_angle(joint_axis, angles.0);
    let upper_joint_vector: Vec3 = quat_rotate(&q_ujv, normalized_target);
    if !vec3_in_range(&upper_joint_vector, 2_100_000) {
        return None;
    }
    let q_a: Quat = quat_from_axis_angle(&unit_y, -limb.roll_offset);
    let rolled_lower_joint_axis: Vec3 = quat_rotate(&q_a, &unit_x);
    if !vec3_in_range(&rolled_lower_joint_axis, 2_100_000) {
        return None;
    }
    let q_ljv: Quat = quat_from_axis_angle(&rolled_lower_joint_axis, angles.1);
    let lower_joint_vector: Vec3 = quat_rotate(&q_ljv, &unit_y);
    if !vec3_in_range(&lower_joint_vector, 2_100_000) {
        return None;
    }
    let q_tw_up: Quat = quat_from_axis_angle(&upper_joint_vector, upper_twist);
    let twisted_joint_axis: Vec3 = quat_rotate(&q_tw_up, joint_axis);
    if !vec3_in_range(&twisted_joint_axis, 2_100_000) {
        return None;
    }
    let ub_z: Vec3 = vec3_cross(&twisted_joint_axis, &upper_joint_vector);
    proof {
        lemma_v3_cross_bound(twisted_joint_axis@, upper_joint_vector@, 2_100_000, 2_100_000);
    }
    let ub_m: Mat3 = Mat3 { x_axis: twisted_joint_axis, y_axis: upper_joint_vector, z_axis: ub_z };
    let upper_basis: Quat = quat_from_mat3(&ub_m);
    let lb_z: Vec3 = vec3_cross(&rolled_lower_joint_axis, &lower_joint_vector);
    proof {
        lemma_v3_cross_bound(rolled_lower_joint_axis@, lower_joint_vector@, 2_100_000, 2_100_000);
    }
    let lb_m: Mat3 = Mat3 {
        x_axis: rolled_lower_joint_axis,
        y_axis: lower_joint_vector,
        z_axis: lb_z,
    };
    let lower_basis0: Quat = quat_from_mat3(&lb_m);
    if !quat_in_range(&upper_basis, 2_100_000) || !quat_in_range(&lower_basis0, 2_100_000) {
        return None;
    }
    let lower_basis1: Quat = transpose_quat(&lower_basis0);
    if !quat_in_range(&lower_basis1, 2_100_000) {
        return None;
    }
    let q_lt: Quat = quat_from_axis_angle(&unit_y, lower_twist);
    let lower_basis2: Quat = quat_mul(&lower_basis1, &q_lt);
    proof {
        lemma_q4_mul_bound(lower_basis1@, q_lt@, 2_100_000, 2_100_000);
    }
    let q_ut_neg: Quat = quat_from_axis_angle(&unit_y, -upper_twist);
    let lower_basis: Quat = quat_mul(&q_ut_neg, &lower_basis2);
    proof {
        lemma_q4_mul_bound(q_ut_neg@, lower_basis2@, 2_100_000, 17_640_000);
    }
    let urot_inv: Quat = quat_inverse(&upper_rest.rotation);
    let upper_pre: Quat = quat_mul(&urot_inv, &upper_basis);
    proof {
        lemma_q4_mul_bound(urot_inv@, upper_basis@, 2_100_000, 2_100_000);
    }
    let lrot_inv: Quat = quat_inverse(&lower_rest.rotation);
    let lower_pre: Quat = quat_mul(&lrot_inv, &lower_basis);
    if !quat_in_range(&lower_pre, 8_000_000) {
        return None;
    }
    let upper_n2: i64 = quat_norm2(&upper_pre);
    let lower_n2: i64 = quat_norm2(&lower_pre);
    if upper_n2 == 0 || lower_n2 == 0 {
        return None;
    }
    let upper_transform: Quat = quat_normalize(&upper_pre);
    let lower_transform: Quat = quat_normalize(&lower_pre);
    let ul: Quat = quat_mul(&upper_basis, &lower_basis);
    proof {
        lemma_q4_mul_bound(upper_basis@, lower_basis@, 2_100_000, 148_176_000);
    }
    let ul_inv: Quat = quat_inverse(&ul);
    let leaf_rot_inv: Quat = quat_inverse(&leaf_rest.rotation);
    let m1: Quat = quat_mul(&leaf_rot_inv, &ul_inv);
    proof {
        lemma_q4_mul_bound(leaf_rot_inv@, ul_inv@, 2_100_000, 1_244_678_400);
    }
    let m2: Quat = quat_mul(&m1, &local_target.rotation);
    proof {
        lemma_q4_mul_bound(m1@, local_target.rotation@, 10_455_298_560, 2_100_000);
    }
    let leaf_transform: Quat = quat_mul(&m2, &leaf_rest.rotation);
    proof {
        lemma_q4_mul_bound(m2@, leaf_rest.rotation@, 87_824_507_904, 2_100_000);
    }
    Some(
        IkPose {
            upper: upper_transform,
            lower: lower_transform,
            leaf: leaf_transform,
            overflow_state: new_state,
        },
    )
}

/// Clamping an unreachable target keeps its direction: the clamped vector
/// the solver substitutes — the normalized target scaled to the limb's total
/// reach — agrees with the original target in the sign of every component,
/// so only the magnitude is pulled in.  The clamped magnitude itself is
/// pinned by definition to `reach` times the unit direction.
pub proof fn lemma_clamped_target_keeps_direction(tv: V3, reach: int)
    requires
        v3_len2_s(tv) >= 1,
        reach >= 0,
    ensures
        ({
            let c = v3_scale_s(v3_normalize_s(tv), reach);
            &&& c.x * tv.x >= 0
            &&& c.y * tv.y >= 0
            &&& c.z * tv.z >= 0
        }),
{
    let len2 = v3_len2_s(tv);
    crate::fixed::lemma_sqrt_floor_exists(len2 * (FX_ONE as int));
    let len = v3_len_s(tv);
    assert(len >= 1_000) by (nonlinear_arith)
        requires
            crate::fixed::is_sqrt_floor(len2 * (FX_ONE as int), len),
            len2 * (FX_ONE as int) >= 1_000_000,
    ;
    lemma_scaled_component_sign(tv.x, len, reach);
    lemma_scaled_component_sign(tv.y, len, reach);
    lemma_scaled_component_sign(tv.z, len, reach);
}

/// Dividing by a positive length and scaling by a non-negative reach keeps a
/// component's sign.
proof fn lemma_scaled_component_sign(x: int, len: int, reach: int)
    requires
        len >= 1,
        reach >= 0,
    ensures
        fx_mul_s(fx_div_s(x, len), reach) * x >= 0,
{
    let n = fx_div_s(x, len);
    if x >= 0 {
        assert(x * (FX_ONE as int) >= 0) by (nonlinear_arith)
            requires
                x >= 0,
        ;
        assert(n >= 0);
        crate::fixed::lemma_fx_mul_sign(n, reach);
        assert(fx_mul_s(n, reach) * x >= 0) by (nonlinear_arith)
            requires
                fx_mul_s(n, reach) >= 0,
                x >= 0,
        ;
    } else {
        assert(x * (FX_ONE as int) < 0) by (nonlinear_arith)
            requires
                x < 0,
        ;
        assert(n <= 0);
        crate::fixed::lemma_fx_mul_sign(n, reach);
        assert(fx_mul_s(n, reach) * x >= 0) by (nonlinear_arith)
            requires
                fx_mul_s(n, reach) <= 0,
                x < 0,
        ;
    }
}

/// Fixed influence of the shoulder pre-rotation: a quarter of the look-at
/// rotation reaches the clavicle.
pub const ARM_SHOULDER_INFLUENCE: i64 = 250_000;

/// The shoulder pre-rotation, step for step: the look-at rotation aligning
/// the canonical up vector with the de-rotated target direction, blended
/// toward identity by the shoulder influence and composed with the pole and
/// shoulder offsets.  `None` when an intermediate leaves the envelope.
pub open spec fn shoulder_rotation_s(limb: RenikLimb, target_vector: V3) -> Option<Q4> {
    if !(limb_ok(limb) && v3_ok(target_vector, 50_000_000)) {
        None
    } else {
        let unit_y = V3 { x: 0, y: FX_ONE as int, z: 0 };
        let pole_offset_scaled = crate::quat::q4_scale_angle_s(
            limb.shoulder_pole_offset@,
            ARM_SHOULDER_INFLUENCE as int,
        );
        let derotated = q4_rotate_s(q4_conj_s(limb.left_shoulder_offset@), target_vector);
        if !v3_ok(derotated, 50_000_000) {
            None
        } else {
            let depoled = q4_rotate_s(q4_conj_s(limb.shoulder_pole_offset@), derotated);
            if !v3_ok(depoled, 50_000_000) {
                None
            } else {
                let aligned = align_vectors_s(unit_y, depoled, FX_ONE as int);
                let aligned_scaled = crate::quat::q4_scale_angle_s(
                    aligned,
                    ARM_SHOULDER_INFLUENCE as int,
                );
                let align_to_target = q4_mul_s(pole_offset_scaled, aligned_scaled);
                Some(q4_mul_s(limb.left_shoulder_offset@, align_to_target))
            }
        }
    }
}

/// The shoulder pre-rotation for a hand target expressed in the shoulder
/// parent's rest space.  The caller composes the result onto the clavicle's
/// rest rotation before the two-bone solve runs from the updated root.
pub fn shoulder_rotation(limb: &RenikLimb, target_vector: &Vec3) -> (r: Option<Quat>)
    ensures
        (r is Some) == (shoulder_rotation_s(*limb, target_vector@) is Some),
        r is Some ==> r.unwrap()@ == shoulder_rotation_s(*limb, target_vector@).unwrap(),
        r is Some ==> q4_ok(r.unwrap()@, 150_000_000),
{
    if !(limb_in_envelope(limb) && vec3_in_range(target_vector, 50_000_000)) {
        return None;
    }
    let unit_y: Vec3 = Vec3 { x: 0, y: FX_ONE, z: 0 };
    let pole_offset_scaled: Quat = crate::quat::quat_scale_angle(
        &limb.shoulder_pole_offset,
        ARM_SHOULDER_INFLUENCE,
    );
    let offset_inv: Quat = quat_inverse(&limb.left_shoulder_offset);
    let derotated: Vec3 = quat_rotate(&offset_inv, target_vector);
    if !vec3_in_range(&derotated, 50_000_000) {
        return None;
    }
    let pole_inv: Quat = quat_inverse(&limb.shoulder_pole_offset);
    let depoled: Vec3 = quat_rotate(&pole_inv, &derotated);
    if !vec3_in_range(&depoled, 50_000_000) {
        return None;
    }
    let aligned: Quat = align_vectors(&unit_y, &depoled, FX_ONE);
    let aligned_scaled: Quat = crate::quat::quat_scale_angle(&aligned, ARM_SHOULDER_INFLUENCE);
    let align_to_target: Quat = quat_mul(&pole_offset_scaled, &aligned_scaled);
    proof {
        lemma_q4_mul_bound(pole_offset_scaled@, aligned_scaled@, 2_100_000, 2_100_000);
    }
    let r: Quat = quat_mul(&limb.left_shoulder_offset, &align_to_target);
    proof {
        lemma_q4_mul_bound(limb.left_shoulder_offset@, align_to_target@, 2_100_000, 17_640_000);
    }
    Some(r)
}

/// A tight squared-length bound from a componentwise bound.
proof fn lemma_v3_len2_tight(a: V3, aa: int)
    requires
        v3_ok(a, aa),
        0 <= aa,
    ensures
        v3_len2_s(a) <= 3 * (aa * aa / (FX_ONE as int)),
{
    lemma_fx_mul_bound(a.x, a.x, aa, aa);
    lemma_fx_mul_bound(a.y, a.y, aa, aa);
    lemma_fx_mul_bound(a.z, a.z, aa, aa);
}

/// A tight length bound for vectors within fifty units.
proof fn lemma_len_tight(ls: int, len: int)
    requires
        0 <= ls <= 7_500_000_000,
        crate::fixed::is_sqrt_floor(ls * (FX_ONE as int), len),
    ensures
        0 <= len <= 86_602_541,
{
    assert(len <= 86_602_541) by (nonlinear_arith)
        requires
            crate::fixed::is_sqrt_floor(ls * (FX_ONE as int), len),
            0 <= ls * (FX_ONE as int) <= 7_500_000_000_000_000,
    ;
}

/// Componentwise magnitude bound of a cross product from bounds on its
/// factors.
pub proof fn lemma_v3_cross_bound(a: V3, b: V3, aa: int, bb: int)
    requires
        v3_ok(a, aa),
        v3_ok(b, bb),
    ensures
        v3_ok(v3_cross_s(a, b), 2 * (aa * bb / (FX_ONE as int))),
{
    lemma_fx_mul_bound(a.y, b.z, aa, bb);
    lemma_fx_mul_bound(a.z, b.y, aa, bb);
    lemma_fx_mul_bound(a.z, b.x, aa, bb);
    lemma_fx_mul_bound(a.x, b.z, aa, bb);
    lemma_fx_mul_bound(a.x, b.y, aa, bb);
    lemma_fx_mul_bound(a.y, b.x, aa, bb);
}

/// Magnitude bound of a dot product from bounds on its factors.
pub proof fn lemma_v3_dot_bound(a: V3, b: V3, aa: int, bb: int)
    requires
        v3_ok(a, aa),
        v3_ok(b, bb),
    ensures
        abs(v3_dot_s(a, b)) <= 3 * (aa * bb / (FX_ONE as int)),
{
    lemma_fx_mul_bound(a.x, b.x, aa, bb);
    lemma_fx_mul_bound(a.y, b.y, aa, bb);
    lemma_fx_mul_bound(a.z, b.z, aa, bb);
}

} // verus!
