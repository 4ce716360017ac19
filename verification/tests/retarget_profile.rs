//! Retargeting round trip, facing flip, skeleton profile, spring step, and
//! the bind edge label.

use renik::bind::BindEdges;
use renik::fixed::FX_ONE;
use renik::limb::left_arm_pole_offset;
use renik::profile::{bone_parent, profile_global, profile_local, BoneName};
use renik::quat::{quat_from_axis_angle, quat_identity, Quat};
use renik::retarget::{
    canonical_arm_rotation, flip_point, flip_positions, flip_rotation,
    rebind_descendant_rotation, rebind_own_rotation, retarget_child_translation, retarget_delta,
    set_bind_rotation, skin_vertex,
};
use renik::spring::{spring_bone_state_from_rest, spring_bone_step};
use renik::transform::{transform_inverse, Transform3};
use renik::vec3::{vec3_length, vec3_sub, Vec3};

fn assert_close(actual: i64, expected: i64, tol: i64, what: &str) {
    let diff = (actual - expected).abs();
    assert!(
        diff <= tol,
        "{what}: actual {actual}, expected {expected}, diff {diff} > tol {tol}"
    );
}

#[test]
fn bind_edge_label_serializes_to_its_json_name() {
    assert_eq!(BindEdges::Primitive.to_string(), "\"VRM/Bind/Primitive\"");
}

#[test]
fn canonical_rotations_cover_the_left_arm_chain() {
    assert!(canonical_arm_rotation(BoneName::LeftShoulder).is_some());
    assert!(canonical_arm_rotation(BoneName::LeftUpperArm).is_some());
    assert!(canonical_arm_rotation(BoneName::LeftLowerArm).is_some());
    assert!(canonical_arm_rotation(BoneName::LeftHand).is_some());
    assert!(canonical_arm_rotation(BoneName::Hips).is_none());
    assert_eq!(
        canonical_arm_rotation(BoneName::LeftUpperArm).unwrap(),
        Quat { x: 0, y: FX_ONE, z: 0, w: 0 }
    );
}

#[test]
fn retarget_round_trip_keeps_skinned_vertices() {
    // One joint whose bind pose equals its rest transform; retargeting
    // swaps its local rotation for the canonical one and rewrites the
    // inverse bind pose, so a skinned vertex must not move.
    let axis = Vec3 { x: 0, y: 0, z: FX_ONE };
    let old_rot = quat_from_axis_angle(&axis, 300_000);
    let t0 = Vec3 { x: 100_000, y: 1_200_000, z: 0 };
    let global_old = Transform3 { rotation: old_rot, translation: t0 };
    let ibp_old = transform_inverse(&global_old);

    let new_rot = canonical_arm_rotation(BoneName::LeftUpperArm).unwrap();
    let delta = retarget_delta(&old_rot, &new_rot).expect("delta");
    let new_bind_rot = rebind_own_rotation(&old_rot, &delta);
    let global_new = Transform3 { rotation: new_rot, translation: t0 };
    let ibp_new = set_bind_rotation(&ibp_old, &new_bind_rot).expect("rebind");

    let v = Vec3 { x: 300_000, y: 900_000, z: 150_000 };
    let before = skin_vertex(&global_old, &ibp_old, &v).expect("skin before");
    let after = skin_vertex(&global_new, &ibp_new, &v).expect("skin after");
    println!("vertex before {before:?}, after {after:?}");
    let err = vec3_length(&vec3_sub(&after, &before));
    println!("retarget round-trip error {err}");
    assert!(err <= 100, "vertex moved by {err}");
}

#[test]
fn retarget_round_trip_keeps_descendant_vertices() {
    // A parent joint is retargeted; its child keeps its local rotation but
    // gets a re-expressed translation and a rebound bind pose, so vertices
    // skinned to the child must not move either.
    let axis = Vec3 { x: 0, y: 0, z: FX_ONE };
    let q_old = quat_from_axis_angle(&axis, 300_000);
    let t_p = Vec3 { x: 0, y: 1_000_000, z: 0 };
    let t_c = Vec3 { x: 0, y: 250_000, z: 0 };
    let parent_old = Transform3 { rotation: q_old, translation: t_p };
    let child_local_old = Transform3 { rotation: quat_identity(), translation: t_c };
    let child_old = renik::transform::transform_mul(&parent_old, &child_local_old);
    let ibp_child_old = transform_inverse(&child_old);

    let q_new = canonical_arm_rotation(BoneName::LeftUpperArm).unwrap();
    let delta = retarget_delta(&q_old, &q_new).expect("delta");
    let child_bind_new =
        rebind_descendant_rotation(&child_old.rotation, &delta).expect("descendant rebind");
    let t_c_new = retarget_child_translation(&delta, &t_c);

    let parent_new = Transform3 { rotation: q_new, translation: t_p };
    let child_local_new = Transform3 { rotation: quat_identity(), translation: t_c_new };
    let child_new = renik::transform::transform_mul(&parent_new, &child_local_new);
    let ibp_child_new = set_bind_rotation(&ibp_child_old, &child_bind_new).expect("rebind");

    let v = Vec3 { x: 200_000, y: 1_400_000, z: -100_000 };
    let before = skin_vertex(&child_old, &ibp_child_old, &v).expect("skin before");
    let after = skin_vertex(&child_new, &ibp_child_new, &v).expect("skin after");
    println!("descendant vertex before {before:?}, after {after:?}");
    let err = vec3_length(&vec3_sub(&after, &before));
    println!("descendant round-trip error {err}");
    assert!(err <= 200, "descendant vertex moved by {err}");
}

#[test]
fn retarget_child_translation_is_derotated() {
    let axis = Vec3 { x: 0, y: 0, z: FX_ONE };
    let delta = quat_from_axis_angle(&axis, renik::trig::HALF_PI_FX);
    let t = Vec3 { x: FX_ONE, y: 0, z: 0 };
    let r = retarget_child_translation(&delta, &t);
    println!("derotated child translation {r:?}");
    // The inverse of a quarter turn about Z sends X to -Y.
    assert_close(r.x, 0, 300, "child x");
    assert_close(r.y, -FX_ONE, 300, "child y");
    assert_close(r.z, 0, 300, "child z");
}

#[test]
fn skeleton_rotate_delta_with_trivial_parent_is_the_local_rotation() {
    // With an identity parent and an identity reference, the generic
    // retargeting delta is the bone's own local rotation.
    let id = quat_identity();
    let axis = Vec3 { x: 0, y: FX_ONE, z: 0 };
    let local = quat_from_axis_angle(&axis, 400_000);
    let d = renik::retarget::skeleton_rotate_delta(&id, &id, &id, &local);
    println!("skeleton rotate delta {d:?}");
    assert_close(d.x, local.x, 10, "delta x");
    assert_close(d.y, local.y, 10, "delta y");
    assert_close(d.z, local.z, 10, "delta z");
    assert_close(d.w, local.w, 10, "delta w");
}

#[test]
fn facing_flip_negates_x_and_z() {
    let p = Vec3 { x: 1, y: 2, z: 3 };
    assert_eq!(flip_point(&p), Vec3 { x: -1, y: 2, z: -3 });
    let q = Quat { x: 10, y: 20, z: 30, w: 40 };
    assert_eq!(flip_rotation(&q), Quat { x: -10, y: 20, z: -30, w: 40 });
    let many = vec![Vec3 { x: 1, y: 2, z: 3 }, Vec3 { x: -4, y: 5, z: -6 }];
    let flipped = flip_positions(&many);
    assert_eq!(flipped.len(), 2);
    assert_eq!(flipped[0], Vec3 { x: -1, y: 2, z: -3 });
    assert_eq!(flipped[1], Vec3 { x: 4, y: 5, z: 6 });
}

#[test]
fn profile_places_the_core_bones() {
    let hips = profile_local(BoneName::Hips);
    assert_eq!(hips.origin, Vec3 { x: 0, y: 750_000, z: 0 });
    assert_eq!(hips.basis.x_axis, Vec3 { x: FX_ONE, y: 0, z: 0 });
    let shoulder = profile_local(BoneName::LeftShoulder);
    assert_eq!(shoulder.origin, Vec3 { x: 50_000, y: 100_000, z: 0 });
    assert_eq!(shoulder.basis.x_axis, Vec3 { x: 0, y: 0, z: FX_ONE });
}

#[test]
fn profile_global_composes_down_the_spine() {
    let spine = profile_global(BoneName::Spine).expect("spine");
    assert_eq!(spine.origin, Vec3 { x: 0, y: 850_000, z: 0 });
    let shoulder = profile_global(BoneName::LeftShoulder).expect("shoulder");
    assert_eq!(shoulder.origin, Vec3 { x: 50_000, y: 1_150_000, z: 0 });
    // The upper arm hangs off the rotated shoulder frame: its local +Y
    // offset leaves along the shoulder's Y column, world X.
    let upper = profile_global(BoneName::LeftUpperArm).expect("upper arm");
    assert_eq!(upper.origin, Vec3 { x: 100_000, y: 1_150_000, z: 0 });
}

#[test]
fn bone_parents_follow_the_hierarchy() {
    assert_eq!(bone_parent(BoneName::Hips), None);
    assert_eq!(bone_parent(BoneName::Spine), Some(BoneName::Hips));
    assert_eq!(bone_parent(BoneName::LeftHand), Some(BoneName::LeftLowerArm));
    assert_eq!(bone_parent(BoneName::LeftToes), Some(BoneName::LeftFoot));
    assert_eq!(
        bone_parent(BoneName::RightThumbDistal),
        Some(BoneName::RightThumbIntermediate)
    );
}

#[test]
fn default_pole_offset_matches_its_euler_angles() {
    // Fifteen degrees about X then sixty about Z.
    let q = left_arm_pole_offset();
    println!("pole offset {q:?}");
    assert_close(q.x, 113_039, 300, "pole x");
    assert_close(q.y, -65_263, 300, "pole y");
    assert_close(q.z, 495_722, 300, "pole z");
    assert_close(q.w, 858_616, 300, "pole w");
}

#[test]
fn spring_step_at_rest_keeps_the_bone_still() {
    let local_next = Vec3 { x: 0, y: 100_000, z: 0 };
    let global_next = Vec3 { x: 0, y: 100_000, z: 0 };
    let rest = Transform3 { rotation: quat_identity(), translation: Vec3 { x: 0, y: 0, z: 0 } };
    let state = spring_bone_state_from_rest(&local_next, &global_next, &rest).expect("state");
    assert_eq!(state.bone_length, 100_000);
    assert_eq!(state.bone_axis, Vec3 { x: 0, y: FX_ONE, z: 0 });

    let no_gravity = Vec3 { x: 0, y: 0, z: 0 };
    let world = Vec3 { x: 0, y: 0, z: 0 };
    let (prev, tail, rot) = spring_bone_step(
        &state,
        FX_ONE,
        &quat_identity(),
        0,
        &no_gravity,
        &world,
        &rest,
    )
    .expect("spring step");
    assert_eq!(prev, state.current_tail);
    println!("spring tail {tail:?}, rot {rot:?}");
    assert_close(tail.y, 100_000, 200, "tail stays at rest");
    assert_close(rot.w, FX_ONE, 3_000, "rotation stays near rest");
}

#[test]
fn spring_step_with_gravity_pulls_the_tail() {
    let local_next = Vec3 { x: 0, y: 100_000, z: 0 };
    let global_next = Vec3 { x: 0, y: 100_000, z: 0 };
    let rest = Transform3 { rotation: quat_identity(), translation: Vec3 { x: 0, y: 0, z: 0 } };
    let state = spring_bone_state_from_rest(&local_next, &global_next, &rest).expect("state");
    let gravity = Vec3 { x: 0, y: -50_000, z: 0 };
    let world = Vec3 { x: 0, y: 0, z: 0 };
    let sideways = Vec3 { x: 30_000, y: 0, z: 0 };
    let state2 = renik::spring::SpringBoneLogicState { current_tail: vec3_sub(&global_next, &sideways), ..state };
    let (_, tail, _) = spring_bone_step(
        &state2,
        FX_ONE,
        &quat_identity(),
        0,
        &gravity,
        &world,
        &rest,
    )
    .expect("spring step");
    println!("gravity tail {tail:?}");
    // The tail stays on the bone sphere.
    assert_close(vec3_length(&tail), 100_000, 200, "tail on sphere");
    assert!(tail.y < 100_000, "gravity did not pull the tail down: {tail:?}");
}
