//! Spring-bone dynamics: the per-bone, per-frame tail integration and the
//! rest-pose setup for it.  The scene graph hands in world-space values and
//! writes back the new local rotation; the step itself is pure geometry.

use crate::quat::{
    align_vectors, align_vectors_s, lemma_q4_mul_bound, q4_mul_s, q4_ok, q4_rotate_s, quat_mul,
    quat_rotate, Q4, Quat,
};
use crate::transform::{t3_inv_apply_s, transform_inv_apply, Transform3, T3};
use crate::vec3::{
    v3_add_s, v3_len2_s, v3_len_s, v3_normalize_s, v3_ok, v3_scale_s, v3_sub_s, vec3_add,
    vec3_in_range, vec3_length, vec3_length_squared, vec3_normalize, vec3_scale, vec3_sub, V3,
    Vec3,
};
use vstd::math::abs;
use vstd::prelude::*;

verus! {

/// Per-bone spring state: the tail positions of the last two frames, the
/// bone's rest direction and length, and its rest local transform.
#[derive(Clone, Copy, PartialEq, Eq, Structural, Debug)]
pub struct SpringBoneLogicState {
    pub prev_tail: Vec3,
    pub current_tail: Vec3,
    pub bone_axis: Vec3,
    pub bone_length: i64,
    pub initial_local_transform: Transform3,
    pub initial_local_rotation: Quat,
}

/// The next tail position before the length constraint: the current tail
/// plus inertia, stiffness along the parent-rotated bone axis, and gravity.
pub open spec fn spring_free_tail_s(
    prev_tail: V3,
    current_tail: V3,
    inertia_factor: int,
    parent_world_rotation: Q4,
    bone_axis: V3,
    stiffness_step: int,
    gravity_step: V3,
) -> V3 {
    let inertia = v3_scale_s(v3_sub_s(current_tail, prev_tail), inertia_factor);
    let stiffness = v3_scale_s(q4_rotate_s(parent_world_rotation, bone_axis), stiffness_step);
    v3_add_s(v3_add_s(v3_add_s(current_tail, inertia), stiffness), gravity_step)
}

/// The next tail pinned back to the bone sphere: the world position plus the
/// normalized offset scaled by the bone length; `None` when the offset is
/// degenerate at this resolution.
pub open spec fn spring_constrained_tail_s(free_tail: V3, world_position: V3, bone_length: int) -> Option<
    V3,
> {
    let offset = v3_sub_s(free_tail, world_position);
    if !v3_ok(offset, 1_000_000_000) || v3_len2_s(offset) == 0 {
        None
    } else {
        Some(v3_add_s(world_position, v3_scale_s(v3_normalize_s(offset), bone_length)))
    }
}

/// The bone's new local rotation: the rest rotation composed with the
/// shortest arc from the rest axis to the constrained tail direction in the
/// bone's rest frame.
pub open spec fn spring_local_rotation_s(
    initial_local_rotation: Q4,
    bone_axis: V3,
    parent_rest: T3,
    next_tail: V3,
) -> Option<Q4> {
    let to_raw = t3_inv_apply_s(parent_rest, next_tail);
    if !v3_ok(to_raw, 100_000_000) || v3_len2_s(to_raw) == 0 {
        None
    } else {
        let to = v3_normalize_s(to_raw);
        Some(q4_mul_s(initial_local_rotation, align_vectors_s(bone_axis, to, 1_000_000)))
    }
}

/// One spring step for one bone.  `parent_rest` is the parent's world
/// transform composed with the bone's rest local transform; the scalar steps
/// are the frame-scaled stiffness and drag coefficients.  Returns the new
/// previous tail, the new current tail, and the new local rotation, or
/// `None` when the geometry degenerates or leaves the envelope — the caller
/// then keeps the bone still for this frame.
pub fn spring_bone_step(
    state: &SpringBoneLogicState,
    inertia_factor: i64,
    parent_world_rotation: &Quat,
    stiffness_step: i64,
    gravity_step: &Vec3,
    world_position: &Vec3,
    parent_rest: &Transform3,
) -> (r: Option<(Vec3, Vec3, Quat)>)
    requires
        v3_ok(state.prev_tail@, 50_000_000),
        v3_ok(state.current_tail@, 50_000_000),
        v3_ok(state.bone_axis@, 2_100_000),
        0 <= state.bone_length <= 50_000_000,
        q4_ok(state.initial_local_rotation@, 2_100_000),
        q4_ok(parent_world_rotation@, 2_100_000),
        0 <= inertia_factor <= 1_000_000,
        abs(stiffness_step as int) <= 1_000_000,
        v3_ok(gravity_step@, 1_000_000),
        v3_ok(world_position@, 50_000_000),
        q4_ok(parent_rest@.rotation, 2_100_000),
        v3_ok(parent_rest@.translation, 50_000_000),
    ensures
        r is Some ==> ({
            let free = spring_free_tail_s(
                state.prev_tail@,
                state.current_tail@,
                inertia_factor as int,
                parent_world_rotation@,
                state.bone_axis@,
                stiffness_step as int,
                gravity_step@,
            );
            let tail = spring_constrained_tail_s(free, world_position@, state.bone_length as int);
            &&& tail is Some
            &&& r.unwrap().0@ == state.current_tail@
            &&& r.unwrap().1@ == tail.unwrap()
            &&& spring_local_rotation_s(
                state.initial_local_rotation@,
                state.bone_axis@,
                parent_rest@,
                tail.unwrap(),
            ) == Some(r.unwrap().2@)
        }),
        r is None ==> ({
            let free = spring_free_tail_s(
                state.prev_tail@,
                state.current_tail@,
                inertia_factor as int,
                parent_world_rotation@,
                state.bone_axis@,
                stiffness_step as int,
                gravity_step@,
            );
            let tail = spring_constrained_tail_s(free, world_position@, state.bone_length as int);
            tail is None || !v3_ok(tail.unwrap(), 50_000_000) || spring_local_rotation_s(
                state.initial_local_rotation@,
                state.bone_axis@,
                parent_rest@,
                tail.unwrap(),
            ) is None
        }),
{
    let delta: Vec3 = vec3_sub(&state.current_tail, &state.prev_tail);
    let inertia: Vec3 = vec3_scale(&delta, inertia_factor);
    proof {
        crate::fixed::lemma_fx_mul_bound(delta@.x, inertia_factor as int, 100_000_000, 1_000_000);
        crate::fixed::lemma_fx_mul_bound(delta@.y, inertia_factor as int, 100_000_000, 1_000_000);
        crate::fixed::lemma_fx_mul_bound(delta@.z, inertia_factor as int, 100_000_000, 1_000_000);
    }
    let axis_world: Vec3 = quat_rotate(parent_world_rotation, &state.bone_axis);
    let stiffness: Vec3 = vec3_scale(&axis_world, stiffness_step);
    proof {
        crate::fixed::lemma_fx_mul_bound(axis_world@.x, stiffness_step as int, 6_000_000_000, 1_000_000);
        crate::fixed::lemma_fx_mul_bound(axis_world@.y, stiffness_step as int, 6_000_000_000, 1_000_000);
        crate::fixed::lemma_fx_mul_bound(axis_world@.z, stiffness_step as int, 6_000_000_000, 1_000_000);
    }
    let with_inertia: Vec3 = vec3_add(&state.current_tail, &inertia);
    let with_stiffness: Vec3 = vec3_add(&with_inertia, &stiffness);
    let free_tail: Vec3 = vec3_add(&with_stiffness, gravity_step);
    let offset: Vec3 = vec3_sub(&free_tail, world_position);
    if !vec3_in_range(&offset, 1_000_000_000) {
        return None;
    }
    let off_l2: i64 = vec3_length_squared(&offset);
    if off_l2 == 0 {
        return None;
    }
    let dir: Vec3 = vec3_normalize(&offset);
    let reach: Vec3 = vec3_scale(&dir, state.bone_length);
    proof {
        crate::fixed::lemma_fx_mul_bound(dir@.x, state.bone_length as int, 2_000_000, 50_000_000);
        crate::fixed::lemma_fx_mul_bound(dir@.y, state.bone_length as int, 2_000_000, 50_000_000);
        crate::fixed::lemma_fx_mul_bound(dir@.z, state.bone_length as int, 2_000_000, 50_000_000);
    }
    let next_tail: Vec3 = vec3_add(world_position, &reach);
    if !vec3_in_range(&next_tail, 50_000_000) {
        return None;
    }
    let to_raw: Vec3 = transform_inv_apply(parent_rest, &next_tail);
    if !vec3_in_range(&to_raw, 100_000_000) {
        return None;
    }
    let to_l2: i64 = vec3_length_squared(&to_raw);
    if to_l2 == 0 {
        return None;
    }
    let to: Vec3 = vec3_normalize(&to_raw);
    let arc: Quat = align_vectors(&state.bone_axis, &to, crate::fixed::FX_ONE);
    let rot: Quat = quat_mul(&state.initial_local_rotation, &arc);
    proof {
        lemma_q4_mul_bound(state.initial_local_rotation@, arc@, 2_100_000, 2_000_000);
    }
    Some((state.current_tail, next_tail, rot))
}

/// Spring state captured from the rest pose: the bone axis is the next
/// bone's rest direction, the length its rest distance, and both tails start
/// at the next bone's world position.  `None` when the rest offset is
/// degenerate at this resolution.
pub fn spring_bone_state_from_rest(
    local_next_translation: &Vec3,
    global_next_position: &Vec3,
    initial_local_transform: &Transform3,
) -> (r: Option<SpringBoneLogicState>)
    requires
        v3_ok(local_next_translation@, 50_000_000),
        v3_ok(global_next_position@, 50_000_000),
    ensures
        (r is Some) == (v3_len2_s(local_next_translation@) != 0),
        r is Some ==> ({
            let s = r.unwrap();
            &&& s.bone_axis@ == v3_normalize_s(local_next_translation@)
            &&& s.bone_length == v3_len_s(local_next_translation@)
            &&& s.prev_tail@ == global_next_position@
            &&& s.current_tail@ == global_next_position@
            &&& s.initial_local_transform == initial_local_transform
            &&& s.initial_local_rotation == initial_local_transform.rotation
        }),
{
    let l2: i64 = vec3_length_squared(local_next_translation);
    if l2 == 0 {
        return None;
    }
    let bone_axis: Vec3 = vec3_normalize(local_next_translation);
    let bone_length: i64 = vec3_length(local_next_translation);
    Some(
        SpringBoneLogicState {
            prev_tail: *global_next_position,
            current_tail: *global_next_position,
            bone_axis,
            bone_length,
            initial_local_transform: *initial_local_transform,
            initial_local_rotation: initial_local_transform.rotation,
        },
    )
}

} // verus!
