//! Skeleton retargeting math: the delta rotation that carries an authored
//! bone rotation onto the canonical convention, the bind-pose rewrites that
//! keep the skinned mesh visually unchanged, and the half-turn flip that
//! re-expresses a skeleton in the engine's facing convention.

use crate::profile::BoneName;
use crate::quat::{
    q4_conj_s, q4_mul_s, q4_norm2_s, q4_normalize_s, q4_ok, q4_rotate_s, lemma_q4_mul_bound,
    quat_inverse, quat_mul, quat_norm2, quat_normalize, quat_rotate, Q4, Quat,
};
use crate::transform::{t3_apply_s, t3_inverse_s, transform_apply, transform_inverse, Transform3, T3};
use crate::vec3::{v3_ok, vec3_in_range, V3, Vec3};
use vstd::prelude::*;

verus! {

/// The canonical local rotation each retargeted arm bone is driven to, in
/// fixed point.
pub open spec fn canonical_arm_rotation_s(b: BoneName) -> Option<Q4> {
    match b {
        BoneName::LeftShoulder => Some(Q4 { x: 500_000, y: 500_000, z: 500_000, w: -500_000 }),
        BoneName::LeftUpperArm => Some(Q4 { x: 0, y: 1_000_000, z: 0, w: 0 }),
        BoneName::LeftLowerArm => Some(Q4 { x: 0, y: -708_000, z: 0, w: 707_000 }),
        BoneName::LeftHand => Some(Q4 { x: 0, y: 708_000, z: 0, w: 707_000 }),
        _ => None,
    }
}

/// The canonical local rotation for a retargeted arm bone, `None` for bones
/// the arm retargeting pass does not touch.
pub fn canonical_arm_rotation(b: BoneName) -> (r: Option<Quat>)
    ensures
        (r is Some) == (canonical_arm_rotation_s(b) is Some),
        r is Some ==> r.unwrap()@ == canonical_arm_rotation_s(b).unwrap(),
        r is Some ==> q4_ok(r.unwrap()@, 1_000_000),
{
    match b {
        BoneName::LeftShoulder => Some(Quat { x: 500_000, y: 500_000, z: 500_000, w: -500_000 }),
        BoneName::LeftUpperArm => Some(Quat { x: 0, y: 1_000_000, z: 0, w: 0 }),
        BoneName::LeftLowerArm => Some(Quat { x: 0, y: -708_000, z: 0, w: 707_000 }),
        BoneName::LeftHand => Some(Quat { x: 0, y: 708_000, z: 0, w: 707_000 }),
        _ => None,
    }
}

/// The delta rotation that maps the authored local rotation onto the new
/// one, normalized: `normalize(old^-1 * new)`.
pub open spec fn retarget_delta_s(old_rot: Q4, new_rot: Q4) -> Option<Q4> {
    let raw = q4_mul_s(q4_conj_s(old_rot), new_rot);
    if q4_norm2_s(raw) == 0 {
        None
    } else {
        Some(q4_normalize_s(raw))
    }
}

/// The delta rotation that maps the authored local rotation onto the new
/// one.  `None` when the product degenerates at this resolution.
pub fn retarget_delta(old_rot: &Quat, new_rot: &Quat) -> (r: Option<Quat>)
    requires
        q4_ok(old_rot@, 2_100_000),
        q4_ok(new_rot@, 2_100_000),
    ensures
        (r is Some) == (retarget_delta_s(old_rot@, new_rot@) is Some),
        r is Some ==> r.unwrap()@ == retarget_delta_s(old_rot@, new_rot@).unwrap(),
        r is Some ==> q4_ok(r.unwrap()@, 2_000_000),
{
    let old_inv: Quat = quat_inverse(old_rot);
    let raw: Quat = quat_mul(&old_inv, new_rot);
    proof {
        lemma_q4_mul_bound(old_inv@, new_rot@, 2_100_000, 2_100_000);
    }
    let n2: i64 = quat_norm2(&raw);
    if n2 == 0 {
        None
    } else {
        Some(quat_normalize(&raw))
    }
}

/// The bind rotation of the retargeted bone itself: the old bind rotation
/// composed with the delta.
pub open spec fn rebind_own_rotation_s(bind_rot: Q4, delta: Q4) -> Q4 {
    q4_mul_s(bind_rot, delta)
}

/// The bind rotation of the retargeted bone itself.
pub fn rebind_own_rotation(bind_rot: &Quat, delta: &Quat) -> (r: Quat)
    requires
        q4_ok(bind_rot@, 2_100_000),
        q4_ok(delta@, 2_100_000),
    ensures
        r@ == rebind_own_rotation_s(bind_rot@, delta@),
        q4_ok(r@, 17_640_000),
{
    proof {
        lemma_q4_mul_bound(bind_rot@, delta@, 2_100_000, 2_100_000);
    }
    quat_mul(bind_rot, delta)
}

/// The bind rotation of a descendant of the retargeted bone: the composition
/// with the delta, normalized.
pub open spec fn rebind_descendant_rotation_s(bind_rot: Q4, delta: Q4) -> Option<Q4> {
    let raw = q4_mul_s(bind_rot, delta);
    if q4_norm2_s(raw) == 0 {
        None
    } else {
        Some(q4_normalize_s(raw))
    }
}

/// The bind rotation of a descendant of the retargeted bone.
pub fn rebind_descendant_rotation(bind_rot: &Quat, delta: &Quat) -> (r: Option<Quat>)
    requires
        q4_ok(bind_rot@, 2_100_000),
        q4_ok(delta@, 2_100_000),
    ensures
        (r is Some) == (rebind_descendant_rotation_s(bind_rot@, delta@) is Some),
        r is Some ==> r.unwrap()@ == rebind_descendant_rotation_s(bind_rot@, delta@).unwrap(),
        r is Some ==> q4_ok(r.unwrap()@, 2_000_000),
{
    let raw: Quat = quat_mul(bind_rot, delta);
    proof {
        lemma_q4_mul_bound(bind_rot@, delta@, 2_100_000, 2_100_000);
    }
    let n2: i64 = quat_norm2(&raw);
    if n2 == 0 {
        None
    } else {
        Some(quat_normalize(&raw))
    }
}

/// A child's local translation re-expressed through the inverse delta, so
/// the child keeps its place under the re-oriented parent.
pub open spec fn retarget_child_translation_s(delta: Q4, t: V3) -> V3 {
    q4_rotate_s(q4_conj_s(delta), t)
}

/// A child's local translation re-expressed through the inverse delta.
pub fn retarget_child_translation(delta: &Quat, t: &Vec3) -> (r: Vec3)
    requires
        q4_ok(delta@, 2_100_000),
        v3_ok(t@, 100_000_000),
    ensures
        r@ == retarget_child_translation_s(delta@, t@),
        v3_ok(r@, 6_000_000_000),
{
    let inv: Quat = quat_inverse(delta);
    quat_rotate(&inv, t)
}

/// The bind transform hidden in an inverse bind pose: the inverse of the
/// stored transform.
pub open spec fn bind_transform_s(inverse_bind: T3) -> T3 {
    t3_inverse_s(inverse_bind)
}

/// The bind transform hidden in an inverse bind pose.
pub fn bind_transform(inverse_bind: &Transform3) -> (r: Transform3)
    requires
        q4_ok(inverse_bind@.rotation, 2_100_000),
        v3_ok(inverse_bind@.translation, 100_000_000),
    ensures
        r@ == bind_transform_s(inverse_bind@),
{
    transform_inverse(inverse_bind)
}

/// An inverse bind pose with its bind rotation replaced: invert, swap the
/// rotation, invert back.  `None` when the unpacked translation leaves the
/// envelope.
pub open spec fn set_bind_rotation_s(inverse_bind: T3, new_rot: Q4) -> Option<T3> {
    let bind = t3_inverse_s(inverse_bind);
    if !v3_ok(bind.translation, 100_000_000) {
        None
    } else {
        Some(t3_inverse_s(T3 { rotation: new_rot, translation: bind.translation }))
    }
}

/// An inverse bind pose with its bind rotation replaced.
pub fn set_bind_rotation(inverse_bind: &Transform3, new_rot: &Quat) -> (r: Option<Transform3>)
    requires
        q4_ok(inverse_bind@.rotation, 2_100_000),
        v3_ok(inverse_bind@.translation, 100_000_000),
        q4_ok(new_rot@, 2_100_000),
    ensures
        (r is Some) == (set_bind_rotation_s(inverse_bind@, new_rot@) is Some),
        r is Some ==> r.unwrap()@ == set_bind_rotation_s(inverse_bind@, new_rot@).unwrap(),
{
    let bind: Transform3 = transform_inverse(inverse_bind);
    if !vec3_in_range(&bind.translation, 100_000_000) {
        return None;
    }
    let swapped: Transform3 = Transform3 { rotation: *new_rot, translation: bind.translation };
    Some(transform_inverse(&swapped))
}

/// An inverse bind pose with its bind translation replaced: invert, swap the
/// translation, invert back.
pub open spec fn set_bind_translation_s(inverse_bind: T3, new_t: V3) -> T3 {
    let bind = t3_inverse_s(inverse_bind);
    t3_inverse_s(T3 { rotation: bind.rotation, translation: new_t })
}

/// An inverse bind pose with its bind translation replaced.
pub fn set_bind_translation(inverse_bind: &Transform3, new_t: &Vec3) -> (r: Transform3)
    requires
        q4_ok(inverse_bind@.rotation, 2_100_000),
        v3_ok(inverse_bind@.translation, 100_000_000),
        v3_ok(new_t@, 100_000_000),
    ensures
        r@ == set_bind_translation_s(inverse_bind@, new_t@),
{
    let bind: Transform3 = transform_inverse(inverse_bind);
    let swapped: Transform3 = Transform3 { rotation: bind.rotation, translation: *new_t };
    transform_inverse(&swapped)
}

/// The world position of a skinned vertex: the vertex carried through the
/// inverse bind pose, then through the joint's global transform.  `None`
/// when the intermediate leaves the envelope.
pub open spec fn skin_vertex_s(joint_global: T3, inverse_bind: T3, v: V3) -> Option<V3> {
    let local = t3_apply_s(inverse_bind, v);
    if !v3_ok(local, 100_000_000) {
        None
    } else {
        Some(t3_apply_s(joint_global, local))
    }
}

/// The world position of a skinned vertex under a joint.
pub fn skin_vertex(joint_global: &Transform3, inverse_bind: &Transform3, v: &Vec3) -> (r: Option<
    Vec3,
>)
    requires
        q4_ok(joint_global@.rotation, 2_100_000),
        v3_ok(joint_global@.translation, 100_000_000),
        q4_ok(inverse_bind@.rotation, 2_100_000),
        v3_ok(inverse_bind@.translation, 100_000_000),
        v3_ok(v@, 100_000_000),
    ensures
        (r is Some) == (skin_vertex_s(joint_global@, inverse_bind@, v@) is Some),
        r is Some ==> r.unwrap()@ == skin_vertex_s(joint_global@, inverse_bind@, v@).unwrap(),
{
    let local: Vec3 = transform_apply(inverse_bind, v);
    if !vec3_in_range(&local, 100_000_000) {
        return None;
    }
    Some(transform_apply(joint_global, &local))
}

/// The generic per-bone retargeting delta toward a reference skeleton: the
/// bone's reference rotation is re-expressed under the live parent's global
/// rotation, and the bone's local rotation is corrected by it and by the
/// parent's already-applied delta.
pub open spec fn skeleton_rotate_delta_s(
    parent_global: Q4,
    reference_rot: Q4,
    parent_delta: Q4,
    local_rot: Q4,
) -> Q4 {
    let tgt_rot = q4_mul_s(q4_conj_s(parent_global), reference_rot);
    q4_mul_s(q4_conj_s(tgt_rot), q4_mul_s(parent_delta, local_rot))
}

/// The generic per-bone retargeting delta toward a reference skeleton.
pub fn skeleton_rotate_delta(
    parent_global: &Quat,
    reference_rot: &Quat,
    parent_delta: &Quat,
    local_rot: &Quat,
) -> (r: Quat)
    requires
        q4_ok(parent_global@, 2_100_000),
        q4_ok(reference_rot@, 2_100_000),
        q4_ok(parent_delta@, 2_100_000),
        q4_ok(local_rot@, 2_100_000),
    ensures
        r@ == skeleton_rotate_delta_s(parent_global@, reference_rot@, parent_delta@, local_rot@),
{
    let pg_inv: Quat = quat_inverse(parent_global);
    let tgt_rot: Quat = quat_mul(&pg_inv, reference_rot);
    proof {
        lemma_q4_mul_bound(pg_inv@, reference_rot@, 2_100_000, 2_100_000);
    }
    let carried: Quat = quat_mul(parent_delta, local_rot);
    proof {
        lemma_q4_mul_bound(parent_delta@, local_rot@, 2_100_000, 2_100_000);
    }
    let tgt_inv: Quat = quat_inverse(&tgt_rot);
    proof {
        lemma_q4_mul_bound(tgt_inv@, carried@, 17_640_000, 17_640_000);
    }
    quat_mul(&tgt_inv, &carried)
}

/// A point re-expressed through the half-turn about Y that flips the
/// skeleton's facing: X and Z negated.
pub open spec fn flip_point_s(v: V3) -> V3 {
    V3 { x: -v.x, y: v.y, z: -v.z }
}

/// A rotation conjugated by the half-turn about Y: the X and Z components
/// negated.
pub open spec fn flip_rotation_s(q: Q4) -> Q4 {
    Q4 { x: -q.x, y: q.y, z: -q.z, w: q.w }
}

/// A rigid transform conjugated by the half-turn about Y.
pub open spec fn flip_transform_s(t: T3) -> T3 {
    T3 { rotation: flip_rotation_s(t.rotation), translation: flip_point_s(t.translation) }
}

/// A point re-expressed through the facing flip.
pub fn flip_point(v: &Vec3) -> (r: Vec3)
    requires
        v3_ok(v@, 2_000_000_000_000),
    ensures
        r@ == flip_point_s(v@),
{
    Vec3 { x: -v.x, y: v.y, z: -v.z }
}

/// A rotation conjugated by the facing flip.
pub fn flip_rotation(q: &Quat) -> (r: Quat)
    requires
        q4_ok(q@, 2_000_000_000_000),
    ensures
        r@ == flip_rotation_s(q@),
{
    Quat { x: -q.x, y: q.y, z: -q.z, w: q.w }
}

/// A rigid transform conjugated by the facing flip.
pub fn flip_transform(t: &Transform3) -> (r: Transform3)
    requires
        q4_ok(t@.rotation, 2_000_000_000_000),
        v3_ok(t@.translation, 2_000_000_000_000),
    ensures
        r@ == flip_transform_s(t@),
{
    Transform3 { rotation: flip_rotation(&t.rotation), translation: flip_point(&t.translation) }
}

/// Every position in a mesh attribute re-expressed through the facing flip.
pub fn flip_positions(positions: &Vec<Vec3>) -> (r: Vec<Vec3>)
    requires
        forall|i: int| 0 <= i < positions@.len() ==> v3_ok(positions@[i]@, 2_000_000_000_000),
    ensures
        r@.len() == positions@.len(),
        forall|i: int| 0 <= i < positions@.len() ==> r@[i]@ == flip_point_s(positions@[i]@),
{
    let mut out: Vec<Vec3> = Vec::new();
    let mut i: usize = 0;
    while i < positions.len()
        invariant
            i <= positions@.len(),
            out@.len() == i,
            forall|j: int| 0 <= j < positions@.len() ==> v3_ok(positions@[j]@, 2_000_000_000_000),
            forall|j: int| 0 <= j < i ==> out@[j]@ == flip_point_s(positions@[j]@),
        decreases positions@.len() - i,
    {
        let p: Vec3 = positions[i];
        out.push(flip_point(&p));
        i = i + 1;
    }
    out
}

} // verus!
