//! Fixed-point rigid transforms: a rotation and a translation, composed and
//! inverted the way the scene graph's unit-scale transforms are.

use crate::quat::{
    q4_conj_s, q4_identity_s, q4_mul_s, q4_ok, q4_rotate_s, quat_identity, quat_inverse, quat_mul,
    quat_rotate, Q4, Quat,
};
use crate::vec3::{v3_add_s, v3_ok, v3_sub_s, v3_zero_s, vec3_add, vec3_sub, V3, Vec3};
use vstd::prelude::*;

verus! {

/// Spec-level rigid transform.
pub ghost struct T3 {
    pub rotation: Q4,
    pub translation: V3,
}

/// Fixed-point rigid transform (unit scale).
#[derive(Clone, Copy, PartialEq, Eq, Structural, Debug)]
pub struct Transform3 {
    pub rotation: Quat,
    pub translation: Vec3,
}

impl View for Transform3 {
    type V = T3;

    open spec fn view(&self) -> T3 {
        T3 { rotation: self.rotation@, translation: self.translation@ }
    }
}

/// The identity transform.
pub open spec fn t3_identity_s() -> T3 {
    T3 { rotation: q4_identity_s(), translation: v3_zero_s() }
}

/// A pure translation.
pub open spec fn t3_from_translation_s(t: V3) -> T3 {
    T3 { rotation: q4_identity_s(), translation: t }
}

/// A pure rotation.
pub open spec fn t3_from_rotation_s(q: Q4) -> T3 {
    T3 { rotation: q, translation: v3_zero_s() }
}

/// Composition `a` after `b`: rotations multiplied, `b`'s translation carried
/// through `a`.
pub open spec fn t3_mul_s(a: T3, b: T3) -> T3 {
    T3 {
        rotation: q4_mul_s(a.rotation, b.rotation),
        translation: v3_add_s(a.translation, q4_rotate_s(a.rotation, b.translation)),
    }
}

/// A point carried through `t`.
pub open spec fn t3_apply_s(t: T3, p: V3) -> V3 {
    v3_add_s(t.translation, q4_rotate_s(t.rotation, p))
}

/// A point carried through the inverse of `t`.
pub open spec fn t3_inv_apply_s(t: T3, p: V3) -> V3 {
    q4_rotate_s(q4_conj_s(t.rotation), v3_sub_s(p, t.translation))
}

/// The inverse of a rigid transform: the conjugate rotation, and the
/// translation carried backward through it.
pub open spec fn t3_inverse_s(t: T3) -> T3 {
    T3 {
        rotation: q4_conj_s(t.rotation),
        translation: q4_rotate_s(q4_conj_s(t.rotation), crate::vec3::v3_neg_s(t.translation)),
    }
}

/// `b` re-expressed in the frame of `a`: the inverse of `a` composed with
/// `b`.
pub open spec fn t3_inv_mul_s(a: T3, b: T3) -> T3 {
    T3 {
        rotation: q4_mul_s(q4_conj_s(a.rotation), b.rotation),
        translation: t3_inv_apply_s(a, b.translation),
    }
}

/// The identity transform.
pub fn transform_identity() -> (r: Transform3)
    ensures
        r@ == t3_identity_s(),
{
    Transform3 { rotation: quat_identity(), translation: Vec3 { x: 0, y: 0, z: 0 } }
}

/// A pure translation.
pub fn transform_from_translation(t: &Vec3) -> (r: Transform3)
    ensures
        r@ == t3_from_translation_s(t@),
{
    Transform3 { rotation: quat_identity(), translation: *t }
}

/// A pure rotation.
pub fn transform_from_rotation(q: &Quat) -> (r: Transform3)
    ensures
        r@ == t3_from_rotation_s(q@),
{
    Transform3 { rotation: *q, translation: Vec3 { x: 0, y: 0, z: 0 } }
}

/// Composition `a` after `b`.
pub fn transform_mul(a: &Transform3, b: &Transform3) -> (r: Transform3)
    requires
        q4_ok(a@.rotation, 2_100_000),
        q4_ok(b@.rotation, 1_000_000_000_000),
        v3_ok(a@.translation, 100_000_000),
        v3_ok(b@.translation, 100_000_000),
    ensures
        r@ == t3_mul_s(a@, b@),
        v3_ok(r@.translation, 7_000_000_000),
{
    let rot: Quat = quat_mul(&a.rotation, &b.rotation);
    let moved: Vec3 = quat_rotate(&a.rotation, &b.translation);
    let trans: Vec3 = vec3_add(&a.translation, &moved);
    Transform3 { rotation: rot, translation: trans }
}

/// A point carried through `t`.
pub fn transform_apply(t: &Transform3, p: &Vec3) -> (r: Vec3)
    requires
        q4_ok(t@.rotation, 2_100_000),
        v3_ok(t@.translation, 100_000_000),
        v3_ok(p@, 100_000_000),
    ensures
        r@ == t3_apply_s(t@, p@),
        v3_ok(r@, 7_000_000_000),
{
    let moved: Vec3 = quat_rotate(&t.rotation, p);
    vec3_add(&t.translation, &moved)
}

/// A point carried through the inverse of `t`.
pub fn transform_inv_apply(t: &Transform3, p: &Vec3) -> (r: Vec3)
    requires
        q4_ok(t@.rotation, 2_100_000),
        v3_ok(t@.translation, 50_000_000),
        v3_ok(p@, 50_000_000),
    ensures
        r@ == t3_inv_apply_s(t@, p@),
        v3_ok(r@, 6_000_000_000),
{
    let inv_rot: Quat = quat_inverse(&t.rotation);
    let diff: Vec3 = vec3_sub(p, &t.translation);
    quat_rotate(&inv_rot, &diff)
}

/// The inverse of a rigid transform.
pub fn transform_inverse(t: &Transform3) -> (r: Transform3)
    requires
        q4_ok(t@.rotation, 2_100_000),
        v3_ok(t@.translation, 100_000_000),
    ensures
        r@ == t3_inverse_s(t@),
        r@.rotation == q4_conj_s(t@.rotation),
        v3_ok(r@.translation, 6_000_000_000),
{
    let inv_rot: Quat = quat_inverse(&t.rotation);
    let neg: Vec3 = crate::vec3::vec3_neg(&t.translation);
    let trans: Vec3 = quat_rotate(&inv_rot, &neg);
    Transform3 { rotation: inv_rot, translation: trans }
}

/// `b` re-expressed in the frame of `a`.
pub fn transform_inv_mul(a: &Transform3, b: &Transform3) -> (r: Transform3)
    requires
        q4_ok(a@.rotation, 2_100_000),
        q4_ok(b@.rotation, 1_000_000_000_000),
        v3_ok(a@.translation, 50_000_000),
        v3_ok(b@.translation, 50_000_000),
    ensures
        r@ == t3_inv_mul_s(a@, b@),
        v3_ok(r@.translation, 6_000_000_000),
{
    let inv_rot: Quat = quat_inverse(&a.rotation);
    let rot: Quat = quat_mul(&inv_rot, &b.rotation);
    let trans: Vec3 = transform_inv_apply(a, &b.translation);
    Transform3 { rotation: rot, translation: trans }
}

} // verus!
