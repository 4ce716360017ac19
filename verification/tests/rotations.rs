//! Vector, quaternion, and alignment checks, including the alignment law
//! cases on concrete values.

use renik::fixed::FX_ONE;
use renik::mat3::transpose_quat;
use renik::quat::{
    align_vectors, quat_from_axis_angle, quat_identity, quat_mul, quat_rotate, Quat,
};
use renik::trig::{HALF_PI_FX, PI_FX};
use renik::vec3::{
    get_perpendicular_vector, vec3_cross, vec3_dot, vec3_length, vec3_normalize,
    vector_rejection, Vec3,
};

fn assert_close(actual: i64, expected: i64, tol: i64, what: &str) {
    let diff = (actual - expected).abs();
    assert!(
        diff <= tol,
        "{what}: actual {actual}, expected {expected}, diff {diff} > tol {tol}"
    );
}

fn assert_vec_close(actual: &Vec3, expected: &Vec3, tol: i64, what: &str) {
    assert_close(actual.x, expected.x, tol, what);
    assert_close(actual.y, expected.y, tol, what);
    assert_close(actual.z, expected.z, tol, what);
}

#[test]
fn normalize_three_four_five() {
    let v = Vec3 { x: 3_000_000, y: 4_000_000, z: 0 };
    let n = vec3_normalize(&v);
    assert_eq!(n, Vec3 { x: 600_000, y: 800_000, z: 0 });
    assert_eq!(vec3_length(&v), 5_000_000);
}

#[test]
fn dot_and_cross_basics() {
    let x = Vec3 { x: FX_ONE, y: 0, z: 0 };
    let y = Vec3 { x: 0, y: FX_ONE, z: 0 };
    let z = Vec3 { x: 0, y: 0, z: FX_ONE };
    assert_eq!(vec3_dot(&x, &y), 0);
    assert_eq!(vec3_dot(&x, &x), FX_ONE);
    assert_eq!(vec3_cross(&x, &y), z);
    assert_eq!(vec3_cross(&y, &x), Vec3 { x: 0, y: 0, z: -FX_ONE });
}

#[test]
fn rejection_removes_normal_component() {
    let v = Vec3 { x: FX_ONE, y: FX_ONE, z: 0 };
    let n = Vec3 { x: 0, y: FX_ONE, z: 0 };
    let r = vector_rejection(&v, &n);
    assert_eq!(r, Vec3 { x: FX_ONE, y: 0, z: 0 });
}

#[test]
fn rejection_of_degenerate_inputs_is_zero() {
    let v = Vec3 { x: FX_ONE, y: 0, z: 0 };
    let zero = Vec3 { x: 0, y: 0, z: 0 };
    assert_eq!(vector_rejection(&v, &zero), Vec3 { x: 0, y: 0, z: 0 });
    assert_eq!(vector_rejection(&zero, &v), Vec3 { x: 0, y: 0, z: 0 });
}

#[test]
fn perpendicular_fallback_for_axis_aligned() {
    let y = Vec3 { x: 0, y: FX_ONE, z: 0 };
    assert_eq!(get_perpendicular_vector(&y), Vec3 { x: FX_ONE, y: 0, z: 0 });
    let diag = Vec3 { x: FX_ONE, y: FX_ONE, z: 0 };
    let p = get_perpendicular_vector(&diag);
    assert_eq!(p, Vec3 { x: -707_107, y: 707_107, z: 0 });
}

#[test]
fn quaternion_units_multiply_like_ijk() {
    let i = Quat { x: FX_ONE, y: 0, z: 0, w: 0 };
    let j = Quat { x: 0, y: FX_ONE, z: 0, w: 0 };
    let k = Quat { x: 0, y: 0, z: FX_ONE, w: 0 };
    assert_eq!(quat_mul(&i, &j), k);
    let id = quat_identity();
    assert_eq!(quat_mul(&id, &i), i);
    assert_eq!(quat_mul(&i, &id), i);
}

#[test]
fn rotate_x_about_z_gives_y() {
    let z = Vec3 { x: 0, y: 0, z: FX_ONE };
    let x = Vec3 { x: FX_ONE, y: 0, z: 0 };
    let q = quat_from_axis_angle(&z, HALF_PI_FX);
    let r = quat_rotate(&q, &x);
    println!("rotated x about z: {r:?}");
    assert_vec_close(&r, &Vec3 { x: 0, y: FX_ONE, z: 0 }, 200, "rot90z(x)");
}

#[test]
fn transpose_quat_inverts_a_rotation() {
    let y = Vec3 { x: 0, y: FX_ONE, z: 0 };
    let q = quat_from_axis_angle(&y, 500_000);
    let qt = transpose_quat(&q);
    let x = Vec3 { x: FX_ONE, y: 0, z: 0 };
    let back = quat_rotate(&qt, &quat_rotate(&q, &x));
    println!("transpose round trip: {back:?}");
    assert_vec_close(&back, &x, 2_000, "transpose(q) undoes q");
}

#[test]
fn align_full_influence_rotates_onto_target() {
    let x = Vec3 { x: FX_ONE, y: 0, z: 0 };
    let y = Vec3 { x: 0, y: FX_ONE, z: 0 };
    let q = align_vectors(&x, &y, FX_ONE);
    let r = quat_rotate(&q, &x);
    let d = vec3_dot(&vec3_normalize(&r), &y);
    println!("align x onto y: rotated {r:?}, dot {d}");
    assert_close(d, FX_ONE, 3_000, "dot(align(x->y) * x, y)");
}

#[test]
fn align_antiparallel_uses_fallback_axis() {
    let a = Vec3 { x: 707_107, y: 707_107, z: 0 };
    let b = Vec3 { x: -707_107, y: -707_107, z: 0 };
    let q = align_vectors(&a, &b, FX_ONE);
    let r = quat_rotate(&q, &a);
    let d = vec3_dot(&vec3_normalize(&r), &vec3_normalize(&b));
    println!("align antiparallel: rotated {r:?}, dot {d}");
    assert_close(d, FX_ONE, 3_000, "dot(align(a->-a) * a, -a)");
}

#[test]
fn align_zero_influence_is_identity() {
    let a = Vec3 { x: FX_ONE, y: 2_000_000, z: 3_000_000 };
    let b = Vec3 { x: -FX_ONE, y: 0, z: 500_000 };
    let q = align_vectors(&a, &b, 0);
    assert_eq!(q, quat_identity());
}

#[test]
fn align_degenerate_input_is_identity() {
    let a = Vec3 { x: 0, y: 0, z: 0 };
    let b = Vec3 { x: FX_ONE, y: 0, z: 0 };
    assert_eq!(align_vectors(&a, &b, FX_ONE), quat_identity());
    assert_eq!(align_vectors(&b, &a, FX_ONE), quat_identity());
}

#[test]
fn rotation_by_pi_about_y_flips_x_and_z() {
    let y = Vec3 { x: 0, y: FX_ONE, z: 0 };
    let q = quat_from_axis_angle(&y, PI_FX);
    let v = Vec3 { x: 300_000, y: 400_000, z: -500_000 };
    let r = quat_rotate(&q, &v);
    println!("pi about y: {r:?}");
    assert_vec_close(&r, &Vec3 { x: -300_000, y: 400_000, z: 500_000 }, 200, "half turn");
}
