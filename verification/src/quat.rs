//! Fixed-point quaternions: Hamilton product, conjugate inverse, vector
//! rotation, axis-angle construction, angle rescaling, and the shortest-arc
//! alignment rotation.

use crate::fixed::{
    fx_clamp, fx_div_s, fx_mul, fx_mul_s, is_sqrt_floor, lemma_fx_mul_bound, lemma_fx_mul_sign,
    sqrt_floor, FX_ONE,
};
use crate::trig::{acos_fx, acos_s, cos_s, sin_s, ANGLE_LIM};
use crate::vec3::{
    v3_cross_s, v3_len2_s, v3_normalize_s, v3_ok, vec3_angle_between, vec3_angle_between_s,
    vec3_cross, vec3_length_squared, vec3_normalize, V3, Vec3,
};
use vstd::arithmetic::div_mod::lemma_fundamental_div_mod;
use vstd::math::abs;
use vstd::prelude::*;

verus! {

/// Spec-level quaternion over unbounded integers.
pub ghost struct Q4 {
    pub x: int,
    pub y: int,
    pub z: int,
    pub w: int,
}

/// Fixed-point quaternion; components are millionths, so the identity is
/// `(0, 0, 0, FX_ONE)`.
#[derive(Clone, Copy, PartialEq, Eq, Structural, Debug)]
pub struct Quat {
    pub x: i64,
    pub y: i64,
    pub z: i64,
    pub w: i64,
}

impl View for Quat {
    type V = Q4;

    open spec fn view(&self) -> Q4 {
        Q4 { x: self.x as int, y: self.y as int, z: self.z as int, w: self.w as int }
    }
}

/// Every component of `q` has magnitude at most `lim`.
pub open spec fn q4_ok(q: Q4, lim: int) -> bool {
    &&& abs(q.x) <= lim
    &&& abs(q.y) <= lim
    &&& abs(q.z) <= lim
    &&& abs(q.w) <= lim
}

/// The identity rotation.
pub open spec fn q4_identity_s() -> Q4 {
    Q4 { x: 0, y: 0, z: 0, w: FX_ONE as int }
}

/// Hamilton product: the rotation `b` followed by the rotation `a`.
pub open spec fn q4_mul_s(a: Q4, b: Q4) -> Q4 {
    Q4 {
        x: fx_mul_s(a.w, b.x) + fx_mul_s(a.x, b.w) + fx_mul_s(a.y, b.z) - fx_mul_s(a.z, b.y),
        y: fx_mul_s(a.w, b.y) + fx_mul_s(a.y, b.w) + fx_mul_s(a.z, b.x) - fx_mul_s(a.x, b.z),
        z: fx_mul_s(a.w, b.z) + fx_mul_s(a.z, b.w) + fx_mul_s(a.x, b.y) - fx_mul_s(a.y, b.x),
        w: fx_mul_s(a.w, b.w) - fx_mul_s(a.x, b.x) - fx_mul_s(a.y, b.y) - fx_mul_s(a.z, b.z),
    }
}

/// Conjugate, the inverse of a unit rotation.
pub open spec fn q4_conj_s(q: Q4) -> Q4 {
    Q4 { x: -q.x, y: -q.y, z: -q.z, w: q.w }
}

/// The vector part of `q`.
pub open spec fn q4_vec_s(q: Q4) -> V3 {
    V3 { x: q.x, y: q.y, z: q.z }
}

/// `v` rotated by the unit rotation `q`:
/// `v + w * t + qv x t` with `t = 2 * (qv x v)`.
pub open spec fn q4_rotate_s(q: Q4, v: V3) -> V3 {
    let u = q4_vec_s(q);
    let c = v3_cross_s(u, v);
    let t = V3 { x: 2 * c.x, y: 2 * c.y, z: 2 * c.z };
    let ct = v3_cross_s(u, t);
    V3 {
        x: v.x + fx_mul_s(q.w, t.x) + ct.x,
        y: v.y + fx_mul_s(q.w, t.y) + ct.y,
        z: v.z + fx_mul_s(q.w, t.z) + ct.z,
    }
}

/// Squared norm of `q`, as a fixed-point scalar.
pub open spec fn q4_norm2_s(q: Q4) -> int {
    fx_mul_s(q.x, q.x) + fx_mul_s(q.y, q.y) + fx_mul_s(q.z, q.z) + fx_mul_s(q.w, q.w)
}

/// Norm of `q`, as a fixed-point scalar.
pub open spec fn q4_norm_s(q: Q4) -> int {
    sqrt_floor(q4_norm2_s(q) * (FX_ONE as int))
}

/// `q` scaled to unit norm: each component divided by the norm.
pub open spec fn q4_normalize_s(q: Q4) -> Q4 {
    let n = q4_norm_s(q);
    Q4 { x: fx_div_s(q.x, n), y: fx_div_s(q.y, n), z: fx_div_s(q.z, n), w: fx_div_s(q.w, n) }
}

/// Rotation of `angle` micro-radians about `axis`.
pub open spec fn q4_from_axis_angle_s(axis: V3, angle: int) -> Q4 {
    let half = crate::fixed::tdiv(angle, 2);
    let s = sin_s(half);
    Q4 { x: fx_mul_s(axis.x, s), y: fx_mul_s(axis.y, s), z: fx_mul_s(axis.z, s), w: cos_s(half) }
}

/// The identity rotation.
pub fn quat_identity() -> (r: Quat)
    ensures
        r@ == q4_identity_s(),
{
    Quat { x: 0, y: 0, z: 0, w: FX_ONE }
}

/// Hamilton product: the rotation `b` followed by the rotation `a`.
pub fn quat_mul(a: &Quat, b: &Quat) -> (r: Quat)
    requires
        q4_ok(a@, 1_000_000_000_000),
        q4_ok(b@, 1_000_000_000_000),
    ensures
        r@ == q4_mul_s(a@, b@),
{
    proof {
        lemma_fx_mul_bound(a.w as int, b.x as int, 1_000_000_000_000, 1_000_000_000_000);
        lemma_fx_mul_bound(a.x as int, b.w as int, 1_000_000_000_000, 1_000_000_000_000);
        lemma_fx_mul_bound(a.y as int, b.z as int, 1_000_000_000_000, 1_000_000_000_000);
        lemma_fx_mul_bound(a.z as int, b.y as int, 1_000_000_000_000, 1_000_000_000_000);
        lemma_fx_mul_bound(a.w as int, b.y as int, 1_000_000_000_000, 1_000_000_000_000);
        lemma_fx_mul_bound(a.y as int, b.w as int, 1_000_000_000_000, 1_000_000_000_000);
        lemma_fx_mul_bound(a.z as int, b.x as int, 1_000_000_000_000, 1_000_000_000_000);
        lemma_fx_mul_bound(a.x as int, b.z as int, 1_000_000_000_000, 1_000_000_000_000);
        lemma_fx_mul_bound(a.w as int, b.z as int, 1_000_000_000_000, 1_000_000_000_000);
        lemma_fx_mul_bound(a.z as int, b.w as int, 1_000_000_000_000, 1_000_000_000_000);
        lemma_fx_mul_bound(a.x as int, b.y as int, 1_000_000_000_000, 1_000_000_000_000);
        lemma_fx_mul_bound(a.y as int, b.x as int, 1_000_000_000_000, 1_000_000_000_000);
        lemma_fx_mul_bound(a.w as int, b.w as int, 1_000_000_000_000, 1_000_000_000_000);
        lemma_fx_mul_bound(a.x as int, b.x as int, 1_000_000_000_000, 1_000_000_000_000);
        lemma_fx_mul_bound(a.y as int, b.y as int, 1_000_000_000_000, 1_000_000_000_000);
        lemma_fx_mul_bound(a.z as int, b.z as int, 1_000_000_000_000, 1_000_000_000_000);
    }
    Quat {
        x: fx_mul(a.w, b.x) + fx_mul(a.x, b.w) + fx_mul(a.y, b.z) - fx_mul(a.z, b.y),
        y: fx_mul(a.w, b.y) + fx_mul(a.y, b.w) + fx_mul(a.z, b.x) - fx_mul(a.x, b.z),
        z: fx_mul(a.w, b.z) + fx_mul(a.z, b.w) + fx_mul(a.x, b.y) - fx_mul(a.y, b.x),
        w: fx_mul(a.w, b.w) - fx_mul(a.x, b.x) - fx_mul(a.y, b.y) - fx_mul(a.z, b.z),
    }
}

/// Conjugate, the inverse of a unit rotation.
pub fn quat_inverse(q: &Quat) -> (r: Quat)
    requires
        q4_ok(q@, 2_000_000_000_000),
    ensures
        r@ == q4_conj_s(q@),
{
    Quat { x: -q.x, y: -q.y, z: -q.z, w: q.w }
}

/// `v` rotated by the unit rotation `q`.
pub fn quat_rotate(q: &Quat, v: &Vec3) -> (r: Vec3)
    requires
        q4_ok(q@, 2_100_000),
        v3_ok(v@, 100_000_000),
    ensures
        r@ == q4_rotate_s(q@, v@),
        v3_ok(r@, 6_000_000_000),
{
    let u: Vec3 = Vec3 { x: q.x, y: q.y, z: q.z };
    let c: Vec3 = vec3_cross(&u, v);
    proof {
        lemma_fx_mul_bound(q.y as int, v.z as int, 2_100_000, 100_000_000);
        lemma_fx_mul_bound(q.z as int, v.y as int, 2_100_000, 100_000_000);
        lemma_fx_mul_bound(q.z as int, v.x as int, 2_100_000, 100_000_000);
        lemma_fx_mul_bound(q.x as int, v.z as int, 2_100_000, 100_000_000);
        lemma_fx_mul_bound(q.x as int, v.y as int, 2_100_000, 100_000_000);
        lemma_fx_mul_bound(q.y as int, v.x as int, 2_100_000, 100_000_000);
    }
    let t: Vec3 = Vec3 { x: 2 * c.x, y: 2 * c.y, z: 2 * c.z };
    let ct: Vec3 = vec3_cross(&u, &t);
    proof {
        lemma_fx_mul_bound(q.y as int, t.z as int, 2_100_000, 840_000_000);
        lemma_fx_mul_bound(q.z as int, t.y as int, 2_100_000, 840_000_000);
        lemma_fx_mul_bound(q.z as int, t.x as int, 2_100_000, 840_000_000);
        lemma_fx_mul_bound(q.x as int, t.z as int, 2_100_000, 840_000_000);
        lemma_fx_mul_bound(q.x as int, t.y as int, 2_100_000, 840_000_000);
        lemma_fx_mul_bound(q.y as int, t.x as int, 2_100_000, 840_000_000);
        lemma_fx_mul_bound(q.w as int, t.x as int, 2_100_000, 840_000_000);
        lemma_fx_mul_bound(q.w as int, t.y as int, 2_100_000, 840_000_000);
        lemma_fx_mul_bound(q.w as int, t.z as int, 2_100_000, 840_000_000);
    }
    Vec3 {
        x: v.x + fx_mul(q.w, t.x) + ct.x,
        y: v.y + fx_mul(q.w, t.y) + ct.y,
        z: v.z + fx_mul(q.w, t.z) + ct.z,
    }
}

/// Squared norm of `q`, as a fixed-point scalar.
pub fn quat_norm2(q: &Quat) -> (r: i64)
    requires
        q4_ok(q@, 1_000_000_000),
    ensures
        r == q4_norm2_s(q@),
        0 <= r <= 4_000_000_000_000,
        fx_mul_s(q.x as int, q.x as int) <= r,
        fx_mul_s(q.y as int, q.y as int) <= r,
        fx_mul_s(q.z as int, q.z as int) <= r,
        fx_mul_s(q.w as int, q.w as int) <= r,
{
    proof {
        lemma_fx_mul_bound(q.x as int, q.x as int, 1_000_000_000, 1_000_000_000);
        lemma_fx_mul_bound(q.y as int, q.y as int, 1_000_000_000, 1_000_000_000);
        lemma_fx_mul_bound(q.z as int, q.z as int, 1_000_000_000, 1_000_000_000);
        lemma_fx_mul_bound(q.w as int, q.w as int, 1_000_000_000, 1_000_000_000);
        lemma_fx_mul_sign(q.x as int, q.x as int);
        lemma_fx_mul_sign(q.y as int, q.y as int);
        lemma_fx_mul_sign(q.z as int, q.z as int);
        lemma_fx_mul_sign(q.w as int, q.w as int);
    }
    fx_mul(q.x, q.x) + fx_mul(q.y, q.y) + fx_mul(q.z, q.z) + fx_mul(q.w, q.w)
}

/// `q` scaled to unit norm.  The squared norm must be non-zero at this
/// resolution.
pub fn quat_normalize(q: &Quat) -> (r: Quat)
    requires
        q4_ok(q@, 1_000_000_000),
        q4_norm2_s(q@) >= 1,
    ensures
        r@ == q4_normalize_s(q@),
        q4_ok(r@, 2_000_000),
{
    let n2: i64 = quat_norm2(q);
    let n: i64 = crate::fixed::isqrt(n2 * FX_ONE);
    proof {
        assert(n >= 1_000) by (nonlinear_arith)
            requires
                is_sqrt_floor(n2 as int * (FX_ONE as int), n as int),
                n2 as int * (FX_ONE as int) >= 1_000_000,
        ;
        lemma_quat_len_component_lower(q.x as int, q4_norm2_s(q@), n as int);
        lemma_quat_len_component_lower(q.y as int, q4_norm2_s(q@), n as int);
        lemma_quat_len_component_lower(q.z as int, q4_norm2_s(q@), n as int);
        lemma_quat_len_component_lower(q.w as int, q4_norm2_s(q@), n as int);
        lemma_quat_normalize_component(q.x as int, n as int);
        lemma_quat_normalize_component(q.y as int, n as int);
        lemma_quat_normalize_component(q.z as int, n as int);
        lemma_quat_normalize_component(q.w as int, n as int);
    }
    Quat {
        x: crate::fixed::fx_div(q.x, n),
        y: crate::fixed::fx_div(q.y, n),
        z: crate::fixed::fx_div(q.z, n),
        w: crate::fixed::fx_div(q.w, n),
    }
}

/// A norm lower bound from one component, as for vectors.
proof fn lemma_quat_len_component_lower(c: int, n2: int, n: int)
    requires
        fx_mul_s(c, c) <= n2,
        is_sqrt_floor(n2 * (FX_ONE as int), n),
    ensures
        n >= abs(c) - 1_000,
{
    let cc = c * c;
    crate::fixed::lemma_abs_mul(c, c);
    assert(cc >= 0) by (nonlinear_arith)
        requires
            cc == c * c,
    ;
    assert(cc == abs(c) * abs(c));
    assert(fx_mul_s(c, c) == cc / (FX_ONE as int));
    lemma_fundamental_div_mod(cc, FX_ONE as int);
    assert((cc / (FX_ONE as int)) * (FX_ONE as int) >= cc - 999_999) by (nonlinear_arith)
        requires
            cc >= 0,
            cc == (FX_ONE as int) * (cc / (FX_ONE as int)) + cc % (FX_ONE as int),
            0 <= cc % (FX_ONE as int) < (FX_ONE as int),
    ;
    assert(n2 * (FX_ONE as int) >= fx_mul_s(c, c) * (FX_ONE as int)) by (nonlinear_arith)
        requires
            fx_mul_s(c, c) <= n2,
    ;
    assert(n >= abs(c) - 1_000) by (nonlinear_arith)
        requires
            is_sqrt_floor(n2 * (FX_ONE as int), n),
            n2 * (FX_ONE as int) >= abs(c) * abs(c) - 999_999,
    ;
}

/// Renormalized component bound, as for vectors.
proof fn lemma_quat_normalize_component(c: int, n: int)
    requires
        n >= 1_000,
        n >= abs(c) - 1_000,
    ensures
        abs(fx_div_s(c, n)) <= 2_000_000,
{
    crate::fixed::lemma_abs_tdiv(c * (FX_ONE as int), n);
    crate::fixed::lemma_abs_mul(c, FX_ONE as int);
    assert((abs(c) * (FX_ONE as nat)) as int / (abs(n) as int) <= 2_000_000) by (nonlinear_arith)
        requires
            n >= 1_000,
            n >= abs(c) - 1_000,
            abs(n) == n,
    ;
}

/// Halve a micro-radian angle, truncating toward zero.
fn halve(a: i64) -> (r: i64)
    requires
        crate::fixed::fx_ok(a as int),
    ensures
        r == crate::fixed::tdiv(a as int, 2),
        abs(r as int) <= abs(a as int),
{
    if a < 0 {
        -((((-a) as u64) / 2) as i64)
    } else {
        (((a as u64) / 2) as i64)
    }
}

/// Rotation of `angle` micro-radians about the unit-scale `axis`.
pub fn quat_from_axis_angle(axis: &Vec3, angle: i64) -> (r: Quat)
    requires
        v3_ok(axis@, 2_100_000),
        -ANGLE_LIM <= angle <= ANGLE_LIM,
    ensures
        r@ == q4_from_axis_angle_s(axis@, angle as int),
        q4_ok(r@, 2_100_000),
{
    let half: i64 = halve(angle);
    let s: i64 = crate::trig::sin_fx(half);
    let c: i64 = crate::trig::cos_fx(half);
    proof {
        lemma_fx_mul_bound(axis.x as int, s as int, 2_100_000, 1_000_000);
        lemma_fx_mul_bound(axis.y as int, s as int, 2_100_000, 1_000_000);
        lemma_fx_mul_bound(axis.z as int, s as int, 2_100_000, 1_000_000);
    }
    Quat { x: fx_mul(axis.x, s), y: fx_mul(axis.y, s), z: fx_mul(axis.z, s), w: c }
}

/// The rotation of `q` with its angle scaled by the fixed-point ratio `t`:
/// spherical interpolation from the identity toward `q`.
pub open spec fn q4_scale_angle_s(q: Q4, t: int) -> Q4 {
    let qv = q4_vec_s(q);
    if v3_len2_s(qv) == 0 {
        q
    } else {
        let angle = 2 * acos_s(clamp_one(q.w));
        q4_from_axis_angle_s(v3_normalize_s(qv), fx_mul_s(angle, t))
    }
}

/// `x` clamped into `[-1, 1]` fixed-point.
pub open spec fn clamp_one(x: int) -> int {
    crate::fixed::clamp_s(x, -(FX_ONE as int), FX_ONE as int)
}

/// The rotation of `q` with its angle scaled by `t` in `[0, 1]`.
pub fn quat_scale_angle(q: &Quat, t: i64) -> (r: Quat)
    requires
        q4_ok(q@, 2_100_000),
        0 <= t <= FX_ONE,
    ensures
        r@ == q4_scale_angle_s(q@, t as int),
        q4_ok(r@, 2_100_000),
{
    let qv: Vec3 = Vec3 { x: q.x, y: q.y, z: q.z };
    let ls: i64 = vec3_length_squared(&qv);
    if ls == 0 {
        *q
    } else {
        let axis: Vec3 = vec3_normalize(&qv);
        let wc: i64 = fx_clamp(q.w, -FX_ONE, FX_ONE);
        let angle: i64 = 2 * acos_fx(wc);
        let scaled: i64 = fx_mul(angle, t);
        proof {
            lemma_fx_mul_bound(angle as int, t as int, 10_000_000, 1_000_000);
        }
        quat_from_axis_angle(&axis, scaled)
    }
}

/// Componentwise magnitude bound of a Hamilton product from bounds on its
/// factors.
#[verifier::rlimit(50)]
pub proof fn lemma_q4_mul_bound(a: Q4, b: Q4, aa: int, bb: int)
    requires
        q4_ok(a, aa),
        q4_ok(b, bb),
    ensures
        q4_ok(q4_mul_s(a, b), 4 * (aa * bb / (FX_ONE as int))),
{
    lemma_fx_mul_bound(a.w, b.x, aa, bb);
    lemma_fx_mul_bound(a.x, b.w, aa, bb);
    lemma_fx_mul_bound(a.y, b.z, aa, bb);
    lemma_fx_mul_bound(a.z, b.y, aa, bb);
    lemma_fx_mul_bound(a.w, b.y, aa, bb);
    lemma_fx_mul_bound(a.y, b.w, aa, bb);
    lemma_fx_mul_bound(a.z, b.x, aa, bb);
    lemma_fx_mul_bound(a.x, b.z, aa, bb);
    lemma_fx_mul_bound(a.w, b.z, aa, bb);
    lemma_fx_mul_bound(a.z, b.w, aa, bb);
    lemma_fx_mul_bound(a.x, b.y, aa, bb);
    lemma_fx_mul_bound(a.y, b.x, aa, bb);
    lemma_fx_mul_bound(a.w, b.w, aa, bb);
    lemma_fx_mul_bound(a.x, b.x, aa, bb);
    lemma_fx_mul_bound(a.y, b.y, aa, bb);
    lemma_fx_mul_bound(a.z, b.z, aa, bb);
}

/// Whether every component of `q` is within `lim`: the runtime envelope
/// check that keeps the solver's fixed-point intermediates in range.
pub fn quat_in_range(q: &Quat, lim: i64) -> (r: bool)
    requires
        lim >= 0,
    ensures
        r == q4_ok(q@, lim as int),
{
    -lim <= q.x && q.x <= lim && -lim <= q.y && q.y <= lim && -lim <= q.z && q.z <= lim && -lim
        <= q.w && q.w <= lim
}

/// Rotation from intrinsic Euler angles applied in X, then Y, then Z order,
/// in micro-radians.
pub open spec fn q4_from_euler_xyz_s(ax: int, ay: int, az: int) -> Q4 {
    let qx = q4_from_axis_angle_s(V3 { x: FX_ONE as int, y: 0, z: 0 }, ax);
    let qy = q4_from_axis_angle_s(V3 { x: 0, y: FX_ONE as int, z: 0 }, ay);
    let qz = q4_from_axis_angle_s(V3 { x: 0, y: 0, z: FX_ONE as int }, az);
    q4_mul_s(qx, q4_mul_s(qy, qz))
}

/// Rotation from intrinsic Euler angles applied in X, then Y, then Z order.
pub fn quat_from_euler_xyz(ax: i64, ay: i64, az: i64) -> (r: Quat)
    requires
        -ANGLE_LIM <= ax <= ANGLE_LIM,
        -ANGLE_LIM <= ay <= ANGLE_LIM,
        -ANGLE_LIM <= az <= ANGLE_LIM,
    ensures
        r@ == q4_from_euler_xyz_s(ax as int, ay as int, az as int),
{
    let unit_x: Vec3 = Vec3 { x: FX_ONE, y: 0, z: 0 };
    let unit_y: Vec3 = Vec3 { x: 0, y: FX_ONE, z: 0 };
    let unit_z: Vec3 = Vec3 { x: 0, y: 0, z: FX_ONE };
    let qx: Quat = quat_from_axis_angle(&unit_x, ax);
    let qy: Quat = quat_from_axis_angle(&unit_y, ay);
    let qz: Quat = quat_from_axis_angle(&unit_z, az);
    let qyz: Quat = quat_mul(&qy, &qz);
    proof {
        lemma_q4_mul_bound(qy@, qz@, 2_100_000, 2_100_000);
    }
    quat_mul(&qx, &qyz)
}

/// Shortest-arc rotation mapping `a` onto `b`, scaled by `influence`:
/// the identity when either input is degenerate, with a deterministic
/// perpendicular axis when the inputs are parallel or opposite.
pub open spec fn align_vectors_s(a: V3, b: V3, influence: int) -> Q4 {
    if v3_len2_s(a) == 0 || v3_len2_s(b) == 0 {
        q4_identity_s()
    } else {
        let na = v3_normalize_s(a);
        let nb = v3_normalize_s(b);
        let angle_diff = fx_mul_s(vec3_angle_between_s(na, nb), influence);
        let cross = v3_cross_s(na, nb);
        let perp = if v3_len2_s(cross) == 0 {
            crate::vec3::get_perpendicular_vector_s(na)
        } else {
            cross
        };
        let axis = v3_normalize_s(v3_normalize_s(perp));
        let ret = q4_from_axis_angle_s(axis, angle_diff);
        if q4_norm2_s(ret) == 0 {
            q4_identity_s()
        } else {
            q4_normalize_s(ret)
        }
    }
}

/// With zero influence the alignment rotation is exactly the identity, for
/// every pair of non-degenerate vectors: scaling the arc angle by zero
/// leaves a rotation of angle zero, and normalizing the identity returns it
/// unchanged.
pub proof fn lemma_align_vectors_zero_influence(a: V3, b: V3)
    requires
        v3_len2_s(a) != 0,
        v3_len2_s(b) != 0,
    ensures
        align_vectors_s(a, b, 0) == q4_identity_s(),
{
    let na = v3_normalize_s(a);
    let nb = v3_normalize_s(b);
    let angle = vec3_angle_between_s(na, nb);
    assert(fx_mul_s(angle, 0) == 0) by {
        assert(angle * 0 == 0);
        assert(crate::fixed::tdiv(0, FX_ONE as int) == 0);
    }
    let cross = v3_cross_s(na, nb);
    let perp = if v3_len2_s(cross) == 0 {
        crate::vec3::get_perpendicular_vector_s(na)
    } else {
        cross
    };
    let axis = v3_normalize_s(v3_normalize_s(perp));
    let ret = q4_from_axis_angle_s(axis, 0);
    assert(crate::fixed::tdiv(0, 2) == 0);
    assert(crate::trig::wrap_angle_s(0) == 0);
    assert(sin_s(0) == 0) by {
        assert(crate::trig::sin_core_s(0) == 0);
    }
    assert(cos_s(0) == FX_ONE) by {
        assert(crate::trig::cos_core_s(0) == FX_ONE);
    }
    assert(ret == q4_identity_s());
    assert(fx_mul_s(FX_ONE as int, FX_ONE as int) == 1_000_000) by {
        assert((FX_ONE as int) * (FX_ONE as int) == 1_000_000_000_000);
    }
    assert(q4_norm2_s(ret) == 1_000_000);
    assert(q4_norm_s(ret) == 1_000_000) by {
        assert(is_sqrt_floor(1_000_000_000_000, 1_000_000)) by (nonlinear_arith);
        crate::fixed::lemma_sqrt_floor_unique(1_000_000_000_000, 1_000_000);
    }
    assert(fx_div_s(FX_ONE as int, 1_000_000) == 1_000_000) by {
        assert((FX_ONE as int) * (FX_ONE as int) == 1_000_000_000_000);
    }
    assert(fx_div_s(0, 1_000_000) == 0);
    assert(q4_normalize_s(ret) == q4_identity_s());
}

/// Shortest-arc rotation mapping `a` onto `b`, scaled by `influence` in
/// `[0, 1]`.
pub fn align_vectors(a: &Vec3, b: &Vec3, influence: i64) -> (r: Quat)
    requires
        v3_ok(a@, 100_000_000),
        v3_ok(b@, 100_000_000),
        0 <= influence <= FX_ONE,
    ensures
        r@ == align_vectors_s(a@, b@, influence as int),
        q4_ok(r@, 2_000_000),
{
    let la2: i64 = vec3_length_squared(a);
    let lb2: i64 = vec3_length_squared(b);
    if la2 == 0 || lb2 == 0 {
        quat_identity()
    } else {
        let na: Vec3 = vec3_normalize(a);
        let nb: Vec3 = vec3_normalize(b);
        let raw_angle: i64 = vec3_angle_between(&na, &nb);
        let angle_diff: i64 = fx_mul(raw_angle, influence);
        proof {
            lemma_fx_mul_bound(raw_angle as int, influence as int, 5_000_000, 1_000_000);
        }
        let cross: Vec3 = vec3_cross(&na, &nb);
        proof {
            lemma_fx_mul_bound(na.y as int, nb.z as int, 2_000_000, 2_000_000);
            lemma_fx_mul_bound(na.z as int, nb.y as int, 2_000_000, 2_000_000);
            lemma_fx_mul_bound(na.z as int, nb.x as int, 2_000_000, 2_000_000);
            lemma_fx_mul_bound(na.x as int, nb.z as int, 2_000_000, 2_000_000);
            lemma_fx_mul_bound(na.x as int, nb.y as int, 2_000_000, 2_000_000);
            lemma_fx_mul_bound(na.y as int, nb.x as int, 2_000_000, 2_000_000);
        }
        let cl2: i64 = vec3_length_squared(&cross);
        let perp: Vec3 = if cl2 == 0 {
            crate::vec3::get_perpendicular_vector(&na)
        } else {
            cross
        };
        proof {
            if cl2 != 0 {
                assert(v3_len2_s(perp@) >= 1);
            }
        }
        let axis: Vec3 = vec3_normalize(&vec3_normalize(&perp));
        let ret: Quat = quat_from_axis_angle(&axis, angle_diff);
        let n2: i64 = quat_norm2(&ret);
        if n2 == 0 {
            quat_identity()
        } else {
            quat_normalize(&ret)
        }
    }
}

} // verus!
