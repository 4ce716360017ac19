//! Fixed-point 3-vectors: the component arithmetic, lengths, normalization,
//! and the rejection / perpendicular-fallback utilities of the solver.

use crate::fixed::{
    fx_div, fx_div_s, fx_mul, fx_mul_s, is_sqrt_floor, lemma_fx_mul_bound, lemma_fx_mul_sign,
    sqrt_floor, FX_ONE,
};
use vstd::arithmetic::div_mod::{lemma_div_is_ordered, lemma_fundamental_div_mod};
use vstd::math::abs;
use vstd::prelude::*;

verus! {

/// Spec-level 3-vector over unbounded integers.
pub ghost struct V3 {
    pub x: int,
    pub y: int,
    pub z: int,
}

/// Fixed-point 3-vector; components are micro-units.
#[derive(Clone, Copy, PartialEq, Eq, Structural, Debug)]
pub struct Vec3 {
    pub x: i64,
    pub y: i64,
    pub z: i64,
}

impl View for Vec3 {
    type V = V3;

    open spec fn view(&self) -> V3 {
        V3 { x: self.x as int, y: self.y as int, z: self.z as int }
    }
}

/// Every component of `v` has magnitude at most `lim`.
pub open spec fn v3_ok(v: V3, lim: int) -> bool {
    &&& abs(v.x) <= lim
    &&& abs(v.y) <= lim
    &&& abs(v.z) <= lim
}

/// Componentwise sum.
pub open spec fn v3_add_s(a: V3, b: V3) -> V3 {
    V3 { x: a.x + b.x, y: a.y + b.y, z: a.z + b.z }
}

/// Componentwise difference.
pub open spec fn v3_sub_s(a: V3, b: V3) -> V3 {
    V3 { x: a.x - b.x, y: a.y - b.y, z: a.z - b.z }
}

/// Componentwise negation.
pub open spec fn v3_neg_s(a: V3) -> V3 {
    V3 { x: -a.x, y: -a.y, z: -a.z }
}

/// Vector scaled by a fixed-point scalar.
pub open spec fn v3_scale_s(a: V3, k: int) -> V3 {
    V3 { x: fx_mul_s(a.x, k), y: fx_mul_s(a.y, k), z: fx_mul_s(a.z, k) }
}

/// Vector divided by a fixed-point scalar.
pub open spec fn v3_divs_s(a: V3, k: int) -> V3 {
    V3 { x: fx_div_s(a.x, k), y: fx_div_s(a.y, k), z: fx_div_s(a.z, k) }
}

/// Fixed-point dot product.
pub open spec fn v3_dot_s(a: V3, b: V3) -> int {
    fx_mul_s(a.x, b.x) + fx_mul_s(a.y, b.y) + fx_mul_s(a.z, b.z)
}

/// Fixed-point cross product.
pub open spec fn v3_cross_s(a: V3, b: V3) -> V3 {
    V3 {
        x: fx_mul_s(a.y, b.z) - fx_mul_s(a.z, b.y),
        y: fx_mul_s(a.z, b.x) - fx_mul_s(a.x, b.z),
        z: fx_mul_s(a.x, b.y) - fx_mul_s(a.y, b.x),
    }
}

/// Fixed-point squared length.
pub open spec fn v3_len2_s(a: V3) -> int {
    fx_mul_s(a.x, a.x) + fx_mul_s(a.y, a.y) + fx_mul_s(a.z, a.z)
}

/// Fixed-point length.
pub open spec fn v3_len_s(a: V3) -> int {
    sqrt_floor(v3_len2_s(a) * (FX_ONE as int))
}

/// Vector scaled to unit length: each component divided by the length.
pub open spec fn v3_normalize_s(a: V3) -> V3 {
    v3_divs_s(a, v3_len_s(a))
}

/// The zero vector.
pub open spec fn v3_zero_s() -> V3 {
    V3 { x: 0, y: 0, z: 0 }
}

/// Component of `v` orthogonal to `normal`; the zero vector when either input
/// has zero length.
pub open spec fn vector_rejection_s(v: V3, normal: V3) -> V3 {
    if v3_len2_s(v) == 0 || v3_len2_s(normal) == 0 {
        v3_zero_s()
    } else {
        let nl = v3_len_s(normal);
        v3_sub_s(v, v3_scale_s(v3_divs_s(normal, nl), fx_div_s(v3_dot_s(normal, v), nl)))
    }
}

/// Deterministic direction perpendicular to `v`: world-Z crossed with `v`,
/// normalized, unless `v` is axis-aligned in X or Y at this resolution, then
/// world-X.
pub open spec fn get_perpendicular_vector_s(v: V3) -> V3 {
    if fx_mul_s(v.x, v.x) != 0 && fx_mul_s(v.y, v.y) != 0 {
        v3_normalize_s(v3_cross_s(V3 { x: 0, y: 0, z: FX_ONE as int }, v))
    } else {
        V3 { x: FX_ONE as int, y: 0, z: 0 }
    }
}

/// Componentwise sum.
pub fn vec3_add(a: &Vec3, b: &Vec3) -> (r: Vec3)
    requires
        v3_ok(a@, 2_000_000_000_000),
        v3_ok(b@, 2_000_000_000_000),
    ensures
        r@ == v3_add_s(a@, b@),
{
    Vec3 { x: a.x + b.x, y: a.y + b.y, z: a.z + b.z }
}

/// Componentwise difference.
pub fn vec3_sub(a: &Vec3, b: &Vec3) -> (r: Vec3)
    requires
        v3_ok(a@, 2_000_000_000_000),
        v3_ok(b@, 2_000_000_000_000),
    ensures
        r@ == v3_sub_s(a@, b@),
{
    Vec3 { x: a.x - b.x, y: a.y - b.y, z: a.z - b.z }
}

/// Componentwise negation.
pub fn vec3_neg(a: &Vec3) -> (r: Vec3)
    requires
        v3_ok(a@, 2_000_000_000_000),
    ensures
        r@ == v3_neg_s(a@),
{
    Vec3 { x: -a.x, y: -a.y, z: -a.z }
}

/// Vector scaled by a fixed-point scalar.
pub fn vec3_scale(a: &Vec3, k: i64) -> (r: Vec3)
    requires
        v3_ok(a@, 3_000_000_000_000),
        abs(k as int) <= 3_000_000_000_000,
    ensures
        r@ == v3_scale_s(a@, k as int),
{
    Vec3 { x: fx_mul(a.x, k), y: fx_mul(a.y, k), z: fx_mul(a.z, k) }
}

/// Vector divided by a fixed-point scalar.
pub fn vec3_divs(a: &Vec3, k: i64) -> (r: Vec3)
    requires
        v3_ok(a@, 3_000_000_000_000),
        abs(k as int) <= 3_000_000_000_000,
        k != 0,
    ensures
        r@ == v3_divs_s(a@, k as int),
{
    Vec3 { x: fx_div(a.x, k), y: fx_div(a.y, k), z: fx_div(a.z, k) }
}

/// Fixed-point dot product.
pub fn vec3_dot(a: &Vec3, b: &Vec3) -> (r: i64)
    requires
        v3_ok(a@, 1_000_000_000),
        v3_ok(b@, 1_000_000_000),
    ensures
        r == v3_dot_s(a@, b@),
        abs(r as int) <= 3_000_000_000_000,
{
    proof {
        lemma_fx_mul_bound(a.x as int, b.x as int, 1_000_000_000, 1_000_000_000);
        lemma_fx_mul_bound(a.y as int, b.y as int, 1_000_000_000, 1_000_000_000);
        lemma_fx_mul_bound(a.z as int, b.z as int, 1_000_000_000, 1_000_000_000);
    }
    fx_mul(a.x, b.x) + fx_mul(a.y, b.y) + fx_mul(a.z, b.z)
}

/// Fixed-point cross product.
pub fn vec3_cross(a: &Vec3, b: &Vec3) -> (r: Vec3)
    requires
        v3_ok(a@, 1_000_000_000),
        v3_ok(b@, 1_000_000_000),
    ensures
        r@ == v3_cross_s(a@, b@),
        v3_ok(r@, 2_000_000_000_000),
{
    proof {
        lemma_fx_mul_bound(a.y as int, b.z as int, 1_000_000_000, 1_000_000_000);
        lemma_fx_mul_bound(a.z as int, b.y as int, 1_000_000_000, 1_000_000_000);
        lemma_fx_mul_bound(a.z as int, b.x as int, 1_000_000_000, 1_000_000_000);
        lemma_fx_mul_bound(a.x as int, b.z as int, 1_000_000_000, 1_000_000_000);
        lemma_fx_mul_bound(a.x as int, b.y as int, 1_000_000_000, 1_000_000_000);
        lemma_fx_mul_bound(a.y as int, b.x as int, 1_000_000_000, 1_000_000_000);
    }
    Vec3 {
        x: fx_mul(a.y, b.z) - fx_mul(a.z, b.y),
        y: fx_mul(a.z, b.x) - fx_mul(a.x, b.z),
        z: fx_mul(a.x, b.y) - fx_mul(a.y, b.x),
    }
}

/// Fixed-point squared length.
pub fn vec3_length_squared(a: &Vec3) -> (r: i64)
    requires
        v3_ok(a@, 1_000_000_000),
    ensures
        r == v3_len2_s(a@),
        0 <= r <= 3_000_000_000_000,
        fx_mul_s(a.x as int, a.x as int) <= r,
        fx_mul_s(a.y as int, a.y as int) <= r,
        fx_mul_s(a.z as int, a.z as int) <= r,
{
    proof {
        lemma_fx_mul_bound(a.x as int, a.x as int, 1_000_000_000, 1_000_000_000);
        lemma_fx_mul_bound(a.y as int, a.y as int, 1_000_000_000, 1_000_000_000);
        lemma_fx_mul_bound(a.z as int, a.z as int, 1_000_000_000, 1_000_000_000);
        lemma_fx_mul_sign(a.x as int, a.x as int);
        lemma_fx_mul_sign(a.y as int, a.y as int);
        lemma_fx_mul_sign(a.z as int, a.z as int);
    }
    fx_mul(a.x, a.x) + fx_mul(a.y, a.y) + fx_mul(a.z, a.z)
}

/// Fixed-point length.
pub fn vec3_length(a: &Vec3) -> (r: i64)
    requires
        v3_ok(a@, 1_000_000_000),
    ensures
        r == v3_len_s(a@),
        is_sqrt_floor(v3_len2_s(a@) * (FX_ONE as int), r as int),
        0 <= r <= 1_732_050_807,
        v3_len2_s(a@) >= 1 ==> r >= 1_000,
{
    let ls: i64 = vec3_length_squared(a);
    let r: i64 = crate::fixed::isqrt(ls * FX_ONE);
    proof {
        assert(r <= 1_732_050_807) by (nonlinear_arith)
            requires
                is_sqrt_floor(ls as int * (FX_ONE as int), r as int),
                0 <= ls as int * (FX_ONE as int) <= 3_000_000_000_000_000_000,
                r >= 0,
        ;
        if v3_len2_s(a@) >= 1 {
            assert(ls * FX_ONE >= 1_000_000);
            assert(r >= 1_000) by (nonlinear_arith)
                requires
                    is_sqrt_floor(ls as int * (FX_ONE as int), r as int),
                    ls as int * (FX_ONE as int) >= 1_000_000,
            ;
        }
    }
    r
}

/// A length lower bound from one component: the fixed-point length of a
/// vector is at least any component's magnitude less one milli-unit.
proof fn lemma_len_component_lower(c: int, len2: int, len: int)
    requires
        fx_mul_s(c, c) <= len2,
        is_sqrt_floor(len2 * (FX_ONE as int), len),
    ensures
        len >= abs(c) - 1_000,
{
    let cc = c * c;
    crate::fixed::lemma_abs_mul(c, c);
    assert(cc >= 0) by (nonlinear_arith)
        requires
            cc == c * c,
    ;
    assert(cc == abs(c) * abs(c));
    assert(fx_mul_s(c, c) == cc / (FX_ONE as int));
    lemma_fundamental_div_mod(cc, FX_ONE as int);
    assert((cc / (FX_ONE as int)) * (FX_ONE as int) >= cc - 999_999) by (nonlinear_arith)
        requires
            cc >= 0,
            cc == (FX_ONE as int) * (cc / (FX_ONE as int)) + cc % (FX_ONE as int),
            0 <= cc % (FX_ONE as int) < (FX_ONE as int),
    ;
    assert(len2 * (FX_ONE as int) >= fx_mul_s(c, c) * (FX_ONE as int)) by (nonlinear_arith)
        requires
            fx_mul_s(c, c) <= len2,
    ;
    assert(len >= abs(c) - 1_000) by (nonlinear_arith)
        requires
            is_sqrt_floor(len2 * (FX_ONE as int), len),
            len2 * (FX_ONE as int) >= abs(c) * abs(c) - 999_999,
    ;
}

/// Magnitude bound of a normalized component: dividing a component by a
/// length that nearly dominates it keeps the quotient within two units.
proof fn lemma_normalize_component(c: int, len: int)
    requires
        len >= 1_000,
        len >= abs(c) - 1_000,
    ensures
        abs(fx_div_s(c, len)) <= 2_000_000,
{
    crate::fixed::lemma_abs_tdiv(c * (FX_ONE as int), len);
    crate::fixed::lemma_abs_mul(c, FX_ONE as int);
    assert((abs(c) * (FX_ONE as nat)) as int / (abs(len) as int) <= 2_000_000) by (nonlinear_arith)
        requires
            len >= 1_000,
            len >= abs(c) - 1_000,
            abs(len) == len,
    ;
}

/// The length of a vector is at most twice its largest component magnitude,
/// so the largest component, renormalized, stays at least half a unit.
proof fn lemma_normalize_major_component(c: int, len2: int, len: int)
    requires
        1 <= fx_mul_s(c, c) <= len2,
        len2 <= 3 * fx_mul_s(c, c),
        is_sqrt_floor(len2 * (FX_ONE as int), len),
        len >= 1_000,
    ensures
        abs(fx_div_s(c, len)) >= 499_999,
{
    let m = abs(c) as int;
    crate::fixed::lemma_abs_mul(c, c);
    assert(c * c >= 0) by (nonlinear_arith);
    assert(c * c == m * m);
    assert(fx_mul_s(c, c) == (m * m) / (FX_ONE as int));
    assert(m >= 1_000) by (nonlinear_arith)
        requires
            (m * m) / (FX_ONE as int) >= 1,
            m >= 0,
    ;
    assert((m * m) / (FX_ONE as int) * (FX_ONE as int) <= m * m) by {
        lemma_fundamental_div_mod(m * m, FX_ONE as int);
        assert(0 <= (m * m) % (FX_ONE as int));
    }
    assert(len2 * (FX_ONE as int) <= 3 * (m * m)) by (nonlinear_arith)
        requires
            len2 <= 3 * ((m * m) / (FX_ONE as int)),
            (m * m) / (FX_ONE as int) * (FX_ONE as int) <= m * m,
            (m * m) / (FX_ONE as int) >= 0,
    ;
    assert(len < 2 * m) by (nonlinear_arith)
        requires
            len * len <= len2 * (FX_ONE as int),
            len2 * (FX_ONE as int) <= 3 * (m * m),
            m >= 1,
            len >= 0,
    ;
    crate::fixed::lemma_abs_tdiv(c * (FX_ONE as int), len);
    crate::fixed::lemma_abs_mul(c, FX_ONE as int);
    assert(m * (FX_ONE as int) >= 499_999 * len);
    lemma_div_is_ordered(499_999 * len, m * (FX_ONE as int), len);
    assert((len * 499_999) / len == 499_999) by {
        vstd::arithmetic::div_mod::lemma_div_multiples_vanish(499_999, len);
    }
    assert(len * 499_999 == 499_999 * len) by (nonlinear_arith);
}

/// Vector scaled to unit length.  The squared length must be non-zero at this
/// resolution; degenerate vectors are the callers' documented fallbacks.  The
/// result is unit-scale: components within two units, and its own squared
/// length again non-zero, so it can be renormalized.
pub fn vec3_normalize(a: &Vec3) -> (r: Vec3)
    requires
        v3_ok(a@, 1_000_000_000),
        v3_len2_s(a@) >= 1,
    ensures
        r@ == v3_normalize_s(a@),
        v3_ok(r@, 2_000_000),
        v3_len2_s(r@) >= 1,
{
    let len: i64 = vec3_length(a);
    proof {
        lemma_fx_mul_sign(a.x as int, a.x as int);
        lemma_fx_mul_sign(a.y as int, a.y as int);
        lemma_fx_mul_sign(a.z as int, a.z as int);
        lemma_len_component_lower(a.x as int, v3_len2_s(a@), len as int);
        lemma_len_component_lower(a.y as int, v3_len2_s(a@), len as int);
        lemma_len_component_lower(a.z as int, v3_len2_s(a@), len as int);
        lemma_normalize_component(a.x as int, len as int);
        lemma_normalize_component(a.y as int, len as int);
        lemma_normalize_component(a.z as int, len as int);
    }
    let r: Vec3 = vec3_divs(a, len);
    proof {
        let sx = fx_mul_s(a.x as int, a.x as int);
        let sy = fx_mul_s(a.y as int, a.y as int);
        let sz = fx_mul_s(a.z as int, a.z as int);
        let ls = v3_len2_s(a@);
        if sx >= sy && sx >= sz {
            lemma_normalize_major_component(a.x as int, ls, len as int);
            lemma_square_at_least_one(r@.x);
            lemma_fx_mul_sign(r@.y, r@.y);
            lemma_fx_mul_sign(r@.z, r@.z);
        } else if sy >= sz {
            lemma_normalize_major_component(a.y as int, ls, len as int);
            lemma_square_at_least_one(r@.y);
            lemma_fx_mul_sign(r@.x, r@.x);
            lemma_fx_mul_sign(r@.z, r@.z);
        } else {
            lemma_normalize_major_component(a.z as int, ls, len as int);
            lemma_square_at_least_one(r@.z);
            lemma_fx_mul_sign(r@.x, r@.x);
            lemma_fx_mul_sign(r@.y, r@.y);
        }
    }
    r
}

/// A component of at least half a unit has a fixed-point square of at least
/// one.
proof fn lemma_square_at_least_one(c: int)
    requires
        abs(c) >= 499_999,
    ensures
        fx_mul_s(c, c) >= 1,
{
    crate::fixed::lemma_abs_mul(c, c);
    assert(c * c >= 1_000_000) by (nonlinear_arith)
        requires
            abs(c) >= 499_999,
    ;
    assert(c * c / 1_000_000 >= 1) by (nonlinear_arith)
        requires
            c * c >= 1_000_000,
    ;
}

/// Interior angle between two vectors, in micro-radians: the arccosine of the
/// dot product over the product of the lengths; zero when either length
/// vanishes at this resolution.
pub open spec fn vec3_angle_between_s(a: V3, b: V3) -> int {
    let d = fx_mul_s(v3_len_s(a), v3_len_s(b));
    if d == 0 {
        0
    } else {
        crate::trig::safe_acos_s(fx_div_s(v3_dot_s(a, b), d))
    }
}

/// Interior angle between two vectors, in micro-radians.
pub fn vec3_angle_between(a: &Vec3, b: &Vec3) -> (r: i64)
    requires
        v3_ok(a@, 1_000_000_000),
        v3_ok(b@, 1_000_000_000),
    ensures
        r == vec3_angle_between_s(a@, b@),
        -1_700_000 <= r <= 5_000_000,
{
    let la: i64 = vec3_length(a);
    let lb: i64 = vec3_length(b);
    let d: i64 = fx_mul(la, lb);
    proof {
        lemma_fx_mul_bound(la as int, lb as int, 1_732_050_807, 1_732_050_807);
    }
    if d == 0 {
        0
    } else {
        let dot: i64 = vec3_dot(a, b);
        crate::trig::safe_acos(fx_div(dot, d))
    }
}

/// Component of `v` orthogonal to `normal`; the zero vector when either input
/// has zero length at this resolution.
pub fn vector_rejection(v: &Vec3, normal: &Vec3) -> (r: Vec3)
    requires
        v3_ok(v@, 8_000_000),
        v3_ok(normal@, 8_000_000),
    ensures
        r@ == vector_rejection_s(v@, normal@),
        v3_ok(r@, 2_000_000_000_000),
{
    let vl2: i64 = vec3_length_squared(v);
    let nl2: i64 = vec3_length_squared(normal);
    if vl2 == 0 || nl2 == 0 {
        Vec3 { x: 0, y: 0, z: 0 }
    } else {
        let nl: i64 = vec3_length(normal);
        let d: i64 = vec3_dot(normal, v);
        let unit_n: Vec3 = vec3_divs(normal, nl);
        let k: i64 = fx_div(d, nl);
        proof {
            assert(abs(d as int) <= 192_000_000) by {
                lemma_fx_mul_bound(normal.x as int, v.x as int, 8_000_000, 8_000_000);
                lemma_fx_mul_bound(normal.y as int, v.y as int, 8_000_000, 8_000_000);
                lemma_fx_mul_bound(normal.z as int, v.z as int, 8_000_000, 8_000_000);
            }
            assert(nl >= 1_000);
            assert(abs(k as int) <= 192_000_000_000) by {
                crate::fixed::lemma_div_bound(
                    (abs(d as int) * (FX_ONE as nat)) as int,
                    abs(nl as int) as int,
                    192_000_000_000_000,
                    1_000,
                );
            }
            lemma_fx_mul_sign(normal.x as int, normal.x as int);
            lemma_fx_mul_sign(normal.y as int, normal.y as int);
            lemma_fx_mul_sign(normal.z as int, normal.z as int);
            lemma_len_component_lower(normal.x as int, v3_len2_s(normal@), nl as int);
            lemma_len_component_lower(normal.y as int, v3_len2_s(normal@), nl as int);
            lemma_len_component_lower(normal.z as int, v3_len2_s(normal@), nl as int);
            lemma_normalize_component(normal.x as int, nl as int);
            lemma_normalize_component(normal.y as int, nl as int);
            lemma_normalize_component(normal.z as int, nl as int);
            lemma_fx_mul_bound(unit_n.x as int, k as int, 2_000_000, 192_000_000_000);
            lemma_fx_mul_bound(unit_n.y as int, k as int, 2_000_000, 192_000_000_000);
            lemma_fx_mul_bound(unit_n.z as int, k as int, 2_000_000, 192_000_000_000);
        }
        let proj: Vec3 = vec3_scale(&unit_n, k);
        vec3_sub(v, &proj)
    }
}

/// Deterministic direction perpendicular to `v`.
pub fn get_perpendicular_vector(v: &Vec3) -> (r: Vec3)
    requires
        v3_ok(v@, 1_000_000_000),
    ensures
        r@ == get_perpendicular_vector_s(v@),
        v3_ok(r@, 2_000_000),
        v3_len2_s(r@) >= 1,
{
    let vx2: i64 = fx_mul(v.x, v.x);
    let vy2: i64 = fx_mul(v.y, v.y);
    proof {
        lemma_fx_mul_sign(v.x as int, v.x as int);
        lemma_fx_mul_sign(v.y as int, v.y as int);
    }
    if vx2 != 0 && vy2 != 0 {
        let axis_z: Vec3 = Vec3 { x: 0, y: 0, z: FX_ONE };
        let c: Vec3 = vec3_cross(&axis_z, v);
        proof {
            lemma_one_scale(v.y as int);
            lemma_one_scale(v.x as int);
            assert(fx_mul_s(0, v.z as int) == 0);
            assert(fx_mul_s(0, v.x as int) == 0);
            assert(fx_mul_s(0, v.y as int) == 0);
            assert(c@.x == -(v.y as int) && c@.y == v.x as int && c@.z == 0);
            assert(fx_mul_s(c@.x, c@.x) == fx_mul_s(v.y as int, v.y as int)) by {
                assert((-(v.y as int)) * (-(v.y as int)) == (v.y as int) * (v.y as int))
                    by (nonlinear_arith);
            }
            assert(fx_mul_s(c@.z, c@.z) == 0);
            assert(v3_len2_s(c@) >= 1);
        }
        vec3_normalize(&c)
    } else {
        Vec3 { x: FX_ONE, y: 0, z: 0 }
    }
}

/// Whether every component of `v` is within `lim`: the runtime envelope
/// check that keeps the solver's fixed-point intermediates in range.
pub fn vec3_in_range(v: &Vec3, lim: i64) -> (r: bool)
    requires
        lim >= 0,
    ensures
        r == v3_ok(v@, lim as int),
{
    -lim <= v.x && v.x <= lim && -lim <= v.y && v.y <= lim && -lim <= v.z && v.z <= lim
}

/// Scaling by one is the identity.
pub proof fn lemma_one_scale(a: int)
    ensures
        fx_mul_s(FX_ONE as int, a) == a,
{
    crate::fixed::lemma_abs_mul(FX_ONE as int, a);
    assert((FX_ONE as int) * a == 1_000_000 * a);
    assert(abs(1_000_000 * a) / 1_000_000 == abs(a)) by (nonlinear_arith);
}

} // verus!
