//! Fixed-point 3x3 matrices, stored as three column vectors.  The solver uses
//! them to assemble orthonormal joint bases and to transpose a rotation.

use crate::fixed::{
    fx_div, fx_div_s, fx_mul, fx_mul_s, fx_sqrt, fx_sqrt_s, is_sqrt_floor, lemma_div_bound,
    lemma_fx_mul_bound, FX_ONE,
};
use crate::quat::{q4_ok, Q4, Quat};
use crate::vec3::{v3_ok, V3, Vec3};
use vstd::math::abs;
use vstd::prelude::*;

verus! {

/// Spec-level 3x3 matrix of column vectors.
pub ghost struct M3 {
    pub x_axis: V3,
    pub y_axis: V3,
    pub z_axis: V3,
}

/// Fixed-point 3x3 matrix of column vectors.
#[derive(Clone, Copy, PartialEq, Eq, Structural, Debug)]
pub struct Mat3 {
    pub x_axis: Vec3,
    pub y_axis: Vec3,
    pub z_axis: Vec3,
}

impl View for Mat3 {
    type V = M3;

    open spec fn view(&self) -> M3 {
        M3 { x_axis: self.x_axis@, y_axis: self.y_axis@, z_axis: self.z_axis@ }
    }
}

/// Every entry of `m` has magnitude at most `lim`.
pub open spec fn m3_ok(m: M3, lim: int) -> bool {
    &&& v3_ok(m.x_axis, lim)
    &&& v3_ok(m.y_axis, lim)
    &&& v3_ok(m.z_axis, lim)
}

/// The rotation matrix of a unit quaternion, in columns.
pub open spec fn m3_from_quat_s(q: Q4) -> M3 {
    let xx = fx_mul_s(q.x, 2 * q.x);
    let xy = fx_mul_s(q.x, 2 * q.y);
    let xz = fx_mul_s(q.x, 2 * q.z);
    let yy = fx_mul_s(q.y, 2 * q.y);
    let yz = fx_mul_s(q.y, 2 * q.z);
    let zz = fx_mul_s(q.z, 2 * q.z);
    let wx = fx_mul_s(q.w, 2 * q.x);
    let wy = fx_mul_s(q.w, 2 * q.y);
    let wz = fx_mul_s(q.w, 2 * q.z);
    M3 {
        x_axis: V3 { x: FX_ONE - (yy + zz), y: xy + wz, z: xz - wy },
        y_axis: V3 { x: xy - wz, y: FX_ONE - (xx + zz), z: yz + wx },
        z_axis: V3 { x: xz + wy, y: yz - wx, z: FX_ONE - (xx + yy) },
    }
}

/// The transpose, which inverts a rotation matrix.
pub open spec fn m3_transpose_s(m: M3) -> M3 {
    M3 {
        x_axis: V3 { x: m.x_axis.x, y: m.y_axis.x, z: m.z_axis.x },
        y_axis: V3 { x: m.x_axis.y, y: m.y_axis.y, z: m.z_axis.y },
        z_axis: V3 { x: m.x_axis.z, y: m.y_axis.z, z: m.z_axis.z },
    }
}

/// The quaternion of a rotation matrix, choosing the numerically largest of
/// the four diagonal-based forms.
pub open spec fn q4_from_m3_s(m: M3) -> Q4 {
    let m00 = m.x_axis.x;
    let m01 = m.x_axis.y;
    let m02 = m.x_axis.z;
    let m10 = m.y_axis.x;
    let m11 = m.y_axis.y;
    let m12 = m.y_axis.z;
    let m20 = m.z_axis.x;
    let m21 = m.z_axis.y;
    let m22 = m.z_axis.z;
    if m22 <= 0 {
        let dif10 = m11 - m00;
        let omm22 = FX_ONE - m22;
        if dif10 <= 0 {
            let four_xsq = omm22 - dif10;
            let inv4x = fx_div_s(500_000, fx_sqrt_s(four_xsq));
            Q4 {
                x: fx_mul_s(four_xsq, inv4x),
                y: fx_mul_s(m01 + m10, inv4x),
                z: fx_mul_s(m02 + m20, inv4x),
                w: fx_mul_s(m12 - m21, inv4x),
            }
        } else {
            let four_ysq = omm22 + dif10;
            let inv4y = fx_div_s(500_000, fx_sqrt_s(four_ysq));
            Q4 {
                x: fx_mul_s(m01 + m10, inv4y),
                y: fx_mul_s(four_ysq, inv4y),
                z: fx_mul_s(m12 + m21, inv4y),
                w: fx_mul_s(m20 - m02, inv4y),
            }
        }
    } else {
        let sum10 = m11 + m00;
        let opm22 = FX_ONE + m22;
        if sum10 <= 0 {
            let four_zsq = opm22 - sum10;
            let inv4z = fx_div_s(500_000, fx_sqrt_s(four_zsq));
            Q4 {
                x: fx_mul_s(m02 + m20, inv4z),
                y: fx_mul_s(m12 + m21, inv4z),
                z: fx_mul_s(four_zsq, inv4z),
                w: fx_mul_s(m01 - m10, inv4z),
            }
        } else {
            let four_wsq = opm22 + sum10;
            let inv4w = fx_div_s(500_000, fx_sqrt_s(four_wsq));
            Q4 {
                x: fx_mul_s(m12 - m21, inv4w),
                y: fx_mul_s(m20 - m02, inv4w),
                z: fx_mul_s(m01 - m10, inv4w),
                w: fx_mul_s(four_wsq, inv4w),
            }
        }
    }
}

/// A rotation carried to a matrix, transposed there, and carried back: the
/// inverse rotation, via the matrix round trip.
pub open spec fn transpose_quat_s(q: Q4) -> Q4 {
    q4_from_m3_s(m3_transpose_s(m3_from_quat_s(q)))
}

/// The rotation matrix of a unit quaternion.
pub fn mat3_from_quat(q: &Quat) -> (r: Mat3)
    requires
        q4_ok(q@, 8_000_000),
    ensures
        r@ == m3_from_quat_s(q@),
        m3_ok(r@, 300_000_000),
{
    proof {
        lemma_fx_mul_bound(q.x as int, 2 * q.x as int, 8_000_000, 16_000_000);
        lemma_fx_mul_bound(q.x as int, 2 * q.y as int, 8_000_000, 16_000_000);
        lemma_fx_mul_bound(q.x as int, 2 * q.z as int, 8_000_000, 16_000_000);
        lemma_fx_mul_bound(q.y as int, 2 * q.y as int, 8_000_000, 16_000_000);
        lemma_fx_mul_bound(q.y as int, 2 * q.z as int, 8_000_000, 16_000_000);
        lemma_fx_mul_bound(q.z as int, 2 * q.z as int, 8_000_000, 16_000_000);
        lemma_fx_mul_bound(q.w as int, 2 * q.x as int, 8_000_000, 16_000_000);
        lemma_fx_mul_bound(q.w as int, 2 * q.y as int, 8_000_000, 16_000_000);
        lemma_fx_mul_bound(q.w as int, 2 * q.z as int, 8_000_000, 16_000_000);
    }
    let xx: i64 = fx_mul(q.x, 2 * q.x);
    let xy: i64 = fx_mul(q.x, 2 * q.y);
    let xz: i64 = fx_mul(q.x, 2 * q.z);
    let yy: i64 = fx_mul(q.y, 2 * q.y);
    let yz: i64 = fx_mul(q.y, 2 * q.z);
    let zz: i64 = fx_mul(q.z, 2 * q.z);
    let wx: i64 = fx_mul(q.w, 2 * q.x);
    let wy: i64 = fx_mul(q.w, 2 * q.y);
    let wz: i64 = fx_mul(q.w, 2 * q.z);
    Mat3 {
        x_axis: Vec3 { x: FX_ONE - (yy + zz), y: xy + wz, z: xz - wy },
        y_axis: Vec3 { x: xy - wz, y: FX_ONE - (xx + zz), z: yz + wx },
        z_axis: Vec3 { x: xz + wy, y: yz - wx, z: FX_ONE - (xx + yy) },
    }
}

/// The transpose.
pub fn mat3_transpose(m: &Mat3) -> (r: Mat3)
    ensures
        r@ == m3_transpose_s(m@),
{
    Mat3 {
        x_axis: Vec3 { x: m.x_axis.x, y: m.y_axis.x, z: m.z_axis.x },
        y_axis: Vec3 { x: m.x_axis.y, y: m.y_axis.y, z: m.z_axis.y },
        z_axis: Vec3 { x: m.x_axis.z, y: m.y_axis.z, z: m.z_axis.z },
    }
}

/// A vector carried through the matrix: the linear combination of the
/// columns by the vector's components.
pub open spec fn m3_apply_s(m: M3, v: V3) -> V3 {
    V3 {
        x: fx_mul_s(m.x_axis.x, v.x) + fx_mul_s(m.y_axis.x, v.y) + fx_mul_s(m.z_axis.x, v.z),
        y: fx_mul_s(m.x_axis.y, v.x) + fx_mul_s(m.y_axis.y, v.y) + fx_mul_s(m.z_axis.y, v.z),
        z: fx_mul_s(m.x_axis.z, v.x) + fx_mul_s(m.y_axis.z, v.y) + fx_mul_s(m.z_axis.z, v.z),
    }
}

/// Matrix product: each column of `b` carried through `a`.
pub open spec fn m3_mul_s(a: M3, b: M3) -> M3 {
    M3 {
        x_axis: m3_apply_s(a, b.x_axis),
        y_axis: m3_apply_s(a, b.y_axis),
        z_axis: m3_apply_s(a, b.z_axis),
    }
}

/// A vector carried through the matrix.
pub fn mat3_apply(m: &Mat3, v: &Vec3) -> (r: Vec3)
    requires
        m3_ok(m@, 1_000_000_000),
        v3_ok(v@, 1_000_000_000),
    ensures
        r@ == m3_apply_s(m@, v@),
        v3_ok(r@, 3_000_000_000_000),
{
    proof {
        lemma_fx_mul_bound(m@.x_axis.x, v@.x, 1_000_000_000, 1_000_000_000);
        lemma_fx_mul_bound(m@.y_axis.x, v@.y, 1_000_000_000, 1_000_000_000);
        lemma_fx_mul_bound(m@.z_axis.x, v@.z, 1_000_000_000, 1_000_000_000);
        lemma_fx_mul_bound(m@.x_axis.y, v@.x, 1_000_000_000, 1_000_000_000);
        lemma_fx_mul_bound(m@.y_axis.y, v@.y, 1_000_000_000, 1_000_000_000);
        lemma_fx_mul_bound(m@.z_axis.y, v@.z, 1_000_000_000, 1_000_000_000);
        lemma_fx_mul_bound(m@.x_axis.z, v@.x, 1_000_000_000, 1_000_000_000);
        lemma_fx_mul_bound(m@.y_axis.z, v@.y, 1_000_000_000, 1_000_000_000);
        lemma_fx_mul_bound(m@.z_axis.z, v@.z, 1_000_000_000, 1_000_000_000);
    }
    Vec3 {
        x: fx_mul(m.x_axis.x, v.x) + fx_mul(m.y_axis.x, v.y) + fx_mul(m.z_axis.x, v.z),
        y: fx_mul(m.x_axis.y, v.x) + fx_mul(m.y_axis.y, v.y) + fx_mul(m.z_axis.y, v.z),
        z: fx_mul(m.x_axis.z, v.x) + fx_mul(m.y_axis.z, v.y) + fx_mul(m.z_axis.z, v.z),
    }
}

/// Matrix product.
pub fn mat3_mul(a: &Mat3, b: &Mat3) -> (r: Mat3)
    requires
        m3_ok(a@, 1_000_000_000),
        m3_ok(b@, 1_000_000_000),
    ensures
        r@ == m3_mul_s(a@, b@),
{
    Mat3 {
        x_axis: mat3_apply(a, &b.x_axis),
        y_axis: mat3_apply(a, &b.y_axis),
        z_axis: mat3_apply(a, &b.z_axis),
    }
}

/// Componentwise magnitude bound of a matrix-vector product from bounds on
/// its factors.
pub proof fn lemma_m3_apply_bound(m: M3, v: V3, mm: int, vv: int)
    requires
        m3_ok(m, mm),
        v3_ok(v, vv),
    ensures
        v3_ok(m3_apply_s(m, v), 3 * (mm * vv / (FX_ONE as int))),
{
    lemma_fx_mul_bound(m.x_axis.x, v.x, mm, vv);
    lemma_fx_mul_bound(m.y_axis.x, v.y, mm, vv);
    lemma_fx_mul_bound(m.z_axis.x, v.z, mm, vv);
    lemma_fx_mul_bound(m.x_axis.y, v.x, mm, vv);
    lemma_fx_mul_bound(m.y_axis.y, v.y, mm, vv);
    lemma_fx_mul_bound(m.z_axis.y, v.z, mm, vv);
    lemma_fx_mul_bound(m.x_axis.z, v.x, mm, vv);
    lemma_fx_mul_bound(m.y_axis.z, v.y, mm, vv);
    lemma_fx_mul_bound(m.z_axis.z, v.z, mm, vv);
}

/// Whether every entry of `m` is within `lim`.
pub fn mat3_in_range(m: &Mat3, lim: i64) -> (r: bool)
    requires
        lim >= 0,
    ensures
        r == m3_ok(m@, lim as int),
{
    crate::vec3::vec3_in_range(&m.x_axis, lim) && crate::vec3::vec3_in_range(&m.y_axis, lim)
        && crate::vec3::vec3_in_range(&m.z_axis, lim)
}

/// Reciprocal of four times the square root of a positive fixed-point
/// scalar, halved: the shared factor of the matrix-to-quaternion forms.
fn inv4_of(four_sq: i64) -> (r: i64)
    requires
        1_000_000 <= four_sq <= 5_000_000_000,
    ensures
        r == fx_div_s(500_000, fx_sqrt_s(four_sq as int)),
        0 <= r <= 500_000,
{
    let s4: i64 = fx_sqrt(four_sq);
    proof {
        assert(s4 >= 1_000_000) by (nonlinear_arith)
            requires
                is_sqrt_floor(four_sq as int * (FX_ONE as int), s4 as int),
                four_sq as int * (FX_ONE as int) >= 1_000_000_000_000,
                s4 >= 0,
        ;
        crate::fixed::lemma_abs_tdiv(500_000 * (FX_ONE as int), s4 as int);
        crate::fixed::lemma_abs_mul(500_000, FX_ONE as int);
        lemma_div_bound(500_000 * (FX_ONE as int), s4 as int, 500_000_000_000, 1_000_000);
        crate::fixed::lemma_fx_mul_sign(500_000 * (FX_ONE as int), 1);
    }
    let r: i64 = fx_div(500_000, s4);
    proof {
        assert(fx_div_s(500_000, s4 as int) >= 0);
    }
    r
}

/// The quaternion of a rotation matrix.
pub fn quat_from_mat3(m: &Mat3) -> (r: Quat)
    requires
        m3_ok(m@, 1_000_000_000),
    ensures
        r@ == q4_from_m3_s(m@),
        q4_ok(r@, 2_600_000_000),
{
    let m00: i64 = m.x_axis.x;
    let m01: i64 = m.x_axis.y;
    let m02: i64 = m.x_axis.z;
    let m10: i64 = m.y_axis.x;
    let m11: i64 = m.y_axis.y;
    let m12: i64 = m.y_axis.z;
    let m20: i64 = m.z_axis.x;
    let m21: i64 = m.z_axis.y;
    let m22: i64 = m.z_axis.z;
    if m22 <= 0 {
        let dif10: i64 = m11 - m00;
        let omm22: i64 = FX_ONE - m22;
        if dif10 <= 0 {
            let four_xsq: i64 = omm22 - dif10;
            let inv4x: i64 = inv4_of(four_xsq);
            proof {
                lemma_fx_mul_bound(four_xsq as int, inv4x as int, 5_000_000_000, 500_000);
                lemma_fx_mul_bound(m01 + m10 as int, inv4x as int, 2_000_000_000, 500_000);
                lemma_fx_mul_bound(m02 + m20 as int, inv4x as int, 2_000_000_000, 500_000);
                lemma_fx_mul_bound(m12 - m21 as int, inv4x as int, 2_000_000_000, 500_000);
            }
            Quat {
                x: fx_mul(four_xsq, inv4x),
                y: fx_mul(m01 + m10, inv4x),
                z: fx_mul(m02 + m20, inv4x),
                w: fx_mul(m12 - m21, inv4x),
            }
        } else {
            let four_ysq: i64 = omm22 + dif10;
            let inv4y: i64 = inv4_of(four_ysq);
            proof {
                lemma_fx_mul_bound(four_ysq as int, inv4y as int, 5_000_000_000, 500_000);
                lemma_fx_mul_bound(m01 + m10 as int, inv4y as int, 2_000_000_000, 500_000);
                lemma_fx_mul_bound(m12 + m21 as int, inv4y as int, 2_000_000_000, 500_000);
                lemma_fx_mul_bound(m20 - m02 as int, inv4y as int, 2_000_000_000, 500_000);
            }
            Quat {
                x: fx_mul(m01 + m10, inv4y),
                y: fx_mul(four_ysq, inv4y),
                z: fx_mul(m12 + m21, inv4y),
                w: fx_mul(m20 - m02, inv4y),
            }
        }
    } else {
        let sum10: i64 = m11 + m00;
        let opm22: i64 = FX_ONE + m22;
        if sum10 <= 0 {
            let four_zsq: i64 = opm22 - sum10;
            let inv4z: i64 = inv4_of(four_zsq);
            proof {
                lemma_fx_mul_bound(four_zsq as int, inv4z as int, 5_000_000_000, 500_000);
                lemma_fx_mul_bound(m02 + m20 as int, inv4z as int, 2_000_000_000, 500_000);
                lemma_fx_mul_bound(m12 + m21 as int, inv4z as int, 2_000_000_000, 500_000);
                lemma_fx_mul_bound(m01 - m10 as int, inv4z as int, 2_000_000_000, 500_000);
            }
            Quat {
                x: fx_mul(m02 + m20, inv4z),
                y: fx_mul(m12 + m21, inv4z),
                z: fx_mul(four_zsq, inv4z),
                w: fx_mul(m01 - m10, inv4z),
            }
        } else {
            let four_wsq: i64 = opm22 + sum10;
            let inv4w: i64 = inv4_of(four_wsq);
            proof {
                lemma_fx_mul_bound(four_wsq as int, inv4w as int, 5_000_000_000, 500_000);
                lemma_fx_mul_bound(m12 - m21 as int, inv4w as int, 2_000_000_000, 500_000);
                lemma_fx_mul_bound(m20 - m02 as int, inv4w as int, 2_000_000_000, 500_000);
                lemma_fx_mul_bound(m01 - m10 as int, inv4w as int, 2_000_000_000, 500_000);
            }
            Quat {
                x: fx_mul(m12 - m21, inv4w),
                y: fx_mul(m20 - m02, inv4w),
                z: fx_mul(m01 - m10, inv4w),
                w: fx_mul(four_wsq, inv4w),
            }
        }
    }
}

/// A rotation transposed in matrix form and carried back to a quaternion,
/// which inverts it.
pub fn transpose_quat(q: &Quat) -> (r: Quat)
    requires
        q4_ok(q@, 8_000_000),
    ensures
        r@ == transpose_quat_s(q@),
        q4_ok(r@, 2_600_000_000),
{
    let m: Mat3 = mat3_from_quat(q);
    let mt: Mat3 = mat3_transpose(&m);
    quat_from_mat3(&mt)
}

} // verus!
