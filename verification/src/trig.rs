//! Fixed-point trigonometry: sine, cosine, and the clamped arccosine used by
//! the triangle solve.
//!
//! Angles are micro-radians.  Sine and cosine reduce their argument into
//! `[-PI_FX, PI_FX]`, fold it into the first octant, and evaluate a truncated
//! Taylor polynomial there; arccosine evaluates a square-root-weighted
//! polynomial approximation on `[0, 1]` and extends to `[-1, 0)` by symmetry.

use crate::fixed::{
    clamp_s, fx_clamp, fx_mul, fx_mul_s, fx_sqrt, fx_sqrt_s, is_sqrt_floor, lemma_fx_mul_bound,
    lemma_fx_mul_sign, FX_ONE,
};
use vstd::math::abs;
use vstd::prelude::*;

verus! {

/// Pi, in micro-radians.
pub const PI_FX: i64 = 3_141_593;

/// Two pi, in micro-radians.
pub const TAU_FX: i64 = 6_283_185;

/// Pi over two, in micro-radians.
pub const HALF_PI_FX: i64 = 1_570_796;

/// Pi over four, in micro-radians.
pub const QUARTER_PI_FX: i64 = 785_398;

/// Three quarters of pi, in micro-radians.
pub const THREE_QUARTER_PI_FX: i64 = 2_356_194;

/// Largest angle magnitude the trigonometric routines accept.
pub const ANGLE_LIM: i64 = 1_000_000_000;

/// `x` shifted by whole turns into `[-PI_FX, PI_FX]`.
pub open spec fn wrap_angle_s(x: int) -> int
    decreases abs(x),
{
    if x > PI_FX {
        wrap_angle_s(x - TAU_FX)
    } else if x < -PI_FX {
        wrap_angle_s(x + TAU_FX)
    } else {
        x
    }
}

/// Taylor polynomial for sine on the first octant.
pub open spec fn sin_core_s(x: int) -> int {
    let x2 = fx_mul_s(x, x);
    fx_mul_s(x, FX_ONE - fx_mul_s(x2, 166_667 - fx_mul_s(x2, 8_333 - fx_mul_s(x2, 198))))
}

/// Taylor polynomial for cosine on the first octant.
pub open spec fn cos_core_s(x: int) -> int {
    let x2 = fx_mul_s(x, x);
    FX_ONE - fx_mul_s(x2, 500_000 - fx_mul_s(x2, 41_667 - fx_mul_s(x2, 1_389 - fx_mul_s(x2, 25))))
}

/// Cosine of a micro-radian angle, via wrapping and octant folding.
pub open spec fn cos_s(x: int) -> int {
    let ax = abs(wrap_angle_s(x)) as int;
    if ax <= QUARTER_PI_FX {
        cos_core_s(ax)
    } else if ax <= THREE_QUARTER_PI_FX {
        sin_core_s(HALF_PI_FX - ax)
    } else {
        -cos_core_s(PI_FX - ax)
    }
}

/// Sine of a micro-radian angle, via wrapping and octant folding.
pub open spec fn sin_s(x: int) -> int {
    let xr = wrap_angle_s(x);
    let ax = abs(xr) as int;
    let core = if ax <= QUARTER_PI_FX {
        sin_core_s(ax)
    } else if ax <= THREE_QUARTER_PI_FX {
        cos_core_s(HALF_PI_FX - ax)
    } else {
        sin_core_s(PI_FX - ax)
    };
    if xr < 0 {
        -core
    } else {
        core
    }
}

/// Shift `x` by whole turns into `[-PI_FX, PI_FX]`.
pub fn wrap_angle(x: i64) -> (r: i64)
    requires
        -ANGLE_LIM <= x <= ANGLE_LIM,
    ensures
        r == wrap_angle_s(x as int),
        -PI_FX <= r <= PI_FX,
{
    let mut y: i64 = x;
    while y > PI_FX
        invariant
            -ANGLE_LIM <= y <= ANGLE_LIM,
            wrap_angle_s(y as int) == wrap_angle_s(x as int),
        decreases y + ANGLE_LIM,
    {
        y = y - TAU_FX;
    }
    while y < -PI_FX
        invariant
            -ANGLE_LIM <= y <= PI_FX,
            wrap_angle_s(y as int) == wrap_angle_s(x as int),
        decreases ANGLE_LIM - y,
    {
        y = y + TAU_FX;
    }
    y
}

/// Sine Taylor polynomial on the first octant.
fn sin_core(x: i64) -> (r: i64)
    requires
        abs(x as int) <= 800_000,
    ensures
        r == sin_core_s(x as int),
        abs(r as int) <= 800_000,
{
    let x2: i64 = fx_mul(x, x);
    proof {
        lemma_fx_mul_bound(x as int, x as int, 800_000, 800_000);
        lemma_fx_mul_sign(x as int, x as int);
    }
    let t7: i64 = fx_mul(x2, 198);
    proof {
        lemma_fx_mul_bound(x2 as int, 198, 640_000, 198);
    }
    let t5: i64 = fx_mul(x2, 8_333 - t7);
    proof {
        lemma_fx_mul_bound(x2 as int, 8_333 - t7 as int, 640_000, 8_459);
    }
    let t3: i64 = fx_mul(x2, 166_667 - t5);
    proof {
        lemma_fx_mul_bound(x2 as int, 166_667 - t5 as int, 640_000, 172_081);
    }
    let r: i64 = fx_mul(x, FX_ONE - t3);
    proof {
        lemma_fx_mul_bound(x as int, FX_ONE - t3 as int, 800_000, 1_110_132);
        lemma_fx_mul_bound(x as int, FX_ONE - t3 as int, 800_000, 1_000_000);
    }
    r
}

/// Cosine Taylor polynomial on the first octant.
fn cos_core(x: i64) -> (r: i64)
    requires
        abs(x as int) <= 800_000,
    ensures
        r == cos_core_s(x as int),
        abs(r as int) <= 1_000_000,
{
    let x2: i64 = fx_mul(x, x);
    proof {
        lemma_fx_mul_bound(x as int, x as int, 800_000, 800_000);
        lemma_fx_mul_sign(x as int, x as int);
    }
    let t8: i64 = fx_mul(x2, 25);
    proof {
        lemma_fx_mul_bound(x2 as int, 25, 640_000, 25);
    }
    let t6: i64 = fx_mul(x2, 1_389 - t8);
    proof {
        lemma_fx_mul_bound(x2 as int, 1_389 - t8 as int, 640_000, 1_405);
    }
    let t4: i64 = fx_mul(x2, 41_667 - t6);
    proof {
        lemma_fx_mul_bound(x2 as int, 41_667 - t6 as int, 640_000, 42_567);
    }
    let t2: i64 = fx_mul(x2, 500_000 - t4);
    proof {
        lemma_fx_mul_bound(x2 as int, 500_000 - t4 as int, 640_000, 527_243);
        lemma_fx_mul_sign(x2 as int, 500_000 - t4 as int);
    }
    FX_ONE - t2
}

/// Cosine of a micro-radian angle.
pub fn cos_fx(x: i64) -> (r: i64)
    requires
        -ANGLE_LIM <= x <= ANGLE_LIM,
    ensures
        r == cos_s(x as int),
        abs(r as int) <= 1_000_000,
{
    let xr: i64 = wrap_angle(x);
    let ax: i64 = if xr < 0 {
        -xr
    } else {
        xr
    };
    if ax <= QUARTER_PI_FX {
        cos_core(ax)
    } else if ax <= THREE_QUARTER_PI_FX {
        sin_core(HALF_PI_FX - ax)
    } else {
        -cos_core(PI_FX - ax)
    }
}

/// Sine of a micro-radian angle.
pub fn sin_fx(x: i64) -> (r: i64)
    requires
        -ANGLE_LIM <= x <= ANGLE_LIM,
    ensures
        r == sin_s(x as int),
        abs(r as int) <= 1_000_000,
{
    let xr: i64 = wrap_angle(x);
    let ax: i64 = if xr < 0 {
        -xr
    } else {
        xr
    };
    let core: i64 = if ax <= QUARTER_PI_FX {
        sin_core(ax)
    } else if ax <= THREE_QUARTER_PI_FX {
        cos_core(HALF_PI_FX - ax)
    } else {
        sin_core(PI_FX - ax)
    };
    if xr < 0 {
        -core
    } else {
        core
    }
}

/// Polynomial factor of the arccosine approximation, on `[-1, 1]`.
pub open spec fn acos_poly_s(x: int) -> int {
    1_570_796 + fx_mul_s(
        x,
        -214_599 + fx_mul_s(
            x,
            88_979 + fx_mul_s(
                x,
                -50_174 + fx_mul_s(
                    x,
                    30_892 + fx_mul_s(x, -17_088 + fx_mul_s(x, 6_670 + fx_mul_s(x, -1_262))),
                ),
            ),
        ),
    )
}

/// Arccosine of a fixed-point cosine value in `[-1, 1]`, in micro-radians.
pub open spec fn acos_s(x: int) -> int {
    if x >= 0 {
        fx_mul_s(fx_sqrt_s(FX_ONE - x), acos_poly_s(x))
    } else {
        PI_FX - fx_mul_s(fx_sqrt_s(FX_ONE + x), acos_poly_s(-x))
    }
}

/// Arccosine after clamping the argument into `[-1, 1]`, guarding against
/// drift past the domain ends.
pub open spec fn safe_acos_s(x: int) -> int {
    acos_s(clamp_s(x, -(FX_ONE as int), FX_ONE as int))
}

/// Polynomial factor of the arccosine approximation.
fn acos_poly(x: i64) -> (r: i64)
    requires
        abs(x as int) <= 1_000_000,
    ensures
        r == acos_poly_s(x as int),
        0 < r <= 1_980_460,
{
    let t7: i64 = fx_mul(x, -1_262);
    proof {
        lemma_fx_mul_bound(x as int, -1_262, 1_000_000, 1_262);
    }
    let t6: i64 = fx_mul(x, 6_670 + t7);
    proof {
        lemma_fx_mul_bound(x as int, 6_670 + t7 as int, 1_000_000, 7_932);
    }
    let t5: i64 = fx_mul(x, -17_088 + t6);
    proof {
        lemma_fx_mul_bound(x as int, -17_088 + t6 as int, 1_000_000, 25_020);
    }
    let t4: i64 = fx_mul(x, 30_892 + t5);
    proof {
        lemma_fx_mul_bound(x as int, 30_892 + t5 as int, 1_000_000, 55_912);
    }
    let t3: i64 = fx_mul(x, -50_174 + t4);
    proof {
        lemma_fx_mul_bound(x as int, -50_174 + t4 as int, 1_000_000, 106_086);
    }
    let t2: i64 = fx_mul(x, 88_979 + t3);
    proof {
        lemma_fx_mul_bound(x as int, 88_979 + t3 as int, 1_000_000, 195_065);
    }
    let t1: i64 = fx_mul(x, -214_599 + t2);
    proof {
        lemma_fx_mul_bound(x as int, -214_599 + t2 as int, 1_000_000, 409_664);
    }
    1_570_796 + t1
}

/// Arccosine of a fixed-point cosine value in `[-1, 1]`, in micro-radians.
pub fn acos_fx(x: i64) -> (r: i64)
    requires
        abs(x as int) <= 1_000_000,
    ensures
        r == acos_s(x as int),
        -1_700_000 <= r <= 5_000_000,
{
    if x >= 0 {
        let s: i64 = fx_sqrt(FX_ONE - x);
        let p: i64 = acos_poly(x);
        proof {
            assert(is_sqrt_floor((FX_ONE - x as int) * (FX_ONE as int), s as int));
            assert(s <= 1_414_214) by (nonlinear_arith)
                requires
                    0 <= s,
                    (s as int) * (s as int) <= 2_000_000_000_000,
            ;
            lemma_fx_mul_bound(s as int, p as int, 1_414_214, 1_980_460);
            lemma_fx_mul_sign(s as int, p as int);
        }
        fx_mul(s, p)
    } else {
        let s: i64 = fx_sqrt(FX_ONE + x);
        let p: i64 = acos_poly(-x);
        proof {
            assert(is_sqrt_floor((FX_ONE + x as int) * (FX_ONE as int), s as int));
            assert(s <= 1_414_214) by (nonlinear_arith)
                requires
                    0 <= s,
                    (s as int) * (s as int) <= 2_000_000_000_000,
            ;
            lemma_fx_mul_bound(s as int, p as int, 1_414_214, 1_980_460);
            lemma_fx_mul_sign(s as int, p as int);
        }
        PI_FX - fx_mul(s, p)
    }
}

/// Arccosine with the argument clamped into `[-1, 1]` first, so drifted
/// cosine values never fall outside the domain.
pub fn safe_acos(x: i64) -> (r: i64)
    ensures
        r == safe_acos_s(x as int),
        -1_700_000 <= r <= 5_000_000,
{
    let c: i64 = fx_clamp(x, -FX_ONE, FX_ONE);
    acos_fx(c)
}

} // verus!
