//! Fixed-point scalar arithmetic.
//!
//! Every scalar in this crate is an `i64` counting millionths: `FX_ONE`
//! micro-units make one unit (one meter, one radian).  Products and quotients
//! are computed in 128-bit intermediates and truncated toward zero, which is
//! spelled out here as [`tdiv`] since `/` on `int` in specifications is
//! Euclidean division.

use vstd::arithmetic::div_mod::lemma_div_is_ordered;
use vstd::math::abs;
use vstd::prelude::*;

verus! {

/// One unit, in micro-units.
pub const FX_ONE: i64 = 1_000_000;

/// Largest magnitude the fixed-point routines accept.  Keeping inputs inside
/// this bound keeps every 128-bit intermediate product of two operands, once
/// divided by `FX_ONE`, inside `i64`.
pub const FX_LIM: i64 = 3_000_000_000_000;

/// The scalar is inside the working range of the fixed-point routines.
pub open spec fn fx_ok(a: int) -> bool {
    -(FX_LIM as int) <= a <= FX_LIM as int
}

/// Truncating (round-toward-zero) division, the behaviour of machine integer
/// division; `/` on `int` rounds toward negative infinity instead.
pub open spec fn tdiv(a: int, b: int) -> int {
    let q = (abs(a) / abs(b)) as int;
    if (a < 0) != (b < 0) {
        -q
    } else {
        q
    }
}

/// Fixed-point product: `a * b / FX_ONE`, truncated toward zero.
pub open spec fn fx_mul_s(a: int, b: int) -> int {
    tdiv(a * b, FX_ONE as int)
}

/// Fixed-point quotient: `a * FX_ONE / b`, truncated toward zero.
pub open spec fn fx_div_s(a: int, b: int) -> int {
    tdiv(a * FX_ONE, b)
}

/// `x` clamped into `[lo, hi]`.
pub open spec fn clamp_s(x: int, lo: int, hi: int) -> int {
    if x < lo {
        lo
    } else if x > hi {
        hi
    } else {
        x
    }
}

/// Magnitude distributes over products.
pub proof fn lemma_abs_mul(a: int, b: int)
    by (nonlinear_arith)
    ensures
        abs(a * b) == abs(a) * abs(b),
{
}

/// Magnitude of a truncating quotient is the quotient of the magnitudes.
pub proof fn lemma_abs_tdiv(a: int, b: int)
    requires
        b != 0,
    ensures
        abs(tdiv(a, b)) == abs(a) / abs(b),
{
}

/// Interval bound for a fixed-point product: magnitudes of the factors bound
/// the magnitude of the product.
pub proof fn lemma_fx_mul_bound(a: int, b: int, aa: int, bb: int)
    requires
        abs(a) <= aa,
        abs(b) <= bb,
    ensures
        abs(fx_mul_s(a, b)) as int <= aa * bb / (FX_ONE as int),
{
    lemma_abs_tdiv(a * b, FX_ONE as int);
    lemma_abs_mul(a, b);
    assert(abs(a) * abs(b) <= aa * bb) by (nonlinear_arith)
        requires
            abs(a) <= aa,
            abs(b) <= bb,
    ;
    lemma_div_is_ordered((abs(a) * abs(b)) as int, aa * bb, FX_ONE as int);
}

/// Interval bound for a quotient of non-negative integers: a ceiling on the
/// numerator and a floor on the denominator bound the quotient.
pub proof fn lemma_div_bound(p: int, q: int, pmax: int, qmin: int)
    requires
        0 <= p <= pmax,
        1 <= qmin <= q,
    ensures
        p / q <= pmax / qmin,
{
    lemma_div_is_ordered(p, pmax, q);
    vstd::arithmetic::div_mod::lemma_div_is_ordered_by_denominator(pmax, qmin, q);
}

/// A fixed-point product of two non-negative scalars is non-negative, and of
/// a non-negative and a non-positive scalar non-positive.
pub proof fn lemma_fx_mul_sign(a: int, b: int)
    ensures
        a >= 0 && b >= 0 ==> fx_mul_s(a, b) >= 0,
        a >= 0 && b <= 0 ==> fx_mul_s(a, b) <= 0,
        a <= 0 && b >= 0 ==> fx_mul_s(a, b) <= 0,
        a <= 0 && b <= 0 ==> fx_mul_s(a, b) >= 0,
{
    assert(a >= 0 && b >= 0 ==> a * b >= 0) by (nonlinear_arith);
    assert(a >= 0 && b <= 0 ==> a * b <= 0) by (nonlinear_arith);
    assert(a <= 0 && b >= 0 ==> a * b <= 0) by (nonlinear_arith);
    assert(a <= 0 && b <= 0 ==> a * b >= 0) by (nonlinear_arith);
}

/// Magnitude of `a`.  The working range excludes `i64::MIN`, so negation is
/// safe.
pub fn fx_abs(a: i64) -> (r: i64)
    requires
        fx_ok(a as int),
    ensures
        r == abs(a as int),
{
    if a < 0 {
        -a
    } else {
        a
    }
}

/// Fixed-point product of two scalars.
pub fn fx_mul(a: i64, b: i64) -> (r: i64)
    requires
        fx_ok(a as int),
        fx_ok(b as int),
    ensures
        r as int == fx_mul_s(a as int, b as int),
        abs(r as int) as int == (abs(a as int) * abs(b as int)) as int / (FX_ONE as int),
{
    let neg: bool = (a < 0) != (b < 0);
    let ma: u128 = (if a < 0 {
        -a
    } else {
        a
    }) as u128;
    let mb: u128 = (if b < 0 {
        -b
    } else {
        b
    }) as u128;
    proof {
        assert(ma == abs(a as int));
        assert(mb == abs(b as int));
        assert(ma * mb <= 9_000_000_000_000_000_000_000_000) by (nonlinear_arith)
            requires
                ma <= 3_000_000_000_000,
                mb <= 3_000_000_000_000,
        ;
    }
    let p: u128 = ma * mb;
    let q: u128 = p / 1_000_000u128;
    proof {
        lemma_div_is_ordered(p as int, 9_000_000_000_000_000_000_000_000, 1_000_000);
        lemma_abs_mul(a as int, b as int);
        assert(((a as int) * (b as int) < 0) == ((((a as int) < 0) != ((b as int) < 0)) && a != 0
            && b != 0)) by (nonlinear_arith);
        assert((a as int) * (b as int) == 0 ==> p == 0) by (nonlinear_arith)
            requires
                p == abs((a as int) * (b as int)),
        ;
    }
    let qi: i64 = q as i64;
    let r: i64 = if neg {
        -qi
    } else {
        qi
    };
    proof {
        let ab = (a as int) * (b as int);
        assert(a == 0 || b == 0 ==> ab == 0) by (nonlinear_arith)
            requires
                ab == (a as int) * (b as int),
        ;
        assert(p == abs(ab));
        assert(q == abs(ab) as int / 1_000_000);
        if ab < 0 {
            assert(neg);
            assert(fx_mul_s(a as int, b as int) == -(q as int));
        } else {
            assert(fx_mul_s(a as int, b as int) == q as int);
            assert(neg ==> q == 0);
        }
        assert(r as int == fx_mul_s(a as int, b as int));
    }
    r
}

/// Fixed-point quotient of two scalars.
pub fn fx_div(a: i64, b: i64) -> (r: i64)
    requires
        fx_ok(a as int),
        fx_ok(b as int),
        b != 0,
    ensures
        r as int == fx_div_s(a as int, b as int),
        abs(r as int) as int == (abs(a as int) * (FX_ONE as nat)) as int / (abs(b as int) as int),
{
    let neg: bool = (a < 0) != (b < 0);
    let ma: u128 = (if a < 0 {
        -a
    } else {
        a
    }) as u128;
    let mb: u128 = (if b < 0 {
        -b
    } else {
        b
    }) as u128;
    proof {
        assert(ma == abs(a as int));
        assert(mb == abs(b as int));
        assert(ma * 1_000_000 <= 3_000_000_000_000_000_000) by (nonlinear_arith)
            requires
                ma <= 3_000_000_000_000,
        ;
    }
    let p: u128 = ma * 1_000_000u128;
    let q: u128 = p / mb;
    proof {
        lemma_div_is_ordered(p as int, 3_000_000_000_000_000_000, mb as int);
        assert(p / mb <= p / 1) by {
            vstd::arithmetic::div_mod::lemma_div_is_ordered_by_denominator(p as int, 1, mb as int);
        }
        lemma_abs_mul(a as int, FX_ONE as int);
    }
    let qi: i64 = q as i64;
    if neg {
        -qi
    } else {
        qi
    }
}

/// `x` clamped into `[lo, hi]`.
pub fn fx_clamp(x: i64, lo: i64, hi: i64) -> (r: i64)
    requires
        lo <= hi,
    ensures
        r as int == clamp_s(x as int, lo as int, hi as int),
{
    if x < lo {
        lo
    } else if x > hi {
        hi
    } else {
        x
    }
}

/// `r` is the integer square root of `x` rounded down.
pub open spec fn is_sqrt_floor(x: int, r: int) -> bool {
    &&& 0 <= r
    &&& r * r <= x
    &&& x < (r + 1) * (r + 1)
}

/// The integer square root of `x`, rounded down.
pub open spec fn sqrt_floor(x: int) -> int {
    choose|r: int| is_sqrt_floor(x, r)
}

proof fn lemma_sqrt_floor_witnesses(x: int, r1: int, r2: int)
    by (nonlinear_arith)
    requires
        is_sqrt_floor(x, r1),
        is_sqrt_floor(x, r2),
    ensures
        r1 == r2,
{
}

/// Any witness of [`is_sqrt_floor`] is the value of [`sqrt_floor`].
pub proof fn lemma_sqrt_floor_unique(x: int, r: int)
    requires
        is_sqrt_floor(x, r),
    ensures
        sqrt_floor(x) == r,
{
    let c = choose|c: int| is_sqrt_floor(x, c);
    lemma_sqrt_floor_witnesses(x, c, r);
}

/// Every non-negative integer has a floored square root, so [`sqrt_floor`]
/// denotes it.
pub proof fn lemma_sqrt_floor_exists(x: int)
    requires
        0 <= x,
    ensures
        is_sqrt_floor(x, sqrt_floor(x)),
    decreases x,
{
    if x == 0 {
        assert(is_sqrt_floor(0, 0));
        lemma_sqrt_floor_unique(0, 0);
    } else {
        lemma_sqrt_floor_exists(x - 1);
        let r = sqrt_floor(x - 1);
        if x < (r + 1) * (r + 1) {
            assert(is_sqrt_floor(x, r));
            lemma_sqrt_floor_unique(x, r);
        } else {
            assert(x == (r + 1) * (r + 1));
            assert(x < (r + 2) * (r + 2)) by (nonlinear_arith)
                requires
                    x == (r + 1) * (r + 1),
                    r >= 0,
            ;
            assert(is_sqrt_floor(x, r + 1));
            lemma_sqrt_floor_unique(x, r + 1);
        }
    }
}

/// Integer square root, rounded down, by bisection.
pub fn isqrt(x: i64) -> (r: i64)
    requires
        0 <= x <= 4_000_000_000_000_000_000,
    ensures
        r == sqrt_floor(x as int),
        is_sqrt_floor(x as int, r as int),
        0 <= r <= 2_000_000_000,
{
    let xu: u64 = x as u64;
    let mut lo: u64 = 0;
    let mut hi: u64 = 2_000_000_001;
    proof {
        assert(2_000_000_001u64 * 2_000_000_001u64 > 4_000_000_000_000_000_000) by (nonlinear_arith);
    }
    while lo + 1 < hi
        invariant
            lo < hi <= 2_000_000_001,
            lo * lo <= xu,
            xu < hi * hi,
            xu == x,
        decreases hi - lo,
    {
        let mid: u64 = lo + (hi - lo) / 2;
        proof {
            assert(lo < mid < hi);
            assert(mid * mid <= 2_000_000_001u64 * 2_000_000_001u64) by (nonlinear_arith)
                requires
                    mid <= 2_000_000_001u64,
            ;
        }
        if mid * mid <= xu {
            lo = mid;
        } else {
            hi = mid;
        }
    }
    proof {
        assert(hi == lo + 1);
        lemma_sqrt_floor_unique(x as int, lo as int);
    }
    lo as i64
}

/// Square root of a non-negative fixed-point scalar, as a fixed-point scalar:
/// `sqrt_floor(x * FX_ONE)`.
pub open spec fn fx_sqrt_s(x: int) -> int {
    sqrt_floor(x * (FX_ONE as int))
}

/// Fixed-point square root.
pub fn fx_sqrt(x: i64) -> (r: i64)
    requires
        0 <= x,
        fx_ok(x as int),
    ensures
        r == fx_sqrt_s(x as int),
        is_sqrt_floor((x as int) * (FX_ONE as int), r as int),
        0 <= r <= 2_000_000_000,
{
    isqrt(x * FX_ONE)
}

} // verus!
