//! Scalar fixed-point arithmetic: every quantity in the tracer is an `i64`
//! holding the intended value times `SCALE`.  All operations round toward
//! zero, and each executable function returns exactly the value its spec-level
//! counterpart (`fmul`, `fdiv`, `fsqrt`) names.

use vstd::prelude::*;
use vstd::arithmetic::div_mod::lemma_fundamental_div_mod;
use vstd::arithmetic::div_mod::lemma_div_is_ordered;
use vstd::arithmetic::div_mod::lemma_div_pos_is_pos;
use vstd::arithmetic::div_mod::lemma_div_nonincreasing;
use vstd::arithmetic::mul::lemma_mul_is_commutative;
use vstd::arithmetic::div_mod::lemma_div_multiples_vanish;

verus! {

/// Fixed-point units per 1.0.
pub const SCALE: i64 = 1_000_000_000;

/// Quotient of `a` by a positive `b`, rounded toward zero (the rounding of
/// every fixed-point operation in this crate).
pub open spec fn tdiv(a: int, b: int) -> int {
    if a >= 0 {
        a / b
    } else {
        -((-a) / b)
    }
}

/// Exact value of the fixed-point product of `a` and `b`.
pub open spec fn fmul(a: int, b: int) -> int {
    tdiv(a * b, SCALE as int)
}

/// Exact value of the fixed-point quotient of `a` by `b` (`b != 0`).
pub open spec fn fdiv(a: int, b: int) -> int {
    if b >= 0 {
        tdiv(a * (SCALE as int), b)
    } else {
        tdiv((-a) * (SCALE as int), -b)
    }
}

/// `r` is the integer square root of `x`.
pub open spec fn is_isqrt(x: int, r: int) -> bool {
    &&& 0 <= r
    &&& r * r <= x
    &&& x < (r + 1) * (r + 1)
}

/// The integer square root of a nonnegative `x`.
pub open spec fn isqrt(x: int) -> int {
    choose|r: int| is_isqrt(x, r)
}

/// Exact value of the fixed-point square root of `x`: the root of a value at
/// scale `SCALE` is `isqrt` of the value at scale `SCALE * SCALE`.
pub open spec fn fsqrt(x: int) -> int {
    isqrt(x * (SCALE as int))
}

/// Every nonnegative integer has an integer square root.
pub proof fn lemma_isqrt_exists(x: int) -> (r: int)
    requires
        0 <= x,
    ensures
        is_isqrt(x, r),
    decreases x,
{
    if x == 0 {
        assert(is_isqrt(0, 0));
        0
    } else {
        let p = lemma_isqrt_exists(x - 1);
        if (p + 1) * (p + 1) <= x {
            assert(x < (p + 2) * (p + 2)) by (nonlinear_arith)
                requires
                    0 <= p,
                    x - 1 < (p + 1) * (p + 1),
            ;
            p + 1
        } else {
            p
        }
    }
}

/// The two `is_isqrt` inequalities determine the root completely.
pub proof fn lemma_isqrt_unique(x: int, r1: int, r2: int)
    by (nonlinear_arith)
    requires
        is_isqrt(x, r1),
        is_isqrt(x, r2),
    ensures
        r1 == r2,
{
}

/// `isqrt(x)` satisfies the `is_isqrt` inequalities.
pub proof fn lemma_isqrt(x: int)
    requires
        0 <= x,
    ensures
        is_isqrt(x, isqrt(x)),
{
    let w = lemma_isqrt_exists(x);
    assert(is_isqrt(x, w));
}

/// Truncating division leaves a remainder smaller than the divisor, on the
/// side of zero.
pub proof fn lemma_tdiv(a: int, b: int)
    requires
        0 < b,
    ensures
        a >= 0 ==> tdiv(a, b) * b <= a < tdiv(a, b) * b + b,
        a < 0 ==> tdiv(a, b) * b - b < a <= tdiv(a, b) * b,
        a >= 0 ==> 0 <= tdiv(a, b),
        a < 0 ==> tdiv(a, b) <= 0,
        a >= 0 ==> tdiv(a, b) <= a,
        a < 0 ==> a <= tdiv(a, b),
{
    if a >= 0 {
        lemma_fundamental_div_mod(a, b);
        lemma_div_pos_is_pos(a, b);
        lemma_div_nonincreasing(a, b);
        lemma_mul_is_commutative(b, a / b);
    } else {
        lemma_fundamental_div_mod(-a, b);
        lemma_div_pos_is_pos(-a, b);
        lemma_div_nonincreasing(-a, b);
        lemma_mul_is_commutative(b, (-a) / b);
        assert((-((-a) / b)) * b == -(((-a) / b) * b)) by (nonlinear_arith);
    }
}

/// A product is bounded by the product of the operands' magnitude bounds.
pub proof fn lemma_mul_abs_bound(a: int, b: int, ma: int, mb: int)
    by (nonlinear_arith)
    requires
        -ma <= a <= ma,
        -mb <= b <= mb,
    ensures
        -(ma * mb) <= a * b <= ma * mb,
{
}

/// Truncating division is monotone in the dividend.
pub proof fn lemma_tdiv_ordered(a1: int, a2: int, b: int)
    requires
        0 < b,
        a1 <= a2,
    ensures
        tdiv(a1, b) <= tdiv(a2, b),
{
    if a1 >= 0 {
        lemma_div_is_ordered(a1, a2, b);
    } else if a2 < 0 {
        lemma_div_is_ordered(-a2, -a1, b);
    } else {
        lemma_div_pos_is_pos(-a1, b);
        lemma_div_pos_is_pos(a2, b);
    }
}

/// A dividend within `m` multiples of the divisor gives a quotient within
/// `m`.
pub proof fn lemma_tdiv_bound_by_multiple(a: int, b: int, m: int)
    requires
        0 < b,
        0 <= m,
        -(m * b) <= a <= m * b,
    ensures
        -m <= tdiv(a, b) <= m,
{
    lemma_mul_is_commutative(m, b);
    lemma_div_multiples_vanish(m, b);
    vstd::arithmetic::mul::lemma_mul_nonnegative(m, b);
    assert(tdiv(m * b, b) == m);
    assert(tdiv(-(m * b), b) == -m);
    lemma_tdiv_ordered(a, m * b, b);
    lemma_tdiv_ordered(-(m * b), a, b);
}

/// Integer square root by binary search over the 64-bit root range.
pub fn isqrt_u128(x: u128) -> (r: u128)
    ensures
        r == isqrt(x as int),
        is_isqrt(x as int, r as int),
{
    let mut lo: u128 = 0;
    let mut hi: u128 = 18_446_744_073_709_551_616;
    proof {
        assert((hi as int) * (hi as int) == 0x1_0000_0000_0000_0000_0000_0000_0000_0000int);
    }
    while lo + 1 < hi
        invariant
            lo < hi <= 18_446_744_073_709_551_616,
            (lo as int) * (lo as int) <= x as int,
            (x as int) < (hi as int) * (hi as int),
        decreases hi - lo,
    {
        let mid = lo + (hi - lo) / 2;
        assert(lo < mid < hi);
        assert((mid as int) * (mid as int) <= u128::MAX as int) by (nonlinear_arith)
            requires
                mid < 18_446_744_073_709_551_616u128,
        ;
        if mid * mid <= x {
            lo = mid;
        } else {
            hi = mid;
        }
    }
    proof {
        assert(hi == lo + 1);
        assert(is_isqrt(x as int, lo as int));
        lemma_isqrt(x as int);
        lemma_isqrt_unique(x as int, lo as int, isqrt(x as int));
    }
    lo
}

/// Quotient of `a` by a positive `b`, rounded toward zero.
pub fn tdiv_i128(a: i128, b: i128) -> (r: i128)
    requires
        0 < b,
        i128::MIN < a,
    ensures
        r == tdiv(a as int, b as int),
{
    if a >= 0 {
        let q = (a as u128) / (b as u128);
        proof {
            lemma_div_nonincreasing(a as int, b as int);
            lemma_div_pos_is_pos(a as int, b as int);
        }
        q as i128
    } else {
        let n = -a;
        let q = (n as u128) / (b as u128);
        proof {
            lemma_div_nonincreasing(n as int, b as int);
            lemma_div_pos_is_pos(n as int, b as int);
        }
        -(q as i128)
    }
}

/// Fixed-point product; the exact result must fit in `i64`.
pub fn fx_mul(a: i64, b: i64) -> (r: i64)
    requires
        i64::MIN <= fmul(a as int, b as int) <= i64::MAX,
    ensures
        r == fmul(a as int, b as int),
{
    proof {
        lemma_mul_abs_bound(a as int, b as int, 0x8000_0000_0000_0000, 0x8000_0000_0000_0000);
    }
    let p: i128 = (a as i128) * (b as i128);
    let q = tdiv_i128(p, 1_000_000_000);
    q as i64
}

/// Fixed-point quotient; `b` must be nonzero and the exact result must fit.
pub fn fx_div(a: i64, b: i64) -> (r: i64)
    requires
        b != 0,
        i64::MIN <= fdiv(a as int, b as int) <= i64::MAX,
    ensures
        r == fdiv(a as int, b as int),
{
    let num: i128 = (a as i128) * 1_000_000_000;
    if b > 0 {
        let q = tdiv_i128(num, b as i128);
        q as i64
    } else {
        let q = tdiv_i128(-num, -(b as i128));
        proof {
            assert((-(a as int)) * (SCALE as int) == -((a as int) * (SCALE as int)));
        }
        q as i64
    }
}

/// Fixed-point square root of a nonnegative value.
pub fn fx_sqrt(x: i64) -> (r: i64)
    requires
        0 <= x,
    ensures
        r == fsqrt(x as int),
        is_isqrt((x as int) * (SCALE as int), r as int),
{
    let w: u128 = (x as u128) * 1_000_000_000;
    let r = isqrt_u128(w);
    proof {
        assert((r as int) * (r as int) <= w as int);
        assert(r as int <= i64::MAX as int) by (nonlinear_arith)
            requires
                0 <= r as int,
                (r as int) * (r as int) <= w as int,
                w as int <= 0x2000_0000_0000_0000_0000_0000int,
        ;
    }
    r as i64
}

} // verus!
