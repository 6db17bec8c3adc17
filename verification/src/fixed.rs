//! Exact fixed-point scalar arithmetic.
//!
//! Every length, coordinate and matrix entry in the crate is an
//! integer count of millionths, so the whole camera pipeline is
//! ordinary integer arithmetic with exact contracts.  This module
//! holds the scalar tools: truncating division (the rounding the
//! hardware performs), a widened multiply-then-divide, and an integer
//! square root.

use vstd::prelude::*;
use vstd::arithmetic::div_mod::{
    lemma_div_is_ordered, lemma_div_nonincreasing, lemma_div_pos_is_pos,
};

verus! {

/// Number of fixed-point steps in one unit of length: all
/// coordinates, speeds and matrix entries are counts of millionths.
pub const SCALE: i64 = 1_000_000;

/// Magnitude of a mathematical integer.
pub open spec fn absi(a: int) -> int {
    if a < 0 {
        -a
    } else {
        a
    }
}

/// Division rounding toward zero, the semantics of machine integer
/// division; meaningful only for a nonzero divisor.
pub open spec fn divt(a: int, b: int) -> int {
    if (a < 0) == (b < 0) {
        absi(a) / absi(b)
    } else {
        -(absi(a) / absi(b))
    }
}

/// The quotient of a truncating division is no larger in magnitude
/// than any bound on the dividend.
pub proof fn lemma_divt_bound(a: int, b: int, m: int)
    requires
        b != 0,
        absi(a) <= m,
    ensures
        absi(divt(a, b)) <= m,
{
    lemma_div_pos_is_pos(absi(a), absi(b));
    lemma_div_nonincreasing(absi(a), absi(b));
    lemma_div_is_ordered(absi(a), m, absi(b));
    lemma_div_nonincreasing(m, absi(b));
}

/// A dividend within `c` times the divisor yields a quotient within
/// `c`.
pub proof fn lemma_divt_quotient_bound(a: int, d: int, c: int)
    requires
        0 < d,
        0 <= c,
        absi(a) <= c * d,
    ensures
        -c <= divt(a, d) <= c,
{
    lemma_div_pos_is_pos(absi(a), d);
    lemma_div_is_ordered(absi(a), c * d, d);
    vstd::arithmetic::div_mod::lemma_div_multiples_vanish(c, d);
    assert(c * d == d * c) by (nonlinear_arith);
}

/// What a truncating division drops: the quotient times the divisor
/// falls short of the dividend by less than the divisor, and never
/// overshoots it.
pub proof fn lemma_divt_remainder(a: int, b: int)
    requires
        0 < b,
    ensures
        absi(a - divt(a, b) * b) < b,
        absi(divt(a, b) * b) <= absi(a),
{
    let q = absi(a) / b;
    vstd::arithmetic::div_mod::lemma_fundamental_div_mod(absi(a), b);
    vstd::arithmetic::div_mod::lemma_mod_division_less_than_divisor(absi(a), b);
    lemma_div_pos_is_pos(absi(a), b);
    if a >= 0 {
        assert(divt(a, b) == q);
        assert(a - q * b == absi(a) % b && q * b >= 0 && q * b <= absi(a)) by (nonlinear_arith)
            requires
                absi(a) == b * q + absi(a) % b,
                a >= 0,
                absi(a) == a,
                q >= 0,
                b > 0,
                0 <= absi(a) % b < b,
        ;
    } else {
        assert(divt(a, b) == -q);
        assert(a - (-q) * b == -(absi(a) % b) && (-q) * b == -(q * b) && q * b >= 0 && q * b
            <= absi(a)) by (nonlinear_arith)
            requires
                absi(a) == b * q + absi(a) % b,
                a < 0,
                absi(a) == -a,
                q >= 0,
                b > 0,
                0 <= absi(a) % b < b,
        ;
    }
}

/// Truncating division of a wide intermediate by a nonzero divisor.
pub(crate) fn div_wide(a: i128, d: i128) -> (r: i128)
    requires
        d != 0,
        i128::MIN < a,
        i128::MIN < d,
    ensures
        r == divt(a as int, d as int),
{
    proof {
        lemma_div_pos_is_pos(absi(a as int), absi(d as int));
        lemma_div_nonincreasing(absi(a as int), absi(d as int));
    }
    let am: u128 = if a >= 0 {
        a as u128
    } else {
        (-a) as u128
    };
    let dm: u128 = if d >= 0 {
        d as u128
    } else {
        (-d) as u128
    };
    let q: u128 = am / dm;
    if (a >= 0) == (d >= 0) {
        q as i128
    } else {
        -(q as i128)
    }
}

/// Widened product of two fixed-point scalars divided by a third,
/// rounded toward zero.
pub(crate) fn mul_div(a: i64, b: i64, d: i64) -> (r: i64)
    requires
        d != 0,
        i64::MIN < divt(a * b, d as int) <= i64::MAX,
    ensures
        r == divt(a * b, d as int),
{
    proof {
        assert((a as int) * (b as int) < i128::MAX && i128::MIN < (a as int) * (b as int))
            by (nonlinear_arith)
            requires
                i64::MIN <= a <= i64::MAX,
                i64::MIN <= b <= i64::MAX,
        ;
    }
    let p: i128 = (a as i128) * (b as i128);
    let q: i128 = div_wide(p, d as i128);
    q as i64
}

/// The integer square root: greatest `r` with `r * r <= n`, taken as
/// `0` below zero.
pub open spec fn sqrt_floor(n: int) -> int
    decreases n,
{
    if n <= 0 {
        0
    } else {
        let r = sqrt_floor(n - 1);
        if (r + 1) * (r + 1) <= n {
            r + 1
        } else {
            r
        }
    }
}

/// The square root brackets its argument between consecutive
/// squares.
pub proof fn lemma_sqrt_floor(n: int)
    requires
        n >= 0,
    ensures
        0 <= sqrt_floor(n),
        sqrt_floor(n) * sqrt_floor(n) <= n,
        n < (sqrt_floor(n) + 1) * (sqrt_floor(n) + 1),
    decreases n,
{
    if n > 0 {
        lemma_sqrt_floor(n - 1);
        let r = sqrt_floor(n - 1);
        if (r + 1) * (r + 1) <= n {
            assert(n < (r + 2) * (r + 2)) by (nonlinear_arith)
                requires
                    n <= (r + 1) * (r + 1),
                    r >= 0,
            ;
        }
    }
}

/// Any value meeting the square-root bracketing is the square root.
pub proof fn lemma_sqrt_unique(n: int, r: int)
    requires
        n >= 0,
        r >= 0,
        r * r <= n,
        n < (r + 1) * (r + 1),
    ensures
        r == sqrt_floor(n),
{
    lemma_sqrt_floor(n);
    let s = sqrt_floor(n);
    if r < s {
        assert(false) by (nonlinear_arith)
            requires
                0 <= r < s,
                s * s <= n,
                n < (r + 1) * (r + 1),
        ;
    }
    if s < r {
        assert(false) by (nonlinear_arith)
            requires
                0 <= s < r,
                r * r <= n,
                n < (s + 1) * (s + 1),
        ;
    }
}

/// Square roots are ordered with their arguments.
pub proof fn lemma_sqrt_ordered(a: int, b: int)
    requires
        0 <= a <= b,
    ensures
        sqrt_floor(a) <= sqrt_floor(b),
{
    lemma_sqrt_floor(a);
    lemma_sqrt_floor(b);
    if sqrt_floor(b) < sqrt_floor(a) {
        assert(false) by (nonlinear_arith)
            requires
                0 <= sqrt_floor(b) < sqrt_floor(a),
                sqrt_floor(a) * sqrt_floor(a) <= a,
                b < (sqrt_floor(b) + 1) * (sqrt_floor(b) + 1),
                a <= b,
        ;
    }
}

/// Executable integer square root by bisection.
pub fn isqrt(n: u128) -> (r: u128)
    ensures
        r == sqrt_floor(n as int),
        r * r <= n,
        n < (r + 1) * (r + 1),
{
    let mut lo: u128 = 0;
    let mut hi: u128 = 0x1_0000_0000_0000_0000;
    proof {
        assert(n < hi * hi) by (nonlinear_arith)
            requires
                hi == 0x1_0000_0000_0000_0000,
                n <= u128::MAX,
        ;
    }
    while lo + 1 < hi
        invariant
            lo < hi,
            hi <= 0x1_0000_0000_0000_0000,
            lo * lo <= n,
            n < hi * hi,
        decreases hi - lo,
    {
        let mid: u128 = lo + (hi - lo) / 2;
        assert(lo < mid < hi);
        proof {
            assert(mid * mid <= u128::MAX) by (nonlinear_arith)
                requires
                    mid < 0x1_0000_0000_0000_0000u128,
            ;
        }
        let sq: u128 = mid * mid;
        if sq <= n {
            lo = mid;
        } else {
            hi = mid;
        }
    }
    proof {
        lemma_sqrt_unique(n as int, lo as int);
    }
    lo
}

} // verus!
