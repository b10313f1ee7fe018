//! Fixed-point arithmetic for the viewer core.
//!
//! All world-space quantities in the library are integers counting
//! thousandths of a unit (`MILLI` per unit). This module holds the
//! scalar helpers the rest of the library is specified with: clamping,
//! truncating division (the rounding executable signed division uses),
//! Euclidean remainder for angle wrap-around, and the floor integer
//! square root used for vector lengths.

use vstd::prelude::*;

verus! {

/// Fixed-point scale: the number of steps per world unit.
pub const MILLI: i64 = 1000;

/// `x` forced into the closed interval `[lo, hi]`.
pub open spec fn clamp_spec(x: int, lo: int, hi: int) -> int {
    if x < lo {
        lo
    } else if x > hi {
        hi
    } else {
        x
    }
}

/// Quotient of `a / b` rounded toward zero, the rounding that Rust's
/// executable signed division performs (spec-mode `/` is Euclidean).
pub open spec fn div_trunc_spec(a: int, b: int) -> int {
    if a >= 0 {
        a / b
    } else {
        -((-a) / b)
    }
}

/// Floor of the square root: the greatest `r >= 0` with `r * r <= n`.
pub open spec fn sqrt_floor(n: int) -> int
    decreases n,
{
    if n <= 0 {
        0
    } else {
        let r = sqrt_floor(n - 1);
        if (r + 1) * (r + 1) <= n {
            r + 1
        } else {
            r
        }
    }
}

/// `sqrt_floor` is what its name says: the greatest integer whose
/// square does not exceed `n`.
pub proof fn lemma_sqrt_floor_bounds(n: int)
    requires
        n >= 0,
    ensures
        sqrt_floor(n) >= 0,
        sqrt_floor(n) * sqrt_floor(n) <= n,
        n < (sqrt_floor(n) + 1) * (sqrt_floor(n) + 1),
    decreases n,
{
    if n > 0 {
        lemma_sqrt_floor_bounds(n - 1);
        let r = sqrt_floor(n - 1);
        assert((r + 1) * (r + 1) < (r + 2) * (r + 2)) by (nonlinear_arith)
            requires
                r >= 0,
        ;
    }
}

/// Only one integer squares to at most `n` with its successor past it.
pub proof fn lemma_sqrt_floor_unique(n: int, r: int)
    requires
        n >= 0,
        r >= 0,
        r * r <= n,
        n < (r + 1) * (r + 1),
    ensures
        r == sqrt_floor(n),
{
    let s = sqrt_floor(n);
    lemma_sqrt_floor_bounds(n);
    if r < s {
        assert((r + 1) * (r + 1) <= s * s) by (nonlinear_arith)
            requires
                0 <= r,
                r < s,
        ;
    }
    if s < r {
        assert((s + 1) * (s + 1) <= r * r) by (nonlinear_arith)
            requires
                0 <= s,
                s < r,
        ;
    }
}

/// Truncating division by a positive divisor cannot grow past the
/// quotient bound: `|a| <= k * b` gives `|a / b| <= k`.
pub proof fn lemma_div_trunc_bound(a: int, b: int, k: int)
    requires
        b > 0,
        k >= 0,
        -(k * b) <= a <= k * b,
    ensures
        -k <= div_trunc_spec(a, b) <= k,
{
    if a >= 0 {
        vstd::arithmetic::div_mod::lemma_div_pos_is_pos(a, b);
        vstd::arithmetic::div_mod::lemma_div_is_ordered(a, k * b, b);
        vstd::arithmetic::div_mod::lemma_div_multiples_vanish(k, b);
        assert(k * b == b * k) by (nonlinear_arith);
    } else {
        vstd::arithmetic::div_mod::lemma_div_pos_is_pos(-a, b);
        vstd::arithmetic::div_mod::lemma_div_is_ordered(-a, k * b, b);
        vstd::arithmetic::div_mod::lemma_div_multiples_vanish(k, b);
        assert(k * b == b * k) by (nonlinear_arith);
    }
}

/// Remainder form of truncating division: the remainder is smaller in
/// magnitude than the divisor and carries the sign of the dividend.
pub proof fn lemma_div_trunc_rem(a: int, b: int)
    requires
        b > 0,
    ensures
        ({
            let r = a - b * div_trunc_spec(a, b);
            &&& -b < r < b
            &&& a >= 0 ==> r >= 0
            &&& a <= 0 ==> r <= 0
        }),
{
    if a >= 0 {
        vstd::arithmetic::div_mod::lemma_fundamental_div_mod(a, b);
        vstd::arithmetic::div_mod::lemma_mod_bound(a, b);
    } else {
        vstd::arithmetic::div_mod::lemma_fundamental_div_mod(-a, b);
        vstd::arithmetic::div_mod::lemma_mod_bound(-a, b);
        let p = (-a) / b;
        assert(b * (-p) == -(b * p)) by (nonlinear_arith);
    }
}

/// `x` clamped into `[lo, hi]`.
pub fn clamp_i64(x: i64, lo: i64, hi: i64) -> (r: i64)
    requires
        lo <= hi,
    ensures
        r == clamp_spec(x as int, lo as int, hi as int),
{
    if x < lo {
        lo
    } else if x > hi {
        hi
    } else {
        x
    }
}

/// Truncating signed division, computed over the unsigned quotient so
/// that the result is pinned to `div_trunc_spec` exactly.
pub fn div_trunc_i128(a: i128, b: i128) -> (r: i128)
    requires
        b > 0,
        a > i128::MIN,
    ensures
        r == div_trunc_spec(a as int, b as int),
{
    if a >= 0 {
        (((a as u128) / (b as u128)) as i128)
    } else {
        let neg = -a;
        let q = (neg as u128) / (b as u128);
        assert(q <= neg as u128);
        -(q as i128)
    }
}

/// Euclidean remainder of `a` modulo `m`, always in `[0, m)`; spec-mode
/// `%` already has this meaning for a positive modulus.
pub fn mod_euclid_i64(a: i64, m: i64) -> (r: i64)
    requires
        m > 0,
        a > i64::MIN,
    ensures
        r == (a as int) % (m as int),
        0 <= r < m,
{
    if a >= 0 {
        ((a as u64) % (m as u64)) as i64
    } else {
        let neg = -a;
        let s = ((neg as u64) % (m as u64)) as i64;
        proof {
            let ni = neg as int;
            let mi = m as int;
            let q = ni / mi;
            vstd::arithmetic::div_mod::lemma_fundamental_div_mod(ni, mi);
            vstd::arithmetic::div_mod::lemma_mod_bound(ni, mi);
            assert(s as int == ni % mi);
            if s == 0 {
                assert(a as int == (-q) * mi + 0) by (nonlinear_arith)
                    requires
                        ni == mi * q + 0,
                        a as int == -ni,
                ;
                vstd::arithmetic::div_mod::lemma_fundamental_div_mod_converse(
                    a as int, mi, -q, 0);
            } else {
                assert(a as int == (-q - 1) * mi + (mi - s as int)) by (nonlinear_arith)
                    requires
                        ni == mi * q + (s as int),
                        a as int == -ni,
                ;
                vstd::arithmetic::div_mod::lemma_fundamental_div_mod_converse(
                    a as int, mi, -q - 1, mi - s as int);
            }
        }
        if s == 0 {
            0
        } else {
            m - s
        }
    }
}

/// Floor square root of a 128-bit value by binary search.
pub fn isqrt_u128(n: u128) -> (r: u64)
    ensures
        (r as int) * (r as int) <= n as int,
        n < ((r as int) + 1) * ((r as int) + 1),
        r as int == sqrt_floor(n as int),
{
    let mut lo: u64 = 0;
    let mut hi: u64 = u64::MAX;
    if n < u64::MAX as u128 {
        // the root of n is at most n itself
        hi = n as u64;
    }
    proof {
        assert((hi as int + 1) * (hi as int + 1) > n as int) by (nonlinear_arith)
            requires
                n as int <= hi as int || hi as int == u64::MAX as int,
                hi >= 0,
                n < 0x100000000000000000000000000000000,
                u64::MAX as int == 0xffffffffffffffff,
        ;
    }
    while lo < hi
        invariant
            (lo as int) * (lo as int) <= n as int,
            (n as int) < (hi as int + 1) * (hi as int + 1),
            lo <= hi,
        decreases hi - lo,
    {
        let mid = hi - (hi - lo) / 2;
        proof {
            assert((mid as int) * (mid as int) < 0x100000000000000000000000000000000int)
                by (nonlinear_arith)
                requires
                    0 <= mid as int <= 0xffffffffffffffffint,
            ;
        }
        if (mid as u128) * (mid as u128) <= n {
            lo = mid;
        } else {
            hi = mid - 1;
        }
    }
    proof {
        lemma_sqrt_floor_unique(n as int, lo as int);
    }
    lo
}

} // verus!
