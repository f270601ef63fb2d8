//! Scaled-integer arithmetic helpers shared by the estimators and the
//! path engine: truncating division (what the hardware's `/` does on a
//! possibly negative numerator) and integer square roots.

use vstd::prelude::*;

verus! {

/// Division that rounds toward zero, the way machine division does.
/// In specifications `/` on `int` is Euclidean, so the contracts of the
/// fixed-point routines are written over this function instead.
pub open spec fn tdiv(a: int, d: int) -> int
    recommends
        d > 0,
{
    if a >= 0 {
        a / d
    } else {
        -((-a) / d)
    }
}

/// Truncating division of a scaled value by a positive scale.
pub fn div_trunc(a: i64, d: i64) -> (r: i64)
    requires
        d > 0,
        a > i64::MIN,
    ensures
        r == tdiv(a as int, d as int),
{
    if a >= 0 {
        a / d
    } else {
        -((-a) / d)
    }
}

/// Largest `r` with `r * r <= n`.
pub open spec fn sqrt_floor(n: nat) -> nat
    decreases n,
{
    if n == 0 {
        0
    } else {
        let r = sqrt_floor((n - 1) as nat);
        if (r + 1) * (r + 1) <= n {
            r + 1
        } else {
            r
        }
    }
}

/// `sqrt_floor` is exactly the floor of the real square root.
pub proof fn lemma_sqrt_floor_bounds(n: nat)
    ensures
        sqrt_floor(n) * sqrt_floor(n) <= n,
        n < (sqrt_floor(n) + 1) * (sqrt_floor(n) + 1),
    decreases n,
{
    if n == 0 {
        assert(sqrt_floor(n) == 0);
        assert((sqrt_floor(n) + 1) * (sqrt_floor(n) + 1) == 1) by (nonlinear_arith)
            requires
                sqrt_floor(n) == 0,
        ;
    } else {
        lemma_sqrt_floor_bounds((n - 1) as nat);
        let r = sqrt_floor((n - 1) as nat);
        assert(r * r <= n - 1 && n - 1 < (r + 1) * (r + 1));
        if (r + 1) * (r + 1) <= n {
            assert(sqrt_floor(n) == r + 1);
            assert((r + 1) * (r + 1) < (r + 2) * (r + 2)) by (nonlinear_arith)
                requires
                    r >= 0,
            ;
            assert(n < (r + 2) * (r + 2));
        } else {
            assert(sqrt_floor(n) == r);
        }
    }
}

/// Any `r` that satisfies the floor-square-root bounds is `sqrt_floor(n)`.
pub proof fn lemma_sqrt_floor_unique(n: nat, r: nat)
    requires
        r * r <= n,
        n < (r + 1) * (r + 1),
    ensures
        r == sqrt_floor(n),
{
    let s = sqrt_floor(n);
    lemma_sqrt_floor_bounds(n);
    if r < s {
        assert((r + 1) * (r + 1) <= s * s) by (nonlinear_arith)
            requires
                r + 1 <= s,
        ;
    }
    if s < r {
        assert((s + 1) * (s + 1) <= r * r) by (nonlinear_arith)
            requires
                s + 1 <= r,
        ;
    }
}

/// Floor of the square root, by bisection.
pub fn isqrt(n: u64) -> (r: u64)
    ensures
        r == sqrt_floor(n as nat),
{
    let mut lo: u64 = 0;
    let mut hi: u64 = 0x1_0000_0000;
    while hi - lo > 1
        invariant
            lo < hi,
            hi <= 0x1_0000_0000,
            (lo as int) * (lo as int) <= n as int,
            (n as int) < (hi as int) * (hi as int),
        decreases hi - lo,
    {
        let mid = lo + (hi - lo) / 2;
        proof {
            assert((mid as int) * (mid as int) <= 0x1_0000_0000 * 0x1_0000_0000)
                by (nonlinear_arith)
                requires
                    0 <= mid <= 0x1_0000_0000,
            ;
        }
        if (mid as u128) * (mid as u128) <= n as u128 {
            lo = mid;
        } else {
            hi = mid;
        }
    }
    proof {
        lemma_sqrt_floor_unique(n as nat, lo as nat);
    }
    lo
}

/// Nearest integer to the square root (ties round up).
pub open spec fn sqrt_round(n: nat) -> nat {
    let r = sqrt_floor(n);
    if n - r * r > r {
        r + 1
    } else {
        r
    }
}

/// Square root rounded to the nearest integer.
pub fn isqrt_round(n: u64) -> (r: u64)
    ensures
        r == sqrt_round(n as nat),
{
    let r = isqrt(n);
    proof {
        lemma_sqrt_floor_bounds(n as nat);
    }
    if n - r * r > r {
        r + 1
    } else {
        r
    }
}

/// A product of bounded factors is bounded by the product of the bounds.
pub proof fn lemma_mul_bound(a: int, b: int, ma: int, mb: int)
    requires
        -ma <= a <= ma,
        -mb <= b <= mb,
    ensures
        -(ma * mb) <= a * b <= ma * mb,
{
    assert(-(ma * mb) <= a * b <= ma * mb) by (nonlinear_arith)
        requires
            -ma <= a <= ma,
            -mb <= b <= mb,
    ;
}

/// Truncating division shrinks magnitudes.
pub proof fn lemma_tdiv_bound(a: int, d: int, m: int)
    requires
        d > 0,
        -m <= a <= m,
    ensures
        -m <= tdiv(a, d) <= m,
        -m <= d * tdiv(a, d) <= m,
{
    assert(-m <= tdiv(a, d) <= m && -m <= d * tdiv(a, d) <= m) by (nonlinear_arith)
        requires
            d > 0,
            -m <= a <= m,
            tdiv(a, d) == if a >= 0 {
                a / d
            } else {
                -((-a) / d)
            },
    ;
}

/// Clamp a value into `[lo, hi]`.
pub open spec fn clamp(v: int, lo: int, hi: int) -> int
    recommends
        lo <= hi,
{
    if v < lo {
        lo
    } else if v > hi {
        hi
    } else {
        v
    }
}

/// Clamp a scaled value into a symmetric or general range.
pub fn clamp_i64(v: i64, lo: i64, hi: i64) -> (r: i64)
    requires
        lo <= hi,
    ensures
        r == clamp(v as int, lo as int, hi as int),
{
    if v < lo {
        lo
    } else if v > hi {
        hi
    } else {
        v
    }
}

/// Sum guarded against leaving `[-limit, limit]`: an accumulator holds
/// its old value instead of wrapping or saturating oddly.
pub open spec fn add_guarded(a: int, b: int, limit: int) -> int {
    if -limit <= a + b <= limit {
        a + b
    } else {
        a
    }
}

/// Add into an accumulator, holding the old value if the sum would
/// leave `[-limit, limit]`.
pub fn add_guarded_i64(a: i64, b: i64, limit: i64) -> (r: i64)
    requires
        limit >= 0,
    ensures
        r == add_guarded(a as int, b as int, limit as int),
{
    let s: i128 = a as i128 + b as i128;
    if -(limit as i128) <= s && s <= limit as i128 {
        s as i64
    } else {
        a
    }
}

/// Magnitude of a value, as a spec-level integer.
pub open spec fn abs(a: int) -> int {
    if a >= 0 {
        a
    } else {
        -a
    }
}

/// Magnitude of a scaled value.
pub fn abs_i64(a: i64) -> (r: i64)
    requires
        a > i64::MIN,
    ensures
        r == abs(a as int),
{
    if a >= 0 {
        a
    } else {
        -a
    }
}

} // verus!
