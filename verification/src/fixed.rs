//! Decimal fixed-point arithmetic: quantities are integers counted in millionths.

use vstd::prelude::*;

verus! {

/// The number of fixed-point units in one whole.
pub const SCALE: u64 = 1_000_000;

/// `r` is the square root of `x`, rounded down.
pub open spec fn is_floor_sqrt(x: int, r: int) -> bool {
    0 <= r && r * r <= x < (r + 1) * (r + 1)
}

/// The square root of `x`, rounded down (zero for a negative `x`).
pub open spec fn floor_sqrt(x: int) -> int {
    if x < 0 {
        0
    } else {
        choose|r: int| is_floor_sqrt(x, r)
    }
}

/// Squaring keeps the order of non-negative integers.
pub proof fn lemma_square_monotone(a: int, b: int)
    by (nonlinear_arith)
    requires
        0 <= a <= b,
    ensures
        a * a <= b * b,
{
}

/// At most one integer is the rounded-down square root of `x`.
pub proof fn lemma_floor_sqrt_unique(x: int, r: int, s: int)
    requires
        is_floor_sqrt(x, r),
        is_floor_sqrt(x, s),
    ensures
        r == s,
{
    if r < s {
        lemma_square_monotone(r + 1, s);
    } else if s < r {
        lemma_square_monotone(s + 1, r);
    }
}

/// Whatever satisfies the defining inequalities is the rounded-down square root.
pub proof fn lemma_floor_sqrt_is(x: int, r: int)
    requires
        is_floor_sqrt(x, r),
    ensures
        floor_sqrt(x) == r,
{
    let s = choose|s: int| is_floor_sqrt(x, s);
    lemma_floor_sqrt_unique(x, r, s);
}

/// Every non-negative integer has a rounded-down square root.
pub proof fn lemma_floor_sqrt_exists(x: int)
    requires
        0 <= x,
    ensures
        is_floor_sqrt(x, floor_sqrt(x)),
    decreases x,
{
    if x == 0 {
        assert(is_floor_sqrt(0, 0));
    } else {
        lemma_floor_sqrt_exists(x - 1);
        let r = floor_sqrt(x - 1);
        if (r + 1) * (r + 1) <= x {
            assert(is_floor_sqrt(x, r + 1)) by (nonlinear_arith)
                requires
                    0 <= r,
                    (r + 1) * (r + 1) <= x,
                    x - 1 < (r + 1) * (r + 1),
            ;
        } else {
            assert(is_floor_sqrt(x, r));
        }
    }
}

/// The rounded-down square root never decreases as its argument grows.
pub proof fn lemma_floor_sqrt_monotone(x: int, y: int)
    requires
        0 <= x <= y,
    ensures
        0 <= floor_sqrt(x) <= floor_sqrt(y),
{
    lemma_floor_sqrt_exists(x);
    lemma_floor_sqrt_exists(y);
    if floor_sqrt(y) < floor_sqrt(x) {
        lemma_square_monotone(floor_sqrt(y) + 1, floor_sqrt(x));
    }
}

/// Computes the square root of `x`, rounded down, by bisection.
pub fn isqrt(x: u128) -> (r: u64)
    ensures
        is_floor_sqrt(x as int, r as int),
        r as int == floor_sqrt(x as int),
{
    let mut lo: u128 = 0;
    let mut hi: u128 = 0x1_0000_0000_0000_0000;
    assert(0x1_0000_0000_0000_0000int * 0x1_0000_0000_0000_0000int > x) by (nonlinear_arith)
        requires
            x < 0x1_0000_0000_0000_0000_0000_0000_0000_0000int,
    ;
    while hi - lo > 1
        invariant
            lo < hi <= 0x1_0000_0000_0000_0000,
            lo * lo <= x < hi * hi,
        decreases hi - lo,
    {
        let mid: u128 = lo + (hi - lo) / 2;
        assert(mid * mid < 0x1_0000_0000_0000_0000_0000_0000_0000_0000int) by (nonlinear_arith)
            requires
                0 <= mid < 0x1_0000_0000_0000_0000int,
        ;
        if mid * mid <= x {
            lo = mid;
        } else {
            hi = mid;
        }
    }
    proof {
        lemma_floor_sqrt_is(x as int, lo as int);
    }
    lo as u64
}

/// Divides `a` by a positive `b`, rounding towards negative infinity.
pub fn floor_div(a: i128, b: i128) -> (q: i128)
    requires
        b > 0,
        a > i128::MIN,
    ensures
        q == a / b,
{
    if a >= 0 {
        a / b
    } else {
        let m: i128 = -a - 1;
        let t: i128 = m / b;
        assert(a / b == -(m / b) - 1) by (nonlinear_arith)
            requires
                b > 0,
                a < 0,
                m == -a - 1,
        ;
        -t - 1
    }
}

} // verus!
