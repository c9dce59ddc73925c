//! Signed Q31.32 fixed-point scalars.
//!
//! A scalar is an `i64` holding `value * FX_ONE`, i.e. 32 fractional bits.
//! Every operation is total: results whose magnitude would exceed `FX_MAX`
//! saturate symmetrically, so negation is always defined and no operation
//! can overflow or panic.

use vstd::prelude::*;

verus! {

/// The fixed-point representation of 1 (2^32).
pub const FX_ONE: i64 = 4294967296;

/// Largest magnitude a scalar may take; saturation bound (i64::MAX).
pub const FX_MAX: i64 = 9223372036854775807;

/// The fixed-point representation of one half.
pub const FX_HALF: i64 = 2147483648;

/// Magnitude of a mathematical integer.
pub open spec fn mag(x: int) -> int {
    if x >= 0 {
        x
    } else {
        -x
    }
}

/// Saturate to the symmetric range [-FX_MAX, FX_MAX].
pub open spec fn clip(x: int) -> int {
    if x > FX_MAX as int {
        FX_MAX as int
    } else if x < -(FX_MAX as int) {
        -(FX_MAX as int)
    } else {
        x
    }
}

/// Divide by a positive divisor, rounding toward zero.
pub open spec fn scale_down(x: int, d: int) -> int
    recommends
        d > 0,
{
    if x >= 0 {
        x / d
    } else {
        -((-x) / d)
    }
}

/// What fixed-point addition returns.
pub open spec fn fx_add_spec(a: i64, b: i64) -> i64 {
    clip(a + b) as i64
}

/// What fixed-point subtraction returns.
pub open spec fn fx_sub_spec(a: i64, b: i64) -> i64 {
    clip(a - b) as i64
}

/// What fixed-point negation returns.
pub open spec fn fx_neg_spec(a: i64) -> i64 {
    clip(-a) as i64
}

/// What fixed-point multiplication returns: the exact product scaled back
/// down by FX_ONE, truncated toward zero, then saturated.
pub open spec fn fx_mul_spec(a: i64, b: i64) -> i64 {
    clip(scale_down(a * b, FX_ONE as int)) as i64
}

/// What fixed-point division returns: the exact quotient scaled up by
/// FX_ONE, truncated toward zero, then saturated.
pub open spec fn fx_div_spec(a: i64, b: i64) -> i64
    recommends
        b != 0,
{
    if (a < 0) != (b < 0) {
        clip(-((mag(a as int) * FX_ONE) / mag(b as int))) as i64
    } else {
        clip((mag(a as int) * FX_ONE) / mag(b as int)) as i64
    }
}

/// Floor of the square root of a natural number, defined by counting up.
pub open spec fn sqrt_floor(n: nat) -> nat
    decreases n,
{
    if n == 0 {
        0
    } else {
        let r = sqrt_floor((n - 1) as nat);
        if (r + 1) * (r + 1) <= n {
            r + 1
        } else {
            r
        }
    }
}

/// `sqrt_floor(n)` is the unique r with r^2 <= n < (r+1)^2.
pub proof fn lemma_sqrt_floor(n: nat)
    ensures
        sqrt_floor(n) * sqrt_floor(n) <= n,
        n < (sqrt_floor(n) + 1) * (sqrt_floor(n) + 1),
    decreases n,
{
    if n == 0 {
        assert(sqrt_floor(0) == 0);
        assert(sqrt_floor(n) * sqrt_floor(n) <= n);
        assert((sqrt_floor(n) + 1) * (sqrt_floor(n) + 1) == 1) by (nonlinear_arith)
            requires
                sqrt_floor(n) == 0,
        ;
        assert(n < (sqrt_floor(n) + 1) * (sqrt_floor(n) + 1));
    } else {
        lemma_sqrt_floor((n - 1) as nat);
        let r = sqrt_floor((n - 1) as nat);
        assert(sqrt_floor(n) == if (r + 1) * (r + 1) <= n {
            r + 1
        } else {
            r
        });
        if (r + 1) * (r + 1) <= n {
            assert((r + 1) * (r + 1) < (r + 2) * (r + 2)) by (nonlinear_arith);
            assert(n < (r + 2) * (r + 2));
        }
        assert(sqrt_floor(n) * sqrt_floor(n) <= n);
        assert(n < (sqrt_floor(n) + 1) * (sqrt_floor(n) + 1));
    }
}

/// Any r with r^2 <= n < (r+1)^2 equals sqrt_floor(n).
pub proof fn lemma_sqrt_floor_unique(n: nat, r: nat)
    requires
        r * r <= n,
        n < (r + 1) * (r + 1),
    ensures
        r == sqrt_floor(n),
{
    let s = sqrt_floor(n);
    lemma_sqrt_floor(n);
    if r < s {
        assert((r + 1) * (r + 1) <= s * s) by (nonlinear_arith)
            requires
                r + 1 <= s,
        ;
    }
    if s < r {
        assert((s + 1) * (s + 1) <= r * r) by (nonlinear_arith)
            requires
                s + 1 <= r,
        ;
    }
}

/// What the fixed-point square root returns: since a scalar a stands for
/// a/FX_ONE, its root is sqrt(a * FX_ONE), rounded down.
pub open spec fn fx_sqrt_spec(a: i64) -> i64
    recommends
        a >= 0,
{
    sqrt_floor((a * FX_ONE) as nat) as i64
}

/// Floor of the square root, by binary search.
pub fn isqrt(n: u128) -> (r: u64)
    ensures
        r == sqrt_floor(n as nat),
        r * r <= n < (r + 1) * (r + 1),
{
    let mut lo: u128 = 0;
    let mut hi: u128 = 0x10000000000000000;
    proof {
        assert(n < 0x10000000000000000 * 0x10000000000000000) by (nonlinear_arith)
            requires
                n <= u128::MAX,
        ;
    }
    while lo + 1 < hi
        invariant
            lo < hi <= 0x10000000000000000,
            lo * lo <= n,
            n < hi * hi,
        decreases hi - lo,
    {
        let mid = lo + (hi - lo) / 2;
        proof {
            assert(mid * mid <= 0xffffffffffffffff * 0xffffffffffffffff)
                by (nonlinear_arith)
                requires
                    0 <= mid <= 0xffffffffffffffff,
            ;
        }
        if mid * mid <= n {
            lo = mid;
        } else {
            hi = mid;
        }
    }
    proof {
        lemma_sqrt_floor_unique(n as nat, lo as nat);
    }
    lo as u64
}

/// Saturating fixed-point square root of a nonnegative scalar.
pub fn fx_sqrt(a: i64) -> (r: i64)
    requires
        a >= 0,
    ensures
        r == fx_sqrt_spec(a),
        r >= 0,
{
    proof {
        assert((a as int) * 0x100000000 < 0x1000000000000000000000000)
            by (nonlinear_arith)
            requires
                0 <= a < 0x8000000000000000,
        ;
    }
    let n: u128 = (a as u128) * (FX_ONE as u128);
    let r = isqrt(n);
    proof {
        assert(r < 0x1000000000000) by (nonlinear_arith)
            requires
                r * r <= n,
                n < 0x1000000000000000000000000,
        ;
    }
    r as i64
}

/// The fixed-point scalar standing for a whole number of units.
pub open spec fn fx_from_nat_spec(n: int) -> i64
    recommends
        n >= 0,
{
    clip(n * FX_ONE) as i64
}

/// Convert a count to a fixed-point scalar, saturating.
pub fn fx_from_usize(n: usize) -> (r: i64)
    ensures
        r == fx_from_nat_spec(n as int),
        r >= 0,
{
    proof {
        assert((n as int) * 0x100000000 <= 0xffffffffffffffff * 0x100000000)
            by (nonlinear_arith)
            requires
                0 <= n <= 0xffffffffffffffff,
        ;
    }
    let p: u128 = (n as u128) * (FX_ONE as u128);
    if p > FX_MAX as u128 {
        FX_MAX
    } else {
        p as i64
    }
}

/// The whole number of units a scalar stands for, at least zero.
pub open spec fn fx_to_usize_spec(x: i64) -> usize {
    if x <= 0 {
        0
    } else {
        (x / FX_ONE) as usize
    }
}

/// Convert a scalar to a whole number of units, truncating; negative
/// scalars give zero.
pub fn fx_to_usize(x: i64) -> (r: usize)
    ensures
        r == fx_to_usize_spec(x),
{
    if x <= 0 {
        0
    } else {
        ((x as u64) / (FX_ONE as u64)) as usize
    }
}

/// Multiplying two scalars of the unit interval stays in the unit interval,
/// below either factor.
pub proof fn lemma_fx_unit_mul(a: i64, b: i64)
    requires
        0 <= a <= FX_ONE,
        0 <= b <= FX_ONE,
    ensures
        0 <= fx_mul_spec(a, b),
        fx_mul_spec(a, b) <= a,
        fx_mul_spec(a, b) <= b,
{
    let p = (a as int) * (b as int);
    assert(0 <= p && p <= (a as int) * 0x100000000 && p <= (b as int) * 0x100000000)
        by (nonlinear_arith)
        requires
            0 <= a <= 0x100000000,
            0 <= b <= 0x100000000,
            p == (a as int) * (b as int),
    ;
    assert(p / 0x100000000 <= a) by (nonlinear_arith)
        requires
            0 <= p,
            p <= (a as int) * 0x100000000,
    ;
    assert(p / 0x100000000 <= b) by (nonlinear_arith)
        requires
            0 <= p,
            p <= (b as int) * 0x100000000,
    ;
    assert(p / 0x100000000 >= 0) by (nonlinear_arith)
        requires
            0 <= p,
    ;
}

/// Averaging a sum of at most `count` unit-interval scalars by multiplying
/// with the reciprocal of `count` lands back in the unit interval.
pub proof fn lemma_fx_average_unit(sum: i64, count: usize)
    requires
        1 <= count <= 0x7fffffff,
        0 <= sum <= (count as int) * (FX_ONE as int),
    ensures
        0 <= fx_mul_spec(sum, fx_div_spec(FX_ONE, fx_from_nat_spec(count as int))),
        fx_mul_spec(sum, fx_div_spec(FX_ONE, fx_from_nat_spec(count as int))) <= FX_ONE,
{
    let d = (count as int) * 0x100000000;
    assert(0x100000000 <= d <= 0x7fffffff00000000) by (nonlinear_arith)
        requires
            1 <= count <= 0x7fffffff,
            d == (count as int) * 0x100000000,
    ;
    let sfx = fx_from_nat_spec(count as int);
    assert(sfx == d);
    assert(mag(FX_ONE as int) * (FX_ONE as int) == 0x10000000000000000) by (nonlinear_arith);
    let q = 0x10000000000000000int / d;
    vstd::arithmetic::div_mod::lemma_fundamental_div_mod(0x10000000000000000int, d);
    vstd::arithmetic::div_mod::lemma_mod_bound(0x10000000000000000int, d);
    assert(0 <= q <= 0x100000000 && d * q <= 0x10000000000000000) by (nonlinear_arith)
        requires
            d >= 0x100000000,
            q == 0x10000000000000000int / d,
            0x10000000000000000int == d * q + 0x10000000000000000int % d,
            0 <= 0x10000000000000000int % d < d,
    ;
    let recip = fx_div_spec(FX_ONE, sfx);
    assert(recip == q);
    let p = (sum as int) * recip;
    assert(0 <= p <= d * q) by (nonlinear_arith)
        requires
            0 <= sum <= d,
            recip == q,
            q >= 0,
            p == (sum as int) * recip,
    ;
    assert(p / 0x100000000 >= 0) by (nonlinear_arith)
        requires
            p >= 0,
    ;
    vstd::arithmetic::div_mod::lemma_div_is_ordered(p, 0x10000000000000000int, 0x100000000int);
    assert(0x10000000000000000int / 0x100000000int == 0x100000000) by (nonlinear_arith);
}

/// Magnitude of an `i64`, as a `u64` (total, also at i64::MIN).
pub fn mag64(a: i64) -> (r: u64)
    ensures
        r == mag(a as int),
{
    if a >= 0 {
        a as u64
    } else {
        (-(a as i128)) as u64
    }
}

/// Saturating fixed-point addition.
pub fn fx_add(a: i64, b: i64) -> (r: i64)
    ensures
        r == fx_add_spec(a, b),
{
    let s: i128 = a as i128 + b as i128;
    if s > FX_MAX as i128 {
        FX_MAX
    } else if s < -(FX_MAX as i128) {
        -FX_MAX
    } else {
        s as i64
    }
}

/// Saturating fixed-point subtraction.
pub fn fx_sub(a: i64, b: i64) -> (r: i64)
    ensures
        r == fx_sub_spec(a, b),
{
    let s: i128 = a as i128 - b as i128;
    if s > FX_MAX as i128 {
        FX_MAX
    } else if s < -(FX_MAX as i128) {
        -FX_MAX
    } else {
        s as i64
    }
}

/// Saturating negation.
pub fn fx_neg(a: i64) -> (r: i64)
    ensures
        r == fx_neg_spec(a),
{
    let s: i128 = -(a as i128);
    if s > FX_MAX as i128 {
        FX_MAX
    } else {
        s as i64
    }
}

/// Saturating fixed-point multiplication.
pub fn fx_mul(a: i64, b: i64) -> (r: i64)
    ensures
        r == fx_mul_spec(a, b),
{
    let negative = (a < 0) != (b < 0);
    let ma = mag64(a);
    let mb = mag64(b);
    proof {
        assert((ma as int) * (mb as int) <= 0x8000000000000000 * 0x8000000000000000)
            by (nonlinear_arith)
            requires
                0 <= ma <= 0x8000000000000000,
                0 <= mb <= 0x8000000000000000,
        ;
    }
    let p: u128 = (ma as u128) * (mb as u128);
    proof {
        assert((ma as int) * (mb as int) == mag((a as int) * (b as int))) by (nonlinear_arith)
            requires
                ma == mag(a as int),
                mb == mag(b as int),
        ;
    }
    let m: u128 = p / (FX_ONE as u128);
    let m: u128 = if m > FX_MAX as u128 {
        FX_MAX as u128
    } else {
        m
    };
    proof {
        let ab = (a as int) * (b as int);
        assert((a as int >= 0 && b as int >= 0) ==> (a as int) * (b as int) >= 0)
            by (nonlinear_arith);
        assert((a as int <= 0 && b as int <= 0) ==> (a as int) * (b as int) >= 0)
            by (nonlinear_arith);
        assert((a as int >= 0 && b as int <= 0) ==> (a as int) * (b as int) <= 0)
            by (nonlinear_arith);
        assert((a as int <= 0 && b as int >= 0) ==> (a as int) * (b as int) <= 0)
            by (nonlinear_arith);
        if ab >= 0 {
            assert(scale_down(ab, FX_ONE as int) == mag(ab) / (FX_ONE as int));
        } else {
            assert(scale_down(ab, FX_ONE as int) == -(mag(ab) / (FX_ONE as int)));
        }
    }
    if negative {
        -(m as i64)
    } else {
        m as i64
    }
}

/// Saturating absolute value.
pub fn fx_abs(a: i64) -> (r: i64)
    ensures
        r == clip(mag(a as int)),
        r >= 0,
{
    if a < 0 {
        fx_neg(a)
    } else {
        a
    }
}

/// The smaller of two scalars.
pub fn fx_min(a: i64, b: i64) -> (r: i64)
    ensures
        r == if a as int <= b as int { a as int } else { b as int },
{
    if a <= b {
        a
    } else {
        b
    }
}

/// The larger of two scalars.
pub fn fx_max(a: i64, b: i64) -> (r: i64)
    ensures
        r == if a as int >= b as int { a as int } else { b as int },
{
    if a >= b {
        a
    } else {
        b
    }
}

/// Saturating fixed-point division; the divisor must be nonzero.
pub fn fx_div(a: i64, b: i64) -> (r: i64)
    requires
        b != 0,
    ensures
        r == fx_div_spec(a, b),
{
    let negative = (a < 0) != (b < 0);
    let ma = mag64(a);
    let mb = mag64(b);
    let p: u128 = (ma as u128) * (FX_ONE as u128);
    let m: u128 = p / (mb as u128);
    let m: u128 = if m > FX_MAX as u128 {
        FX_MAX as u128
    } else {
        m
    };
    if negative {
        -(m as i64)
    } else {
        m as i64
    }
}

} // verus!
