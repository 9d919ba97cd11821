//! Exact fixed-point arithmetic for the simulation: an integer square root
//! and a sign-magnitude multiply-then-divide, both with full contracts.
//!
//! Division always acts on a non-negative magnitude with the sign applied
//! afterwards, so the executable result and the specification agree exactly
//! and negating the input negates the output.

use vstd::prelude::*;

verus! {

/// Number of fixed-point units per pixel: world coordinates are milli-pixels.
pub const SCALE: i64 = 1000;

/// Floor of the square root of a natural number.
pub open spec fn sqrt_floor(n: nat) -> nat
    decreases n,
{
    if n == 0 {
        0
    } else {
        let r = sqrt_floor((n - 1) as nat);
        if (r + 1) * (r + 1) <= n {
            r + 1
        } else {
            r
        }
    }
}

/// `sqrt_floor(n)` is the unique `r` with `r * r <= n < (r + 1) * (r + 1)`.
pub proof fn lemma_sqrt_floor(n: nat)
    ensures
        sqrt_floor(n) * sqrt_floor(n) <= n,
        n < (sqrt_floor(n) + 1) * (sqrt_floor(n) + 1),
    decreases n,
{
    if n == 0 {
        assert(sqrt_floor(0) == 0);
        assert(n < (sqrt_floor(n) + 1) * (sqrt_floor(n) + 1)) by (nonlinear_arith)
            requires n == 0 && sqrt_floor(n) == 0;
    } else {
        lemma_sqrt_floor((n - 1) as nat);
        let r = sqrt_floor((n - 1) as nat);
        if (r + 1) * (r + 1) <= n {
            assert(sqrt_floor(n) == r + 1);
            assert(n <= (r + 1) * (r + 1));
            assert(n < ((r + 1) + 1) * ((r + 1) + 1)) by (nonlinear_arith)
                requires n <= (r + 1) * (r + 1) && r >= 0;
        } else {
            assert(sqrt_floor(n) == r);
        }
    }
}

/// Any `r` that satisfies the square-root bracketing equals `sqrt_floor(n)`.
pub proof fn lemma_sqrt_floor_unique(n: nat, r: nat)
    requires
        r * r <= n,
        n < (r + 1) * (r + 1),
    ensures
        r == sqrt_floor(n),
{
    lemma_sqrt_floor(n);
    let s = sqrt_floor(n);
    if r < s {
        assert((r + 1) * (r + 1) <= s * s) by (nonlinear_arith)
            requires r + 1 <= s;
    } else if s < r {
        assert((s + 1) * (s + 1) <= r * r) by (nonlinear_arith)
            requires s + 1 <= r;
    }
}

/// Integer square root by bisection.
pub fn isqrt64(n: u64) -> (r: u64)
    ensures
        r == sqrt_floor(n as nat),
        r * r <= n,
        n < (r + 1) * (r + 1),
{
    let mut lo: u64 = 0;
    let mut hi: u64 = 0x1_0000_0000;
    proof {
        assert((0x1_0000_0000int) * (0x1_0000_0000int) == 0x1_0000_0000_0000_0000int)
            by (nonlinear_arith);
    }
    while lo + 1 < hi
        invariant
            lo < hi,
            hi <= 0x1_0000_0000,
            lo * lo <= n,
            n < hi * hi,
        decreases hi - lo,
    {
        let mid: u64 = lo + (hi - lo) / 2;
        assert(lo < mid < hi);
        assert(mid * mid < 0x1_0000_0000_0000_0000int) by (nonlinear_arith)
            requires mid < 0x1_0000_0000u64;
        let sq: u64 = mid * mid;
        if sq <= n {
            lo = mid;
        } else {
            hi = mid;
        }
    }
    proof {
        lemma_sqrt_floor_unique(n as nat, lo as nat);
    }
    lo
}

/// Sign-magnitude scaled ratio: the magnitude of `a` is multiplied by `num`,
/// divided by `den` rounding toward zero, and the sign of `a` restored.
pub open spec fn scaled_ratio_spec(a: int, num: int, den: int) -> int {
    if a >= 0 {
        (a * num) / den
    } else {
        -(((-a) * num) / den)
    }
}

/// Negating the first argument negates the result.
pub proof fn lemma_scaled_ratio_neg(a: int, num: int, den: int)
    requires
        den > 0,
    ensures
        scaled_ratio_spec(-a, num, den) == -scaled_ratio_spec(a, num, den),
{
    if a == 0 {
        assert(0 * num == 0);
        vstd::arithmetic::div_mod::lemma_div_of0(den);
    }
}

/// When `|a| <= den` and `num >= 0`, the result is bounded by `num`.
pub proof fn lemma_scaled_ratio_bound(a: int, num: int, den: int)
    requires
        den > 0,
        num >= 0,
        -den <= a <= den,
    ensures
        -num <= scaled_ratio_spec(a, num, den) <= num,
{
    if a >= 0 {
        lemma_mul_div_le(a, num, den);
        vstd::arithmetic::div_mod::lemma_div_pos_is_pos(a * num, den);
        vstd::arithmetic::mul::lemma_mul_nonnegative(a, num);
    } else {
        lemma_scaled_ratio_neg(-a, num, den);
        lemma_mul_div_le(-a, num, den);
        vstd::arithmetic::div_mod::lemma_div_pos_is_pos((-a) * num, den);
        vstd::arithmetic::mul::lemma_mul_nonnegative(-a, num);
    }
}

/// For `0 <= a <= den`, `(a * num) / den <= num`.
pub proof fn lemma_mul_div_le(a: int, num: int, den: int)
    requires
        den > 0,
        num >= 0,
        0 <= a <= den,
    ensures
        (a * num) / den <= num,
{
    assert(a * num <= den * num) by (nonlinear_arith)
        requires num >= 0 && a <= den;
    vstd::arithmetic::div_mod::lemma_div_is_ordered(a * num, den * num, den);
    vstd::arithmetic::div_mod::lemma_div_multiples_vanish(num, den);
}

/// The magnitude of the result is exactly the scaled magnitude of `a`, so
/// any bound on `|a| * num / den` bounds the result.
pub proof fn lemma_scaled_ratio_mag(a: int, num: int, den: int)
    requires
        den > 0,
        num >= 0,
    ensures
        scaled_ratio_spec(a, num, den) == (if a >= 0 {
            ((a * num) / den)
        } else {
            (-(((-a) * num) / den))
        }),
        a >= 0 ==> 0 <= scaled_ratio_spec(a, num, den) == (a * num) / den,
        a < 0 ==> 0 <= -scaled_ratio_spec(a, num, den) == ((-a) * num) / den,
{
    if a >= 0 {
        vstd::arithmetic::mul::lemma_mul_nonnegative(a, num);
        vstd::arithmetic::div_mod::lemma_div_pos_is_pos(a * num, den);
    } else {
        vstd::arithmetic::mul::lemma_mul_nonnegative(-a, num);
        vstd::arithmetic::div_mod::lemma_div_pos_is_pos((-a) * num, den);
    }
}

/// Executable sign-magnitude scaled ratio.
pub fn scaled_ratio(a: i64, num: u64, den: u64) -> (r: i64)
    requires
        den > 0,
        a > i64::MIN,
        (if a >= 0 { a as int } else { -a as int }) * (num as int) / (den as int) <= i64::MAX,
    ensures
        r == scaled_ratio_spec(a as int, num as int, den as int),
{
    let neg: bool = a < 0;
    let mag: u64 = if a >= 0 {
        a as u64
    } else {
        (-a) as u64
    };
    assert((mag as int) * (num as int) < 0x1_0000_0000_0000_0000_0000_0000_0000_0000int)
        by (nonlinear_arith)
        requires mag <= u64::MAX && num <= u64::MAX;
    let prod: u128 = (mag as u128) * (num as u128);
    let q128: u128 = prod / (den as u128);
    assert(q128 == (mag as int) * (num as int) / (den as int));
    let q: i64 = q128 as i64;
    if neg {
        -q
    } else {
        q
    }
}

} // verus!
