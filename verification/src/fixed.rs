//! Signed fixed-point arithmetic on `i64` values that count millionths.
//!
//! A value `v` stands for the real number `v / SCALE`. Products and quotients
//! round toward zero, as the sign-magnitude definitions below spell out.

use vstd::arithmetic::div_mod::{lemma_div_is_ordered, lemma_div_multiples_vanish};
use vstd::arithmetic::mul::lemma_mul_inequality;
use vstd::arithmetic::power2::pow2;
use vstd::math::abs;
use vstd::prelude::*;

verus! {

/// Fixed-point fractions per unit: one millionth resolution.
pub const SCALE: i64 = 1_000_000;

/// The fixed-point product `a * b / SCALE`, rounded toward zero.
pub open spec fn fx_mul_spec(a: int, b: int) -> int {
    if a * b >= 0 {
        (a * b) / (SCALE as int)
    } else {
        -((-(a * b)) / (SCALE as int))
    }
}

/// The fixed-point quotient `a * SCALE / b`, rounded toward zero.
pub open spec fn fx_div_spec(a: int, b: int) -> int {
    if a * b >= 0 {
        (abs(a) * (SCALE as int)) / (abs(b) as int)
    } else {
        -((abs(a) * (SCALE as int)) / (abs(b) as int))
    }
}

/// `v` forced into `[lo, hi]`.
pub open spec fn clamp_spec(v: int, lo: int, hi: int) -> int {
    if v < lo {
        lo
    } else if v > hi {
        hi
    } else {
        v
    }
}

pub proof fn lemma_abs_mul(a: int, b: int)
    ensures
        abs(a) * abs(b) == abs(a * b),
        (a >= 0 && b >= 0) || (a <= 0 && b <= 0) ==> a * b >= 0,
        (a >= 0 && b <= 0) || (a <= 0 && b >= 0) ==> a * b <= 0,
        a != 0 && b != 0 ==> a * b != 0,
{
    assert(abs(a) * abs(b) == abs(a * b) && ((a >= 0 && b >= 0) || (a <= 0 && b <= 0) ==> a * b
        >= 0) && ((a >= 0 && b <= 0) || (a <= 0 && b >= 0) ==> a * b <= 0) && (a != 0 && b != 0
        ==> a * b != 0)) by (nonlinear_arith);
}

/// A cap on both factors caps the magnitude of the truncating product.
pub proof fn lemma_fx_mul_abs_le(a: int, b: int, ca: int, cb: int, bound: int)
    requires
        abs(a) <= ca,
        abs(b) <= cb,
        ca * cb <= bound * (SCALE as int),
        0 <= bound,
    ensures
        abs(fx_mul_spec(a, b)) <= bound,
{
    lemma_abs_mul(a, b);
    assert(abs(a) * abs(b) <= ca * cb) by (nonlinear_arith)
        requires
            0 <= abs(a) <= ca,
            0 <= abs(b) <= cb,
    ;
    lemma_div_is_ordered(abs(a * b) as int, bound * (SCALE as int), SCALE as int);
    lemma_div_multiples_vanish(bound, SCALE as int);
    vstd::arithmetic::div_mod::lemma_div_pos_is_pos(abs(a * b) as int, SCALE as int);
}

/// Negating one factor negates the truncating product.
pub proof fn lemma_fx_mul_neg_left(a: int, b: int)
    ensures
        fx_mul_spec(-a, b) == -fx_mul_spec(a, b),
{
    assert((-a) * b == -(a * b)) by (nonlinear_arith);
}

/// For a base of at least one half, the first six fixed-point powers stay at
/// or above one half to the sixth.
pub proof fn lemma_fx_pow_lower_half(s: int, n: nat)
    requires
        500_000 <= s,
        n <= 6,
    ensures
        fx_pow_spec(s, n) >= 15_625,
{
    reveal_with_fuel(fx_pow_spec, 8);
    lemma_fx_pow_mono(500_000, s, n);
    assert(fx_pow_spec(500_000, 0) == 1_000_000);
    assert(fx_mul_spec(1_000_000, 500_000) == 500_000) by (nonlinear_arith);
    assert(fx_pow_spec(500_000, 1) == 500_000);
    assert(fx_mul_spec(500_000, 500_000) == 250_000) by (nonlinear_arith);
    assert(fx_pow_spec(500_000, 2) == 250_000);
    assert(fx_mul_spec(250_000, 500_000) == 125_000) by (nonlinear_arith);
    assert(fx_pow_spec(500_000, 3) == 125_000);
    assert(fx_mul_spec(125_000, 500_000) == 62_500) by (nonlinear_arith);
    assert(fx_pow_spec(500_000, 4) == 62_500);
    assert(fx_mul_spec(62_500, 500_000) == 31_250) by (nonlinear_arith);
    assert(fx_pow_spec(500_000, 5) == 31_250);
    assert(fx_mul_spec(31_250, 500_000) == 15_625) by (nonlinear_arith);
    assert(fx_pow_spec(500_000, 6) == 15_625);
}

/// Discharges `fx_mul`'s overflow bound from individual magnitude caps on
/// the two factors.
pub proof fn lemma_fx_mul_fits(a: int, b: int, ca: int, cb: int)
    requires
        abs(a) <= ca,
        abs(b) <= cb,
        ca * cb <= i64::MAX * (SCALE as int),
    ensures
        abs(a) * abs(b) <= i64::MAX * (SCALE as int),
{
    assert(abs(a) * abs(b) <= ca * cb) by (nonlinear_arith)
        requires
            0 <= abs(a) <= ca,
            0 <= abs(b) <= cb,
    ;
}

/// Fixed-point multiplication; the result rounds toward zero.
pub fn fx_mul(a: i64, b: i64) -> (r: i64)
    requires
        abs(a as int) * abs(b as int) <= i64::MAX * (SCALE as int),
    ensures
        r == fx_mul_spec(a as int, b as int),
{
    let neg: bool = (a < 0) != (b < 0);
    let ma: u128 = if a >= 0 {
        a as u128
    } else {
        (-(a as i128)) as u128
    };
    let mb: u128 = if b >= 0 {
        b as u128
    } else {
        (-(b as i128)) as u128
    };
    proof {
        lemma_abs_mul(a as int, b as int);
        assert(ma == abs(a as int) && mb == abs(b as int));
        assert(ma * mb == abs(a as int * b as int));
        lemma_div_is_ordered(
            abs(a as int * b as int) as int,
            i64::MAX * (SCALE as int),
            SCALE as int,
        );
        lemma_div_multiples_vanish(i64::MAX as int, SCALE as int);
        assert((ma * mb) as int / (SCALE as int) <= i64::MAX);
    }
    let mq: u128 = (ma * mb) / (SCALE as u128);
    if neg {
        -(mq as i64)
    } else {
        mq as i64
    }
}

/// Fixed-point division; the result rounds toward zero.
pub fn fx_div(a: i64, b: i64) -> (r: i64)
    requires
        b != 0,
        abs(a as int) <= 9_000_000_000_000,
    ensures
        r == fx_div_spec(a as int, b as int),
{
    let neg: bool = (a < 0) != (b < 0);
    let ma: u128 = if a >= 0 {
        a as u128
    } else {
        (-(a as i128)) as u128
    };
    let mb: u128 = if b >= 0 {
        b as u128
    } else {
        (-(b as i128)) as u128
    };
    proof {
        lemma_abs_mul(a as int, b as int);
        assert(ma == abs(a as int) && mb == abs(b as int));
        lemma_div_is_ordered(
            (ma as int) * (SCALE as int),
            9_000_000_000_000 * (SCALE as int),
            mb as int,
        );
        lemma_div_is_ordered_by_denominator_one(
            9_000_000_000_000int * (SCALE as int),
            mb as int,
        );
        assert((ma * (SCALE as u128)) as int / (mb as int) <= 9_000_000_000_000int * (
        SCALE as int));
        assert(9_000_000_000_000int * (SCALE as int) <= i64::MAX);
    }
    let mq: u128 = (ma * (SCALE as u128)) / mb;
    proof {
        assert(mq == (abs(a as int) * (SCALE as int)) / (abs(b as int) as int));
        if a == 0 {
            vstd::arithmetic::div_mod::lemma_div_of0(mb as int);
            assert(mq == 0);
        }
    }
    if neg {
        -(mq as i64)
    } else {
        mq as i64
    }
}

proof fn lemma_div_is_ordered_by_denominator_one(x: int, d: int)
    requires
        x >= 0,
        d >= 1,
    ensures
        x / d <= x,
{
    lemma_div_multiples_vanish(x, 1);
    vstd::arithmetic::div_mod::lemma_div_is_ordered_by_denominator(x, 1, d);
}

/// `a * b / d` rounded toward zero, for a non-negative `b` and positive `d`.
pub open spec fn mul_div_spec(a: int, b: int, d: int) -> int {
    if a >= 0 {
        (a * b) / d
    } else {
        -(((-a) * b) / d)
    }
}

/// `a * b / d` rounded toward zero; the magnitude cap on `a` keeps the
/// result within `[-b, b]`.
pub fn mul_div(a: i64, b: i64, d: i64) -> (r: i64)
    requires
        0 <= b,
        0 < d,
        abs(a as int) <= d,
    ensures
        r == mul_div_spec(a as int, b as int, d as int),
        abs(r as int) <= b,
{
    let ma: u128 = if a >= 0 {
        a as u128
    } else {
        (-(a as i128)) as u128
    };
    proof {
        assert(ma == abs(a as int));
        lemma_mul_inequality(ma as int, d as int, b as int);
        lemma_div_is_ordered((ma as int) * (b as int), (d as int) * (b as int), d as int);
        lemma_div_multiples_vanish(b as int, d as int);
        assert((d as int) * (b as int) == (b as int) * (d as int)) by (nonlinear_arith);
        assert((ma as int) * (b as int) <= u128::MAX) by (nonlinear_arith)
            requires
                0 <= ma <= 0x8000_0000_0000_0000,
                0 <= b <= i64::MAX,
        ;
        assert(((ma * (b as u128)) as int) / (d as int) <= b);
    }
    let q: u128 = (ma * (b as u128)) / (d as u128);
    if a >= 0 {
        q as i64
    } else {
        -(q as i64)
    }
}

/// `base` raised to the `n`-th power in fixed point: an `n`-fold truncating
/// product, starting from one.
pub open spec fn fx_pow_spec(base: int, n: nat) -> int
    decreases n,
{
    if n == 0 {
        SCALE as int
    } else {
        fx_mul_spec(fx_pow_spec(base, (n - 1) as nat), base)
    }
}

/// A truncating product of non-negative factors is non-negative and grows
/// with either factor.
pub proof fn lemma_fx_mul_nonneg_mono(a1: int, b1: int, a2: int, b2: int)
    requires
        0 <= a1 <= a2,
        0 <= b1 <= b2,
    ensures
        0 <= fx_mul_spec(a1, b1) <= fx_mul_spec(a2, b2),
{
    assert(0 <= a1 * b1 <= a2 * b2) by (nonlinear_arith)
        requires
            0 <= a1 <= a2,
            0 <= b1 <= b2,
    ;
    lemma_div_is_ordered(a1 * b1, a2 * b2, SCALE as int);
    vstd::arithmetic::div_mod::lemma_div_pos_is_pos(a1 * b1, SCALE as int);
}

/// Fixed-point powers of non-negative bases are non-negative and grow with
/// the base.
pub proof fn lemma_fx_pow_mono(a: int, b: int, n: nat)
    requires
        0 <= a <= b,
    ensures
        0 <= fx_pow_spec(a, n) <= fx_pow_spec(b, n),
    decreases n,
{
    if n > 0 {
        lemma_fx_pow_mono(a, b, (n - 1) as nat);
        lemma_fx_mul_nonneg_mono(fx_pow_spec(a, (n - 1) as nat), a, fx_pow_spec(b, (n - 1) as nat), b);
    }
}

/// A base of at most two stays below the corresponding power of two.
pub proof fn lemma_fx_pow_upper(base: int, n: nat)
    requires
        0 <= base <= 2 * SCALE,
    ensures
        0 <= fx_pow_spec(base, n) <= pow2(n) * SCALE,
    decreases n,
{
    vstd::arithmetic::power2::lemma_pow2_pos(n);
    if n == 0 {
        assert(pow2(0) == 1) by {
            vstd::arithmetic::power2::lemma2_to64();
        }
    } else {
        let m = (n - 1) as nat;
        lemma_fx_pow_upper(base, m);
        lemma_fx_mul_nonneg_mono(fx_pow_spec(base, m), base, pow2(m) * SCALE, 2 * SCALE);
        assert(fx_mul_spec(pow2(m) * SCALE, 2 * SCALE) == pow2(m) * 2 * SCALE) by {
            assert((pow2(m) * SCALE) * (2 * SCALE) == (pow2(m) * 2 * SCALE) * SCALE)
                by (nonlinear_arith);
            lemma_div_multiples_vanish(pow2(m) * 2 * SCALE, SCALE as int);
        }
        assert(pow2(n) == 2 * pow2(m)) by {
            vstd::arithmetic::power2::lemma_pow2_unfold(n);
        }
    }
}

/// `base` raised to `n` in fixed point.
pub fn fx_pow(base: i64, n: u32) -> (r: i64)
    requires
        0 <= base <= 2 * SCALE,
        n <= 40,
    ensures
        r == fx_pow_spec(base as int, n as nat),
        0 <= r,
{
    let mut acc: i64 = SCALE;
    let mut i: u32 = 0;
    proof {
        vstd::arithmetic::power2::lemma2_to64();
    }
    while i < n
        invariant
            i <= n <= 40,
            0 <= base <= 2 * SCALE,
            acc == fx_pow_spec(base as int, i as nat),
            0 <= acc <= pow2(i as nat) * SCALE,
        decreases n - i,
    {
        proof {
            lemma_fx_pow_upper(base as int, (i + 1) as nat);
            lemma_fx_pow_upper(base as int, i as nat);
            assert(pow2(i as nat) <= pow2(40)) by {
                vstd::arithmetic::power2::lemma_pow2_adds((i as nat), (40 - i) as nat);
                vstd::arithmetic::power2::lemma_pow2_pos((40 - i) as nat);
                lemma_mul_inequality(1, pow2((40 - i) as nat) as int, pow2(i as nat) as int);
                assert(pow2(i as nat) * pow2((40 - i) as nat) >= pow2(i as nat) * 1)
                    by (nonlinear_arith)
                    requires
                        pow2((40 - i) as nat) >= 1,
                        pow2(i as nat) >= 0,
                ;
            }
            assert(pow2(40) == 0x10000000000) by {
                vstd::arithmetic::power2::lemma2_to64_rest();
            }
            assert(abs(acc as int) * abs(base as int) <= i64::MAX * (SCALE as int))
                by (nonlinear_arith)
                requires
                    0 <= acc <= 0x10000000000 * SCALE,
                    0 <= base <= 2 * SCALE,
                    SCALE == 1_000_000,
            ;
        }
        acc = fx_mul(acc, base);
        i = i + 1;
    }
    acc
}

/// What it means for `r` to be the fixed-point tenth root of `s`: the largest
/// value whose tenth power still fits under `s`.
pub open spec fn is_root10(s: int, r: int) -> bool {
    0 <= r && fx_pow_spec(r, 10) <= s && s < fx_pow_spec(r + 1, 10)
}

/// The fixed-point tenth root of `s`, as a value: the unique `r` with
/// `is_root10(s, r)`.
pub open spec fn fx_root10_spec(s: int) -> int {
    choose|r: int| is_root10(s, r)
}

/// Two values that both satisfy `is_root10` for the same `s` are equal.
pub proof fn lemma_root10_unique(s: int, r1: int, r2: int)
    requires
        is_root10(s, r1),
        is_root10(s, r2),
    ensures
        r1 == r2,
{
    if r1 < r2 {
        lemma_fx_pow_mono(r1 + 1, r2, 10);
    }
    if r2 < r1 {
        lemma_fx_pow_mono(r2 + 1, r1, 10);
    }
}

/// The fixed-point tenth root, found by binary search; it gives a fractional
/// scroll step its share of the zoom ratio.
pub fn fx_root10(s: i64) -> (r: i64)
    requires
        0 < s <= 2 * SCALE,
    ensures
        is_root10(s as int, r as int),
        r == fx_root10_spec(s as int),
        0 <= r < 1_300_000,
{
    proof {
        assert(fx_pow_spec(0, 10) == 0 && fx_pow_spec(1_300_000, 10) > 2 * SCALE) by {
            reveal_with_fuel(fx_pow_spec, 11);
        }
    }
    let mut lo: i64 = 0;
    let mut hi: i64 = 1_300_000;
    while lo + 1 < hi
        invariant
            0 <= lo < hi <= 1_300_000,
            0 < s <= 2 * SCALE,
            fx_pow_spec(lo as int, 10) <= s,
            s < fx_pow_spec(hi as int, 10),
        decreases hi - lo,
    {
        let mid: i64 = lo + ((hi - lo) as u64 / 2) as i64;
        let p = fx_pow(mid, 10);
        if p <= s {
            lo = mid;
        } else {
            hi = mid;
        }
    }
    proof {
        assert(is_root10(s as int, lo as int));
        assert(exists|r: int| is_root10(s as int, r));
        lemma_root10_unique(s as int, lo as int, fx_root10_spec(s as int));
    }
    lo
}

/// `v` forced into `[lo, hi]`; mirrors how the controller bounds angles.
pub fn clamp(v: i64, lo: i64, hi: i64) -> (r: i64)
    requires
        lo <= hi,
    ensures
        r == clamp_spec(v as int, lo as int, hi as int),
        lo <= r <= hi,
{
    if v < lo {
        lo
    } else if v > hi {
        hi
    } else {
        v
    }
}

} // verus!
