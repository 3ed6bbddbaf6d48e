//! Three-component fixed-point vectors, their norms, and rescaling.

use crate::fixed::{mul_div, mul_div_spec};
use vstd::math::abs;
use vstd::prelude::*;

verus! {

/// A point or direction, each coordinate in millionths of a unit.
#[derive(Clone, Copy, PartialEq, Eq, Structural, Debug)]
pub struct Vec3Fx {
    pub x: i64,
    pub y: i64,
    pub z: i64,
}

/// The squared Euclidean norm.
pub open spec fn norm_sq_spec(v: Vec3Fx) -> int {
    v.x * v.x + v.y * v.y + v.z * v.z
}

/// What it means for `r` to be the integer square root of `n`.
pub open spec fn is_isqrt(n: int, r: int) -> bool {
    0 <= r && r * r <= n && n < (r + 1) * (r + 1)
}

/// The integer square root of `n`, as a value.
pub open spec fn isqrt_spec(n: int) -> int {
    choose|r: int| is_isqrt(n, r)
}

/// The norm of a vector: the integer square root of its squared norm.
pub open spec fn norm_spec(v: Vec3Fx) -> int {
    isqrt_spec(norm_sq_spec(v))
}

/// Two integer square roots of the same value are equal.
pub proof fn lemma_isqrt_unique(n: int, r1: int, r2: int)
    requires
        is_isqrt(n, r1),
        is_isqrt(n, r2),
    ensures
        r1 == r2,
{
    assert(r1 == r2) by (nonlinear_arith)
        requires
            0 <= r1 && r1 * r1 <= n && n < (r1 + 1) * (r1 + 1),
            0 <= r2 && r2 * r2 <= n && n < (r2 + 1) * (r2 + 1),
    ;
}

/// A square below `n` has its side below the square root of `n`.
pub proof fn lemma_isqrt_dominates(n: int, r: int, x: int)
    requires
        is_isqrt(n, r),
        x * x <= n,
    ensures
        abs(x) <= r,
{
    assert(abs(x) <= r) by (nonlinear_arith)
        requires
            0 <= r && n < (r + 1) * (r + 1),
            x * x <= n,
    ;
}

/// The integer square root, by binary search over `u128`.
fn isqrt_u128(n: u128) -> (r: u128)
    ensures
        is_isqrt(n as int, r as int),
        r == isqrt_spec(n as int),
        r < 0x1_0000_0000_0000_0000,
{
    let mut lo: u128 = 0;
    let mut hi: u128 = 0x1_0000_0000_0000_0000;
    proof {
        assert((0x1_0000_0000_0000_0000 as int) * 0x1_0000_0000_0000_0000 > u128::MAX)
            by (nonlinear_arith);
    }
    while lo + 1 < hi
        invariant
            0 <= lo < hi <= 0x1_0000_0000_0000_0000,
            (lo as int) * (lo as int) <= n,
            (n as int) < (hi as int) * (hi as int),
        decreases hi - lo,
    {
        let mid: u128 = lo + (hi - lo) / 2;
        proof {
            assert((mid as int) * (mid as int) <= (0xffff_ffff_ffff_ffff as int)
                * 0xffff_ffff_ffff_ffff <= u128::MAX) by (nonlinear_arith)
                requires
                    0 <= mid <= 0xffff_ffff_ffff_ffff,
            ;
        }
        let sq: u128 = mid * mid;
        if sq <= n {
            lo = mid;
        } else {
            hi = mid;
        }
    }
    proof {
        assert(is_isqrt(n as int, lo as int));
        assert(exists|r: int| is_isqrt(n as int, r));
        lemma_isqrt_unique(n as int, lo as int, isqrt_spec(n as int));
    }
    lo
}

impl Vec3Fx {
    /// The origin.
    pub fn zero() -> (r: Vec3Fx)
        ensures
            r == (Vec3Fx { x: 0, y: 0, z: 0 }),
    {
        Vec3Fx { x: 0, y: 0, z: 0 }
    }

    /// Componentwise sum.
    pub fn add(self, other: Vec3Fx) -> (r: Vec3Fx)
        requires
            -(i64::MAX as int) <= self.x + other.x <= i64::MAX,
            -(i64::MAX as int) <= self.y + other.y <= i64::MAX,
            -(i64::MAX as int) <= self.z + other.z <= i64::MAX,
        ensures
            r.x == self.x + other.x,
            r.y == self.y + other.y,
            r.z == self.z + other.z,
    {
        Vec3Fx { x: self.x + other.x, y: self.y + other.y, z: self.z + other.z }
    }

    /// Componentwise difference.
    pub fn sub(self, other: Vec3Fx) -> (r: Vec3Fx)
        requires
            -(i64::MAX as int) <= self.x - other.x <= i64::MAX,
            -(i64::MAX as int) <= self.y - other.y <= i64::MAX,
            -(i64::MAX as int) <= self.z - other.z <= i64::MAX,
        ensures
            r.x == self.x - other.x,
            r.y == self.y - other.y,
            r.z == self.z - other.z,
    {
        Vec3Fx { x: self.x - other.x, y: self.y - other.y, z: self.z - other.z }
    }

    /// The Euclidean norm, rounded down to a whole fixed-point value.
    pub fn norm(self) -> (r: i64)
        requires
            abs(self.x as int) <= 2_000_000_000_000_000_000,
            abs(self.y as int) <= 2_000_000_000_000_000_000,
            abs(self.z as int) <= 2_000_000_000_000_000_000,
        ensures
            r == norm_spec(self),
            is_isqrt(norm_sq_spec(self), r as int),
            0 <= r <= 3_500_000_000_000_000_000,
    {
        let sx: u128 = square_u128(self.x);
        let sy: u128 = square_u128(self.y);
        let sz: u128 = square_u128(self.z);
        proof {
            assert(sx + sy + sz <= u128::MAX && sx + sy + sz < (3_500_000_000_000_000_001 as int)
                * 3_500_000_000_000_000_001) by (nonlinear_arith)
                requires
                    sx == (self.x as int) * (self.x as int),
                    sy == (self.y as int) * (self.y as int),
                    sz == (self.z as int) * (self.z as int),
                    abs(self.x as int) <= 2_000_000_000_000_000_000,
                    abs(self.y as int) <= 2_000_000_000_000_000_000,
                    abs(self.z as int) <= 2_000_000_000_000_000_000,
            ;
        }
        let s: u128 = sx + sy + sz;
        let r = isqrt_u128(s);
        proof {
            assert(r * r <= s && s < (3_500_000_000_000_000_001 as int)
                * 3_500_000_000_000_000_001 ==> r <= 3_500_000_000_000_000_000)
                by (nonlinear_arith);
        }
        r as i64
    }

    /// The vector rescaled to length `len`: each component multiplied by
    /// `len` and divided by the current norm, rounding toward zero.
    pub fn scale_to(self, len: i64) -> (r: Vec3Fx)
        requires
            0 <= len,
            norm_sq_spec(self) >= 1,
            abs(self.x as int) <= 2_000_000_000_000_000_000,
            abs(self.y as int) <= 2_000_000_000_000_000_000,
            abs(self.z as int) <= 2_000_000_000_000_000_000,
        ensures
            r.x == mul_div_spec(self.x as int, len as int, norm_spec(self)),
            r.y == mul_div_spec(self.y as int, len as int, norm_spec(self)),
            r.z == mul_div_spec(self.z as int, len as int, norm_spec(self)),
            abs(r.x as int) <= len,
            abs(r.y as int) <= len,
            abs(r.z as int) <= len,
    {
        let n = self.norm();
        proof {
            assert(self.x * self.x <= norm_sq_spec(self) && self.y * self.y <= norm_sq_spec(self)
                && self.z * self.z <= norm_sq_spec(self)) by (nonlinear_arith)
                requires
                    norm_sq_spec(self) == self.x * self.x + self.y * self.y + self.z * self.z,
            ;
            lemma_isqrt_dominates(norm_sq_spec(self), n as int, self.x as int);
            lemma_isqrt_dominates(norm_sq_spec(self), n as int, self.y as int);
            lemma_isqrt_dominates(norm_sq_spec(self), n as int, self.z as int);
            assert(n >= 1) by (nonlinear_arith)
                requires
                    is_isqrt(norm_sq_spec(self), n as int),
                    norm_sq_spec(self) >= 1,
            ;
        }
        Vec3Fx {
            x: mul_div(self.x, len, n),
            y: mul_div(self.y, len, n),
            z: mul_div(self.z, len, n),
        }
    }
}

/// The square of a signed value, widened so it cannot overflow.
fn square_u128(a: i64) -> (r: u128)
    ensures
        r == (a as int) * (a as int),
{
    let m: u128 = if a >= 0 {
        a as u128
    } else {
        (-(a as i128)) as u128
    };
    proof {
        assert(m * m == (a as int) * (a as int)) by (nonlinear_arith)
            requires
                m == abs(a as int),
        ;
        assert((m as int) * (m as int) <= u128::MAX) by (nonlinear_arith)
            requires
                0 <= m <= 0x8000_0000_0000_0000,
        ;
    }
    m * m
}

} // verus!
