//! Fixed-point scalars.
//!
//! Every length, angle, progress value and colour factor in this crate is an
//! `i32` that counts hundred-thousandths of a unit, so `ONE` stands for `1.0`.
//! Intermediate results are computed exactly in wider integers; a result that
//! leaves the `i32` range saturates at the bound it passed.

use vstd::prelude::*;

verus! {

/// The fixed-point representation of `1.0`.
pub const ONE: i32 = 100_000;

/// The absolute value of an integer.
pub open spec fn magnitude(a: int) -> int {
    if a >= 0 {
        a
    } else {
        -a
    }
}

/// The quotient of `a` by a non-zero `b`, rounded toward zero.
pub open spec fn trunc_div(a: int, b: int) -> int {
    if (a >= 0) == (b > 0) {
        magnitude(a) / magnitude(b)
    } else {
        -(magnitude(a) / magnitude(b))
    }
}

/// The remainder that goes with `trunc_div`; it has the sign of `a`.
pub open spec fn trunc_rem(a: int, b: int) -> int {
    a - b * trunc_div(a, b)
}

/// `v` limited to the range `lo..=hi`.
pub open spec fn clamp(v: int, lo: int, hi: int) -> int {
    if v < lo {
        lo
    } else if v > hi {
        hi
    } else {
        v
    }
}

/// The nearest `i32` to `v`.
pub open spec fn sat(v: int) -> int {
    clamp(v, i32::MIN as int, i32::MAX as int)
}

/// The fixed-point product of two scalars.
pub open spec fn fixed_mul(a: int, b: int) -> int {
    sat(trunc_div(a * b, ONE as int))
}

/// The fixed-point quotient of two scalars, for a non-zero divisor.
pub open spec fn fixed_div(a: int, b: int) -> int {
    sat(trunc_div(a * ONE, b))
}

/// The fixed-point quotient of two scalars for any divisor: a quotient by
/// zero saturates on the side of the dividend, and is zero for zero by zero.
pub open spec fn fixed_quotient(a: int, b: int) -> int {
    if b != 0 {
        fixed_div(a, b)
    } else if a > 0 {
        i32::MAX as int
    } else if a < 0 {
        i32::MIN as int
    } else {
        0
    }
}

/// `r` is the integer square root of `n`, rounded down.
pub open spec fn is_floor_sqrt(n: int, r: int) -> bool {
    0 <= r && r * r <= n && n < (r + 1) * (r + 1)
}

/// The integer square root of a non-negative `n`, rounded down.
pub open spec fn floor_sqrt(n: int) -> int {
    choose|r: int| is_floor_sqrt(n, r)
}

/// Squaring is monotone on the non-negative integers.
pub proof fn lemma_square_monotone(a: int, b: int)
    requires
        0 <= a <= b,
    ensures
        a * a <= b * b,
{
    assert(a * a <= b * b) by (nonlinear_arith)
        requires
            0 <= a <= b,
    ;
}

/// At most one integer is the floor square root of `n`.
pub proof fn lemma_floor_sqrt_unique(n: int, r: int)
    requires
        is_floor_sqrt(n, r),
    ensures
        floor_sqrt(n) == r,
{
    let s = floor_sqrt(n);
    assert(is_floor_sqrt(n, s));
    if s < r {
        lemma_square_monotone(s + 1, r);
    }
    if r < s {
        lemma_square_monotone(r + 1, s);
    }
}

/// Every non-negative integer has a floor square root.
pub proof fn lemma_floor_sqrt_exists(n: int)
    requires
        0 <= n,
    ensures
        is_floor_sqrt(n, floor_sqrt(n)),
    decreases n,
{
    if n == 0 {
        assert(is_floor_sqrt(0, 0));
    } else {
        lemma_floor_sqrt_exists(n - 1);
        let r = floor_sqrt(n - 1);
        if (r + 1) * (r + 1) <= n {
            assert((r + 1) * (r + 1) == n);
            assert(n < (r + 2) * (r + 2)) by (nonlinear_arith)
                requires
                    (r + 1) * (r + 1) == n,
                    0 <= r,
            ;
            assert(is_floor_sqrt(n, r + 1));
        } else {
            assert(r * r <= n);
            assert(is_floor_sqrt(n, r));
        }
    }
}

/// The remainder of a division that rounds toward zero is smaller in
/// magnitude than the divisor and has the sign of the dividend.
pub proof fn lemma_trunc_rem_bound(a: int, b: int)
    requires
        b > 0,
    ensures
        a >= 0 ==> 0 <= trunc_rem(a, b) < b,
        a <= 0 ==> -b < trunc_rem(a, b) <= 0,
{
    let m = magnitude(a);
    assert(m == b * (m / b) + m % b && 0 <= m % b < b) by (nonlinear_arith)
        requires
            b > 0,
    ;
    if a < 0 {
        assert(b * (-(m / b)) == -(b * (m / b))) by (nonlinear_arith);
    }
}

/// A pixel of a buffer has its place within the rows laid end to end.
pub proof fn lemma_index_in_bounds(x: int, y: int, width: int, height: int)
    requires
        0 <= x < width,
        0 <= y < height,
    ensures
        0 <= y * width <= y * width + x < width * height,
{
    assert(y * width + x < width * height) by (nonlinear_arith)
        requires
            0 <= x < width,
            0 <= y < height,
    {
        assert((y + 1) * width <= height * width);
    }
    assert(0 <= y * width) by (nonlinear_arith)
        requires
            0 <= y,
            0 < width,
    ;
}

/// Saturates a wide intermediate to the scalar range.
pub fn saturate(v: i128) -> (r: i32)
    ensures
        r == sat(v as int),
{
    if v < i32::MIN as i128 {
        i32::MIN
    } else if v > i32::MAX as i128 {
        i32::MAX
    } else {
        v as i32
    }
}

/// Limits `v` to `lo..=hi`.
pub fn clamp_to(v: i64, lo: i64, hi: i64) -> (r: i64)
    requires
        lo <= hi,
    ensures
        r == clamp(v as int, lo as int, hi as int),
{
    if v < lo {
        lo
    } else if v > hi {
        hi
    } else {
        v
    }
}

/// Divides `a` by a non-zero `b`, rounding toward zero.
pub fn div_toward_zero(a: i128, b: i128) -> (q: i128)
    requires
        b != 0,
        a > i128::MIN,
        b > i128::MIN,
    ensures
        q == trunc_div(a as int, b as int),
{
    let na: i128 = if a < 0 {
        -a
    } else {
        a
    };
    let nb: i128 = if b < 0 {
        -b
    } else {
        b
    };
    let q: i128 = na / nb;
    if (a >= 0) == (b > 0) {
        q
    } else {
        -q
    }
}

/// Multiplies two fixed-point scalars.
pub fn fmul(a: i32, b: i32) -> (r: i32)
    ensures
        r == fixed_mul(a as int, b as int),
{
    assert(-0x4000_0000_0000_0000 <= a * b <= 0x4000_0000_0000_0000) by (nonlinear_arith)
        requires
            -0x8000_0000 <= a <= 0x7fff_ffff,
            -0x8000_0000 <= b <= 0x7fff_ffff,
    ;
    let wide: i128 = (a as i128) * (b as i128);
    saturate(div_toward_zero(wide, ONE as i128))
}

/// Divides one fixed-point scalar by another; `None` when the divisor is zero.
pub fn fdiv(a: i32, b: i32) -> (r: Option<i32>)
    ensures
        b == 0 <==> r.is_none(),
        b != 0 ==> r == Some(fixed_div(a as int, b as int) as i32),
{
    if b == 0 {
        None
    } else {
        let wide: i128 = (a as i128) * 100_000;
        Some(saturate(div_toward_zero(wide, b as i128)))
    }
}

/// Divides one fixed-point scalar by another, saturating where the divisor
/// is zero.
pub fn fquot(a: i32, b: i32) -> (r: i32)
    ensures
        r == fixed_quotient(a as int, b as int),
{
    match fdiv(a, b) {
        Some(q) => q,
        None => {
            if a > 0 {
                i32::MAX
            } else if a < 0 {
                i32::MIN
            } else {
                0
            }
        },
    }
}

/// The integer square root of `n`, rounded down.
pub fn isqrt(n: u128) -> (r: u64)
    ensures
        is_floor_sqrt(n as int, r as int),
        r == floor_sqrt(n as int),
{
    let mut lo: u128 = 0;
    let mut hi: u128 = 0x1_0000_0000_0000_0000;
    assert(n < hi * hi) by (nonlinear_arith)
        requires
            hi == 0x1_0000_0000_0000_0000,
            n <= 0xffff_ffff_ffff_ffff_ffff_ffff_ffff_ffff,
    ;
    while hi - lo > 1
        invariant
            lo < hi <= 0x1_0000_0000_0000_0000,
            lo * lo <= n,
            n < hi * hi,
        decreases hi - lo,
    {
        let mid: u128 = lo + (hi - lo) / 2;
        assert(mid * mid <= 0xffff_ffff_ffff_ffff_ffff_ffff_ffff_ffff) by (nonlinear_arith)
            requires
                0 <= mid <= 0xffff_ffff_ffff_ffff,
        ;
        if mid * mid <= n {
            lo = mid;
        } else {
            hi = mid;
        }
    }
    proof {
        assert(hi == lo + 1);
        lemma_floor_sqrt_unique(n as int, lo as int);
    }
    lo as u64
}

} // verus!
