//! Fixed-point scalar arithmetic.
//!
//! A physical quantity `v` is represented by the integer closest to
//! `v * FX_SCALE` (one unit is a millionth). Every operation is total:
//! products and quotients are truncated toward zero and results are
//! saturated into the symmetric range `[-FX_MAX, FX_MAX]`, so no
//! operation of this module panics and each has an exact specification.

use vstd::prelude::*;
use vstd::math::abs;

verus! {

/// Number of fixed-point units per physical unit.
pub const FX_SCALE: i64 = 1_000_000;

/// Largest representable magnitude; the range is symmetric so that
/// negation is always exact.
pub const FX_MAX: i64 = 9_223_372_036_854_775_807;

/// Saturate an unbounded integer into the representable range.
pub open spec fn fx_clamp(v: int) -> int {
    if v > FX_MAX as int {
        FX_MAX as int
    } else if v < -(FX_MAX as int) {
        -(FX_MAX as int)
    } else {
        v
    }
}

/// Quotient truncated toward zero (the rounding of machine division),
/// and 0 on a zero divisor so that the function is total.
pub open spec fn div_tz(a: int, b: int) -> int {
    if b == 0 {
        0
    } else {
        let q = abs(a) as int / abs(b) as int;
        if (a < 0) <==> (b < 0) {
            q
        } else {
            -q
        }
    }
}

/// Saturating sum of two representable scalars.
pub open spec fn fx_add(a: int, b: int) -> int {
    fx_clamp(a + b)
}

/// Saturating difference of two representable scalars.
pub open spec fn fx_sub(a: int, b: int) -> int {
    fx_clamp(a - b)
}

/// Exact negation (the range is symmetric).
pub open spec fn fx_neg(a: int) -> int {
    fx_clamp(-a)
}

/// Fixed-point product: `a * b` rescaled, truncated toward zero,
/// saturated.
pub open spec fn fx_mul(a: int, b: int) -> int {
    fx_clamp(div_tz(a * b, FX_SCALE as int))
}

/// Fixed-point quotient: `a / b` rescaled, truncated toward zero,
/// saturated; 0 when the divisor is 0.
pub open spec fn fx_div(a: int, b: int) -> int {
    if b == 0 {
        0
    } else {
        fx_clamp(div_tz(a * FX_SCALE, b))
    }
}

/// A value is representable when it fits the saturation range.
pub open spec fn fx_in_range(v: int) -> bool {
    -(FX_MAX as int) <= v <= FX_MAX as int
}

pub proof fn lemma_fx_clamp_in_range(v: int)
    ensures
        fx_in_range(fx_clamp(v)),
        fx_in_range(v) ==> fx_clamp(v) == v,
{
}

/// Adding a nonnegative term never lowers a representable value.
pub proof fn lemma_fx_add_increases(a: int, b: int)
    requires
        fx_in_range(a),
        b >= 0,
    ensures
        fx_add(a, b) >= a,
{
}

/// A product of nonnegative scalars is nonnegative.
pub proof fn lemma_fx_mul_nonneg(a: int, b: int)
    requires
        a >= 0,
        b >= 0,
    ensures
        fx_mul(a, b) >= 0,
{
    assert(a * b >= 0) by (nonlinear_arith)
        requires
            a >= 0 && b >= 0,
    ;
}

/// A quotient of nonnegative scalars is nonnegative.
pub proof fn lemma_fx_div_nonneg(a: int, b: int)
    requires
        a >= 0,
        b >= 0,
    ensures
        fx_div(a, b) >= 0,
{
}

/// Negating one factor negates the product exactly.
pub proof fn lemma_fx_mul_neg(a: int, b: int)
    ensures
        fx_mul(-a, b) == -fx_mul(a, b),
        fx_mul(a, -b) == -fx_mul(a, b),
{
    assert((-a) * b == -(a * b) && a * (-b) == -(a * b)) by (nonlinear_arith);
}

/// Negating the dividend negates the quotient exactly.
pub proof fn lemma_fx_div_neg(a: int, b: int)
    ensures
        fx_div(-a, b) == -fx_div(a, b),
{
}

/// The magnitude of a product is the product of the magnitudes.
proof fn lemma_abs_mul(a: int, b: int)
    ensures
        abs(a * b) == abs(a) * abs(b),
{
    if a >= 0 && b >= 0 {
        assert(a * b >= 0) by (nonlinear_arith)
            requires
                a >= 0 && b >= 0,
        ;
    } else if a >= 0 && b < 0 {
        assert(a * b <= 0 && a * b == -(a * -b) && a * -b >= 0) by (nonlinear_arith)
            requires
                a >= 0 && b < 0,
        ;
    } else if a < 0 && b >= 0 {
        assert(a * b <= 0 && a * b == -(-a * b) && -a * b >= 0) by (nonlinear_arith)
            requires
                a < 0 && b >= 0,
        ;
    } else {
        assert(a * b >= 0 && a * b == -a * -b) by (nonlinear_arith)
            requires
                a < 0 && b < 0,
        ;
    }
}

/// Magnitude of a scalar, widened so that `i64::MIN` needs no special case.
fn mag(a: i64) -> (r: u128)
    ensures
        r as int == abs(a as int),
{
    if a < 0 {
        (-(a as i128)) as u128
    } else {
        a as u128
    }
}

/// Saturate an unsigned magnitude and reapply the sign.
fn signed_clamp(m: u128, negative: bool) -> (r: i64)
    ensures
        negative ==> r as int == fx_clamp(-(m as int)),
        !negative ==> r as int == fx_clamp(m as int),
{
    let c: i64 = if m > FX_MAX as u128 {
        FX_MAX
    } else {
        m as i64
    };
    if negative {
        -c
    } else {
        c
    }
}

/// Saturating addition.
pub fn add(a: i64, b: i64) -> (r: i64)
    ensures
        r as int == fx_add(a as int, b as int),
{
    let s: i128 = a as i128 + b as i128;
    saturate(s)
}

/// Saturating subtraction.
pub fn sub(a: i64, b: i64) -> (r: i64)
    ensures
        r as int == fx_sub(a as int, b as int),
{
    let s: i128 = a as i128 - b as i128;
    saturate(s)
}

/// Exact negation.
pub fn neg(a: i64) -> (r: i64)
    ensures
        r as int == fx_neg(a as int),
{
    let s: i128 = -(a as i128);
    saturate(s)
}

/// Fixed-point multiplication.
pub fn mul(a: i64, b: i64) -> (r: i64)
    ensures
        r as int == fx_mul(a as int, b as int),
{
    let ma = mag(a);
    let mb = mag(b);
    assert(ma * mb <= 0x4000_0000_0000_0000_0000_0000_0000_0000u128) by (nonlinear_arith)
        requires
            ma <= 0x8000_0000_0000_0000u128 && mb <= 0x8000_0000_0000_0000u128,
    ;
    let pm: u128 = ma * mb;
    let qm: u128 = pm / (FX_SCALE as u128);
    let negative = (a < 0) != (b < 0);
    proof {
        lemma_abs_mul(a as int, b as int);
        assert((((a as int) < 0) <==> ((b as int) < 0)) ==> (a as int) * (b as int) >= 0)
            by (nonlinear_arith);
        assert(((((a as int) < 0)) != (((b as int) < 0))) ==> (a as int) * (b as int) <= 0)
            by (nonlinear_arith);
    }
    signed_clamp(qm, negative)
}

/// Fixed-point division; total (0 on a zero divisor).
pub fn div(a: i64, b: i64) -> (r: i64)
    ensures
        r as int == fx_div(a as int, b as int),
{
    if b == 0 {
        0
    } else {
        let ma = mag(a);
        let mb = mag(b);
        assert(ma * (FX_SCALE as u128) <= 0x4000_0000_0000_0000_0000_0000_0000_0000u128)
            by (nonlinear_arith)
            requires
                ma <= 0x8000_0000_0000_0000u128,
        ;
        let pm: u128 = ma * (FX_SCALE as u128);
        let qm: u128 = pm / mb;
        let negative = (a < 0) != (b < 0);
        proof {
            lemma_abs_mul(a as int, FX_SCALE as int);
        }
        signed_clamp(qm, negative)
    }
}

/// `r` is the floor of the real square root of `n`.
pub open spec fn is_sqrt_floor(n: int, r: int) -> bool {
    0 <= r && r * r <= n && n < (r + 1) * (r + 1)
}

/// The floor of the real square root (meaningful for `n >= 0`).
pub open spec fn sqrt_floor(n: int) -> int {
    choose|r: int| is_sqrt_floor(n, r)
}

/// Fixed-point square root: the representation of the root of the
/// represented value (truncated), and 0 on a non-positive argument.
pub open spec fn fx_sqrt(a: int) -> int {
    if a <= 0 {
        0
    } else {
        sqrt_floor(a * FX_SCALE)
    }
}

proof fn lemma_sqrt_exists(n: nat)
    ensures
        exists|r: int| #[trigger] is_sqrt_floor(n as int, r),
    decreases n,
{
    if n == 0 {
        assert(is_sqrt_floor(0, 0));
    } else {
        lemma_sqrt_exists((n - 1) as nat);
        let r = choose|r: int| #[trigger] is_sqrt_floor(n - 1, r);
        if (r + 1) * (r + 1) <= n {
            assert((r + 1) * (r + 1) == n);
            assert((r + 2) * (r + 2) > n) by (nonlinear_arith)
                requires
                    r >= 0 && (r + 1) * (r + 1) == n,
            ;
            assert(is_sqrt_floor(n as int, r + 1));
        } else {
            assert(is_sqrt_floor(n as int, r));
        }
    }
}

proof fn lemma_sqrt_unique(n: int, r1: int, r2: int)
    requires
        is_sqrt_floor(n, r1),
        is_sqrt_floor(n, r2),
    ensures
        r1 == r2,
{
    if r1 < r2 {
        assert((r1 + 1) * (r1 + 1) <= r2 * r2) by (nonlinear_arith)
            requires
                0 <= r1 && r1 < r2,
        ;
    }
    if r2 < r1 {
        assert((r2 + 1) * (r2 + 1) <= r1 * r1) by (nonlinear_arith)
            requires
                0 <= r2 && r2 < r1,
        ;
    }
}

/// Any witness of `is_sqrt_floor` is the `sqrt_floor`.
proof fn lemma_sqrt_floor_is(n: int, r: int)
    requires
        0 <= n,
        is_sqrt_floor(n, r),
    ensures
        sqrt_floor(n) == r,
{
    lemma_sqrt_exists(n as nat);
    let w = choose|w: int| #[trigger] is_sqrt_floor(n, w);
    lemma_sqrt_unique(n, w, r);
}

/// The square root of a representable scalar is nonnegative, small,
/// and characterized by `is_sqrt_floor`.
pub proof fn lemma_fx_sqrt_props(a: int)
    requires
        a <= FX_MAX as int,
    ensures
        0 <= fx_sqrt(a) <= 0x400_0000_0000int,
        a > 0 ==> is_sqrt_floor(a * FX_SCALE, fx_sqrt(a)),
{
    if a > 0 {
        let n = a * FX_SCALE;
        assert(0 < n < 0x1_0000_0000_0000_0000_0000_0) by (nonlinear_arith)
            requires
                0 < a <= 0x7fff_ffff_ffff_ffffi64 && n == a * FX_SCALE,
        ;
        lemma_sqrt_exists(n as nat);
        let w = choose|w: int| #[trigger] is_sqrt_floor(n, w);
        lemma_sqrt_floor_is(n, w);
        assert(w <= 0x400_0000_0000int) by (nonlinear_arith)
            requires
                is_sqrt_floor(n, w) && n < 0x1_0000_0000_0000_0000_0000_0,
        ;
    }
}

/// Floor square root of a wide unsigned value below `2^84`.
fn isqrt(n: u128) -> (r: u128)
    requires
        n < 0x1_0000_0000_0000_0000_0000_0u128,
    ensures
        is_sqrt_floor(n as int, r as int),
{
    if n == 0 {
        return 0;
    }
    let mut lo: u128 = 0;
    let mut hi: u128 = 0x400_0000_0000u128;
    assert(hi * hi > n) by (nonlinear_arith)
        requires
            hi == 0x400_0000_0000u128 && n < 0x1_0000_0000_0000_0000_0000_0u128,
    ;
    while hi - lo > 1
        invariant
            0 <= lo < hi <= 0x400_0000_0000u128,
            lo * lo <= n,
            hi * hi > n,
        decreases hi - lo,
    {
        let mid: u128 = lo + (hi - lo) / 2;
        assert(mid * mid < 0x1000_0000_0000_0000_0000_0000u128) by (nonlinear_arith)
            requires
                0 <= mid <= 0x400_0000_0000u128,
        ;
        if mid * mid <= n {
            lo = mid;
        } else {
            hi = mid;
        }
    }
    lo
}

/// Fixed-point square root; total (0 on a non-positive argument).
pub fn sqrt(a: i64) -> (r: i64)
    ensures
        r as int == fx_sqrt(a as int),
{
    if a <= 0 {
        return 0;
    }
    let wa: u128 = a as u128;
    assert(wa * (FX_SCALE as u128) < 0x1_0000_0000_0000_0000_0000_0u128) by (nonlinear_arith)
        requires
            wa < 0x8000_0000_0000_0000u128,
    ;
    let n: u128 = wa * (FX_SCALE as u128);
    let r = isqrt(n);
    proof {
        lemma_sqrt_floor_is(n as int, r as int);
        assert(r as int <= 0x400_0000_0000int) by (nonlinear_arith)
            requires
                is_sqrt_floor(n as int, r as int) && n < 0x1_0000_0000_0000_0000_0000_0u128,
        ;
    }
    r as i64
}

/// Saturate a wide intermediate into the scalar range.
pub fn saturate(v: i128) -> (r: i64)
    ensures
        r as int == fx_clamp(v as int),
{
    if v > FX_MAX as i128 {
        FX_MAX
    } else if v < -(FX_MAX as i128) {
        -FX_MAX
    } else {
        v as i64
    }
}

} // verus!
