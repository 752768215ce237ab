//! Fixed-point scalars: an `i64` that counts millionths of a unit.

use vstd::prelude::*;

verus! {

/// The fixed-point representation of 1.
pub const ONE: i64 = 1_000_000;

/// The quotient of `a` by a positive `d`, rounded toward zero.
pub open spec fn trunc_div(a: int, d: int) -> int {
    if a >= 0 {
        a / d
    } else {
        -((-a) / d)
    }
}

/// The product of two fixed-point numbers, rounded toward zero.
pub open spec fn scaled(a: int, b: int) -> int {
    trunc_div(a * b, ONE as int)
}

/// `x` limited to the interval from `lo` to `hi`.
pub open spec fn clamped(x: int, lo: int, hi: int) -> int {
    if x < lo {
        lo
    } else if x > hi {
        hi
    } else {
        x
    }
}

/// `x` limited to what an `i64` can hold.
pub open spec fn saturated(x: int) -> int {
    clamped(x, i64::MIN as int, i64::MAX as int)
}

/// A quotient rounded toward zero lies between zero and its dividend, and
/// its product with the divisor is less than one divisor short of the
/// dividend.
pub proof fn lemma_trunc_div_bounds(a: int, d: int)
    requires
        d > 0,
    ensures
        a >= 0 ==> 0 <= trunc_div(a, d) <= a,
        a <= 0 ==> a <= trunc_div(a, d) <= 0,
        a >= 0 ==> a - d < trunc_div(a, d) * d <= a,
        a <= 0 ==> a <= trunc_div(a, d) * d < a + d,
{
    let m = if a >= 0 { a } else { -a };
    let q = m / d;
    vstd::arithmetic::div_mod::lemma_fundamental_div_mod(m, d);
    vstd::arithmetic::div_mod::lemma_mod_bound(m, d);
    vstd::arithmetic::div_mod::lemma_div_pos_is_pos(m, d);
    assert(q * d == d * q && (-q) * d == -(q * d)) by (nonlinear_arith);
    assert(q <= q * d) by (nonlinear_arith)
        requires
            q >= 0,
            d >= 1,
    ;
}

/// Rounding toward zero keeps the order of the dividends.
pub proof fn lemma_trunc_div_monotonic(a: int, b: int, d: int)
    requires
        d > 0,
        a <= b,
    ensures
        trunc_div(a, d) <= trunc_div(b, d),
{
    lemma_trunc_div_bounds(a, d);
    lemma_trunc_div_bounds(b, d);
    if a >= 0 {
        vstd::arithmetic::div_mod::lemma_div_is_ordered(a, b, d);
    } else if b < 0 {
        vstd::arithmetic::div_mod::lemma_div_is_ordered(-b, -a, d);
    }
}

/// A multiple of the divisor is divided exactly.
pub proof fn lemma_trunc_div_multiple(k: int, d: int)
    requires
        d > 0,
    ensures
        trunc_div(k * d, d) == k,
{
    if k >= 0 {
        assert(k * d >= 0) by (nonlinear_arith)
            requires
                k >= 0,
                d > 0,
        ;
        vstd::arithmetic::div_mod::lemma_div_multiples_vanish(k, d);
        assert(k * d == d * k) by (nonlinear_arith);
    } else {
        assert(k * d < 0 && -(k * d) == d * (-k)) by (nonlinear_arith)
            requires
                k < 0,
                d > 0,
        ;
        vstd::arithmetic::div_mod::lemma_div_multiples_vanish(-k, d);
    }
}

/// Multiplying by the fixed-point 1 changes nothing, and multiplying by 0
/// gives 0.
pub proof fn lemma_scaled_unit(a: int)
    ensures
        scaled(a, ONE as int) == a,
        scaled(ONE as int, a) == a,
        scaled(a, 0) == 0,
        scaled(0, a) == 0,
{
    lemma_trunc_div_multiple(a, ONE as int);
    assert(ONE as int * a == a * ONE as int) by (nonlinear_arith);
    lemma_trunc_div_multiple(0, ONE as int);
    assert(a * 0 == 0 && 0 * a == 0 && 0 * ONE as int == 0) by (nonlinear_arith);
}

/// A fixed-point product is no larger in magnitude than its second factor
/// when the first factor lies between -1 and 1.
pub proof fn lemma_scaled_by_fraction(f: int, a: int)
    requires
        -(ONE as int) <= f <= ONE as int,
    ensures
        a >= 0 ==> -a <= scaled(f, a) <= a,
        a <= 0 ==> a <= scaled(f, a) <= -a,
{
    let one = ONE as int;
    let m = if a >= 0 { a } else { -a };
    assert(-(m * one) <= f * a <= m * one) by (nonlinear_arith)
        requires
            -one <= f <= one,
            m >= 0,
            a == m || a == -m,
    ;
    lemma_trunc_div_monotonic(f * a, m * one, one);
    lemma_trunc_div_monotonic(-(m * one), f * a, one);
    lemma_trunc_div_multiple(m, one);
    lemma_trunc_div_multiple(-m, one);
    assert((-m) * one == -(m * one)) by (nonlinear_arith);
}

/// The product of two fixed-point numbers, rounded toward zero.
pub fn fixed_mul(a: i64, b: i64) -> (r: i128)
    ensures
        r == scaled(a as int, b as int),
        -0x4000_0000_0000_0000_0000_0000_0000_0000 <= r <= 0x4000_0000_0000_0000_0000_0000_0000_0000,
{
    let wide_a: i128 = a as i128;
    let wide_b: i128 = b as i128;
    assert(-0x4000_0000_0000_0000_0000_0000_0000_0000 <= wide_a * wide_b
        <= 0x4000_0000_0000_0000_0000_0000_0000_0000) by (nonlinear_arith)
        requires
            -0x8000_0000_0000_0000 <= wide_a <= 0x8000_0000_0000_0000,
            -0x8000_0000_0000_0000 <= wide_b <= 0x8000_0000_0000_0000,
    ;
    let product: i128 = wide_a * wide_b;
    proof {
        lemma_trunc_div_bounds(product as int, ONE as int);
    }
    product / ONE as i128
}

/// Limits `x` to the interval from `lo` to `hi`.
pub fn clamp(x: i128, lo: i64, hi: i64) -> (r: i64)
    requires
        lo <= hi,
    ensures
        r == clamped(x as int, lo as int, hi as int),
{
    if x < lo as i128 {
        lo
    } else if x > hi as i128 {
        hi
    } else {
        x as i64
    }
}

/// Limits `x` to what an `i64` can hold.
pub fn saturate(x: i128) -> (r: i64)
    ensures
        r == saturated(x as int),
{
    clamp(x, i64::MIN, i64::MAX)
}

} // verus!
