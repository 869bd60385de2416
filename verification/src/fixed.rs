//! Signed 48.16 fixed-point scalars.
//!
//! A raw `i64` value `r` denotes the real number `r / 65536`. Every
//! operation truncates fractions toward zero and saturates at the `i64`
//! range, so each one is total and its result is stated exactly.

use vstd::prelude::*;
use vstd::arithmetic::div_mod::lemma_div_nonincreasing;

verus! {

/// Raw representation of the scalar 1.0.
pub const FX_ONE: i64 = 65536;

/// Clamp an unbounded integer into the `i64` range.
pub open spec fn sat64(v: int) -> int {
    if v > i64::MAX as int {
        i64::MAX as int
    } else if v < i64::MIN as int {
        i64::MIN as int
    } else {
        v
    }
}

/// Quotient of `p` and `q`, truncated toward zero.
pub open spec fn div_trunc(p: int, q: int) -> int
    recommends
        q != 0,
{
    let n = if p >= 0 { p } else { -p };
    let d = if q > 0 { q } else { -q };
    if (p >= 0) == (q > 0) {
        n / d
    } else {
        -(n / d)
    }
}

pub open spec fn fx_add_spec(a: int, b: int) -> int {
    sat64(a + b)
}

pub open spec fn fx_sub_spec(a: int, b: int) -> int {
    sat64(a - b)
}

pub open spec fn fx_neg_spec(a: int) -> int {
    sat64(-a)
}

pub open spec fn fx_mul_spec(a: int, b: int) -> int {
    sat64(div_trunc(a * b, 65536))
}

pub open spec fn fx_div_spec(a: int, b: int) -> int
    recommends
        b != 0,
{
    sat64(div_trunc(a * 65536, b))
}

/// Clamp a wide intermediate back into an `i64`.
pub fn fx_sat(v: i128) -> (r: i64)
    ensures
        r as int == sat64(v as int),
{
    if v > i64::MAX as i128 {
        i64::MAX
    } else if v < i64::MIN as i128 {
        i64::MIN
    } else {
        v as i64
    }
}

/// Truncated division of wide intermediates, through unsigned division.
pub(crate) fn fx_tdiv(p: i128, q: i128) -> (r: i128)
    requires
        q > 0,
        p > i128::MIN,
    ensures
        r == div_trunc(p as int, q as int),
        -(if p >= 0 { p as int } else { -(p as int) }) <= r as int
            <= (if p >= 0 { p as int } else { -(p as int) }),
{
    let qu: u128 = q as u128;
    if p >= 0 {
        let pu: u128 = p as u128;
        let m: u128 = pu / qu;
        proof {
            lemma_div_nonincreasing(pu as int, qu as int);
        }
        m as i128
    } else {
        let nu: u128 = (-p) as u128;
        let m: u128 = nu / qu;
        proof {
            lemma_div_nonincreasing(nu as int, qu as int);
        }
        -(m as i128)
    }
}

/// Truncated division by a divisor of either sign.
pub(crate) fn fx_tdiv_any(p: i128, q: i128) -> (r: i128)
    requires
        q != 0,
        q > i128::MIN,
        p > i128::MIN,
    ensures
        r == div_trunc(p as int, q as int),
        -(if p >= 0 { p as int } else { -(p as int) }) <= r as int
            <= (if p >= 0 { p as int } else { -(p as int) }),
{
    if q > 0 {
        fx_tdiv(p, q)
    } else {
        let m: i128 = fx_tdiv(p, -q);
        -m
    }
}

/// Bound on a product of two bounded factors.
pub proof fn lemma_mul_bound(a: int, b: int, m: int, n: int)
    requires
        -m <= a <= m,
        -n <= b <= n,
        0 <= m,
        0 <= n,
    ensures
        -(m * n) <= a * b <= m * n,
{
    assert(-(m * n) <= a * b <= m * n) by (nonlinear_arith)
        requires
            -m <= a <= m,
            -n <= b <= n,
            0 <= m,
            0 <= n,
    ;
}

pub fn fx_add(a: i64, b: i64) -> (r: i64)
    ensures
        r as int == fx_add_spec(a as int, b as int),
{
    fx_sat(a as i128 + b as i128)
}

pub fn fx_sub(a: i64, b: i64) -> (r: i64)
    ensures
        r as int == fx_sub_spec(a as int, b as int),
{
    fx_sat(a as i128 - b as i128)
}

pub fn fx_neg(a: i64) -> (r: i64)
    ensures
        r as int == fx_neg_spec(a as int),
{
    fx_sat(-(a as i128))
}

pub fn fx_mul(a: i64, b: i64) -> (r: i64)
    ensures
        r as int == fx_mul_spec(a as int, b as int),
{
    proof {
        lemma_mul_bound(
            a as int,
            b as int,
            0x8000_0000_0000_0000,
            0x8000_0000_0000_0000,
        );
    }
    let p: i128 = (a as i128) * (b as i128);
    let q: i128 = fx_tdiv(p, 65536);
    fx_sat(q)
}

pub fn fx_div(a: i64, b: i64) -> (r: i64)
    requires
        b != 0,
    ensures
        r as int == fx_div_spec(a as int, b as int),
{
    let p: i128 = (a as i128) * 65536;
    if b > 0 {
        let q: i128 = fx_tdiv(p, b as i128);
        fx_sat(q)
    } else {
        let q: i128 = fx_tdiv(p, -(b as i128));
        fx_sat(-q)
    }
}

pub fn fx_min(a: i64, b: i64) -> (r: i64)
    ensures
        r == if a <= b { a } else { b },
{
    if a <= b { a } else { b }
}

pub fn fx_max(a: i64, b: i64) -> (r: i64)
    ensures
        r == if a >= b { a } else { b },
{
    if a >= b { a } else { b }
}

/// Multiplying by 1.0 is the identity: the fixed-point product of
/// `FX_ONE` and any raw value gives that value back unchanged.
pub proof fn lemma_fx_mul_one(a: int)
    requires
        i64::MIN <= a <= i64::MAX,
    ensures
        fx_mul_spec(FX_ONE as int, a) == a,
        fx_mul_spec(a, FX_ONE as int) == a,
{
    if a >= 0 {
        assert(65536 * a == a * 65536) by (nonlinear_arith);
        assert((a * 65536) / 65536 == a) by {
            vstd::arithmetic::div_mod::lemma_div_by_multiple(a, 65536);
        }
    } else {
        assert(65536 * a == a * 65536) by (nonlinear_arith);
        assert(-(a * 65536) == (-a) * 65536) by (nonlinear_arith);
        assert(((-a) * 65536) / 65536 == -a) by {
            vstd::arithmetic::div_mod::lemma_div_by_multiple(-a, 65536);
        }
    }
}

/// Dividing by 1.0 is also the identity.
pub proof fn lemma_fx_div_one(a: int)
    requires
        i64::MIN <= a <= i64::MAX,
    ensures
        fx_div_spec(a, FX_ONE as int) == a,
{
    lemma_fx_mul_one(a);
    assert(fx_mul_spec(a, 65536) == sat64(div_trunc(a * 65536, 65536)));
}

/// Multiplying by 0 gives 0.
pub proof fn lemma_fx_mul_zero(a: int)
    ensures
        fx_mul_spec(0, a) == 0,
        fx_mul_spec(a, 0) == 0,
{
    assert(0 * a == 0) by (nonlinear_arith);
    assert(a * 0 == 0) by (nonlinear_arith);
}

} // verus!
