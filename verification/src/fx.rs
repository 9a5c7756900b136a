//! Fixed-point scalars.
//!
//! A coordinate, size or scale factor is an `i64` holding the quantity
//! multiplied by [`FX_ONE`] (2^16).  All arithmetic on such values is exact
//! integer arithmetic; products and quotients are rounded toward negative
//! infinity, which matches the mathematical `/` of specifications.

use vstd::prelude::*;

verus! {

use vstd::arithmetic::div_mod::lemma_fundamental_div_mod;
use vstd::arithmetic::div_mod::lemma_fundamental_div_mod_converse_div;
use vstd::arithmetic::div_mod::lemma_div_is_ordered;
use vstd::arithmetic::div_mod::lemma_div_multiples_vanish;
use vstd::arithmetic::div_mod::lemma_div_of0;
use vstd::arithmetic::mul::lemma_mul_nonnegative;
use vstd::math::min;
use vstd::math::max;

/// The fixed-point representation of the quantity one: values are scaled by 2^16.
pub const FX_ONE: i64 = 65536;

/// Half, in fixed point.
pub const FX_HALF: i64 = 32768;

/// Bound kept on stored coordinates and sizes (2^46 in fixed point units),
/// leaving ample headroom in `i64` for the sums and products the camera forms.
pub const FX_COORD_BOUND: i64 = 0x4000_0000_0000;

/// A fixed-point value small enough to take part in camera arithmetic.
pub open spec fn fx_in_bounds(x: int) -> bool {
    -FX_COORD_BOUND <= x <= FX_COORD_BOUND
}

/// Mathematical product of two fixed-point values: floor((a*b) / 2^16).
pub open spec fn fx_mul_spec(a: int, b: int) -> int {
    (a * b) / (FX_ONE as int)
}

/// Mathematical quotient of two fixed-point values: floor((a * 2^16) / b).
pub open spec fn fx_div_spec(a: int, b: int) -> int
    recommends
        b > 0,
{
    (a * (FX_ONE as int)) / b
}

/// Floor division of an `i128` by a positive divisor, computed on magnitudes
/// so that the result matches the Euclidean `/` of specifications.
fn floor_div_i128(p: i128, d: i128) -> (q: i128)
    requires
        0 < d,
        p > i128::MIN,
    ensures
        q == (p as int) / (d as int),
{
    let dm: u128 = d as u128;
    if p >= 0 {
        let mag: u128 = p as u128;
        let qm: u128 = mag / dm;
        let rm: u128 = mag % dm;
        proof {
            lemma_fundamental_div_mod(mag as int, dm as int);
            lemma_fundamental_div_mod_converse_div(
                p as int,
                d as int,
                qm as int,
                rm as int,
            );
        }
        qm as i128
    } else {
        let mag: u128 = (-p) as u128;
        let qm: u128 = mag / dm;
        let rm: u128 = mag % dm;
        proof {
            lemma_fundamental_div_mod(mag as int, dm as int);
            assert(mag == (qm as int) * (dm as int) + rm) by {
                lemma_fundamental_div_mod(mag as int, dm as int);
            };
        }
        if rm == 0 {
            proof {
                assert(p == (-(qm as int)) * (d as int) + 0) by {
                    assert(mag == (qm as int) * (dm as int));
                    assert((-(qm as int)) * (d as int) == -((qm as int) * (d as int)))
                        by (nonlinear_arith);
                };
                lemma_fundamental_div_mod_converse_div(p as int, d as int, -(qm as int), 0);
            }
            -(qm as i128)
        } else {
            proof {
                assert(p == (-(qm as int) - 1) * (d as int) + ((dm - rm) as int)) by {
                    assert(mag == (qm as int) * (dm as int) + rm);
                    assert((-(qm as int) - 1) * (d as int)
                        == -((qm as int) * (d as int)) - (d as int)) by (nonlinear_arith);
                };
                let ghost rem: int = dm - rm;
                assert(0 <= rem && rem < d);
                lemma_fundamental_div_mod_converse_div(
                    p as int,
                    d as int,
                    -(qm as int) - 1,
                    (dm - rm) as int,
                );
            }
            -(qm as i128) - 1
        }
    }
}

/// Fixed-point multiplication: the result is floor((a*b)/2^16), the exact
/// product of the two represented quantities rounded toward negative infinity.
pub fn fx_mul(a: i64, b: i64) -> (r: i64)
    requires
        i64::MIN * (FX_ONE as int) <= a * b,
        a * b <= i64::MAX * (FX_ONE as int) + (FX_ONE as int) - 1,
    ensures
        r == fx_mul_spec(a as int, b as int),
{
    proof {
        assert((a as int) * (b as int) <= 0x8000_0000_0000_0000i128 * 0x8000_0000_0000_0000i128)
            by (nonlinear_arith)
            requires -0x8000_0000_0000_0000i128 <= a <= 0x8000_0000_0000_0000i128
                && -0x8000_0000_0000_0000i128 <= b <= 0x8000_0000_0000_0000i128;
        assert((a as int) * (b as int) >= -(0x8000_0000_0000_0000i128 * 0x8000_0000_0000_0000i128))
            by (nonlinear_arith)
            requires -0x8000_0000_0000_0000i128 <= a <= 0x8000_0000_0000_0000i128
                && -0x8000_0000_0000_0000i128 <= b <= 0x8000_0000_0000_0000i128;
    }
    let p: i128 = (a as i128) * (b as i128);
    let q: i128 = floor_div_i128(p, FX_ONE as i128);
    proof {
        lemma_div_is_ordered(i64::MIN * (FX_ONE as int), p as int, FX_ONE as int);
        lemma_div_multiples_vanish(i64::MIN as int, FX_ONE as int);
        lemma_div_is_ordered(p as int, i64::MAX * (FX_ONE as int) + (FX_ONE as int) - 1, FX_ONE as int);
        assert((i64::MAX * (FX_ONE as int) + (FX_ONE as int) - 1) / (FX_ONE as int) == i64::MAX as int) by {
            lemma_fundamental_div_mod_converse_div(
                i64::MAX * (FX_ONE as int) + (FX_ONE as int) - 1,
                FX_ONE as int,
                i64::MAX as int,
                (FX_ONE as int) - 1,
            );
        };
    }
    q as i64
}

/// Fixed-point division by a positive value: the result is
/// floor((a*2^16)/b), the exact quotient of the two represented quantities
/// rounded toward negative infinity.
pub fn fx_div(a: i64, b: i64) -> (r: i64)
    requires
        0 < b,
        -(i64::MAX as int) * b <= a * (FX_ONE as int),
        a * (FX_ONE as int) <= (i64::MAX as int) * b,
    ensures
        r == fx_div_spec(a as int, b as int),
{
    let p: i128 = (a as i128) * (FX_ONE as i128);
    let q: i128 = floor_div_i128(p, b as i128);
    proof {
        lemma_div_is_ordered(-(i64::MAX as int) * b, p as int, b as int);
        lemma_div_multiples_vanish(-(i64::MAX as int), b as int);
        lemma_div_is_ordered(p as int, (i64::MAX as int) * b, b as int);
        lemma_div_multiples_vanish(i64::MAX as int, b as int);
    }
    q as i64
}

/// A value between zero and one scales a difference to a part of it:
/// the scaled difference stays between zero and the difference.
pub proof fn lemma_fx_scale_bounds(d: int, p: int)
    requires
        0 <= p <= FX_ONE as int,
    ensures
        min(d, 0) <= (d * p) / (FX_ONE as int) <= max(d, 0),
{
    let f = FX_ONE as int;
    lemma_div_of0(f);
    if d >= 0 {
        lemma_mul_nonnegative(d, p);
        assert(d * p <= d * f) by (nonlinear_arith)
            requires 0 <= d && p <= f;
        lemma_div_is_ordered(0, d * p, f);
        lemma_div_is_ordered(d * p, d * f, f);
        lemma_div_multiples_vanish(d, f);
    } else {
        assert(d * p <= 0) by (nonlinear_arith)
            requires d < 0 && 0 <= p;
        assert(d * f <= d * p) by (nonlinear_arith)
            requires d < 0 && p <= f;
        lemma_div_is_ordered(d * f, d * p, f);
        lemma_div_is_ordered(d * p, 0, f);
        lemma_div_multiples_vanish(d, f);
    }
}

/// A factor within [-1, 1] cannot grow a value's magnitude: the scaled
/// product stays within the bound of the value itself.
pub proof fn lemma_fx_mul_magnitude(d: int, s: int, m: int)
    requires
        -m <= d <= m,
        0 <= m <= i64::MAX,
        -(FX_ONE as int) <= s <= FX_ONE,
    ensures
        i64::MIN * (FX_ONE as int) <= d * s <= i64::MAX * (FX_ONE as int),
        i64::MIN * (FX_ONE as int) <= s * d <= i64::MAX * (FX_ONE as int),
        -m <= fx_mul_spec(d, s) <= m,
        -m <= fx_mul_spec(s, d) <= m,
{
    let f = FX_ONE as int;
    assert((-m) * f <= d * s && d * s <= m * f) by (nonlinear_arith)
        requires -m <= d <= m && 0 <= m && -f <= s <= f;
    assert(s * d == d * s) by (nonlinear_arith);
    assert(m * f <= i64::MAX * f && i64::MIN * f <= (-m) * f) by (nonlinear_arith)
        requires 0 <= m <= i64::MAX && f == 65536;
    lemma_div_is_ordered(d * s, m * f, f);
    assert(m * f == f * m) by (nonlinear_arith);
    lemma_div_multiples_vanish(m, f);
    lemma_div_is_ordered((-m) * f, d * s, f);
    assert((-m) * f == f * (-m)) by (nonlinear_arith);
    lemma_div_multiples_vanish(-m, f);
}

/// Half of a fixed-point value, rounded toward negative infinity.
pub fn fx_half(x: i64) -> (r: i64)
    ensures
        r == (x as int) / 2,
{
    let h: i128 = floor_div_i128(x as i128, 2);
    proof {
        lemma_div_is_ordered(i64::MIN as int, x as int, 2);
        lemma_div_is_ordered(x as int, i64::MAX as int, 2);
    }
    h as i64
}

} // verus!
