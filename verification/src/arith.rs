//! Integer facts shared by the coordinate domains.
use vstd::prelude::*;

verus! {

/// `v` is a value of `i32`.
pub open spec fn fits_i32(v: int) -> bool {
    i32::MIN <= v <= i32::MAX
}

/// `v` is a value of `i64`.
pub open spec fn fits_i64(v: int) -> bool {
    i64::MIN <= v <= i64::MAX
}

/// `v` is a value of `i128`.
pub open spec fn fits_i128(v: int) -> bool {
    i128::MIN <= v <= i128::MAX
}

/// Dot product `ax * bx + ay * by`.
pub open spec fn dot_product(ax: int, ay: int, bx: int, by: int) -> int {
    ax * bx + ay * by
}

/// Norm of the cross product, `ax * by - ay * bx`.
pub open spec fn cross_product(ax: int, ay: int, bx: int, by: int) -> int {
    ax * by - ay * bx
}

/// The integer nearest to the quotient `x / d`, a tie going to the larger one.
/// For a positive divisor this is the Euclidean quotient, plus one where the
/// remainder is at least half the divisor.
pub open spec fn round_div(x: int, d: int) -> int
    recommends
        d != 0,
{
    if d > 0 {
        if 2 * (x % d) >= d {
            x / d + 1
        } else {
            x / d
        }
    } else {
        if 2 * (x % d) > -d {
            x / d - 1
        } else {
            x / d
        }
    }
}

/// Euclidean division: `x == (x / d) * d + x % d` with `0 <= x % d < |d|`.
pub proof fn lemma_euclid(x: int, d: int)
    requires
        d != 0,
    ensures
        x == (x / d) * d + x % d,
        0 <= x % d,
        d > 0 ==> x % d < d,
        d < 0 ==> x % d < -d,
{
    if d > 0 {
        vstd::arithmetic::div_mod::lemma_fundamental_div_mod(x, d);
        vstd::arithmetic::div_mod::lemma_mod_bound(x, d);
        assert((x / d) * d == d * (x / d)) by (nonlinear_arith);
    } else {
        assert(x == (x / d) * d + x % d && 0 <= x % d < -d) by (nonlinear_arith)
            requires
                d < 0,
        ;
    }
}

/// `round_div(x, d)` is a nearest integer to `x / d`: twice the distance between
/// `x` and `round_div(x, d) * d` is at most `|d|`.
pub proof fn lemma_round_div_nearest(x: int, d: int)
    requires
        d != 0,
    ensures
        d > 0 ==> -d <= 2 * (x - round_div(x, d) * d) < d,
        d < 0 ==> d < 2 * (x - round_div(x, d) * d) <= -d,
{
    lemma_euclid(x, d);
    let q = x / d;
    let n = round_div(x, d);
    assert(n == q || n == q + 1 || n == q - 1);
    assert((q + 1) * d == q * d + d) by (nonlinear_arith);
    assert((q - 1) * d == q * d - d) by (nonlinear_arith);
    if n == q + 1 {
        assert(n * d == q * d + d);
    } else if n == q - 1 {
        assert(n * d == q * d - d);
    } else {
        assert(n * d == q * d);
    }
}

/// A product is bounded by the product of the bounds of its factors.
pub proof fn lemma_mul_bound(a: int, b: int, la: int, lb: int)
    by (nonlinear_arith)
    requires
        -la <= a <= la,
        -lb <= b <= lb,
    ensures
        -(la * lb) <= a * b <= la * lb,
{
}

} // verus!
