//! Fixed-point scores.
//!
//! Every score of the simulator (support, rigidity, probabilities, risks) is an
//! integer number of ten-thousandths: `SCALE` stands for 1.0, so a unit-interval
//! score lies in `0..=SCALE` and a signed score in `-SCALE..=SCALE`.
//! Weighted sums are formed at scale `SCALE * SCALE` (a weight in ten-thousandths
//! times a score in ten-thousandths) and brought back to a score by `clamp_wide`.

use vstd::prelude::*;

verus! {

/// One whole unit, in ten-thousandths.
pub const SCALE: i64 = 10000;

/// `SCALE * SCALE`: the scale of a weighted sum before it is brought back.
pub const WIDE: i64 = 100000000;

/// Bound on the magnitude of the weighted sums that `clamp_wide` accepts.
pub const WIDE_BOUND: i64 = 1000000000000;

pub open spec fn unit(x: int) -> bool {
    0 <= x <= (SCALE as int)
}

pub open spec fn signed_unit(x: int) -> bool {
    -(SCALE as int) <= x <= (SCALE as int)
}

/// A weighted sum at scale `WIDE`, clamped into the unit interval and brought
/// back to scale `SCALE` (rounding down).
pub open spec fn clamp_wide_spec(n: int) -> int {
    if n <= 0 {
        0
    } else if n >= (WIDE as int) {
        (SCALE as int)
    } else {
        n / (SCALE as int)
    }
}

/// A score at scale `SCALE`, clamped into the unit interval.
pub open spec fn clamp_unit_spec(x: int) -> int {
    if x <= 0 {
        0
    } else if x >= (SCALE as int) {
        (SCALE as int)
    } else {
        x
    }
}

/// A score at scale `SCALE`, clamped into the signed unit interval.
pub open spec fn clamp_signed_spec(x: int) -> int {
    if x <= -(SCALE as int) {
        -(SCALE as int)
    } else if x >= (SCALE as int) {
        (SCALE as int)
    } else {
        x
    }
}

/// The product of two scores, at scale `SCALE` (rounding down).
pub open spec fn product_spec(a: int, b: int) -> int {
    (a * b) / (SCALE as int)
}

/// The ratio `count / total` as a unit score (rounding down); 0 when `total` is 0.
pub open spec fn ratio_spec(count: int, total: int) -> int {
    if total <= 0 {
        0
    } else if count >= total {
        (SCALE as int)
    } else {
        (count * (SCALE as int)) / total
    }
}

/// An optional score as an optional integer.
pub open spec fn opt_score(o: Option<i64>) -> Option<int> {
    match o {
        Some(x) => Some(x as int),
        None => None,
    }
}

pub open spec fn abs_spec(x: int) -> int {
    if x < 0 {
        -x
    } else {
        x
    }
}

pub open spec fn max_spec(a: int, b: int) -> int {
    if a >= b {
        a
    } else {
        b
    }
}

pub open spec fn min_spec(a: int, b: int) -> int {
    if a <= b {
        a
    } else {
        b
    }
}

pub proof fn lemma_product_bounds(a: int, b: int)
    requires
        unit(a),
        unit(b),
    ensures
        0 <= a * b <= (WIDE as int),
        unit(product_spec(a, b)),
        product_spec(a, b) <= a,
        product_spec(a, b) <= b,
{
    assert(0 <= a * b <= (WIDE as int)) by (nonlinear_arith)
        requires
            0 <= a <= (SCALE as int),
            0 <= b <= (SCALE as int),
    ;
    assert(a * b <= a * (SCALE as int)) by (nonlinear_arith)
        requires
            0 <= a <= (SCALE as int),
            0 <= b <= (SCALE as int),
    ;
    assert(a * b <= b * (SCALE as int)) by (nonlinear_arith)
        requires
            0 <= a <= (SCALE as int),
            0 <= b <= (SCALE as int),
    ;
    assert((a * b) / (SCALE as int) <= a) by (nonlinear_arith)
        requires
            0 <= a * b <= a * (SCALE as int),
            (SCALE as int) == 10000,
    ;
    assert((a * b) / (SCALE as int) <= b) by (nonlinear_arith)
        requires
            0 <= a * b <= b * (SCALE as int),
            (SCALE as int) == 10000,
    ;
    assert(0 <= (a * b) / (SCALE as int)) by (nonlinear_arith)
        requires
            0 <= a * b,
            (SCALE as int) == 10000,
    ;
}

pub fn clamp_wide(n: i64) -> (r: i64)
    requires
        -WIDE_BOUND <= n <= WIDE_BOUND,
    ensures
        r == clamp_wide_spec(n as int),
        unit(r as int),
{
    if n <= 0 {
        0
    } else if n >= WIDE {
        SCALE
    } else {
        proof {
            assert(n / SCALE <= SCALE) by (nonlinear_arith)
                requires
                    0 < n < WIDE,
                    SCALE == 10000,
                    WIDE == 100000000,
            ;
            assert(0 <= n / SCALE) by (nonlinear_arith)
                requires
                    0 < n,
                    SCALE == 10000,
            ;
        }
        n / SCALE
    }
}

pub fn clamp_unit(x: i64) -> (r: i64)
    ensures
        r == clamp_unit_spec(x as int),
        unit(r as int),
{
    if x <= 0 {
        0
    } else if x >= SCALE {
        SCALE
    } else {
        x
    }
}

pub fn clamp_signed(x: i64) -> (r: i64)
    ensures
        r == clamp_signed_spec(x as int),
        signed_unit(r as int),
{
    if x <= -SCALE {
        -SCALE
    } else if x >= SCALE {
        SCALE
    } else {
        x
    }
}

pub fn product(a: i64, b: i64) -> (r: i64)
    requires
        unit(a as int),
        unit(b as int),
    ensures
        r == product_spec(a as int, b as int),
        unit(r as int),
        r <= a,
        r <= b,
{
    proof {
        lemma_product_bounds(a as int, b as int);
    }
    (a * b) / SCALE
}

pub fn ratio(count: usize, total: usize) -> (r: i64)
    ensures
        r == ratio_spec(count as int, total as int),
        unit(r as int),
{
    if total == 0 {
        0
    } else if count >= total {
        SCALE
    } else {
        let c: u128 = count as u128;
        let t: u128 = total as u128;
        proof {
            let ci = c as int;
            let ti = t as int;
            assert(ci * 10000 <= 0xffff_ffff_ffff_ffff_0000) by (nonlinear_arith)
                requires
                    0 <= ci <= 0xffff_ffff_ffff_ffff,
            ;
            assert((ci * 10000) / ti <= 10000) by (nonlinear_arith)
                requires
                    0 <= ci < ti,
            ;
            assert(0 <= (ci * 10000) / ti) by (nonlinear_arith)
                requires
                    0 <= ci,
                    0 < ti,
            ;
        }
        let q: u128 = (c * 10000) / t;
        q as i64
    }
}

pub fn abs_score(x: i64) -> (r: i64)
    requires
        -WIDE_BOUND <= x <= WIDE_BOUND,
    ensures
        r == abs_spec(x as int),
{
    if x < 0 {
        -x
    } else {
        x
    }
}

pub fn max_score(a: i64, b: i64) -> (r: i64)
    ensures
        r == max_spec(a as int, b as int),
{
    if a >= b {
        a
    } else {
        b
    }
}

pub fn min_score(a: i64, b: i64) -> (r: i64)
    ensures
        r == min_spec(a as int, b as int),
{
    if a <= b {
        a
    } else {
        b
    }
}

/// `clamp_wide` for sums that may exceed the `i64` bound of `clamp_wide`.
pub fn clamp_wide_big(n: i128) -> (r: i64)
    ensures
        r == clamp_wide_spec(n as int),
        unit(r as int),
{
    if n <= 0 {
        0
    } else if n >= WIDE as i128 {
        SCALE
    } else {
        clamp_wide(n as i64)
    }
}

/// `SCALE * SCALE * SCALE`: the scale of sums that hold products of two scores
/// and a weight.
pub const CUBE: i128 = 1000000000000;

/// A weighted sum at scale `CUBE`, clamped into the unit interval and brought
/// back to scale `SCALE` (rounding down).
pub open spec fn clamp_cube_spec(n: int) -> int {
    if n <= 0 {
        0
    } else if n >= CUBE {
        SCALE as int
    } else {
        n / 100000000
    }
}

pub fn clamp_cube(n: i128) -> (r: i64)
    ensures
        r == clamp_cube_spec(n as int),
        unit(r as int),
{
    if n <= 0 {
        0
    } else if n >= CUBE {
        SCALE
    } else {
        proof {
            assert(0 <= n / 100000000 <= 10000) by (nonlinear_arith)
                requires
                    0 < n < 1000000000000,
            ;
        }
        (n / 100000000) as i64
    }
}

/// The product `a * b * w` of two scores and a weight, exactly.
pub fn prod3(a: i64, b: i64, w: i64) -> (r: i128)
    requires
        -20000 <= a <= 20000,
        -20000 <= b <= 20000,
        -10000 <= w <= 10000,
    ensures
        r == a * b * w,
        -4000000000000 <= r <= 4000000000000,
{
    proof {
        assert(-400000000 <= a * b <= 400000000) by (nonlinear_arith)
            requires
                -20000 <= a <= 20000,
                -20000 <= b <= 20000,
        ;
    }
    let ab = (a as i128) * (b as i128);
    proof {
        assert(-4000000000000 <= (a * b) * w <= 4000000000000) by (nonlinear_arith)
            requires
                -400000000 <= a * b <= 400000000,
                -10000 <= w <= 10000,
        ;
    }
    ab * (w as i128)
}

/// A weighted sum at scale `SCALE * d`, clamped into the unit interval and
/// brought back to scale `SCALE` (rounding down).
pub open spec fn clamp_div_spec(n: int, d: int) -> int {
    if n <= 0 {
        0
    } else if n >= 10000 * d {
        SCALE as int
    } else {
        n / d
    }
}

pub fn clamp_div(n: i128, d: i128) -> (r: i64)
    requires
        0 < d <= 1000000000000,
    ensures
        r == clamp_div_spec(n as int, d as int),
        unit(r as int),
{
    if n <= 0 {
        0
    } else if n >= 10000 * d {
        SCALE
    } else {
        proof {
            assert(0 <= n / d <= 10000) by (nonlinear_arith)
                requires
                    0 < n < 10000 * d,
                    0 < d,
            ;
        }
        (n / d) as i64
    }
}

/// Division rounding toward negative infinity.
pub fn floor_div(n: i128, d: i128) -> (r: i128)
    requires
        0 < d <= 0x2000_0000_0000_0000_0000_0000_0000_0000,
        -0x4000_0000_0000_0000_0000_0000_0000_0000 <= n <= 0x4000_0000_0000_0000_0000_0000_0000_0000,
    ensures
        r == n / d,
{
    if n >= 0 {
        n / d
    } else {
        let m = -n;
        let q = (m + d - 1) / d;
        proof {
            let ni = n as int;
            let di = d as int;
            let qi = q as int;
            assert(qi == (-ni + di - 1) / di);
            assert(ni / di == -qi) by (nonlinear_arith)
                requires
                    ni < 0,
                    di > 0,
                    qi == (-ni + di - 1) / di,
            ;
        }
        -q
    }
}

} // verus!
