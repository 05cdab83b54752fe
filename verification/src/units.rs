//! The fixed-point units that lengths and factors are measured in.
use vstd::prelude::*;
use vstd::arithmetic::div_mod::{lemma_fundamental_div_mod, lemma_fundamental_div_mod_converse};

verus! {

/// Sub-units per image pixel. Coordinates, sizes and render scales are
/// integers counted in this unit: the length of one pixel, and the scale 1.0,
/// are both `UNIT`.
pub const UNIT: i64 = 65536;

/// `UNIT` squared: the area of a pixel.
pub const UNIT_SQUARED: i128 = 0x1_0000_0000;

/// Largest magnitude (in sub-units) of a coordinate or an offset that reaches
/// the geometry from outside: 2^32 pixels.
pub const INPUT_MAX: i64 = 0x1_0000_0000_0000;

/// Largest magnitude (in sub-units) of any coordinate the geometry works on:
/// inputs, and what a few steps of arithmetic make of them.
pub const COORD_MAX: i64 = 0x100_0000_0000_0000;

/// `v` may be handed to the geometry from outside.
pub open spec fn input_ok(v: int) -> bool {
    -INPUT_MAX <= v <= INPUT_MAX
}

/// `v` is a coordinate that the geometry of this crate accepts.
pub open spec fn coord_ok(v: int) -> bool {
    -COORD_MAX <= v <= COORD_MAX
}

/// Parts per one of the style factors (opacity, darkness, size factor).
pub const MICRO: i64 = 1_000_000;

/// A whole number of pixels as a length.
pub fn px(n: i32) -> (r: i64)
    ensures
        r == n * UNIT,
        coord_ok(r as int),
{
    n as i64 * UNIT
}

/// `v` rounded to the nearest whole pixel, halves away from zero.
pub open spec fn round_px_spec(v: int) -> int {
    if v >= 0 {
        (v + UNIT / 2) / UNIT as int
    } else {
        -((UNIT / 2 - v) / UNIT as int)
    }
}

/// Rounds a coordinate to the nearest whole pixel, halves away from zero.
pub fn round_px(v: i64) -> (r: i64)
    requires
        -0x4000_0000_0000_0000 <= v <= 0x4000_0000_0000_0000,
    ensures
        r == round_px_spec(v as int),
{
    if v >= 0 {
        (v + UNIT / 2) / UNIT
    } else {
        -((UNIT / 2 - v) / UNIT)
    }
}

/// `v` cut to a whole number of pixels, toward zero.
pub open spec fn trunc_px_spec(v: int) -> int {
    if v >= 0 {
        v / UNIT as int
    } else {
        -(-v / UNIT as int)
    }
}

/// Cuts a coordinate to a whole number of pixels, toward zero.
pub fn trunc_px(v: i64) -> (r: i64)
    requires
        coord_ok(v as int),
    ensures
        r == trunc_px_spec(v as int),
{
    if v >= 0 {
        v / UNIT
    } else {
        -(-v / UNIT)
    }
}

/// The smaller of two numbers.
pub open spec fn min_spec(a: int, b: int) -> int {
    if a <= b {
        a
    } else {
        b
    }
}

/// The larger of two numbers.
pub open spec fn max_spec(a: int, b: int) -> int {
    if a >= b {
        a
    } else {
        b
    }
}

/// `v` moved into `lo..=hi`; `lo` wins where the range is empty.
pub open spec fn clamp_spec(v: int, lo: int, hi: int) -> int {
    max_spec(min_spec(v, hi), lo)
}

/// Magnitude of a number.
pub open spec fn abs_spec(v: int) -> int {
    if v >= 0 {
        v
    } else {
        -v
    }
}

/// The smaller of two lengths.
pub fn min_len(a: i64, b: i64) -> (r: i64)
    ensures
        r == min_spec(a as int, b as int),
{
    if a <= b {
        a
    } else {
        b
    }
}

/// The larger of two lengths.
pub fn max_len(a: i64, b: i64) -> (r: i64)
    ensures
        r == max_spec(a as int, b as int),
{
    if a >= b {
        a
    } else {
        b
    }
}

/// `v` moved into `lo..=hi`; `lo` wins where the range is empty.
pub fn clamp_len(v: i64, lo: i64, hi: i64) -> (r: i64)
    ensures
        r == clamp_spec(v as int, lo as int, hi as int),
{
    max_len(min_len(v, hi), lo)
}

/// Magnitude of a length.
pub fn abs_len(v: i64) -> (r: i64)
    requires
        v > i64::MIN,
    ensures
        r == abs_spec(v as int),
{
    if v >= 0 {
        v
    } else {
        -v
    }
}

/// Half of `v`, rounded down.
pub fn half(v: i64) -> (r: i64)
    ensures
        r == v as int / 2,
{
    if v >= 0 {
        v / 2
    } else {
        -((-(v + 1)) / 2) - 1
    }
}

/// `a / b` rounded to the nearest integer, halves up. Only for positive `b`.
pub open spec fn div_round_spec(a: int, b: int) -> int {
    (2 * a + b) / (2 * b)
}

/// `a / b` rounded down.
pub fn floor_div(a: i128, b: i128) -> (r: i128)
    requires
        b > 0,
        a > i128::MIN,
    ensures
        r == a as int / b as int,
{
    if a >= 0 {
        a / b
    } else {
        let n: i128 = -(a + 1);
        let q: i128 = n / b;
        let r: i128 = -q - 1;
        proof {
            lemma_fundamental_div_mod(n as int, b as int);
            let m = n as int % b as int;
            assert(a as int == (r as int) * (b as int) + (b as int - 1 - m)) by (nonlinear_arith)
                requires
                    n as int == (b as int) * (q as int) + m,
                    n == -(a + 1),
                    r == -q - 1,
            ;
            lemma_fundamental_div_mod_converse(a as int, b as int, r as int, b as int - 1 - m);
        }
        r
    }
}

/// `v * num / den` to the nearest integer, halves up, in 128 bits.
pub fn mul_div_wide(v: i64, num: i64, den: i64) -> (r: i128)
    requires
        den > 0,
    ensures
        r == div_round_spec(v * num, den as int),
        -0x4000_0000_0000_0000_0000_0000_0000_0001 <= r
            <= 0x4000_0000_0000_0000_0000_0000_0000_0001,
{
    proof {
        assert(-0x4000_0000_0000_0000_0000_0000_0000_0000 <= v * num
            <= 0x4000_0000_0000_0000_0000_0000_0000_0000) by (nonlinear_arith)
            requires
                -0x8000_0000_0000_0000 <= v <= 0x7fff_ffff_ffff_ffff,
                -0x8000_0000_0000_0000 <= num <= 0x7fff_ffff_ffff_ffff,
        ;
    }
    let p: i128 = v as i128 * num as i128;
    let d: i128 = den as i128;
    let h: i128 = floor_div(p, d);
    let rem: i128 = {
        proof {
            lemma_fundamental_div_mod(p as int, d as int);
            assert(h * d == p as int - (p as int % d as int)) by (nonlinear_arith)
                requires
                    h == p as int / d as int,
                    p as int == (d as int) * (p as int / d as int) + (p as int % d as int),
            ;
        }
        p - h * d
    };
    proof {
        let up = if 2 * rem >= d { 1int } else { 0int };
        let q = h as int + up;
        let m = 2 * rem as int + d as int - 2 * d as int * up;
        assert(2 * (p as int) + d as int == q * (2 * d as int) + m) by (nonlinear_arith)
            requires
                p as int == (h as int) * (d as int) + rem as int,
                q == h as int + up,
                m == 2 * rem as int + d as int - 2 * d as int * up,
        ;
        assert(0 <= rem < d);
        assert(0 <= m < 2 * d) by {
            if up == 1 {
                assert(2 * d as int * up == 2 * d as int);
            } else {
                assert(2 * d as int * up == 0);
            }
        }
        lemma_fundamental_div_mod_converse(2 * (p as int) + d as int, 2 * d as int, q, m);
    }
    proof {
        lemma_div_round_near(p as int, d as int);
        let q = div_round_spec(p as int, d as int);
        let lim = 0x4000_0000_0000_0000_0000_0000_0000_0000int;
        assert(-lim - 1 <= q <= lim + 1) by (nonlinear_arith)
            requires
                d >= 1,
                -lim <= p <= lim,
                -d <= 2 * (q * d - p) <= d,
        ;
    }
    if 2 * rem >= d {
        h + 1
    } else {
        h
    }
}

/// `v * num / den` to the nearest integer, halves up.
pub fn mul_div(v: i64, num: i64, den: i64) -> (r: i64)
    requires
        den > 0,
        i64::MIN <= div_round_spec(v * num, den as int) <= i64::MAX,
    ensures
        r == div_round_spec(v * num, den as int),
{
    mul_div_wide(v, num, den) as i64
}

/// Where nothing has to be rounded, scaling and scaling back gives the same
/// number again.
pub proof fn lemma_mul_div_inverse(v: int, num: int, den: int)
    requires
        num > 0,
        den > 0,
        (v * num) % den == 0,
    ensures
        div_round_spec(div_round_spec(v * num, den) * den, num) == v,
{
    let q = (v * num) / den;
    lemma_fundamental_div_mod(v * num, den);
    assert(2 * (v * num) + den == q * (2 * den) + den) by (nonlinear_arith)
        requires
            v * num == den * q + 0,
    ;
    lemma_fundamental_div_mod_converse(2 * (v * num) + den, 2 * den, q, den);
    assert(q * den == v * num) by (nonlinear_arith)
        requires
            v * num == den * q,
    ;
    assert(2 * (q * den) + num == v * (2 * num) + num) by (nonlinear_arith)
        requires
            q * den == v * num,
    ;
    lemma_fundamental_div_mod_converse(2 * (q * den) + num, 2 * num, v, num);
}

/// A number scaled by a ratio moves no further than the rounding away from
/// the exact quotient.
pub proof fn lemma_div_round_near(a: int, b: int)
    requires
        b > 0,
    ensures
        -b <= 2 * (div_round_spec(a, b) * b - a) <= b,
{
    let q = div_round_spec(a, b);
    lemma_fundamental_div_mod(2 * a + b, 2 * b);
    assert(2 * (q * b - a) == b - (2 * a + b) % (2 * b)) by (nonlinear_arith)
        requires
            2 * a + b == (2 * b) * q + (2 * a + b) % (2 * b),
    ;
}

} // verus!
