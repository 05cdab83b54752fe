//! What measuring and rounding come to.
use vstd::prelude::*;
use crate::math::{across_spec, along_spec, dist2_spec, near_segment_spec, Rect, Vec2D};
use crate::units::{
    abs_spec, clamp_spec, div_round_spec, max_spec, min_spec, round_px_spec, trunc_px_spec, MICRO,
    UNIT,
};

verus! {

/// A pixel has 65536 sub-units, and factors are in millionths.
pub proof fn lemma_measures()
    ensures
        UNIT == 65536,
        MICRO == 1_000_000,
{
}

/// Rounding to pixels takes the nearest one, and does the same on both sides
/// of zero; a half goes away from zero.
pub proof fn lemma_rounding_is_to_nearest(v: int)
    ensures
        v >= 0 ==> 65536 * round_px_spec(v) - 32768 <= v < 65536 * round_px_spec(v) + 32768,
        round_px_spec(-v) == -round_px_spec(v),
{
}

/// Cutting to pixels goes toward zero.
pub proof fn lemma_cutting_is_toward_zero(v: int)
    ensures
        v >= 0 ==> 65536 * trunc_px_spec(v) <= v < 65536 * trunc_px_spec(v) + 65536,
        trunc_px_spec(-v) == -trunc_px_spec(v),
{
}

/// The smaller, the larger, the magnitude and the nearest value of a range
/// are one of what they are taken from, and on its right side.
pub proof fn lemma_extremes(a: int, b: int, v: int)
    ensures
        min_spec(a, b) <= a && min_spec(a, b) <= b && (min_spec(a, b) == a || min_spec(a, b) == b),
        max_spec(a, b) >= a && max_spec(a, b) >= b && (max_spec(a, b) == a || max_spec(a, b) == b),
        abs_spec(v) >= 0 && (abs_spec(v) == v || abs_spec(v) == -v),
        a <= b && a <= v <= b ==> clamp_spec(v, a, b) == v,
        a <= b && v < a ==> clamp_spec(v, a, b) == a,
        a <= b && v > b ==> clamp_spec(v, a, b) == b,
        a > b ==> clamp_spec(v, a, b) == a,
{
}

/// A rounded quotient is off by at most a half, and a half goes up.
pub proof fn lemma_quotient_is_to_nearest(a: int, b: int)
    requires
        b > 0,
    ensures
        2 * a - b < 2 * (div_round_spec(a, b) * b) <= 2 * a + b,
{
    let t = 2 * a + b;
    let q = div_round_spec(a, b);
    vstd::arithmetic::div_mod::lemma_fundamental_div_mod(t, 2 * b);
    assert(2 * b * q == 2 * (q * b)) by (nonlinear_arith);
}

/// A rectangle holds the points between its edges, edges included.
pub proof fn lemma_rectangle_holds(r: Rect, p: Vec2D)
    ensures
        r.contains_spec(p) <==> {
            &&& r.pos.x <= p.x && p.x <= r.pos.x + r.size.x
            &&& r.pos.y <= p.y && p.y <= r.pos.y + r.size.y
        },
{
}

/// The point that lies `k` of `n` parts of the way from `a` to `b` is at most
/// `pick` away from `p`.
pub open spec fn part_is_near(p: Vec2D, a: Vec2D, b: Vec2D, k: int, n: int, pick: int) -> bool {
    let x = n * (p.x - a.x) - k * (b.x - a.x);
    let y = n * (p.y - a.y) - k * (b.y - a.y);
    x * x + y * y <= (n * pick) * (n * pick)
}

/// `p` is near a segment when some point of the segment is near it.
pub proof fn lemma_near_a_part_is_near_the_segment(
    p: Vec2D,
    a: Vec2D,
    b: Vec2D,
    k: int,
    n: int,
    pick: int,
)
    requires
        pick >= 0,
        0 <= k <= n,
        n > 0,
        part_is_near(p, a, b, k, n, pick),
    ensures
        near_segment_spec(p, a, b, pick),
{
    let (ux, uy) = (p.x - a.x, p.y - a.y);
    let (dx, dy) = (b.x - a.x, b.y - a.y);
    let u = ux * ux + uy * uy;
    let s = ux * dx + uy * dy;
    let l = dx * dx + dy * dy;
    let c = ux * dy - uy * dx;
    let w = pick * pick;
    let (n2, nk, k2) = (n * n, n * k, k * k);
    lemma_parts_expand(ux, uy, dx, dy, k, n);
    lemma_products(ux, uy, dx, dy);
    assert((n * pick) * (n * pick) == n2 * w) by (nonlinear_arith)
        requires
            n2 == n * n,
            w == pick * pick,
    ;
    assert(n2 * u - 2 * (nk * s) + k2 * l <= n2 * w);
    assert(n2 > 0 && nk >= 0 && k2 >= 0) by (nonlinear_arith)
        requires
            n2 == n * n,
            nk == n * k,
            k2 == k * k,
            n > 0,
            k >= 0,
    ;
    if s <= 0 {
        assert(nk * s <= 0 && k2 * l >= 0) by (nonlinear_arith)
            requires
                nk >= 0,
                s <= 0,
                k2 >= 0,
                l >= 0,
        ;
        assert(u <= w) by (nonlinear_arith)
            requires
                n2 > 0,
                n2 * u <= n2 * w,
        ;
    } else if s >= l {
        let m = n - k;
        let v = u - 2 * s + l;
        assert(n2 * v <= n2 * w) by {
            assert(n2 * v == n2 * u - 2 * (n2 * s) + n2 * l) by (nonlinear_arith)
                requires
                    v == u - 2 * s + l,
            ;
            assert(2 * (nk * s) - k2 * l - 2 * (n2 * s) + n2 * l <= 0) by (nonlinear_arith)
                requires
                    n2 == n * n,
                    nk == n * k,
                    k2 == k * k,
                    0 <= k <= n,
                    s >= l,
                    l >= 0,
            {
                assert(2 * (n * k * s) - k * k * l - 2 * (n * n * s) + n * n * l == (n - k) * (l * (n
                    + k) - 2 * (n * s)));
                assert(n * s >= n * l);
                assert(l * (n + k) - 2 * (n * s) <= -(l * (n - k)));
                assert(l * (n - k) >= 0);
                assert((n - k) * (l * (n + k) - 2 * (n * s)) <= 0);
            }
        }
        assert(v <= w) by (nonlinear_arith)
            requires
                n2 > 0,
                n2 * v <= n2 * w,
        ;
        assert(dist2_spec(p, b) == v) by {
            let (ex, ey) = (p.x - b.x, p.y - b.y);
            assert(ex * ex + ey * ey == u - 2 * s + l) by (nonlinear_arith)
                requires
                    ex == ux - dx,
                    ey == uy - dy,
                    u == ux * ux + uy * uy,
                    s == ux * dx + uy * dy,
                    l == dx * dx + dy * dy,
            ;
        }
    } else {
        let g = k * l - n * s;
        let f = n2 * u - 2 * (nk * s) + k2 * l;
        assert(l * f == g * g + n2 * (l * u - s * s)) by {
            let (kl, ns) = (k * l, n * s);
            lemma_square_of_difference(kl, ns);
            lemma_regroup(k, l, k, l);
            lemma_regroup(k, l, n, s);
            lemma_regroup(n, s, n, s);
            assert(k * n == nk && l * (n2 * u) == n2 * (l * u) && l * (nk * s) == nk * (l * s) && l
                * (k2 * l) == k2 * (l * l)) by (nonlinear_arith)
                requires
                    nk == n * k,
            ;
            assert(l * f == l * (n2 * u) - 2 * (l * (nk * s)) + l * (k2 * l)) by (nonlinear_arith)
                requires
                    f == n2 * u - 2 * (nk * s) + k2 * l,
            ;
            assert(n2 * (l * u - s * s) == n2 * (l * u) - n2 * (s * s)) by (nonlinear_arith);
        }
        assert(g * g >= 0) by (nonlinear_arith);
        assert(l * f <= l * (n2 * w)) by (nonlinear_arith)
            requires
                l >= 0,
                f <= n2 * w,
        ;
        assert(l * (n2 * w) == n2 * (w * l)) by (nonlinear_arith);
        assert(l * u - s * s == c * c);
        assert(c * c <= w * l) by (nonlinear_arith)
            requires
                n2 > 0,
                n2 * (c * c) <= n2 * (w * l),
        ;
    }
}

/// A point near a segment is near some point of it.
pub proof fn lemma_near_the_segment_is_near_a_part(p: Vec2D, a: Vec2D, b: Vec2D, pick: int)
    requires
        near_segment_spec(p, a, b, pick),
    ensures
        pick >= 0,
        exists|k: int, n: int| 0 <= k <= n && 0 < n && #[trigger] part_is_near(p, a, b, k, n, pick),
{
    let (ux, uy) = (p.x - a.x, p.y - a.y);
    let (dx, dy) = (b.x - a.x, b.y - a.y);
    let s = along_spec(p, a, b);
    let l = dist2_spec(b, a);
    lemma_products(ux, uy, dx, dy);
    if s <= 0 {
        assert(1 * ux - 0 * dx == ux && 1 * uy - 0 * dy == uy);
        assert(part_is_near(p, a, b, 0, 1, pick));
    } else if s >= l {
        assert(1 * ux - 1 * dx == p.x - b.x && 1 * uy - 1 * dy == p.y - b.y);
        assert(part_is_near(p, a, b, 1, 1, pick));
    } else {
        let c = across_spec(p, a, b);
        let u = ux * ux + uy * uy;
        lemma_parts_expand(ux, uy, dx, dy, s, l);
        let f = (l * l) * u - 2 * ((l * s) * s) + (s * s) * l;
        assert(f == l * (l * u - s * s)) by (nonlinear_arith)
            requires
                f == (l * l) * u - 2 * ((l * s) * s) + (s * s) * l,
        ;
        assert(l * (c * c) <= l * ((pick * pick) * l)) by (nonlinear_arith)
            requires
                l > 0,
                c * c <= (pick * pick) * l,
        ;
        assert(l * ((pick * pick) * l) == (l * pick) * (l * pick)) by (nonlinear_arith);
        assert(part_is_near(p, a, b, s, l, pick));
    }
}

proof fn lemma_parts_expand(ux: int, uy: int, dx: int, dy: int, k: int, n: int)
    ensures
        (n * ux - k * dx) * (n * ux - k * dx) + (n * uy - k * dy) * (n * uy - k * dy) == (n * n) * (
        ux * ux + uy * uy) - 2 * ((n * k) * (ux * dx + uy * dy)) + (k * k) * (dx * dx + dy * dy),
{
    lemma_square_of_difference(n * ux, k * dx);
    lemma_square_of_difference(n * uy, k * dy);
    lemma_regroup(n, ux, n, ux);
    lemma_regroup(n, ux, k, dx);
    lemma_regroup(k, dx, k, dx);
    lemma_regroup(n, uy, n, uy);
    lemma_regroup(n, uy, k, dy);
    lemma_regroup(k, dy, k, dy);
    assert((n * n) * (ux * ux + uy * uy) == (n * n) * (ux * ux) + (n * n) * (uy * uy))
        by (nonlinear_arith);
    assert((n * k) * (ux * dx + uy * dy) == (n * k) * (ux * dx) + (n * k) * (uy * dy))
        by (nonlinear_arith);
    assert((k * k) * (dx * dx + dy * dy) == (k * k) * (dx * dx) + (k * k) * (dy * dy))
        by (nonlinear_arith);
}

proof fn lemma_products(ux: int, uy: int, dx: int, dy: int)
    ensures
        dx * dx + dy * dy >= 0,
        (dx * dx + dy * dy) * (ux * ux + uy * uy) - (ux * dx + uy * dy) * (ux * dx + uy * dy) == (ux
            * dy - uy * dx) * (ux * dy - uy * dx),
{
    assert(dx * dx >= 0 && dy * dy >= 0) by (nonlinear_arith);
    let (x, y, p, q) = (ux * dx, uy * dy, ux * dy, uy * dx);
    lemma_square_of_difference(p, q);
    assert((x + y) * (x + y) == x * x + 2 * (x * y) + y * y) by (nonlinear_arith);
    let (dx2, dy2, ux2, uy2) = (dx * dx, dy * dy, ux * ux, uy * uy);
    assert((dx2 + dy2) * (ux2 + uy2) == ux2 * dx2 + uy2 * dx2 + ux2 * dy2 + uy2 * dy2)
        by (nonlinear_arith);
    lemma_regroup(ux, dx, ux, dx);
    lemma_regroup(uy, dy, uy, dy);
    lemma_regroup(ux, dy, ux, dy);
    lemma_regroup(uy, dx, uy, dx);
    lemma_regroup(ux, dx, uy, dy);
    lemma_regroup(ux, dy, uy, dx);
    assert(dx * dy == dy * dx) by (nonlinear_arith);
}

proof fn lemma_square_of_difference(a: int, b: int)
    ensures
        (a - b) * (a - b) == a * a - 2 * (a * b) + b * b,
{
    assert((a - b) * (a - b) == a * a - 2 * (a * b) + b * b) by (nonlinear_arith);
}

proof fn lemma_regroup(a: int, b: int, c: int, d: int)
    ensures
        (a * b) * (c * d) == (a * c) * (b * d),
{
    assert((a * b) * (c * d) == (a * c) * (b * d)) by (nonlinear_arith);
}

} // verus!
