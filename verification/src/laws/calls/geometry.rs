//! What the functions of geometry give back.
use vstd::prelude::*;
use crate::laws::geometry::part_is_near;
use crate::math::{
    dist2, near_segment, rect_ensure_in_bounds, rect_ensure_positive_size, Rect, Vec2D,
};
use crate::style::Size;
use crate::units::{
    abs_len, clamp_len, half, max_len, min_len, mul_div, px, round_px, trunc_px,
};
use crate::wide::isqrt;

verus! {

/// A coordinate is rounded to the nearest pixel.
pub proof fn lemma_round_px(v: i64, r: i64)
    requires
        call_ensures(round_px, (v,), r),
    ensures
        -65536 <= 2 * (65536 * r - v) <= 65536,
        v >= 0 ==> 2 * (65536 * r - v) > -65536,
        v < 0 ==> 2 * (65536 * r - v) < 65536,
{
}

/// A coordinate is cut to pixels toward zero.
pub proof fn lemma_trunc_px(v: i64, r: i64)
    requires
        call_ensures(trunc_px, (v,), r),
    ensures
        v >= 0 ==> 65536 * r <= v < 65536 * r + 65536,
        v <= 0 ==> 65536 * r - 65536 < v <= 65536 * r,
{
}

/// A number of pixels is as many times 65536 sub-units.
pub proof fn lemma_px(n: i32, r: i64)
    requires
        call_ensures(px, (n,), r),
    ensures
        r == 65536 * n,
{
}

/// The smaller of two lengths is one of them, and above neither.
pub proof fn lemma_min_len(a: i64, b: i64, r: i64)
    requires
        call_ensures(min_len, (a, b), r),
    ensures
        r <= a && r <= b && (r == a || r == b),
{
}

/// The larger of two lengths is one of them, and below neither.
pub proof fn lemma_max_len(a: i64, b: i64, r: i64)
    requires
        call_ensures(max_len, (a, b), r),
    ensures
        r >= a && r >= b && (r == a || r == b),
{
}

/// A clamped length is the one in the range that is nearest.
pub proof fn lemma_clamp_len(v: i64, lo: i64, hi: i64, r: i64, w: int)
    requires
        call_ensures(clamp_len, (v, lo, hi), r),
        lo <= w <= hi,
    ensures
        lo <= r <= hi,
        v <= r <= w || w <= r <= v,
{
}

/// A magnitude is the number or its opposite, and not negative.
pub proof fn lemma_abs_len(v: i64, r: i64)
    requires
        call_ensures(abs_len, (v,), r),
    ensures
        r >= 0 && (r == v || r == -v),
{
}

/// A half, cut down to a sub-unit.
pub proof fn lemma_half(v: i64, r: i64)
    requires
        call_ensures(half, (v,), r),
    ensures
        0 <= v - 2 * r <= 1,
{
}

/// A length times a ratio, to the nearest sub-unit.
pub proof fn lemma_mul_div(v: i64, num: i64, den: i64, r: i64)
    requires
        call_ensures(mul_div, (v, num, den), r),
        den > 0,
    ensures
        -den <= 2 * (r * den - v * num) <= den,
{
    crate::units::lemma_div_round_near(v * num, den as int);
}

/// A root squared is not above the number, and the next one is.
pub proof fn lemma_isqrt(x: u128, r: u64)
    requires
        call_ensures(isqrt, (x,), r),
    ensures
        r * r <= x < (r + 1) * (r + 1),
{
}

/// Adding an offset and taking it away again changes nothing.
pub proof fn lemma_plus_and_minus(p: Vec2D, d: Vec2D, q: Vec2D, r: Vec2D)
    requires
        call_ensures(Vec2D::plus, (p, d), q),
        call_ensures(Vec2D::minus, (q, d), r),
    ensures
        r == p,
        q.x - p.x == d.x,
        q.y - p.y == d.y,
{
}

/// The squared distance is the square of the way across and of the way down.
pub proof fn lemma_dist2(a: Vec2D, b: Vec2D, r: i128)
    requires
        call_ensures(dist2, (a, b), r),
    ensures
        r == (b.x - a.x) * (b.x - a.x) + (b.y - a.y) * (b.y - a.y),
{
    assert((a.x - b.x) * (a.x - b.x) == (b.x - a.x) * (b.x - a.x)) by (nonlinear_arith);
    assert((a.y - b.y) * (a.y - b.y) == (b.y - a.y) * (b.y - a.y)) by (nonlinear_arith);
}

/// The corners of a rectangle.
pub proof fn lemma_corners(a: Rect, tl: Vec2D, tr: Vec2D, bl: Vec2D, br: Vec2D, m: Vec2D)
    requires
        call_ensures(Rect::top_left, (&a,), tl),
        call_ensures(Rect::top_right, (&a,), tr),
        call_ensures(Rect::bottom_left, (&a,), bl),
        call_ensures(Rect::bottom_right, (&a,), br),
        call_ensures(Rect::center, (&a,), m),
    ensures
        tl == a.pos,
        br.x - tl.x == a.size.x && br.y - tl.y == a.size.y,
        tr.x == br.x && tr.y == tl.y,
        bl.x == tl.x && bl.y == br.y,
        tl.x + br.x - 1 <= 2 * m.x <= tl.x + br.x,
        tl.y + br.y - 1 <= 2 * m.y <= tl.y + br.y,
{
}

/// The rectangle between two corners covers exactly what lies between them.
pub proof fn lemma_from_corners(a: Vec2D, b: Vec2D, r: Rect, p: Vec2D)
    requires
        call_ensures(Rect::from_corners, (a, b), r),
    ensures
        (r.pos.x <= p.x <= r.pos.x + r.size.x && r.pos.y <= p.y <= r.pos.y + r.size.y) <==> {
            &&& a.x <= p.x <= b.x || b.x <= p.x <= a.x
            &&& a.y <= p.y <= b.y || b.y <= p.y <= a.y
        },
{
}

/// The union of two rectangles covers both, and reaches no further.
pub proof fn lemma_union(a: Rect, b: Rect, r: Rect)
    requires
        call_ensures(Rect::union, (a, b), r),
    ensures
        r.pos.x <= a.pos.x && r.pos.x <= b.pos.x,
        r.pos.y <= a.pos.y && r.pos.y <= b.pos.y,
        r.pos.x == a.pos.x || r.pos.x == b.pos.x,
        r.pos.y == a.pos.y || r.pos.y == b.pos.y,
        r.pos.x + r.size.x >= a.pos.x + a.size.x && r.pos.x + r.size.x >= b.pos.x + b.size.x,
        r.pos.y + r.size.y >= a.pos.y + a.size.y && r.pos.y + r.size.y >= b.pos.y + b.size.y,
        r.pos.x + r.size.x == a.pos.x + a.size.x || r.pos.x + r.size.x == b.pos.x + b.size.x,
        r.pos.y + r.size.y == a.pos.y + a.size.y || r.pos.y + r.size.y == b.pos.y + b.size.y,
{
}

/// A moved rectangle covers the points that are that much away from those it
/// covered.
pub proof fn lemma_translated(a: Rect, d: Vec2D, r: Rect, x: int, y: int)
    requires
        call_ensures(Rect::translated, (a, d), r),
    ensures
        (a.pos.x <= x <= a.pos.x + a.size.x && a.pos.y <= y <= a.pos.y + a.size.y) <==> (r.pos.x <= x
            + d.x <= r.pos.x + r.size.x && r.pos.y <= y + d.y <= r.pos.y + r.size.y),
{
}

/// A grown rectangle reaches further by as much on each of its four sides.
pub proof fn lemma_inflated(a: Rect, by: i64, r: Rect)
    requires
        call_ensures(Rect::inflated, (a, by), r),
    ensures
        a.pos.x - r.pos.x == by,
        a.pos.y - r.pos.y == by,
        (r.pos.x + r.size.x) - (a.pos.x + a.size.x) == by,
        (r.pos.y + r.size.y) - (a.pos.y + a.size.y) == by,
{
}

/// A rectangle contains what lies between its edges.
pub proof fn lemma_contains(a: Rect, p: Vec2D, r: bool)
    requires
        call_ensures(Rect::contains, (&a, p), r),
    ensures
        r <==> 0 <= p.x - a.pos.x <= a.size.x && 0 <= p.y - a.pos.y <= a.size.y,
{
}

/// A rectangle drawn in any direction covers the same points with a size that
/// is not negative.
pub proof fn lemma_positive_size(pos: Vec2D, size: Vec2D, r: (Vec2D, Vec2D), x: int)
    requires
        call_ensures(rect_ensure_positive_size, (pos, size), r),
    ensures
        r.1.x >= 0 && r.1.y >= 0,
        r.0.x <= x <= r.0.x + r.1.x <==> pos.x <= x <= pos.x + size.x || pos.x + size.x <= x
            <= pos.x,
        r.0.y <= x <= r.0.y + r.1.y <==> pos.y <= x <= pos.y + size.y || pos.y + size.y <= x
            <= pos.y,
{
}

/// A rectangle kept in bounds covers what it covered inside them.
pub proof fn lemma_in_bounds(
    pos: Vec2D,
    size: Vec2D,
    lo: Vec2D,
    hi: Vec2D,
    r: (Vec2D, Vec2D),
    x: int,
)
    requires
        call_ensures(rect_ensure_in_bounds, (pos, size, lo, hi), r),
    ensures
        r.0.x <= x <= r.0.x + r.1.x <==> pos.x <= x <= pos.x + size.x && lo.x <= x <= hi.x,
        r.0.y <= x <= r.0.y + r.1.y <==> pos.y <= x <= pos.y + size.y && lo.y <= x <= hi.y,
{
}

/// A point counts as near a segment when a point of the segment is near, and
/// not otherwise.
pub proof fn lemma_near_segment(
    p: Vec2D,
    a: Vec2D,
    b: Vec2D,
    pick: i64,
    r: bool,
    k: int,
    n: int,
)
    requires
        call_ensures(near_segment, (p, a, b, pick), r),
        pick >= 0,
        0 <= k <= n,
        n > 0,
    ensures
        part_is_near(p, a, b, k, n, pick as int) ==> r,
        r ==> exists|i: int, m: int|
            0 <= i <= m && 0 < m && #[trigger] part_is_near(p, a, b, i, m, pick as int),
{
    if part_is_near(p, a, b, k, n, pick as int) {
        crate::laws::geometry::lemma_near_a_part_is_near_the_segment(p, a, b, k, n, pick as int);
    }
    if r {
        crate::laws::geometry::lemma_near_the_segment_is_near_a_part(p, a, b, pick as int);
    }
}

/// The next larger and the next smaller size.
pub proof fn lemma_size_steps(s: Size, up: Size, down: Size)
    requires
        call_ensures(Size::step_up, (s,), up),
        call_ensures(Size::step_down, (s,), down),
    ensures
        up == match s {
            Size::XSmall => Size::Small,
            Size::Small => Size::Medium,
            Size::Medium => Size::Large,
            Size::Large => Size::XLarge,
            _ => Size::XXLarge,
        },
        down == match s {
            Size::XXLarge => Size::XLarge,
            Size::XLarge => Size::Large,
            Size::Large => Size::Medium,
            Size::Medium => Size::Small,
            _ => Size::XSmall,
        },
{
}

} // verus!
