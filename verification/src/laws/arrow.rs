//! What drawing an arrow comes to.
use vstd::prelude::*;
use crate::input::{MouseButton, MouseEventMsg, MouseEventType};
use crate::math::{near_segment_spec, Rect, Vec2D};
use crate::tools::arrow::{
    bend_through, bezier_axis_spec, bezier_point, curve_middle, is_hull, near_polyline, point_in,
    Arrow, ArrowMetrics, ArrowStyle, ArrowTool,
};
use crate::tools::ToolUpdateResult;
use crate::units::UNIT;

verus! {

/// The distance of `v` from zero.
pub open spec fn size_of(v: int) -> int {
    if v >= 0 {
        v
    } else {
        -v
    }
}

/// A curve that the user has not bent is bent by a quarter of its chord: the
/// way from the middle of the chord to the control point stands at a right
/// angle on the chord, to its right on screen, and is a quarter as long. Four
/// times that way is measured here, so both hold up to the rounding of the
/// point to a sub-unit.
pub proof fn lemma_default_bend_is_square_to_chord(a: Arrow, end: Vec2D)
    requires
        a.ok(),
        point_in(end),
        a.curve_control is None,
        (end.x - a.start.x) * (end.x - a.start.x) + (end.y - a.start.y) * (end.y - a.start.y)
            >= UNIT * UNIT,
    ensures
        a.control_spec(end) is Some,
        ({
            let c = a.control_spec(end)->0;
            let (dx, dy) = (end.x - a.start.x, end.y - a.start.y);
            let vx = 4 * c.x - 2 * (a.start.x + end.x);
            let vy = 4 * c.y - 2 * (a.start.y + end.y);
            let slack = 2 * (size_of(dx) + size_of(dy));
            &&& -slack <= vx * dx + vy * dy <= slack
            &&& -slack <= (dx * vy - dy * vx) - (dx * dx + dy * dy) <= slack
        }),
{
    let c = a.control_spec(end)->0;
    let (dx, dy) = (end.x - a.start.x, end.y - a.start.y);
    crate::units::lemma_div_round_near(2 * (a.start.x + end.x) - dy, 4);
    crate::units::lemma_div_round_near(2 * (a.start.y + end.y) + dx, 4);
    let vx = 4 * c.x - 2 * (a.start.x + end.x);
    let vy = 4 * c.y - 2 * (a.start.y + end.y);
    let (ex, ey) = (vx + dy, vy - dx);
    assert(-2 <= ex <= 2 && -2 <= ey <= 2);
    assert(vx * dx + vy * dy == ex * dx + ey * dy) by (nonlinear_arith)
        requires
            vx == ex - dy,
            vy == ey + dx,
    ;
    assert((dx * vy - dy * vx) - (dx * dx + dy * dy) == ey * dx - ex * dy) by (nonlinear_arith)
        requires
            vx == ex - dy,
            vy == ey + dx,
    ;
    lemma_small_multiple(ex, dx);
    lemma_small_multiple(ey, dx);
    lemma_small_multiple(ex, dy);
    lemma_small_multiple(ey, dy);
}

proof fn lemma_small_multiple(e: int, d: int)
    requires
        -2 <= e <= 2,
    ensures
        -2 * size_of(d) <= e * d <= 2 * size_of(d),
{
    assert(-2 * size_of(d) <= e * d <= 2 * size_of(d)) by (nonlinear_arith)
        requires
            -2 <= e <= 2,
            d >= 0 ==> size_of(d) == d,
            d < 0 ==> size_of(d) == -d,
    ;
}

/// A chord shorter than a pixel has no curve, and a control point that the
/// user has set is kept.
pub proof fn lemma_bend_of_short_or_set_curve(a: Arrow, end: Vec2D)
    ensures
        a.curve_control is Some ==> a.control_spec(end) == a.curve_control,
        a.curve_control is None && (end.x - a.start.x) * (end.x - a.start.x) + (end.y - a.start.y)
            * (end.y - a.start.y) < UNIT * UNIT ==> a.control_spec(end) is None,
{
}

/// A curve starts at its start and ends at its end; halfway along it weighs
/// the control point as much as both ends together; and it is the same curve
/// from the other end.
pub proof fn lemma_curve_runs_from_start_to_end(s: int, c: int, e: int, i: int, n: int)
    requires
        0 <= i <= n,
        n > 0,
    ensures
        i == 0 ==> bezier_axis_spec(s, c, e, i, n) == s,
        i == n ==> bezier_axis_spec(s, c, e, i, n) == e,
        n == 2 * i ==> -2 <= 4 * bezier_axis_spec(s, c, e, i, n) - (s + 2 * c + e) <= 2,
        bezier_axis_spec(s, c, e, i, n) == bezier_axis_spec(e, c, s, n - i, n),
{
    let q = bezier_axis_spec(s, c, e, i, n);
    let a = (n - i) * (n - i) * s + 2 * (n - i) * i * c + i * i * e;
    assert(n * n > 0) by (nonlinear_arith)
        requires
            n > 0,
    ;
    crate::units::lemma_div_round_near(a, n * n);
    assert(i == 0 ==> a == n * n * s) by (nonlinear_arith)
        requires
            a == (n - i) * (n - i) * s + 2 * (n - i) * i * c + i * i * e,
    ;
    assert(i == n ==> a == n * n * e) by (nonlinear_arith)
        requires
            a == (n - i) * (n - i) * s + 2 * (n - i) * i * c + i * i * e,
    ;
    assert(a == (n - (n - i)) * (n - (n - i)) * e + 2 * (n - (n - i)) * (n - i) * c + (n - i) * (n
        - i) * s) by (nonlinear_arith)
        requires
            a == (n - i) * (n - i) * s + 2 * (n - i) * i * c + i * i * e,
    ;
    if i == 0 {
        lemma_rounded_whole(n * n, s, q);
    }
    if i == n {
        lemma_rounded_whole(n * n, e, q);
    }
    if n == 2 * i {
        let k = i * i;
        let v = s + 2 * c + e;
        assert(n * n == 4 * k) by (nonlinear_arith)
            requires
                n == 2 * i,
                k == i * i,
        ;
        assert(a == k * v) by (nonlinear_arith)
            requires
                n == 2 * i,
                k == i * i,
                v == s + 2 * c + e,
                a == (n - i) * (n - i) * s + 2 * (n - i) * i * c + i * i * e,
        ;
        assert(-2 <= 4 * q - v <= 2) by (nonlinear_arith)
            requires
                k > 0,
                -(4 * k) <= 2 * (q * (4 * k) - k * v) <= 4 * k,
        ;
    }
}

proof fn lemma_rounded_whole(m: int, v: int, q: int)
    requires
        m > 0,
        -m <= 2 * (q * m - m * v) <= m,
    ensures
        q == v,
{
    assert(q == v) by (nonlinear_arith)
        requires
            m > 0,
            -m <= 2 * (q * m - m * v) <= m,
    ;
}

/// With the control point in the middle of the chord the curve is the chord,
/// passed at an even pace.
pub proof fn lemma_unbent_curve_is_the_chord(s: int, c: int, e: int, i: int, n: int)
    requires
        0 <= i <= n,
        n > 0,
        2 * c == s + e,
    ensures
        -n <= 2 * (n * bezier_axis_spec(s, c, e, i, n) - ((n - i) * s + i * e)) <= n,
{
    let q = bezier_axis_spec(s, c, e, i, n);
    let a = (n - i) * (n - i) * s + 2 * (n - i) * i * c + i * i * e;
    let l = (n - i) * s + i * e;
    assert(n * n > 0) by (nonlinear_arith)
        requires
            n > 0,
    ;
    crate::units::lemma_div_round_near(a, n * n);
    assert(2 * (n - i) * i * c == ((n - i) * i) * (s + e)) by (nonlinear_arith)
        requires
            2 * c == s + e,
    ;
    assert(a == n * l) by {
        let k = n - i;
        assert(k * k * s == k * (k * s) && i * i * e == i * (i * e)) by (nonlinear_arith);
        assert((k * i) * (s + e) == i * (k * s) + k * (i * e)) by (nonlinear_arith);
        assert((k + i) * (k * s + i * e) == k * (k * s) + k * (i * e) + i * (k * s) + i * (i * e))
            by (nonlinear_arith);
    }
    assert(-n <= 2 * (n * q - l) <= n) by (nonlinear_arith)
        requires
            n > 0,
            -(n * n) <= 2 * (q * (n * n) - n * l) <= n * n,
    ;
}

/// A point of a curve is made from the coordinates of each axis on its own.
pub proof fn lemma_curve_axes(s: Vec2D, c: Vec2D, e: Vec2D, i: int, n: int)
    ensures
        ({
            let (x, y) = (
                bezier_axis_spec(s.x as int, c.x as int, e.x as int, i, n),
                bezier_axis_spec(s.y as int, c.y as int, e.y as int, i, n),
            );
            let p = bezier_point(s, c, e, i, n);
            &&& i64::MIN <= x <= i64::MAX ==> p.x == x
            &&& i64::MIN <= y <= i64::MAX ==> p.y == y
        }),
{
}

/// Dropping the middle of a curve at `to` puts the control point as far
/// beyond `to` as `to` is from the middle of the chord.
pub proof fn lemma_bend_goes_as_far_again(start: Vec2D, to: Vec2D, end: Vec2D)
    requires
        point_in(start),
        point_in(to),
        point_in(end),
    ensures
        ({
            let c = bend_through(start, to, end);
            let m = curve_middle(start, c, end);
            &&& 0 <= 2 * c.x + start.x + end.x - 4 * to.x <= 1
            &&& 0 <= 2 * c.y + start.y + end.y - 4 * to.y <= 1
            &&& m == to
        }),
{
    Arrow::lemma_bend_reaches_target(start, to, end);
}

/// A press at `o` and a release at an offset `d` draw the arrow from `o` to
/// `o + d`; with Shift the turned offset counts.
pub proof fn lemma_drag_draws_arrow(
    tool: ArrowTool,
    press: MouseEventMsg,
    release: MouseEventMsg,
    snapped: Vec2D,
    a: Arrow,
)
    requires
        press.type_ == MouseEventType::BeginDrag,
        press.button != MouseButton::Middle,
        release.type_ == MouseEventType::EndDrag,
        release.button != MouseButton::Middle,
        point_in(press.pos),
        point_in(release.pos),
        point_in(snapped),
        tool.mouse_step(press, snapped).0.mouse_step(release, snapped).1
            == ToolUpdateResult::Commit(a),
    ensures
        release.pos.x != 0 || release.pos.y != 0,
        a.start == press.pos,
        a.end is Some,
        ({
            let d = if release.modifier.shift {
                snapped
            } else {
                release.pos
            };
            a.end->0.x - a.start.x == d.x && a.end->0.y - a.start.y == d.y
        }),
        a.style == tool.style,
        a.arrow_style == tool.arrow_style,
        a.curve_control is None,
{
}

/// The outline of a straight arrow is the same on both sides of its axis. It
/// starts at the tail, and its tip is as far away as the arrow is long. The
/// head takes up its own length, or 95 hundredths of a shorter arrow.
pub proof fn lemma_solid_outline_is_even(a: Arrow, m: ArrowMetrics, length: int, head: int)
    requires
        a.arrow_style == ArrowStyle::Standard || a.arrow_style == ArrowStyle::Pointy,
        m.ok(),
        length >= 0,
        ({
            let full = if a.arrow_style == ArrowStyle::Pointy {
                m.pointy_head_length
            } else {
                m.head_length
            };
            let most = head_room(length, head);
            (head == full && full <= most) || (most < full && head == most)
        }),
    ensures
        ({
            let p = a.solid_shape_spec(m, length);
            let pointy = a.arrow_style == ArrowStyle::Pointy;
            let x = |i: int| p[i].0;
            let y = |i: int| p[i].1;
            &&& p.len() == 7
            &&& x(3) == length && y(3) == 0
            &&& x(0) == 0 && x(6) == 0 && x(1) == x(5) && x(2) == x(4)
            &&& y(6) == -y(0) && y(5) == -y(1) && y(4) == -y(2)
            &&& !pointy ==> y(0) == 0 && x(2) == length - head && y(2) == half_of(
                m.head_full_height as int,
            )
            &&& !pointy ==> -10 <= 20 * (x(1) - (length - head)) - head <= 10
            &&& !pointy ==> y(1) == half_of(
                if m.tail_width >= m.tail_back_width {
                    m.tail_width - m.tail_back_width
                } else {
                    0
                },
            )
            &&& pointy ==> x(1) == length - head && y(1) == half_of(m.pointy_tail_width as int)
            &&& pointy ==> y(0) == half_of(m.pointy_tail_back_width as int)
            &&& pointy ==> -25 <= 50 * ((length - head) - x(2)) - 11 * head <= 25
            &&& pointy ==> -25 <= 50 * y(2) - 61 * half_of(m.pointy_head_full_height as int) <= 25
        }),
{
    let f = crate::tools::arrow::times_micro(length, 950_000);
    crate::units::lemma_div_round_near(length * 950_000, 1_000_000);
    crate::units::lemma_div_round_near(head * 50_000, 1_000_000);
    crate::units::lemma_div_round_near(head * 220_000, 1_000_000);
    crate::units::lemma_div_round_near(head * 0, 1_000_000);
    let h1 = m.pointy_head_full_height as int / 2;
    crate::units::lemma_div_round_near(h1 * 1_220_000, 1_000_000);
    let h2 = m.head_full_height as int / 2;
    crate::units::lemma_div_round_near(h2 * 1_000_000, 1_000_000);
}

/// Half of a length, cut to a sub-unit.
pub open spec fn half_of(v: int) -> int {
    v / 2
}

/// 95 hundredths of a length, to the nearest sub-unit.
pub open spec fn head_room(length: int, head: int) -> int {
    (2 * (length * 95) + 100) / 200
}

/// A curved arrow has a head at its end, and a double one another at its
/// start; both come from the control point.
pub proof fn lemma_heads_sit_at_the_ends(a: Arrow, c: Vec2D, end: Vec2D)
    requires
        c != end,
        c != a.start,
    ensures
        ({
            let h = a.heads_spec(c, end);
            &&& h.len() == if a.arrow_style == ArrowStyle::Double {
                2int
            } else {
                1
            }
            &&& h[0].tip == end && h[0].from == c
            &&& a.arrow_style == ArrowStyle::Double ==> h[1].tip == a.start && h[1].from == c
        }),
{
}

/// The box of a straight arrow reaches beyond both ends by half the larger of
/// head and body, and two pixels.
pub proof fn lemma_straight_box_reaches_beyond_ends(a: Arrow, m: ArrowMetrics, b: Rect, big: int)
    requires
        a.end is Some,
        a.arrow_style == ArrowStyle::Standard || a.arrow_style == ArrowStyle::Pointy,
        is_hull(a.spine(16), a.bounds_pad(m), b),
        ({
            let (head, body) = if a.arrow_style == ArrowStyle::Pointy {
                (m.pointy_head_length, m.pointy_tail_width)
            } else {
                (m.head_length, m.tail_width)
            };
            (big == head && head >= body) || (big == body && body >= head)
        }),
    ensures
        ({
            let (s, e) = (a.start, a.end->0);
            let pad = half_of(big) + 2 * UNIT;
            &&& lower(s.x as int, e.x as int) - b.pos.x == pad
            &&& lower(s.y as int, e.y as int) - b.pos.y == pad
            &&& b.pos.x + b.size.x - higher(s.x as int, e.x as int) == pad
            &&& b.pos.y + b.size.y - higher(s.y as int, e.y as int) == pad
        }),
{
    let pts = a.spine(16);
    assert(pts =~= seq![a.start, a.end->0]);
    assert(pts[0] == a.start && pts[1] == a.end->0);
}

/// The lower of two coordinates.
pub open spec fn lower(a: int, b: int) -> int {
    if a <= b {
        a
    } else {
        b
    }
}

/// The higher of two coordinates.
pub open spec fn higher(a: int, b: int) -> int {
    if a <= b {
        b
    } else {
        a
    }
}

/// A straight arrow is hit near its chord: within half the larger of head and
/// body, and the tolerance.
pub proof fn lemma_straight_arrow_is_hit_near_its_chord(
    a: Arrow,
    m: ArrowMetrics,
    p: Vec2D,
    tolerance: int,
    big: int,
)
    requires
        a.end is Some,
        a.arrow_style == ArrowStyle::Standard || a.arrow_style == ArrowStyle::Pointy,
        ({
            let (head, body) = if a.arrow_style == ArrowStyle::Pointy {
                (m.pointy_head_length, m.pointy_tail_width)
            } else {
                (m.head_length, m.tail_width)
            };
            (big == head && head >= body) || (big == body && body >= head)
        }),
    ensures
        near_polyline(p, a.spine(24), a.pick_spec(m, tolerance)) <==> near_segment_spec(
            p,
            a.start,
            a.end->0,
            half_of(big) + tolerance,
        ),
{
    let pts = a.spine(24);
    assert(pts =~= seq![a.start, a.end->0]);
    let pick = a.pick_spec(m, tolerance);
    if near_segment_spec(p, a.start, a.end->0, pick) {
        assert(near_segment_spec(p, pts[0], pts[0 + 1int], pick));
    }
}

} // verus!
