//! What the functions of arrows and lines give back.
use vstd::prelude::*;
use crate::input::{MouseButton, MouseEventMsg, MouseEventType};
use crate::laws::arrow::{half_of, head_room, higher, lower, size_of};
use crate::laws::geometry::part_is_near;
use crate::math::{Rect, Vec2D};
use crate::tools::arrow::{hull, point_in, Arrow, ArrowHead, ArrowMetrics, ArrowStyle, ArrowTool};
use crate::tools::line::{Line, LineTool};
use crate::tools::{CanvasTransform, Handle, HandleId, ToolUpdateResult};
use crate::units::UNIT;

verus! {

/// The bend of a curve that the user has not bent stands at a right angle on
/// the chord, is a quarter as long, and starts in its middle.
pub proof fn lemma_bezier_control(a: Arrow, end: Vec2D, r: Option<Vec2D>)
    requires
        a.ok(),
        point_in(end),
        call_ensures(Arrow::bezier_control, (&a, end), r),
        a.curve_control is None,
        (end.x - a.start.x) * (end.x - a.start.x) + (end.y - a.start.y) * (end.y - a.start.y)
            >= UNIT * UNIT,
    ensures
        r is Some,
        ({
            let c = r->0;
            let (dx, dy) = (end.x - a.start.x, end.y - a.start.y);
            let vx = 4 * c.x - 2 * (a.start.x + end.x);
            let vy = 4 * c.y - 2 * (a.start.y + end.y);
            let slack = 2 * (size_of(dx) + size_of(dy));
            &&& -slack <= vx * dx + vy * dy <= slack
            &&& -slack <= (dx * vy - dy * vx) - (dx * dx + dy * dy) <= slack
        }),
{
    crate::laws::arrow::lemma_default_bend_is_square_to_chord(a, end);
}

/// The samples of a curve begin at its start and end at its end; halfway they
/// weigh the control point as much as both ends.
pub proof fn lemma_bezier_sample(a: Arrow, end: Vec2D, c: Vec2D, n: usize, r: Vec<Vec2D>, i: int)
    requires
        a.start.ok(),
        end.ok(),
        c.ok(),
        n > 0,
        call_ensures(Arrow::bezier_sample, (&a, end, c, n), r),
        n == 2 * i,
    ensures
        r@.len() == n + 1,
        r@[0] == a.start,
        r@[n as int] == end,
        -2 <= 4 * r@[i].x - (a.start.x + 2 * c.x + end.x) <= 2,
        -2 <= 4 * r@[i].y - (a.start.y + 2 * c.y + end.y) <= 2,
{
    let (s, m) = (a.start, n as int);
    crate::laws::arrow::lemma_curve_runs_from_start_to_end(s.x as int, c.x as int, end.x as int, 0, m);
    crate::laws::arrow::lemma_curve_runs_from_start_to_end(s.y as int, c.y as int, end.y as int, 0, m);
    crate::laws::arrow::lemma_curve_runs_from_start_to_end(s.x as int, c.x as int, end.x as int, m, m);
    crate::laws::arrow::lemma_curve_runs_from_start_to_end(s.y as int, c.y as int, end.y as int, m, m);
    crate::laws::arrow::lemma_curve_runs_from_start_to_end(s.x as int, c.x as int, end.x as int, i, m);
    crate::laws::arrow::lemma_curve_runs_from_start_to_end(s.y as int, c.y as int, end.y as int, i, m);
    assert(r@[i].ok());
}

/// The box around points keeps each of them the padding inside, and one of
/// them just so on every side.
pub proof fn lemma_hull(pts: Vec<Vec2D>, pad: i64, r: Rect, i: int)
    requires
        call_ensures(hull, (&pts, pad), r),
        0 <= i < pts@.len(),
    ensures
        r.pos.x + pad <= pts@[i].x <= r.pos.x + r.size.x - pad,
        r.pos.y + pad <= pts@[i].y <= r.pos.y + r.size.y - pad,
        exists|k: int| 0 <= k < pts@.len() && (#[trigger] pts@[k]).x == r.pos.x + pad,
        exists|k: int| 0 <= k < pts@.len() && (#[trigger] pts@[k]).y == r.pos.y + pad,
        exists|k: int|
            0 <= k < pts@.len() && (#[trigger] pts@[k]).x == r.pos.x + r.size.x - pad,
        exists|k: int|
            0 <= k < pts@.len() && (#[trigger] pts@[k]).y == r.pos.y + r.size.y - pad,
{
}

/// The box of a straight arrow reaches beyond its ends by half the larger of
/// head and body, and two pixels.
pub proof fn lemma_straight_bounds(a: Arrow, m: ArrowMetrics, r: Option<Rect>, big: int)
    requires
        a.end is Some,
        a.arrow_style == ArrowStyle::Standard || a.arrow_style == ArrowStyle::Pointy,
        call_ensures(Arrow::bounds, (&a, &m), r),
        ({
            let (head, body) = if a.arrow_style == ArrowStyle::Pointy {
                (m.pointy_head_length, m.pointy_tail_width)
            } else {
                (m.head_length, m.tail_width)
            };
            (big == head && head >= body) || (big == body && body >= head)
        }),
    ensures
        r is Some,
        ({
            let (b, s, e) = (r->0, a.start, a.end->0);
            let pad = half_of(big) + 2 * UNIT;
            &&& lower(s.x as int, e.x as int) - b.pos.x == pad
            &&& lower(s.y as int, e.y as int) - b.pos.y == pad
            &&& b.pos.x + b.size.x - higher(s.x as int, e.x as int) == pad
            &&& b.pos.y + b.size.y - higher(s.y as int, e.y as int) == pad
        }),
{
    crate::laws::arrow::lemma_straight_box_reaches_beyond_ends(a, m, r->0, big);
}

/// A straight arrow is hit wherever some point of its chord is near enough.
pub proof fn lemma_straight_hit(
    a: Arrow,
    p: Vec2D,
    tolerance: i64,
    m: ArrowMetrics,
    r: bool,
    big: int,
    k: int,
    n: int,
)
    requires
        a.end is Some,
        a.arrow_style == ArrowStyle::Standard || a.arrow_style == ArrowStyle::Pointy,
        call_ensures(Arrow::hit_test, (&a, p, tolerance, &m), r),
        ({
            let (head, body) = if a.arrow_style == ArrowStyle::Pointy {
                (m.pointy_head_length, m.pointy_tail_width)
            } else {
                (m.head_length, m.tail_width)
            };
            (big == head && head >= body) || (big == body && body >= head)
        }),
        half_of(big) + tolerance >= 0,
        0 <= k <= n,
        n > 0,
    ensures
        part_is_near(p, a.start, a.end->0, k, n, half_of(big) + tolerance) ==> r,
        r ==> exists|i: int, j: int|
            0 <= i <= j && 0 < j && #[trigger] part_is_near(
                p,
                a.start,
                a.end->0,
                i,
                j,
                half_of(big) + tolerance,
            ),
{
    let pick = half_of(big) + tolerance;
    crate::laws::arrow::lemma_straight_arrow_is_hit_near_its_chord(a, m, p, tolerance as int, big);
    if part_is_near(p, a.start, a.end->0, k, n, pick) {
        crate::laws::geometry::lemma_near_a_part_is_near_the_segment(
            p,
            a.start,
            a.end->0,
            k,
            n,
            pick,
        );
    }
    if r {
        crate::laws::geometry::lemma_near_the_segment_is_near_a_part(p, a.start, a.end->0, pick);
    }
}

/// Moving an arrow moves its ends and its bend alike.
pub proof fn lemma_translate(a: &mut Arrow, d: Vec2D)
    requires
        call_ensures(Arrow::translate, (a, d), ()),
    ensures
        final(a).start.x - old(a).start.x == d.x,
        final(a).start.y - old(a).start.y == d.y,
        old(a).end is Some ==> final(a).end is Some && final(a).end->0.x - old(a).end->0.x == d.x
            && final(a).end->0.y - old(a).end->0.y == d.y,
        old(a).curve_control is Some ==> final(a).curve_control is Some && final(a).curve_control->0.x - old(a).curve_control->0.x == d.x && final(a).curve_control->0.y
            - old(a).curve_control->0.y == d.y,
        old(a).end is None ==> final(a).end is None,
        final(a).style == old(a).style,
{
}

/// A mirrored arrow has its ends as far from the right edge as they were from
/// the left, a turned one has them swapped.
pub proof fn lemma_canvas_transform(a: &mut Arrow, t: CanvasTransform, w: i64, h: i64)
    requires
        call_ensures(Arrow::apply_canvas_transform, (a, t, w, h), ()),
    ensures
        t == CanvasTransform::FlipHorizontal ==> final(a).start.x + old(a).start.x == w && final(a).start.y == old(a).start.y,
        t == CanvasTransform::FlipHorizontal && old(a).end is Some ==> final(a).end is Some
            && final(a).end->0.x + old(a).end->0.x == w && final(a).end->0.y == old(a).end->0.y,
        t == CanvasTransform::RotateCcw ==> final(a).start.x == old(a).start.y && final(a).start.y
            + old(a).start.x == w,
        t == CanvasTransform::RotateCcw && old(a).end is Some ==> final(a).end is Some && final(a).end->0.x == old(a).end->0.y && final(a).end->0.y + old(a).end->0.x == w,
        t == CanvasTransform::RotateCw ==> final(a).start.x + old(a).start.y == h && final(a).start.y == old(a).start.x,
{
}

/// The handle that is dragged ends up where it is dropped: an end there moves
/// alone, and the middle of a curve is bent there.
pub proof fn lemma_move_handle(a: &mut Arrow, id: HandleId, to: Vec2D, radius: i64, r: Vec<Handle>)
    requires
        point_in(old(a).start),
        old(a).end matches Some(e) ==> point_in(e),
        point_in(to),
        call_ensures(Arrow::move_handle, (a, id, to), ()),
        call_ensures(Arrow::handles, (&*final(a), radius), r),
        old(a).end is Some,
    ensures
        id == HandleId::Start ==> r@[0].id == id && r@[0].pos == to && final(a).end == old(a).end,
        id == HandleId::End ==> r@[1].id == id && r@[1].pos == to && final(a).start == old(a).start,
        id == HandleId::Control && (old(a).arrow_style == ArrowStyle::Curved || old(a).arrow_style
            == ArrowStyle::Double) ==> r@.len() == 3 && r@[2].id == id && r@[2].pos == to && final(a).start == old(a).start && final(a).end == old(a).end,
{
    let (s, e) = (old(a).start, old(a).end->0);
    Arrow::lemma_bend_reaches_target(s, to, e);
}

/// A curve is easier to grab: its handles reach twice as far.
pub proof fn lemma_handles(a: Arrow, radius: i64, r: Vec<Handle>, i: int)
    requires
        a.end is Some,
        -0x1000_0000 <= radius <= 0x1000_0000,
        call_ensures(Arrow::handles, (&a, radius), r),
        0 <= i < r@.len(),
    ensures
        r@.len() == 2 || r@.len() == 3,
        r@[0].pos == a.start && r@[1].pos == a.end->0,
        a.arrow_style == ArrowStyle::Standard || a.arrow_style == ArrowStyle::Pointy ==> r@.len()
            == 2 && r@[i].hit_radius == radius,
        a.arrow_style == ArrowStyle::Curved || a.arrow_style == ArrowStyle::Double ==> r@[i].hit_radius
            == 2 * radius,
{
}

/// The third handle of a curved arrow lies on the curve, half way: as far
/// from its control point as from the middle of its chord.
pub proof fn lemma_handle_on_the_curve(a: Arrow, radius: i64, r: Vec<Handle>, c: Vec2D)
    requires
        a.ok(),
        a.end is Some,
        point_in(a.end->0),
        a.curve_control == Some(c),
        point_in(c),
        a.arrow_style == ArrowStyle::Curved,
        call_ensures(Arrow::handles, (&a, radius), r),
    ensures
        r@.len() == 3,
        ({
            let (m, e) = (r@[2].pos, a.end->0);
            &&& -2 <= 4 * m.x - (a.start.x + 2 * c.x + e.x) <= 2
            &&& -2 <= 4 * m.y - (a.start.y + 2 * c.y + e.y) <= 2
        }),
{
    let e = a.end->0;
    crate::units::lemma_div_round_near(a.start.x + 2 * c.x + e.x, 4);
    crate::units::lemma_div_round_near(a.start.y + 2 * c.y + e.y, 4);
}

/// A press and a release at an offset draw the arrow between the two points.
pub proof fn lemma_drag(
    a: &mut ArrowTool,
    b: &mut ArrowTool,
    press: MouseEventMsg,
    release: MouseEventMsg,
    snapped: Vec2D,
    r: ToolUpdateResult<Arrow>,
    done: Arrow,
)
    requires
        press.type_ == MouseEventType::BeginDrag,
        press.button != MouseButton::Middle,
        release.type_ == MouseEventType::EndDrag,
        release.button != MouseButton::Middle,
        point_in(press.pos),
        point_in(release.pos),
        point_in(snapped),
        call_ensures(ArrowTool::handle_mouse_event, (a, press, snapped), r),
        *final(a) == *old(b),
        call_ensures(
            ArrowTool::handle_mouse_event,
            (b, release, snapped),
            ToolUpdateResult::Commit(done),
        ),
    ensures
        done.start == press.pos,
        done.end is Some,
        !release.modifier.shift ==> done.end->0.x - done.start.x == release.pos.x && done.end->0.y
            - done.start.y == release.pos.y,
        release.modifier.shift ==> done.end->0.x - done.start.x == snapped.x && done.end->0.y
            - done.start.y == snapped.y,
        done.style == old(a).style,
        done.arrow_style == old(a).arrow_style,
        final(b).arrow is None,
{
}

/// The outline of a straight arrow is even, its tip is as far from the tail as
/// the arrow is long, and its head is no longer than 95 hundredths of it.
pub proof fn lemma_solid_shape(
    a: Arrow,
    m: ArrowMetrics,
    length: i64,
    path: Vec<Vec2D>,
    round: bool,
    head: int,
)
    requires
        m.ok(),
        length >= 0,
        call_ensures(Arrow::solid_shape, (&a, &m, length), Some((path, round))),
        ({
            let full = if a.arrow_style == ArrowStyle::Pointy {
                m.pointy_head_length
            } else {
                m.head_length
            };
            let most = head_room(length as int, head);
            (head == full && full <= most) || (most < full && head == most)
        }),
    ensures
        ({
            let p = path@;
            let pointy = a.arrow_style == ArrowStyle::Pointy;
            &&& p.len() == 7
            &&& p[3].x == length && p[3].y == 0
            &&& p[0].x == 0 && p[6].x == 0 && p[1].x == p[5].x && p[2].x == p[4].x
            &&& p[6].y == -p[0].y && p[5].y == -p[1].y && p[4].y == -p[2].y
            &&& !pointy ==> p[0].y == 0 && p[2].x == length - head && p[2].y == half_of(
                m.head_full_height as int,
            )
            &&& pointy ==> p[1].x == length - head && p[0].y == half_of(
                m.pointy_tail_back_width as int,
            )
            &&& round == !pointy
        }),
{
    crate::laws::arrow::lemma_solid_outline_is_even(a, m, length as int, head);
    let o = a.solid_shape_spec(m, length as int);
    assert((path@[0].x as int, path@[0].y as int) == o[0]);
    assert((path@[1].x as int, path@[1].y as int) == o[1]);
    assert((path@[2].x as int, path@[2].y as int) == o[2]);
    assert((path@[3].x as int, path@[3].y as int) == o[3]);
    assert((path@[4].x as int, path@[4].y as int) == o[4]);
    assert((path@[5].x as int, path@[5].y as int) == o[5]);
    assert((path@[6].x as int, path@[6].y as int) == o[6]);
}

/// A curved arrow has its head at its end, and a double one another at its
/// start.
pub proof fn lemma_curved_shape(a: Arrow, c: Vec2D, heads: Vec<ArrowHead>)
    requires
        a.end is Some,
        call_ensures(Arrow::curved_shape, (&a,), Some((c, heads))),
        c != a.start,
        c != a.end->0,
    ensures
        heads@[0].tip == a.end->0 && heads@[0].from == c,
        a.arrow_style == ArrowStyle::Double ==> heads@.len() == 2 && heads@[1].tip == a.start
            && heads@[1].from == c,
        a.arrow_style != ArrowStyle::Double ==> heads@.len() == 1,
        a.curve_control is Some ==> c == a.curve_control->0,
{
    crate::laws::arrow::lemma_heads_sit_at_the_ends(a, c, a.end->0);
}

/// Every style has its own measures.
pub proof fn lemma_measures(
    a: Arrow,
    m: ArrowMetrics,
    head: i64,
    half_height: i64,
    body: i64,
    back: i64,
    shaft: i64,
)
    requires
        call_ensures(Arrow::head_length, (&a, &m), head),
        call_ensures(Arrow::head_half_height, (&a, &m), half_height),
        call_ensures(Arrow::body_max_width, (&a, &m), body),
        call_ensures(Arrow::body_back_width, (&a, &m), back),
        call_ensures(Arrow::shaft_width, (&a, &m), shaft),
    ensures
        match a.arrow_style {
            ArrowStyle::Pointy => {
                &&& head == m.pointy_head_length && body == m.pointy_tail_width
                &&& back == m.pointy_tail_back_width
                &&& 0 <= m.pointy_head_full_height - 2 * half_height <= 1
            },
            ArrowStyle::Standard => {
                &&& head == m.head_length && body == m.tail_width && back == m.tail_back_width
                &&& 0 <= m.head_full_height - 2 * half_height <= 1
            },
            _ => {
                &&& head == m.head_length && shaft == m.curved_shaft_width
                &&& half_height == m.curved_head_half_height
            },
        },
{
}

/// A line is hit where some point of it is within half the stroke and the
/// tolerance.
pub proof fn lemma_line_hit(
    l: Line,
    p: Vec2D,
    tolerance: i64,
    stroke: i64,
    r: bool,
    e: Vec2D,
    k: int,
    n: int,
)
    requires
        l.direction is Some,
        e.x == l.start.x + l.direction->0.x,
        e.y == l.start.y + l.direction->0.y,
        call_ensures(Line::hit_test, (&l, p, tolerance, stroke), r),
        half_of(stroke as int) + tolerance >= 0,
        0 <= k <= n,
        n > 0,
    ensures
        part_is_near(p, l.start, e, k, n, half_of(stroke as int) + tolerance) ==> r,
        r ==> exists|i: int, j: int|
            0 <= i <= j && 0 < j && #[trigger] part_is_near(
                p,
                l.start,
                e,
                i,
                j,
                half_of(stroke as int) + tolerance,
            ),
{
    let pick = half_of(stroke as int) + tolerance;
    if part_is_near(p, l.start, e, k, n, pick) {
        crate::laws::geometry::lemma_near_a_part_is_near_the_segment(p, l.start, e, k, n, pick);
    }
    if r {
        crate::laws::geometry::lemma_near_the_segment_is_near_a_part(p, l.start, e, pick);
    }
}

/// The box of a line reaches beyond its ends by half the stroke.
pub proof fn lemma_line_bounds(l: Line, stroke: i64, r: Option<Rect>)
    requires
        l.direction is Some,
        call_ensures(Line::bounds, (&l, stroke), r),
    ensures
        r is Some,
        ({
            let (b, s, d) = (r->0, l.start, l.direction->0);
            let pad = half_of(stroke as int);
            &&& lower(s.x as int, s.x + d.x) - b.pos.x == pad
            &&& lower(s.y as int, s.y + d.y) - b.pos.y == pad
            &&& b.pos.x + b.size.x - higher(s.x as int, s.x + d.x) == pad
            &&& b.pos.y + b.size.y - higher(s.y as int, s.y + d.y) == pad
        }),
{
}

/// A dragged end of a line ends up at the pointer; the other stays.
pub proof fn lemma_line_move_handle(
    l: &mut Line,
    id: HandleId,
    to: Vec2D,
    radius: i64,
    before: Vec<Handle>,
    after: Vec<Handle>,
)
    requires
        old(l).direction is Some,
        call_ensures(Line::handles, (&*old(l), radius), before),
        call_ensures(Line::move_handle, (l, id, to), ()),
        call_ensures(Line::handles, (&*final(l), radius), after),
    ensures
        before@.len() == 2 && before@[0].id == HandleId::Start && before@[1].id == HandleId::End,
        before@[0].pos == old(l).start,
        id == HandleId::Start ==> after@[0].pos == to && after@[1].pos == before@[1].pos,
        id == HandleId::End ==> after@[1].pos == to && after@[0].pos == before@[0].pos,
        id != HandleId::Start && id != HandleId::End ==> *final(l) == *old(l),
{
}

/// Moving a line moves both ends alike; mirroring and turning take it along.
pub proof fn lemma_line_moves(
    l: &mut Line,
    d: Vec2D,
    m: &mut Line,
    t: CanvasTransform,
    w: i64,
    h: i64,
)
    requires
        call_ensures(Line::translate, (l, d), ()),
        call_ensures(Line::apply_canvas_transform, (m, t, w, h), ()),
    ensures
        final(l).start.x - old(l).start.x == d.x && final(l).start.y - old(l).start.y == d.y,
        final(l).direction == old(l).direction,
        t == CanvasTransform::FlipHorizontal ==> final(m).start.x + old(m).start.x == w && final(m).start.y == old(m).start.y,
        t == CanvasTransform::FlipHorizontal && old(m).direction is Some ==> final(m).direction
            is Some && final(m).direction->0.x == -old(m).direction->0.x && final(m).direction->0.y == old(m).direction->0.y,
        t == CanvasTransform::RotateCcw ==> final(m).start.x == old(m).start.y && final(m).start.y
            + old(m).start.x == w,
        t == CanvasTransform::RotateCcw && old(m).direction is Some ==> final(m).direction is Some
            && final(m).direction->0.x == old(m).direction->0.y && final(m).direction->0.y == -old(m).direction->0.x,
{
}

/// A press and a release at an offset draw the line between the two points.
pub proof fn lemma_line_drag(
    a: &mut LineTool,
    b: &mut LineTool,
    press: MouseEventMsg,
    release: MouseEventMsg,
    snapped: Vec2D,
    r: ToolUpdateResult<Line>,
    done: Line,
)
    requires
        press.type_ == MouseEventType::BeginDrag,
        press.button != MouseButton::Middle,
        release.type_ == MouseEventType::EndDrag,
        release.button != MouseButton::Middle,
        call_ensures(LineTool::handle_mouse_event, (a, press, snapped), r),
        *final(a) == *old(b),
        call_ensures(
            LineTool::handle_mouse_event,
            (b, release, snapped),
            ToolUpdateResult::Commit(done),
        ),
    ensures
        done.start == press.pos,
        done.style == old(a).style,
        !release.modifier.shift ==> done.direction == Some(release.pos),
        release.modifier.shift ==> done.direction == Some(snapped),
        final(b).line is None,
{
}

} // verus!
