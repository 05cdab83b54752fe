//! What drawing an ellipse comes to.
use vstd::prelude::*;
use crate::input::{MouseButton, MouseEventMsg, MouseEventType};
use crate::math::{Rect, Vec2D};
use crate::tools::arrow::point_in;
use crate::tools::ellipse::{in_ellipse_spec, Ellipse, EllipseTool};
use crate::tools::ToolUpdateResult;

verus! {

/// The span from `lo` to `hi` has its ends at `o` and `o + d`, the far one to
/// the sub-unit.
pub open spec fn spans(lo: int, hi: int, o: int, d: int) -> bool {
    if d >= 0 {
        lo == o && o + d - 1 <= hi <= o + d
    } else {
        hi == o && o + d - 1 <= lo <= o + d
    }
}

/// `a` is the distance of `r` from zero.
pub open spec fn is_size_of(a: int, r: int) -> bool {
    a >= 0 && (a == r || a == -r)
}

/// A press at `o` and a release at an offset `d` draw the ellipse between the
/// corners `o` and `o + d`. With Alt `o` is its middle and `d` reaches from
/// there to the corner. With Shift the longer side of the drag counts for
/// both.
pub proof fn lemma_drag_draws_ellipse(
    tool: EllipseTool,
    press: MouseEventMsg,
    release: MouseEventMsg,
    e: Ellipse,
    ax: int,
    ay: int,
)
    requires
        press.type_ == MouseEventType::BeginDrag,
        press.button != MouseButton::Middle,
        release.type_ == MouseEventType::EndDrag,
        release.button != MouseButton::Middle,
        point_in(press.pos),
        point_in(release.pos),
        tool.mouse_step(press).0.mouse_step(release).1 == ToolUpdateResult::Commit(e),
        is_size_of(ax, e.radii->0.x as int),
        is_size_of(ay, e.radii->0.y as int),
    ensures
        e.radii is Some,
        e.style == tool.style,
        e.finishing,
        e.centered == release.modifier.alt,
        ({
            let (o, d) = (press.pos, release.pos);
            let (mx, my) = (e.middle.x as int, e.middle.y as int);
            let (left, right) = (mx - ax, mx + ax);
            let (top, bottom) = (my - ay, my + ay);
            match (release.modifier.alt, release.modifier.shift) {
                (false, false) => {
                    &&& spans(left, right, o.x as int, d.x as int)
                    &&& spans(top, bottom, o.y as int, d.y as int)
                },
                (true, false) => {
                    &&& e.middle == o
                    &&& is_size_of(ax, d.x as int)
                    &&& is_size_of(ay, d.y as int)
                },
                (false, true) => {
                    let s = longer(d.x as int, d.y as int);
                    &&& ax == ay
                    &&& s - 1 <= right - left <= s
                    &&& if d.x >= 0 {
                        left == o.x
                    } else {
                        right == o.x
                    }
                    &&& if d.y >= 0 {
                        top == o.y
                    } else {
                        bottom == o.y
                    }
                },
                (true, true) => {
                    let s = longer(d.x as int, d.y as int);
                    &&& e.middle == o
                    &&& ax == s
                    &&& ay == s
                },
            }
        }),
{
}

/// The longer of two distances.
pub open spec fn longer(x: int, y: int) -> int {
    let a = if x >= 0 {
        x
    } else {
        -x
    };
    let b = if y >= 0 {
        y
    } else {
        -y
    };
    if a >= b {
        a
    } else {
        b
    }
}

/// While the pointer is held, the ellipse on screen is the one that letting go
/// there would leave behind.
pub proof fn lemma_drag_previews_ellipse(
    tool: EllipseTool,
    held: MouseEventMsg,
    release: MouseEventMsg,
    e: Ellipse,
)
    requires
        held.type_ == MouseEventType::UpdateDrag,
        release == (MouseEventMsg { type_: MouseEventType::EndDrag, ..held }),
        tool.mouse_step(release).1 == ToolUpdateResult::Commit(e),
    ensures
        ({
            let (post, r) = tool.mouse_step(held);
            let shown = post.ellipse->0;
            &&& r == ToolUpdateResult::<Ellipse>::Redraw
            &&& post.ellipse is Some
            &&& shown.middle == e.middle && shown.radii == e.radii && shown.style == e.style
        }),
{
}

/// Level with the middle of an ellipse, what is hit is told by the horizontal
/// radius alone; above and below the middle, by the vertical one. The line is
/// hit within the padding on either side of it, a filled one everywhere inside
/// as well.
pub proof fn lemma_hits_on_the_axes(e: Ellipse, p: Vec2D, pad: int, ax: int, ay: int, t: int)
    requires
        e.radii is Some,
        is_size_of(ax, e.radii->0.x as int),
        is_size_of(ay, e.radii->0.y as int),
        0 <= pad < ax,
        pad < ay,
    ensures
        p.y == e.middle.y && is_size_of(t, p.x - e.middle.x) ==> {
            &&& e.inside_outer_spec(p, pad) <==> t <= ax + pad
            &&& e.on_outline_spec(p, pad) <==> ax - pad < t <= ax + pad
            &&& e.hit_spec(p, pad) <==> (e.style.fill || ax - pad < t) && t <= ax + pad
        },
        p.x == e.middle.x && is_size_of(t, p.y - e.middle.y) ==> {
            &&& e.inside_outer_spec(p, pad) <==> t <= ay + pad
            &&& e.on_outline_spec(p, pad) <==> ay - pad < t <= ay + pad
            &&& e.hit_spec(p, pad) <==> (e.style.fill || ay - pad < t) && t <= ay + pad
        },
{
    if p.y == e.middle.y && is_size_of(t, p.x - e.middle.x) {
        lemma_level(p.x - e.middle.x, t, ax + pad, ay + pad);
        lemma_level(p.x - e.middle.x, t, ax - pad, ay - pad);
    }
    if p.x == e.middle.x && is_size_of(t, p.y - e.middle.y) {
        lemma_level(p.y - e.middle.y, t, ay + pad, ax + pad);
        lemma_level(p.y - e.middle.y, t, ay - pad, ax - pad);
    }
}

proof fn lemma_level(d: int, t: int, a: int, b: int)
    requires
        is_size_of(t, d),
        a > 0,
        b > 0,
    ensures
        in_ellipse_spec(d, 0, a, b) <==> t <= a,
        in_ellipse_spec(0, d, b, a) <==> t <= a,
{
    let (d2, a2, b2) = (d * d, a * a, b * b);
    assert(d2 == t * t) by (nonlinear_arith)
        requires
            d2 == d * d,
            t == d || t == -d,
    ;
    assert(b2 > 0) by (nonlinear_arith)
        requires
            b2 == b * b,
            b > 0,
    ;
    assert(0int * 0 == 0 && 0 * a2 == 0 && 0 * b2 == 0);
    assert(d2 * b2 <= a2 * b2 <==> d2 <= a2) by (nonlinear_arith)
        requires
            b2 > 0,
    ;
    assert(a2 * b2 == b2 * a2) by (nonlinear_arith);
    assert(d2 <= a2 <==> t <= a) by (nonlinear_arith)
        requires
            d2 == t * t,
            a2 == a * a,
            t >= 0,
            a > 0,
    ;
}

/// What is hit is the same on both sides of either axis.
pub proof fn lemma_hits_are_even(e: Ellipse, p: Vec2D, q: Vec2D, pad: int)
    requires
        q.x - e.middle.x == p.x - e.middle.x || q.x - e.middle.x == e.middle.x - p.x,
        q.y - e.middle.y == p.y - e.middle.y || q.y - e.middle.y == e.middle.y - p.y,
    ensures
        e.hit_spec(p, pad) == e.hit_spec(q, pad),
        e.inside_outer_spec(p, pad) == e.inside_outer_spec(q, pad),
{
    let (px, qx) = (p.x - e.middle.x, q.x - e.middle.x);
    let (py, qy) = (p.y - e.middle.y, q.y - e.middle.y);
    assert(px * px == qx * qx) by (nonlinear_arith)
        requires
            qx == px || qx == -px,
    ;
    assert(py * py == qy * qy) by (nonlinear_arith)
        requires
            qy == py || qy == -py,
    ;
}

/// Half of the stroke counts as on the line, and the tolerance.
pub proof fn lemma_outline_is_half_a_stroke_wide(tolerance: int, stroke: int)
    ensures
        0 <= stroke - 2 * (Ellipse::outline_pad_spec(tolerance, stroke) - tolerance) <= 1,
{
}

/// An ellipse made to fill a box has that box around it, to the sub-unit.
pub proof fn lemma_filled_box_is_the_box(e: Ellipse, b: Rect, around: Rect)
    requires
        b.size.x >= 0,
        b.size.y >= 0,
        e.fills(b),
        e.is_box(around),
    ensures
        around.pos == b.pos,
        b.size.x - 1 <= around.size.x <= b.size.x,
        b.size.y - 1 <= around.size.y <= b.size.y,
        ({
            let (x, y) = (e.middle.x as int, e.middle.y as int);
            x - around.pos.x == around.pos.x + around.size.x - x && y - around.pos.y
                == around.pos.y + around.size.y - y
        }),
{
}

} // verus!
