//! What drawing lines and highlights comes to.
use vstd::prelude::*;
use crate::input::{MouseButton, MouseEventMsg, MouseEventType};
use crate::math::{Rect, Vec2D};
use crate::text_bands::TextBand;
use crate::tools::arrow::point_in;
use crate::tools::highlight::{
    alpha_spec, is_stretched, with_points, HighlightToolView, HighlighterStyle, StepView,
    StrokeView,
};
use crate::tools::line::{Line, LineTool};
use crate::tools::ToolUpdateResult;
use crate::units::UNIT;

verus! {

/// A press and a release at an offset draw the line between the two points;
/// with Shift the turned offset counts.
pub proof fn lemma_drag_draws_line(
    tool: LineTool,
    press: MouseEventMsg,
    release: MouseEventMsg,
    snapped: Vec2D,
    l: Line,
)
    requires
        press.type_ == MouseEventType::BeginDrag,
        press.button != MouseButton::Middle,
        release.type_ == MouseEventType::EndDrag,
        release.button != MouseButton::Middle,
        tool.mouse_step(press, snapped).0.mouse_step(release, snapped).1
            == ToolUpdateResult::Commit(l),
    ensures
        release.pos.x != 0 || release.pos.y != 0,
        l.start == press.pos,
        l.style == tool.style,
        release.modifier.shift ==> l.direction == Some(snapped),
        !release.modifier.shift ==> l.direction == Some(release.pos),
{
}

/// A highlight that is not locked to text begins at the press; one that is
/// begins in the middle of the band there and is a tenth wider than it.
pub proof fn lemma_highlight_begins_at_press(
    tool: HighlightToolView,
    press: MouseEventMsg,
    snapped: Vec2D,
    band: Option<TextBand>,
)
    requires
        press.type_ == MouseEventType::BeginDrag,
        press.button != MouseButton::Middle,
        band matches Some(b) ==> b.wf(),
    ensures
        ({
            let post = tool.mouse_step(press, snapped, band).0;
            let s = post.stroke->0;
            &&& post.stroke is Some
            &&& s.rest.len() == 0
            &&& s.style == tool.style
            &&& s.highlight_style == tool.highlight_style
            &&& post.drag_anchor == Some(press.pos)
            &&& if tool.highlight_style == HighlighterStyle::TextLocked && band is Some {
                let b = band->0;
                let h = b.y_end - b.y_start;
                &&& s.first.x == press.pos.x
                &&& -1 <= 2 * s.first.y - (b.y_start + b.y_end) <= 0
                &&& s.forced_width is Some
                &&& -5 <= 10 * s.forced_width->0 - 11 * h <= 5
            } else {
                &&& s.first == press.pos
                &&& s.forced_width is None
            }
        }),
{
    if let Some(b) = band {
        let h = b.y_end - b.y_start;
        crate::units::lemma_div_round_near(2 * h * 50_000, 1_000_000);
    }
}

/// A free highlight follows the pointer: once it has moved a pixel, the last
/// point is as far from the first as the pointer is from the press.
pub proof fn lemma_free_highlight_follows_pointer(
    tool: HighlightToolView,
    held: MouseEventMsg,
    snapped: Vec2D,
    band: Option<TextBand>,
    from: Vec2D,
)
    requires
        held.type_ == MouseEventType::UpdateDrag,
        tool.drags(held),
        tool.stroke->0.ok(),
        point_in(held.pos),
        tool.drag_style == Some(HighlighterStyle::Normal),
        !held.modifier.shift,
        tool.stroke->0.rest.len() > 0 ==> from == tool.stroke->0.rest.last(),
        tool.stroke->0.rest.len() == 0 ==> from.x == 0 && from.y == 0,
    ensures
        ({
            let (dx, dy) = (held.pos.x - from.x, held.pos.y - from.y);
            let before = tool.stroke->0;
            let after = tool.mouse_step(held, snapped, band).0.stroke->0;
            &&& after.first == before.first
            &&& if dx * dx + dy * dy >= UNIT * UNIT {
                let last = after.points().last();
                &&& after.points().len() == before.points().len() + 1
                &&& last.x - after.first.x == held.pos.x
                &&& last.y - after.first.y == held.pos.y
            } else {
                after.points() == before.points()
            }
        }),
{
    let before = tool.stroke->0;
    let after = tool.mouse_step(held, snapped, band).0.stroke->0;
    assert(after.rest.drop_last() =~= before.rest || after.rest =~= before.rest);
}

/// With Shift the new point lies the turned offset away from the last one,
/// and while Shift is held it is this point that moves.
pub proof fn lemma_straight_highlight_turns(
    tool: HighlightToolView,
    held: MouseEventMsg,
    snapped: Vec2D,
    band: Option<TextBand>,
)
    requires
        held.type_ == MouseEventType::UpdateDrag,
        tool.drags(held),
        tool.stroke->0.ok(),
        point_in(snapped),
        held.modifier.shift,
    ensures
        ({
            let before = tool.stroke->0;
            let after = tool.mouse_step(held, snapped, band).0.stroke->0;
            let n = before.points().len();
            let kept = if before.shift_pressed && n > 1 {
                n - 1
            } else {
                n as int
            };
            let (a, b) = (after.points()[kept - 1], after.points()[kept]);
            &&& after.points().len() == kept + 1
            &&& forall|i: int| 0 <= i < kept ==> #[trigger] after.points()[i] == before.points()[i]
            &&& b.x - a.x == snapped.x
            &&& b.y - a.y == snapped.y
        }),
{
    let before = tool.stroke->0;
    let after = tool.mouse_step(held, snapped, band).0.stroke->0;
    let n = before.points().len();
    let kept = if before.shift_pressed && n > 1 {
        n - 1
    } else {
        n as int
    };
    assert(after.rest.len() == kept);
    if kept > 1 {
        assert(point_in(before.rest[kept - 2]));
        assert(after.rest[kept - 2] == before.rest[kept - 2]);
    }
}

/// A highlight locked to text stays level and follows the pointer sideways.
pub proof fn lemma_locked_highlight_stays_level(
    tool: HighlightToolView,
    held: MouseEventMsg,
    snapped: Vec2D,
    band: Option<TextBand>,
    from: Vec2D,
)
    requires
        held.type_ == MouseEventType::UpdateDrag,
        tool.drags(held),
        tool.ok(),
        point_in(held.pos),
        tool.drag_style == Some(HighlighterStyle::TextLocked),
        !held.modifier.shift,
        tool.stroke->0.rest.len() > 0 ==> from == tool.stroke->0.rest.last(),
        tool.stroke->0.rest.len() == 0 ==> from.x == 0 && from.y == 0,
    ensures
        ({
            let before = tool.stroke->0;
            let after = tool.mouse_step(held, snapped, band).0.stroke->0;
            let x = tool.drag_anchor->0.x + held.pos.x;
            let (dx, dy) = (x - before.first.x - from.x, 0 - from.y);
            dx * dx + dy * dy >= UNIT * UNIT ==> {
                let last = after.points().last();
                last.x == x && last.y == before.first.y
            }
        }),
{
}

/// A highlight that ends less than four pixels from where it began is
/// dropped. A longer one stays as drawn, but for a free one of three points
/// or more, drawn without Shift, which is smoothed at level four.
pub proof fn lemma_short_highlight_is_dropped(
    tool: HighlightToolView,
    release: MouseEventMsg,
    snapped: Vec2D,
    band: Option<TextBand>,
)
    requires
        release.type_ == MouseEventType::EndDrag,
        tool.drags(release),
    ensures
        ({
            let held = MouseEventMsg { type_: MouseEventType::UpdateDrag, ..release };
            let s = tool.mouse_step(held, snapped, band).0.stroke->0;
            let d = if s.rest.len() == 0 {
                Vec2D { x: 0, y: 0 }
            } else {
                s.rest.last()
            };
            let (post, step, forget) = tool.mouse_step(release, snapped, band);
            let free = tool.drag_style == Some(HighlighterStyle::Normal) && !release.modifier.shift
                && s.points().len() >= 3;
            &&& post.stroke is None && post.drag_anchor is None && forget
            &&& d.x * d.x + d.y * d.y < 16 * (UNIT * UNIT) ==> step == StepView::Redraw
            &&& d.x * d.x + d.y * d.y >= 16 * (UNIT * UNIT) ==> step == if free {
                StepView::Smooth(s, s.points(), 4)
            } else {
                StepView::Commit(s)
            }
        }),
{
}

/// A smoothed highlight runs through the smoothed points.
pub proof fn lemma_smoothed_highlight_has_its_points(s: StrokeView, points: Seq<Vec2D>)
    requires
        points.len() > 0,
        forall|i: int| 0 <= i < points.len() ==> (#[trigger] points[i]).ok(),
    ensures
        with_points(s, points).points() == points,
{
    let r = with_points(s, points);
    assert(points[0].ok());
    assert forall|i: int| 0 <= i < points.len() implies r.points()[i] == points[i] by {
        assert(points[i].ok());
    }
    assert(r.points() =~= points);
}

/// `v` out of `from` is as much as `r` out of `to`.
pub open spec fn same_share(v: int, from: int, r: int, to: int) -> bool {
    -from <= 2 * (r * from - v * to) <= from
}

/// Stretching a highlight with its box keeps every point at its share of the
/// width and height.
pub proof fn lemma_stretched_points_keep_their_share(
    before: StrokeView,
    b: Rect,
    n: Rect,
    after: StrokeView,
    i: int,
)
    requires
        is_stretched(before, b, n, after),
        b.size.x > 0,
        b.size.y > 0,
    ensures
        same_share(
            before.first.x - b.pos.x,
            b.size.x as int,
            after.first.x - n.pos.x,
            n.size.x as int,
        ),
        same_share(
            before.first.y - b.pos.y,
            b.size.y as int,
            after.first.y - n.pos.y,
            n.size.y as int,
        ),
        0 <= i < before.rest.len() ==> {
            &&& same_share(
                before.rest[i].x as int,
                b.size.x as int,
                after.rest[i].x as int,
                n.size.x as int,
            )
            &&& same_share(
                before.rest[i].y as int,
                b.size.y as int,
                after.rest[i].y as int,
                n.size.y as int,
            )
        },
        after.rest.len() == before.rest.len(),
        after.style == before.style,
{
    crate::units::lemma_div_round_near(
        (before.first.x - b.pos.x) * n.size.x,
        b.size.x as int,
    );
    crate::units::lemma_div_round_near(
        (before.first.y - b.pos.y) * n.size.y,
        b.size.y as int,
    );
    if 0 <= i < before.rest.len() {
        crate::units::lemma_div_round_near(before.rest[i].x * n.size.x, b.size.x as int);
        crate::units::lemma_div_round_near(before.rest[i].y * n.size.y, b.size.y as int);
    }
}

/// The alpha of a highlight is its opacity out of 255.
pub proof fn lemma_alpha_is_opacity(opacity: int)
    ensures
        opacity <= 0 ==> alpha_spec(opacity) == 0,
        opacity >= 1_000_000 ==> alpha_spec(opacity) == 255,
        0 <= opacity <= 1_000_000 ==> -1_000_000 <= 2 * (alpha_spec(opacity) * 1_000_000 - opacity
            * 255) <= 1_000_000,
{
    crate::units::lemma_div_round_near(
        crate::units::clamp_spec(opacity, 0, 1_000_000) * 255,
        1_000_000,
    );
}

/// The widest stroke that fits.
pub proof fn lemma_forced_width_wins(s: StrokeView, width: int)
    ensures
        s.forced_width matches Some(w) ==> s.width(width) == w,
        s.forced_width is None ==> s.width(width) == width,
{
}

} // verus!
