//! What the functions of ellipses, highlights, badges and images give back.
use vstd::prelude::*;
use crate::input::{MouseButton, MouseEventMsg, MouseEventType};
use crate::laws::ellipse::{is_size_of, longer, spans};
use crate::laws::geometry::part_is_near;
use crate::laws::marker::is_diagonal;
use crate::math::{Rect, Vec2D};
use crate::pixels::Pixbuf;
use crate::style::{Color, Size};
use crate::tools::arrow::point_in;
use crate::tools::ellipse::{Ellipse, EllipseTool};
use crate::tools::highlight::{opacity_alpha, HighlightStroke};
use crate::tools::marker::{
    dark_text, disc_radius, marker_radius, marker_text_size, Marker, MarkerTool,
};
use crate::tools::marks::{halo_in_image_units, handle_mark, HandleMark};
use crate::tools::pasted_image::{turn, ImageData, PastedImage};
use crate::tools::{CanvasTransform, HandleId, HandleKind, ToolUpdateResult};
use crate::units::UNIT;

verus! {

/// A press at `o` and a release at an offset `d` draw the ellipse in the box
/// between `o` and `o + d`; with Alt around `o`, with Shift as a circle.
pub proof fn lemma_ellipse_drag(
    a: &mut EllipseTool,
    b: &mut EllipseTool,
    press: MouseEventMsg,
    release: MouseEventMsg,
    r: ToolUpdateResult<Ellipse>,
    e: Ellipse,
    ax: int,
    ay: int,
)
    requires
        press.type_ == MouseEventType::BeginDrag,
        press.button != MouseButton::Middle,
        release.type_ == MouseEventType::EndDrag,
        release.button != MouseButton::Middle,
        point_in(press.pos),
        point_in(release.pos),
        call_ensures(EllipseTool::handle_mouse_event, (a, press), r),
        *final(a) == *old(b),
        call_ensures(EllipseTool::handle_mouse_event, (b, release), ToolUpdateResult::Commit(e)),
        is_size_of(ax, e.radii->0.x as int),
        is_size_of(ay, e.radii->0.y as int),
    ensures
        e.radii is Some,
        e.style == old(a).style,
        ({
            let (o, d) = (press.pos, release.pos);
            let (mx, my) = (e.middle.x as int, e.middle.y as int);
            let (alt, shift) = (release.modifier.alt, release.modifier.shift);
            let s = longer(d.x as int, d.y as int);
            &&& !alt && !shift ==> spans(mx - ax, mx + ax, o.x as int, d.x as int) && spans(
                my - ay,
                my + ay,
                o.y as int,
                d.y as int,
            )
            &&& alt ==> e.middle == o
            &&& alt && !shift ==> is_size_of(ax, d.x as int) && is_size_of(ay, d.y as int)
            &&& alt && shift ==> ax == s && ay == s
            &&& !alt && shift ==> ax == ay && s - 1 <= 2 * ax <= s
            &&& !alt && shift ==> mx + ax == o.x || mx - ax == o.x
            &&& !alt && shift ==> my + ay == o.y || my - ay == o.y
        }),
        final(b).ellipse is None,
{
    let t = *old(a);
    crate::laws::ellipse::lemma_drag_draws_ellipse(t, press, release, e, ax, ay);
}

/// The box of an ellipse has its middle and both radii.
pub proof fn lemma_ellipse_bounds(e: Ellipse, b: Option<Rect>, ax: int, ay: int)
    requires
        e.radii is Some,
        is_size_of(ax, e.radii->0.x as int),
        is_size_of(ay, e.radii->0.y as int),
        call_ensures(Ellipse::bounds, (&e,), b),
    ensures
        b is Some,
        e.middle.x - b->0.pos.x == ax && b->0.pos.x + b->0.size.x - e.middle.x == ax,
        e.middle.y - b->0.pos.y == ay && b->0.pos.y + b->0.size.y - e.middle.y == ay,
{
}

/// Level with its middle, an ellipse is hit within half the stroke and the
/// tolerance of its line, and inside where it is filled.
pub proof fn lemma_ellipse_hit(
    e: Ellipse,
    p: Vec2D,
    tolerance: i64,
    stroke: i64,
    r: bool,
    edge: bool,
    ax: int,
    ay: int,
    t: int,
)
    requires
        e.radii is Some,
        is_size_of(ax, e.radii->0.x as int),
        is_size_of(ay, e.radii->0.y as int),
        call_ensures(Ellipse::hit_test, (&e, p, tolerance, stroke), r),
        call_ensures(Ellipse::edge_hit_test, (&e, p, tolerance, stroke), edge),
        ({
            let pad = stroke as int / 2 + tolerance;
            0 <= pad < ax && pad < ay
        }),
    ensures
        ({
            let pad = stroke as int / 2 + tolerance;
            &&& p.y == e.middle.y && is_size_of(t, p.x - e.middle.x) ==> {
                &&& r <==> (e.style.fill || ax - pad < t) && t <= ax + pad
                &&& edge <==> ax - pad < t <= ax + pad
            }
            &&& p.x == e.middle.x && is_size_of(t, p.y - e.middle.y) ==> {
                &&& r <==> (e.style.fill || ay - pad < t) && t <= ay + pad
                &&& edge <==> ay - pad < t <= ay + pad
            }
        }),
{
    let pad = stroke as int / 2 + tolerance;
    crate::laws::ellipse::lemma_hits_on_the_axes(e, p, pad, ax, ay, t);
}

/// A moved ellipse keeps its size; its middle goes along.
pub proof fn lemma_ellipse_translate(e: &mut Ellipse, d: Vec2D)
    requires
        call_ensures(Ellipse::translate, (e, d), ()),
    ensures
        final(e).middle.x - old(e).middle.x == d.x,
        final(e).middle.y - old(e).middle.y == d.y,
        final(e).radii == old(e).radii,
{
}

/// A dragged handle takes its corner or side of the box of an ellipse to the
/// pointer, to the sub-unit.
pub proof fn lemma_ellipse_move_handle(
    e: &mut Ellipse,
    id: HandleId,
    to: Vec2D,
    before: Option<Rect>,
    after: Option<Rect>,
)
    requires
        old(e).radii is Some,
        call_ensures(Ellipse::bounds, (&*old(e),), before),
        call_ensures(Ellipse::move_handle, (e, id, to), ()),
        call_ensures(Ellipse::bounds, (&*final(e),), after),
        before is Some,
        before->0.pos.x <= to.x,
        before->0.pos.y <= to.y,
        id == HandleId::BottomRight || id == HandleId::Right || id == HandleId::Bottom,
    ensures
        after is Some,
        ({
            let (a, b) = (before->0, after->0);
            &&& b.pos == a.pos
            &&& id != HandleId::Bottom ==> to.x - 1 <= b.pos.x + b.size.x <= to.x
            &&& id != HandleId::Right ==> to.y - 1 <= b.pos.y + b.size.y <= to.y
            &&& id == HandleId::Bottom ==> a.size.x - 1 <= b.size.x <= a.size.x
            &&& id == HandleId::Right ==> a.size.y - 1 <= b.size.y <= a.size.y
        }),
{
}

/// A highlight is hit along all of its segments.
pub proof fn lemma_highlight_hit(
    s: HighlightStroke,
    p: Vec2D,
    tolerance: i64,
    width: i64,
    r: bool,
    pts: Vec<Vec2D>,
    i: int,
    k: int,
    n: int,
)
    requires
        call_ensures(HighlightStroke::hit_test, (&s, p, tolerance, width), r),
        call_ensures(HighlightStroke::absolute_points, (&s,), pts),
        s.forced_width is None,
        width as int / 2 + tolerance >= 0,
        0 <= i < pts@.len() - 1,
        0 <= k <= n,
        n > 0,
        part_is_near(p, pts@[i], pts@[i + 1], k, n, width as int / 2 + tolerance),
    ensures
        r,
{
    let pick = width as int / 2 + tolerance;
    crate::laws::geometry::lemma_near_a_part_is_near_the_segment(
        p,
        pts@[i],
        pts@[i + 1],
        k,
        n,
        pick,
    );
    assert(crate::math::near_segment_spec(p, s@.points()[i], s@.points()[i + 1], pick));
}

/// The points of a highlight are its first one and those at the offsets.
pub proof fn lemma_highlight_points(s: HighlightStroke, pts: Vec<Vec2D>, i: int)
    requires
        s@.ok(),
        call_ensures(HighlightStroke::absolute_points, (&s,), pts),
        0 < i <= s.rest@.len(),
    ensures
        pts@.len() == s.rest@.len() + 1,
        pts@[0] == s.first,
        pts@[i].x - s.first.x == s.rest@[i - 1].x,
        pts@[i].y - s.first.y == s.rest@[i - 1].y,
{
    assert(point_in(s@.rest[i - 1]));
}

/// Moving a highlight moves every point.
pub proof fn lemma_highlight_translate(s: &mut HighlightStroke, d: Vec2D)
    requires
        i64::MIN <= old(s).first.x + d.x <= i64::MAX,
        i64::MIN <= old(s).first.y + d.y <= i64::MAX,
        call_ensures(HighlightStroke::translate, (s, d), ()),
    ensures
        final(s).first.x - old(s).first.x == d.x,
        final(s).first.y - old(s).first.y == d.y,
        final(s)@.rest == old(s)@.rest,
{
}

/// A highlight is painted in its color, as opaque as it is set.
pub proof fn lemma_highlight_color(s: HighlightStroke, c: Color, width: i64, w: i64, alpha: u8)
    requires
        call_ensures(HighlightStroke::fill_color, (&s,), c),
        call_ensures(HighlightStroke::stroke_width, (&s, width), w),
        call_ensures(opacity_alpha, (&s.style,), alpha),
        0 <= s.style.highlighter_opacity <= 1_000_000,
    ensures
        c.r == s.style.color.r && c.g == s.style.color.g && c.b == s.style.color.b,
        -1_000_000 <= 2 * (c.a * 1_000_000 - s.style.highlighter_opacity * 255) <= 1_000_000,
        alpha == c.a,
        s.forced_width matches Some(f) ==> w == f,
        s.forced_width is None ==> w == width,
{
    crate::laws::strokes::lemma_alpha_is_opacity(s.style.highlighter_opacity as int);
}

/// The number of a badge is as high as its size and both factors say.
pub proof fn lemma_badge_text(size: Size, factor: i64, scale: i64, r: i64)
    requires
        call_ensures(marker_text_size, (size, factor, scale), r),
    ensures
        ({
            let px: int = match size {
                Size::XSmall => 14,
                Size::Small => 22,
                Size::Medium => 36,
                Size::Large => 50,
                Size::XLarge => 70,
                Size::XXLarge => 96,
            };
            let m: int = 1_000_000_000_000;
            -m <= 2 * (r * m - px * UNIT * factor * scale) <= m
        }),
{
    crate::laws::marker::lemma_numbers_grow_with_size(size, factor as int, scale as int);
}

/// A badge reaches 65 hundredths of the diagonal of its number around.
pub proof fn lemma_badge_radius(text_size: i64, number: u16, r: i64, digits: int)
    requires
        call_ensures(marker_radius, (text_size, number), r),
        digits == if number < 10 {
            1int
        } else if number < 100 {
            2
        } else if number < 1000 {
            3
        } else if number < 10_000 {
            4
        } else {
            5
        },
    ensures
        exists|s: int| #[trigger]
            is_diagonal(s, 7 * digits * text_size, 10 * text_size) && -1000 <= 2 * (r * 1000 - s
                * 65) <= 1000,
{
    crate::laws::marker::lemma_digits_are_counted(number as int);
    crate::laws::marker::lemma_badge_is_drawn_around_its_number(
        text_size as int,
        number as int,
        r as int,
    );
}

/// The disc behind a number.
pub proof fn lemma_badge_disc(w: i64, h: i64, text_size: i64, r: i64)
    requires
        call_ensures(disc_radius, (w, h, text_size), r),
    ensures
        2 * r * 100 >= 2 * text_size * 55 - 100,
        exists|s: int| #[trigger]
            is_diagonal(s, w as int, h as int) && 2 * r * 100 >= 2 * s * 65 - 100 && (2 * r * 100
                <= 2 * s * 65 + 100 || 2 * r * 100 <= 2 * text_size * 55 + 100),
{
    crate::laws::marker::lemma_disc_reaches_around_number(
        w as int,
        h as int,
        text_size as int,
        r as int,
    );
}

/// Numbers are black on bright badges.
pub proof fn lemma_badge_contrast(c: Color, r: bool)
    requires
        call_ensures(dark_text, (c,), r),
    ensures
        c.r == 0 && c.b == 0 ==> (r <==> c.g >= 179),
        c.r == c.g && c.g == c.b ==> (r <==> c.g >= 128),
        c.r == 255 && c.b == 0 ==> (r <==> c.g >= 103),
        c.r == 0 && c.b == 255 ==> (r <==> c.g >= 153),
{
}

/// Every click stamps the next number at the pointer, or where the preview is.
pub proof fn lemma_badges_are_numbered(
    a: &mut MarkerTool,
    b: &mut MarkerTool,
    click: MouseEventMsg,
    again: MouseEventMsg,
    one: ToolUpdateResult<Marker>,
    two: ToolUpdateResult<Marker>,
)
    requires
        old(a).next_number < u16::MAX - 1,
        click.type_ == MouseEventType::Click && click.button == MouseButton::Primary,
        again.type_ == MouseEventType::Click && again.button == MouseButton::Primary,
        call_ensures(MarkerTool::handle_mouse_event, (a, click), one),
        *final(a) == *old(b),
        call_ensures(MarkerTool::handle_mouse_event, (b, again), two),
    ensures
        one matches ToolUpdateResult::Commit(m) && m.number == old(a).next_number && m.style == old(a).style && !m.preview && (old(a).preview is None ==> m.pos == click.pos),
        two matches ToolUpdateResult::Commit(m) && m.number == old(a).next_number + 1,
        old(a).preview matches Some(g) ==> (one matches ToolUpdateResult::Commit(m) && m.pos
            == g.pos),
{
}

/// Undoing a badge makes its number the next one again, redoing the one after.
pub proof fn lemma_badge_numbers_go_back(m: Marker, n: &mut u16, k: &mut u16)
    requires
        m.number < u16::MAX,
        call_ensures(Marker::handle_undo, (&m, n), ()),
        call_ensures(Marker::handle_redo, (&m, k), ()),
    ensures
        *final(n) == m.number,
        *final(k) == m.number + 1,
{
}

/// A badge is hit within its radius and the tolerance around its middle, and
/// its box has both in it.
pub proof fn lemma_badge_hit(
    m: Marker,
    p: Vec2D,
    tolerance: i64,
    r: bool,
    radius: i64,
    b: Option<Rect>,
)
    requires
        call_ensures(Marker::hit_test, (&m, p, tolerance), r),
        call_ensures(Marker::approx_radius, (&m,), radius),
        call_ensures(Marker::bounds, (&m,), b),
        radius + tolerance >= 0,
    ensures
        r <==> (m.pos.x - p.x) * (m.pos.x - p.x) + (m.pos.y - p.y) * (m.pos.y - p.y) <= (radius
            + tolerance) * (radius + tolerance),
        b is Some,
        m.pos.x - b->0.pos.x == radius && b->0.pos.x + b->0.size.x - m.pos.x == radius,
        m.pos.y - b->0.pos.y == radius && b->0.pos.y + b->0.size.y - m.pos.y == radius,
{
    let n = m.number as int;
    let ts = m.text_size();
    let q = choose|q: int| #[trigger]
        crate::tools::marker::is_radius(ts, n, q) && r == (q + tolerance >= 0
            && crate::math::dist2_spec(m.pos, p) <= (q + tolerance) * (q + tolerance));
    crate::tools::marker::lemma_radius_unique(ts, n, q, radius as int);
    let z = choose|z: int| #[trigger]
        crate::tools::marker::is_radius(ts, n, z) && crate::tools::marker::is_square_around(
            m.pos,
            z,
            b->0,
        );
    crate::tools::marker::lemma_radius_unique(ts, n, z, radius as int);
}

/// A pasted image covers its place; it is at least a pixel large; and its
/// pixels are those of the picture, opaque where that has no alpha.
pub proof fn lemma_pasted_image(
    p: Pixbuf,
    pos: Vec2D,
    size: Vec2D,
    r: PastedImage,
    b: Option<Rect>,
    x: int,
    y: int,
    c: int,
)
    requires
        call_ensures(PastedImage::from_pixbuf, (&p, pos, size), r),
        call_ensures(PastedImage::bounds, (&r,), b),
        0 <= x < p.width,
        0 <= y < p.height,
        0 <= c < 4,
    ensures
        b is Some,
        b->0.pos == pos,
        size.x >= UNIT ==> b->0.size.x == size.x,
        size.x < UNIT ==> b->0.size.x == UNIT,
        size.y >= UNIT ==> b->0.size.y == size.y,
        size.y < UNIT ==> b->0.size.y == UNIT,
        ({
            let bytes: int = if p.has_alpha {
                4
            } else {
                3
            };
            let there = r.data.rgba@[4 * (y * r.data.width + x) + c];
            &&& c < bytes ==> there == p.pixels@[y * p.rowstride + x * bytes + c]
            &&& c == 3 && !p.has_alpha ==> there == 255
        }),
{
    let there = r.data.channel(x, y, c);
    assert(there == if c < 3 || p.has_alpha {
        p.channel(x, y, c)
    } else {
        255
    });
}

/// The pixels of a turned image: mirrored from left to right, or by a quarter.
pub proof fn lemma_turned_image(t: CanvasTransform, a: ImageData, r: ImageData, x: int, y: int, c: int)
    requires
        call_ensures(turn, (t, &a), r),
        0 <= x < a.width,
        0 <= y < a.height,
        0 <= c < 4,
        !(t is Scale),
    ensures
        t == CanvasTransform::FlipHorizontal ==> r.channel(a.width - 1 - x, y, c) == a.channel(
            x,
            y,
            c,
        ) && r.width == a.width,
        t == CanvasTransform::RotateCcw ==> r.channel(y, a.width - 1 - x, c) == a.channel(x, y, c)
            && r.width == a.height,
        t == CanvasTransform::RotateCw ==> r.channel(a.height - 1 - y, x, c) == a.channel(x, y, c)
            && r.width == a.height,
{
    let v = a.channel(x, y, c);
}

/// A pasted image is hit within the tolerance around it, and moves as a whole.
pub proof fn lemma_pasted_image_moves(
    i: PastedImage,
    p: Vec2D,
    tolerance: i64,
    r: bool,
    m: &mut PastedImage,
    d: Vec2D,
)
    requires
        call_ensures(PastedImage::hit_test, (&i, p, tolerance), r),
        call_ensures(PastedImage::translate, (m, d), ()),
    ensures
        r <==> {
            &&& -tolerance <= p.x - i.pos.x <= i.size.x + tolerance
            &&& -tolerance <= p.y - i.pos.y <= i.size.y + tolerance
        },
        final(m).pos.x - old(m).pos.x == d.x && final(m).pos.y - old(m).pos.y == d.y,
        final(m).size == old(m).size,
{
}

/// Glow and handles keep their size on screen.
pub proof fn lemma_marks(scale: i64, ratio: i64, halo: i64, m: HandleMark, s: HandleMark)
    requires
        scale >= 100,
        0 <= ratio <= 1_000_000_000,
        call_ensures(halo_in_image_units, (scale, ratio), halo),
        call_ensures(handle_mark, (HandleKind::Round, scale, ratio), m),
        call_ensures(handle_mark, (HandleKind::Square, scale, ratio), s),
    ensures
        -scale <= 2 * (halo * scale - 4 * UNIT * ratio) <= scale,
        -scale <= 2 * (m.inner * scale - 6 * UNIT * ratio) <= scale,
        -scale <= 2 * (m.outer * scale - 8 * UNIT * ratio) <= scale,
        -scale <= 2 * (s.inner * scale - 3 * UNIT * ratio) <= scale,
        -scale <= 2 * (s.outer * scale - 5 * UNIT * ratio) <= scale,
{
    crate::laws::marker::lemma_screen_lengths_scale(4 * UNIT, scale as int, ratio as int);
    crate::laws::marker::lemma_handles_keep_their_size_on_screen(scale as int, ratio as int);
}

} // verus!
