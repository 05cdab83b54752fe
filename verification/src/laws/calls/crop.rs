//! What the functions of cropping give back.
use vstd::prelude::*;
use crate::input::{
    Key, KeyEventMsg, Modifiers, MouseButton, MouseEventMsg, MouseEventType, KEY_DOWN,
    KEY_DOWNARROW, KEY_LEFT, KEY_LEFTARROW, KEY_RIGHT, KEY_RIGHTARROW, KEY_UP, KEY_UPARROW,
};
use crate::laws::crop::{has_ratio, rests_at, same_middle, stops_at};
use crate::laws::crop_session::is_in_pixels;
use crate::math::Vec2D;
use crate::tools::crop::{
    arrow_bit, bounds_ok, AspectRatio, Crop, CropBgColor, CropHandle, CropHit, CropMessage,
    CropTool, CropToolAction, DragHandleState, MoveState,
};
use crate::tools::{CanvasTransform, ToolUpdateResult, Tools};
use crate::units::{MICRO, UNIT};

verus! {

/// Where edges do not attract, a move by `d` puts the crop exactly `d` away
/// from where it started, as long as that keeps it inside the image.
pub proof fn lemma_move(
    t: &mut CropTool,
    state: MoveState,
    d: Vec2D,
    modifier: Modifiers,
    out: &mut Vec<CropMessage>,
    r: ToolUpdateResult<Crop>,
    b: Vec2D,
)
    requires
        old(t).crop is Some,
        old(t).image_bounds == Some(b),
        old(t).action == Some(CropToolAction::Move(state)),
        !old(t).snap_to_edges || modifier.alt,
        call_ensures(CropTool::update_drag, (t, d, modifier, out), r),
    ensures
        final(t).crop is Some,
        ({
            let (s, p) = (old(t).crop->0.size, final(t).crop->0.pos);
            let (x, y) = (state.start.x + d.x, state.start.y + d.y);
            &&& final(t).crop->0.size == s
            &&& 0 <= x && 0 <= s.x && x + s.x <= b.x ==> p.x == x
            &&& 0 <= y && 0 <= s.y && y + s.y <= b.y ==> p.y == y
            &&& x < 0 <= s.x && s.x <= b.x ==> p.x == 0
            &&& y < 0 <= s.y && s.y <= b.y ==> p.y == 0
            &&& 0 <= s.x <= b.x && x + s.x > b.x ==> p.x + s.x == b.x
            &&& 0 <= s.y <= b.y && y + s.y > b.y ==> p.y + s.y == b.y
        }),
        r is Redraw,
{
    let tool = *old(t);
    crate::laws::crop::lemma_move_follows_pointer(tool, state, d, modifier, *final(t), r is Redraw);
}

/// A press inside a crop and a drag by `d` take the crop along by `d`.
pub proof fn lemma_press_and_move(
    t: &mut CropTool,
    u: &mut CropTool,
    p: Vec2D,
    d: Vec2D,
    modifier: Modifiers,
    out: &mut Vec<CropMessage>,
    more: &mut Vec<CropMessage>,
    r: ToolUpdateResult<Crop>,
    q: ToolUpdateResult<Crop>,
    c: Crop,
    b: Vec2D,
)
    requires
        old(t).crop == Some(c),
        old(t).image_bounds == Some(b),
        old(t).handle_under(p) is None,
        !old(t).snap_to_edges || modifier.alt,
        0 <= p.x <= b.x,
        0 <= p.y <= b.y,
        c.size.x >= UNIT,
        c.size.y >= UNIT,
        c.pos.x < p.x < c.pos.x + c.size.x,
        c.pos.y < p.y < c.pos.y + c.size.y,
        0 <= c.pos.x + d.x <= b.x - c.size.x,
        0 <= c.pos.y + d.y <= b.y - c.size.y,
        call_ensures(CropTool::begin_drag, (t, p, out), r),
        *final(t) == *old(u),
        call_ensures(CropTool::update_drag, (u, d, modifier, more), q),
    ensures
        final(u).crop is Some,
        final(u).crop->0.pos.x == c.pos.x + d.x,
        final(u).crop->0.pos.y == c.pos.y + d.y,
        final(u).crop->0.size == c.size,
{
    let (first, second, last) = (*old(t), *old(u), *final(u));
    crate::laws::crop::lemma_press_begins(first, p, second, r is Redraw);
    crate::laws::crop::lemma_move_follows_pointer(
        second,
        MoveState { start: c.pos },
        d,
        modifier,
        last,
        q is Redraw,
    );
}

/// Without a ratio the edges of a dragged handle follow the pointer up to the
/// edges of the image, and the other edges stay.
pub proof fn lemma_handle_drag(
    t: &mut CropTool,
    state: DragHandleState,
    d: Vec2D,
    modifier: Modifiers,
    out: &mut Vec<CropMessage>,
    r: ToolUpdateResult<Crop>,
    b: Vec2D,
)
    requires
        old(t).crop is Some,
        old(t).image_bounds == Some(b),
        bounds_ok(old(t).image_bounds),
        old(t).aspect_ratio == AspectRatio::Freeform,
        old(t).action == Some(CropToolAction::DragHandle(state)),
        !old(t).snap_to_edges || modifier.alt,
        0 <= state.top_left_start.x <= b.x,
        0 <= state.top_left_start.y <= b.y,
        0 <= state.bottom_right_start.x <= b.x,
        0 <= state.bottom_right_start.y <= b.y,
        call_ensures(CropTool::update_drag, (t, d, modifier, out), r),
    ensures
        ({
            let (c, h) = (final(t).crop->0, state.handle);
            let (tl, br) = (state.top_left_start, state.bottom_right_start);
            let left = h == CropHandle::TopLeftCorner || h == CropHandle::LeftEdge || h
                == CropHandle::BottomLeftCorner;
            let right = h == CropHandle::TopRightCorner || h == CropHandle::RightEdge || h
                == CropHandle::BottomRightCorner;
            let top = h == CropHandle::TopLeftCorner || h == CropHandle::TopEdge || h
                == CropHandle::TopRightCorner;
            let bottom = h == CropHandle::BottomLeftCorner || h == CropHandle::BottomEdge || h
                == CropHandle::BottomRightCorner;
            &&& left ==> rests_at(c.pos.x as int, tl.x + d.x, b.x as int)
            &&& !left ==> c.pos.x == tl.x
            &&& top ==> rests_at(c.pos.y as int, tl.y + d.y, b.y as int)
            &&& !top ==> c.pos.y == tl.y
            &&& right ==> rests_at(c.pos.x + c.size.x, br.x + d.x, b.x as int)
            &&& !right ==> c.pos.x + c.size.x == br.x
            &&& bottom ==> rests_at(c.pos.y + c.size.y, br.y + d.y, b.y as int)
            &&& !bottom ==> c.pos.y + c.size.y == br.y
        }),
{
    let (first, last) = (*old(t), *final(t));
    crate::laws::crop::lemma_handle_drag_moves_its_edges(
        first,
        state,
        d,
        modifier,
        last,
        r is Redraw,
        b,
    );
}

/// With a ratio, a dragged handle leaves a box of that ratio.
pub proof fn lemma_ratio_drag(
    t: &mut CropTool,
    state: DragHandleState,
    d: Vec2D,
    modifier: Modifiers,
    out: &mut Vec<CropMessage>,
    r: ToolUpdateResult<Crop>,
    rw: int,
    rh: int,
)
    requires
        old(t).crop is Some,
        old(t).image_bounds is None,
        old(t).aspect_spec() == Some((rw, rh)),
        rw > 0,
        rh > 0,
        old(t).action == Some(CropToolAction::DragHandle(state)),
        call_ensures(CropTool::update_drag, (t, d, modifier, out), r),
    ensures
        ({
            let (c, h) = (final(t).crop->0, state.handle);
            let (tl, br) = (state.top_left_start, state.bottom_right_start);
            &&& has_ratio(c.size.x as int, c.size.y as int, rw, rh)
            &&& h == CropHandle::BottomRightCorner ==> c.pos == tl
            &&& h == CropHandle::TopLeftCorner ==> c.pos.x + c.size.x == br.x && c.pos.y
                + c.size.y == br.y
        }),
{
    let (first, last) = (*old(t), *final(t));
    crate::laws::crop::lemma_ratio_drag_keeps_ratio(
        first,
        state,
        d,
        modifier,
        last,
        r is Redraw,
        rw,
        rh,
    );
}

/// A press where there is no crop and a drag by `d` open one of the size `d`.
pub proof fn lemma_open(
    t: &mut CropTool,
    u: &mut CropTool,
    p: Vec2D,
    d: Vec2D,
    modifier: Modifiers,
    out: &mut Vec<CropMessage>,
    more: &mut Vec<CropMessage>,
    r: ToolUpdateResult<Crop>,
    q: ToolUpdateResult<Crop>,
    b: Vec2D,
)
    requires
        old(t).crop is None,
        old(t).image_bounds == Some(b),
        bounds_ok(old(t).image_bounds),
        old(t).aspect_ratio == AspectRatio::Freeform,
        !old(t).snap_to_edges || modifier.alt,
        0 <= p.x <= b.x,
        0 <= p.y <= b.y,
        call_ensures(CropTool::begin_drag, (t, p, out), r),
        *final(t) == *old(u),
        call_ensures(CropTool::update_drag, (u, d, modifier, more), q),
    ensures
        final(u).crop is Some,
        ({
            let c = final(u).crop->0;
            &&& c.pos == p
            &&& rests_at(c.pos.x + c.size.x, p.x + d.x, b.x as int)
            &&& rests_at(c.pos.y + c.size.y, p.y + d.y, b.y as int)
        }),
{
    let (first, second, last) = (*old(t), *old(u), *final(u));
    crate::laws::crop::lemma_press_begins(first, p, second, r is Redraw);
    crate::laws::crop::lemma_opened_crop_spans_drag(second, d, modifier, last, q is Redraw);
}

/// Letting go ends the drag where dragging there would have left the crop.
pub proof fn lemma_release(
    t: &mut CropTool,
    u: &mut CropTool,
    state: MoveState,
    d: Vec2D,
    modifier: Modifiers,
    out: &mut Vec<CropMessage>,
    more: &mut Vec<CropMessage>,
    r: ToolUpdateResult<Crop>,
    q: ToolUpdateResult<Crop>,
)
    requires
        *old(t) == *old(u),
        old(t).crop is Some,
        old(t).action == Some(CropToolAction::Move(state)),
        old(t).image_bounds is None,
        call_ensures(CropTool::update_drag, (t, d, modifier, out), r),
        call_ensures(CropTool::end_drag, (u, d, modifier, more), q),
    ensures
        final(u).action is None,
        final(u).crop is Some,
        final(u).crop->0.pos == final(t).crop->0.pos,
        final(u).crop->0.size == final(t).crop->0.size,
{
}

/// A symmetric resize adds what was asked for where there is room for it.
pub proof fn lemma_resize_symmetric(
    t: &mut CropTool,
    dw: i64,
    dh: i64,
    out: &mut Vec<CropMessage>,
    r: bool,
    c0: Crop,
    b: Vec2D,
)
    requires
        old(t).crop == Some(c0),
        old(t).image_bounds == Some(b),
        old(t).resizable(),
        call_ensures(CropTool::resize_symmetric, (t, dw, dh, out), r),
    ensures
        final(t).crop is Some,
        ({
            let c = final(t).crop->0;
            let (w, h) = (c0.size.x + dw, c0.size.y + dh);
            &&& UNIT <= w <= b.x ==> c.size.x == w
            &&& UNIT <= h <= b.y ==> c.size.y == h
            &&& dw != 0 && b.x >= UNIT && w < UNIT ==> c.size.x == UNIT
            &&& dh != 0 && b.y >= UNIT && h < UNIT ==> c.size.y == UNIT
            &&& dw != 0 && b.x >= UNIT && w > b.x ==> c.size.x == b.x
            &&& dh != 0 && b.y >= UNIT && h > b.y ==> c.size.y == b.y
            &&& (UNIT <= w <= b.x && 2 * c0.pos.x >= dw && 2 * (c0.pos.x + c0.size.x) + dw <= 2
                * b.x - 2) ==> same_middle(
                c0.pos.x as int,
                c0.size.x as int,
                c.pos.x as int,
                c.size.x as int,
            )
            &&& (UNIT <= h <= b.y && 2 * c0.pos.y >= dh && 2 * (c0.pos.y + c0.size.y) + dh <= 2
                * b.y - 2) ==> same_middle(
                c0.pos.y as int,
                c0.size.y as int,
                c.pos.y as int,
                c.size.y as int,
            )
            &&& r <==> c.size != c0.size
        }),
{
    let first = *old(t);
    crate::laws::crop::lemma_grow_adds_on_both_sides(first, dw as int, dh as int, final(t).crop->0, b);
}

/// A factor multiplies both sides of a crop that has room for it.
pub proof fn lemma_resize_proportional(
    t: &mut CropTool,
    factor: i64,
    out: &mut Vec<CropMessage>,
    r: bool,
    b: Vec2D,
)
    requires
        old(t).crop is Some,
        old(t).image_bounds == Some(b),
        factor > 0,
        call_ensures(CropTool::resize_proportional, (t, factor, out), r),
    ensures
        ({
            let (s, s2) = (old(t).crop->0.size, final(t).crop->0.size);
            let m: int = 1_000_000;
            &&& (UNIT * m <= s.x * factor <= (b.x - 1) * m) ==> -m <= 2 * (s2.x * m - s.x * factor)
                <= m
            &&& (UNIT * m <= s.y * factor <= (b.y - 1) * m) ==> -m <= 2 * (s2.y * m - s.y * factor)
                <= m
        }),
{
    let (first, last) = (*old(t), *final(t));
    crate::laws::crop::lemma_scaling_multiplies(first, factor, r, last, old(out)@, final(out)@, b);
}

/// An arrow key on its own moves one edge of a crop in its direction.
pub proof fn lemma_arrow_key(
    t: &mut CropTool,
    event: KeyEventMsg,
    out: &mut Vec<CropMessage>,
    r: ToolUpdateResult<Crop>,
    c0: Crop,
    b: Vec2D,
)
    requires
        old(t).crop == Some(c0),
        old(t).image_bounds == Some(b),
        old(t).aspect_ratio == AspectRatio::Freeform,
        old(t).held_arrows == 0,
        CropTool::is_arrow_event(event),
        0 <= c0.pos.x,
        0 <= c0.pos.y,
        c0.size.x >= UNIT,
        c0.size.y >= UNIT,
        c0.pos.x + c0.size.x <= b.x,
        c0.pos.y + c0.size.y <= b.y,
        call_ensures(CropTool::handle_key_event, (t, event, out), r),
    ensures
        ({
            let c = final(t).crop->0;
            let k = event.key.0;
            let step: int = if event.modifier.control {
                UNIT as int
            } else {
                30 * UNIT
            };
            let dx: int = if k == KEY_RIGHT || k == KEY_RIGHTARROW {
                step
            } else if k == KEY_LEFT || k == KEY_LEFTARROW {
                -step
            } else {
                0
            };
            let dy: int = if k == KEY_DOWN || k == KEY_DOWNARROW {
                step
            } else if k == KEY_UP || k == KEY_UPARROW {
                -step
            } else {
                0
            };
            let (l, t) = (c0.pos.x as int, c0.pos.y as int);
            let (right, bottom) = (l + c0.size.x, t + c0.size.y);
            if event.modifier.shift {
                &&& stops_at(c.pos.x as int, l + dx, 0, right - UNIT)
                &&& stops_at(c.pos.y as int, t + dy, 0, bottom - UNIT)
                &&& c.pos.x + c.size.x == right
                &&& c.pos.y + c.size.y == bottom
            } else {
                &&& c.pos == c0.pos
                &&& stops_at(c.pos.x + c.size.x, right + dx, l + UNIT, b.x as int)
                &&& stops_at(c.pos.y + c.size.y, bottom + dy, t + UNIT, b.y as int)
            }
        }),
{
    let (first, last) = (*old(t), *final(t));
    crate::laws::crop::lemma_arrow_key_moves_one_edge(
        first,
        event,
        last,
        r is RedrawAndStopPropagation,
        b,
    );
}

/// The arrow keys of both blocks of the keyboard have a bit each.
pub proof fn lemma_arrow_bits(k: Key, j: Key, r: Option<u8>, s: Option<u8>)
    requires
        call_ensures(arrow_bit, (k,), r),
        call_ensures(arrow_bit, (j,), s),
    ensures
        k.0 == KEY_LEFT && j.0 == KEY_LEFTARROW ==> r is Some && r == s,
        k.0 == KEY_RIGHT && j.0 == KEY_RIGHTARROW ==> r is Some && r == s,
        k.0 == KEY_UP && j.0 == KEY_UPARROW ==> r is Some && r == s,
        k.0 == KEY_DOWN && j.0 == KEY_DOWNARROW ==> r is Some && r == s,
        k.0 == KEY_LEFT && j.0 == KEY_RIGHT ==> r != s,
        k.0 == KEY_UP && j.0 == KEY_DOWN ==> r != s,
        k.0 == KEY_LEFT && j.0 == KEY_UP ==> r != s,
{
}

/// A preset is a quarter of the image: the first four lie in its corners, the
/// fifth in its middle.
pub proof fn lemma_preset(
    t: &mut CropTool,
    preset: u32,
    out: &mut Vec<CropMessage>,
    r: bool,
    b: Vec2D,
)
    requires
        old(t).crop is Some,
        old(t).image_bounds == Some(b),
        b.x >= 0,
        b.y >= 0,
        1 <= preset <= 5,
        call_ensures(CropTool::apply_quadrant_preset, (t, preset, out), r),
    ensures
        r,
        ({
            let (p, s) = (final(t).crop->0.pos, final(t).crop->0.size);
            &&& b.x - 1 <= 2 * s.x <= b.x
            &&& b.y - 1 <= 2 * s.y <= b.y
            &&& preset == 1 ==> p.x == 0 && p.y == 0
            &&& preset == 2 ==> b.x - 1 <= p.x + s.x <= b.x && p.y == 0
            &&& preset == 3 ==> p.x == 0 && b.y - 1 <= p.y + s.y <= b.y
            &&& preset == 4 ==> b.x - 1 <= p.x + s.x <= b.x && b.y - 1 <= p.y + s.y <= b.y
            &&& preset == 5 ==> -2 <= b.x - s.x - 2 * p.x <= 2 && -2 <= b.y - s.y - 2 * p.y <= 2
        }),
{
    let (first, last) = (*old(t), *final(t));
    crate::laws::crop::lemma_presets_are_quarters(
        first,
        preset,
        r,
        last,
        old(out)@,
        final(out)@,
        b,
    );
}

/// Another ratio gives the largest box of it inside the crop, around its
/// middle.
pub proof fn lemma_set_aspect_ratio(
    t: &mut CropTool,
    a: AspectRatio,
    out: &mut Vec<CropMessage>,
    c0: Crop,
    b: Vec2D,
    rw: i64,
    rh: i64,
)
    requires
        old(t).crop == Some(c0),
        old(t).image_bounds == Some(b),
        c0.size.x > 0,
        c0.size.y > 0,
        rw > 0,
        rh > 0,
        call_ensures(AspectRatio::ratio_components, (a, Some(b)), Some((rw, rh))),
        call_ensures(CropTool::set_aspect_ratio, (t, a, out), ()),
    ensures
        final(t).aspect_ratio == a,
        final(t).crop is Some,
        ({
            let c = final(t).crop->0;
            &&& has_ratio(c.size.x as int, c.size.y as int, rw as int, rh as int)
            &&& c.size.x <= c0.size.x && c.size.y <= c0.size.y
            &&& c.size.x == c0.size.x || c.size.y == c0.size.y
            &&& same_middle(c0.pos.x as int, c0.size.x as int, c.pos.x as int, c.size.x as int)
            &&& same_middle(c0.pos.y as int, c0.size.y as int, c.pos.y as int, c.size.y as int)
        }),
{
    crate::laws::crop::lemma_ratio_is_inscribed(c0, rw as int, rh as int, final(t).crop->0);
}

/// The named ratios are what their names say.
pub proof fn lemma_ratio_components(a: AspectRatio, b: Vec2D, r: Option<(i64, i64)>)
    requires
        b.x > 0,
        b.y > 0,
        call_ensures(AspectRatio::ratio_components, (a, Some(b)), r),
    ensures
        r is None <==> a == AspectRatio::Freeform,
        r matches Some((w, h)) ==> {
            &&& w > 0 && h > 0
            &&& a == AspectRatio::Original ==> w * b.y == h * b.x
            &&& a == AspectRatio::Square ==> w == h
            &&& a == AspectRatio::FiveFour ==> 4 * w == 5 * h
            &&& a == AspectRatio::SevenFive ==> 5 * w == 7 * h
            &&& a == AspectRatio::FourThree ==> 3 * w == 4 * h
            &&& a == AspectRatio::ThreeTwo ==> 2 * w == 3 * h
            &&& a == AspectRatio::SixteenNine ==> 9 * w == 16 * h
        },
{
    crate::laws::crop::lemma_named_ratios(a, b);
}

/// A typed size is taken as it is, around the middle of the crop.
pub proof fn lemma_set_dimensions(
    t: &mut CropTool,
    width: i64,
    height: i64,
    out: &mut Vec<CropMessage>,
    b: Vec2D,
)
    requires
        old(t).image_bounds == Some(b),
        width > 0,
        height > 0,
        call_ensures(CropTool::set_dimensions, (t, width, height, out), ()),
    ensures
        final(t).crop is Some,
        ({
            let c = final(t).crop->0;
            &&& c.size.x == width && c.size.y == height
            &&& old(t).crop is None ==> same_middle(0, b.x as int, c.pos.x as int, width as int)
                && same_middle(0, b.y as int, c.pos.y as int, height as int)
            &&& old(t).crop matches Some(c0) ==> same_middle(
                c0.pos.x as int,
                c0.size.x as int,
                c.pos.x as int,
                width as int,
            ) && same_middle(c0.pos.y as int, c0.size.y as int, c.pos.y as int, height as int)
        }),
{
}

/// What is applied is the part of the crop inside the image; its size is told,
/// and it is the rectangle that is reported.
pub proof fn lemma_commit(
    t: &mut CropTool,
    out: &mut Vec<CropMessage>,
    r: ToolUpdateResult<Crop>,
    rect: Option<(Vec2D, Vec2D)>,
    c0: Crop,
    b: Vec2D,
)
    requires
        old(t).crop == Some(c0),
        c0.active,
        old(t).connected,
        old(t).image_bounds == Some(b),
        bounds_ok(old(t).image_bounds),
        b.x <= 0x7fff_0000 * UNIT,
        b.y <= 0x7fff_0000 * UNIT,
        c0.size.x >= 0,
        c0.size.y >= 0,
        call_ensures(CropTool::commit, (t, out), r),
        call_ensures(CropTool::get_committed_rect, (&*final(t),), rect),
    ensures
        final(t).crop is Some,
        final(t).action is None,
        ({
            let c = final(t).crop->0;
            let m = final(out)@.skip(old(out)@.len() as int);
            &&& c.committed && !c.active
            &&& rests_at(c.pos.x as int, c0.pos.x as int, b.x as int)
            &&& rests_at(c.pos.y as int, c0.pos.y as int, b.y as int)
            &&& rests_at(c.pos.x + c.size.x, c0.pos.x + c0.size.x, b.x as int)
            &&& rests_at(c.pos.y + c.size.y, c0.pos.y + c0.size.y, b.y as int)
            &&& c.size.x > 0 && c.size.y > 0 ==> rect == Some((c.pos, c.size))
            &&& m.len() == 4
            &&& m[0] == CropMessage::ContentSizeChanged { width: c.size.x, height: c.size.y }
            &&& m[1] matches CropMessage::DimensionsUpdate(Some((w, h))) && is_in_pixels(
                w as int,
                c.size.x as int,
            ) && is_in_pixels(h as int, c.size.y as int)
            &&& m[2] == CropMessage::ToolSelected(Tools::Pointer)
            &&& m[3] == CropMessage::FocusCanvas
        }),
{
    let (first, last) = (*old(t), *final(t));
    crate::laws::crop::lemma_commit_cuts_to_image(first, last, r is Redraw, b);
    crate::laws::crop_session::lemma_applying_tells_the_size(first, last, r is Redraw, b);
    assert(final(out)@.skip(old(out)@.len() as int) =~= first.commit_msgs(last));
}

/// Cancelling drops a crop that was never applied and nothing else.
pub proof fn lemma_cancel(t: &mut CropTool, out: &mut Vec<CropMessage>, r: ToolUpdateResult<Crop>, c: Crop)
    requires
        old(t).crop == Some(c),
        call_ensures(CropTool::cancel, (t, out), r),
    ensures
        final(t).action is None,
        !c.ever_committed ==> final(t).crop is None,
        c.ever_committed ==> final(t).crop == Some(c),
        old(t).connected ==> final(out)@.last() == CropMessage::ExitCropToPreviousTool,
{
    crate::laws::crop::lemma_cancel_drops_first_draft(*old(t));
}

/// Dropping a crop shows the whole image again; starting over takes all of it.
pub proof fn lemma_revert(
    t: &mut CropTool,
    u: &mut CropTool,
    emit: bool,
    out: &mut Vec<CropMessage>,
    more: &mut Vec<CropMessage>,
    b: Vec2D,
)
    requires
        old(t).connected,
        old(t).image_bounds == Some(b),
        old(u).image_bounds == Some(b),
        call_ensures(CropTool::revert, (t, out), ()),
        call_ensures(CropTool::revert_to_seed, (u, emit, more), ()),
    ensures
        final(t).crop is None && final(t).action is None,
        final(out)@.last() == (CropMessage::ContentSizeChanged { width: b.x, height: b.y }),
        final(u).crop is Some,
        final(u).crop->0.pos == (Vec2D { x: 0, y: 0 }),
        final(u).crop->0.size == b,
        !final(u).crop->0.ever_committed,
        final(u).action is None,
{
    let (first, last) = (*old(t), *final(t));
    crate::laws::crop_session::lemma_dropping_shows_the_image(first, last, old(out)@, final(out)@, b);
}

/// A crop goes with the image that is turned or mirrored.
pub proof fn lemma_canvas_transform(
    t: &mut CropTool,
    how: CanvasTransform,
    w: i64,
    h: i64,
    out: &mut Vec<CropMessage>,
    x: int,
    y: int,
)
    requires
        !(how is Scale),
        old(t).crop is Some,
        old(t).crop->0.size.x >= 0,
        old(t).crop->0.size.y >= 0,
        call_ensures(CropTool::apply_canvas_transform, (t, how, w, h, out), ()),
    ensures
        final(t).crop is Some,
        ({
            let (a, c) = (old(t).crop->0, final(t).crop->0);
            let (nx, ny) = match how {
                CanvasTransform::FlipHorizontal => (w - x, y),
                CanvasTransform::RotateCcw => (y, w - x),
                _ => (h - y, x),
            };
            (a.pos.x <= x <= a.pos.x + a.size.x && a.pos.y <= y <= a.pos.y + a.size.y) <==> (c.pos.x
                <= nx <= c.pos.x + c.size.x && c.pos.y <= ny <= c.pos.y + c.size.y)
        }),
{
}

/// Entering the tool opens the crop that is there, or one of the whole image.
pub proof fn lemma_activated(
    t: &mut CropTool,
    out: &mut Vec<CropMessage>,
    r: ToolUpdateResult<Crop>,
    b: Vec2D,
)
    requires
        old(t).image_bounds == Some(b),
        call_ensures(CropTool::handle_activated, (t, out), r),
    ensures
        final(t).crop is Some,
        final(t).crop->0.active && !final(t).crop->0.committed,
        old(t).crop is None ==> final(t).crop->0.pos == (Vec2D { x: 0, y: 0 })
            && final(t).crop->0.size == b,
        old(t).crop matches Some(c) ==> final(t).crop->0.pos == c.pos && final(t).crop->0.size
            == c.size,
        r is Redraw,
{
}

/// Leaving an edit of an applied crop goes back to what was applied.
pub proof fn lemma_deactivated(
    t: &mut CropTool,
    out: &mut Vec<CropMessage>,
    r: ToolUpdateResult<Crop>,
    c: Crop,
    p: Vec2D,
    s: Vec2D,
)
    requires
        old(t).crop == Some(c),
        call_ensures(CropTool::handle_deactivated, (t, out), r),
    ensures
        final(t).action is None && final(t).held_arrows == 0,
        final(t).crop is Some && !final(t).crop->0.active,
        c.ever_committed && !c.committed && c.last_committed == Some((p, s)) ==> final(t).crop->0.pos
            == p && final(t).crop->0.size == s && final(t).crop->0.committed,
        !c.ever_committed ==> final(t).crop->0.pos == c.pos && final(t).crop->0.size == c.size,
{
    crate::laws::crop_session::lemma_leaving_goes_back_to_applied(c, p, s);
}

/// A right click drops a crop that is being edited; an applied one does not
/// react to the left button.
pub proof fn lemma_clicks(
    t: &mut CropTool,
    event: MouseEventMsg,
    out: &mut Vec<CropMessage>,
    r: ToolUpdateResult<Crop>,
)
    requires
        old(t).crop is Some,
        call_ensures(CropTool::handle_mouse_event, (t, event, out), r),
    ensures
        event.type_ == MouseEventType::Click && event.button == MouseButton::Secondary && old(t).crop->0.active
            ==> final(t).crop is None && final(t).action is None,
        event.button == MouseButton::Primary && old(t).crop->0.committed ==> *final(t) == *old(t)
            && r is Unmodified,
        event.button == MouseButton::Middle ==> *final(t) == *old(t) && r is Unmodified,
{
}

/// A press with the left button inside a crop that is not applied takes hold
/// of it.
pub proof fn lemma_press_takes_hold(
    t: &mut CropTool,
    event: MouseEventMsg,
    out: &mut Vec<CropMessage>,
    r: ToolUpdateResult<Crop>,
    c: Crop,
)
    requires
        old(t).crop == Some(c),
        !c.committed,
        old(t).image_bounds is None,
        old(t).handle_under(event.pos) is None,
        event.type_ == MouseEventType::BeginDrag,
        event.button == MouseButton::Primary,
        c.size.x >= UNIT,
        c.size.y >= UNIT,
        c.pos.x < event.pos.x < c.pos.x + c.size.x,
        c.pos.y < event.pos.y < c.pos.y + c.size.y,
        call_ensures(CropTool::handle_mouse_event, (t, event, out), r),
    ensures
        final(t).action == Some(CropToolAction::Move(MoveState { start: c.pos })),
        final(t).crop is Some,
        final(t).crop->0.pos == c.pos && final(t).crop->0.size == c.size,
{
    let (first, last) = (*old(t), *final(t));
    crate::laws::crop::lemma_press_begins(first, event.pos, last, r is Redraw);
}

/// Edges attract unless Alt is held or that is switched off.
pub proof fn lemma_snap_active(t: CropTool, m: Modifiers, r: bool)
    requires
        call_ensures(CropTool::snap_active, (&t, m), r),
    ensures
        r <==> t.snap_to_edges && !m.alt,
{
}

/// A point is inside the crop when it is within the margin around it.
pub proof fn lemma_inside(t: CropTool, p: Vec2D, margin: i64, r: bool, c: Crop)
    requires
        t.crop == Some(c),
        c.size.x >= 0,
        c.size.y >= 0,
        call_ensures(CropTool::test_inside_crop, (&t, p, margin), r),
    ensures
        c.pos.x - margin < p.x < c.pos.x + c.size.x + margin && c.pos.y - margin < p.y < c.pos.y
            + c.size.y + margin ==> r,
        p.x < c.pos.x - margin || p.x > c.pos.x + c.size.x + margin ==> !r,
        p.y < c.pos.y - margin || p.y > c.pos.y + c.size.y + margin ==> !r,
{
}

/// A crop counts as the whole image when it is off by less than half a pixel.
pub proof fn lemma_full_image(t: CropTool, r: bool, c: Crop, b: Vec2D)
    requires
        t.crop == Some(c),
        t.image_bounds == Some(b),
        c.size.x >= 0,
        c.size.y >= 0,
        call_ensures(CropTool::is_full_image_crop, (&t,), r),
    ensures
        r <==> {
            &&& -32768 < c.pos.x < 32768 && -32768 < c.pos.y < 32768
            &&& -32768 < c.size.x - b.x < 32768 && -32768 < c.size.y - b.y < 32768
        },
{
}

/// The rectangle of a crop has no negative side and the same corners.
pub proof fn lemma_rectangle(c: Crop, r: (Vec2D, Vec2D))
    requires
        call_ensures(Crop::get_rectangle, (&c,), r),
    ensures
        r.1.x >= 0 && r.1.y >= 0,
        c.size.x >= 0 ==> r.0.x == c.pos.x && r.0.x + r.1.x == c.pos.x + c.size.x,
        c.size.x < 0 ==> r.0.x == c.pos.x + c.size.x && r.0.x + r.1.x == c.pos.x,
        c.size.y >= 0 ==> r.0.y == c.pos.y && r.0.y + r.1.y == c.pos.y + c.size.y,
        c.size.y < 0 ==> r.0.y == c.pos.y + c.size.y && r.0.y + r.1.y == c.pos.y,
{
}

/// The handles lie on the corners and in the middle of the edges.
pub proof fn lemma_handle_pos(pos: Vec2D, size: Vec2D, h: CropHandle, p: Vec2D)
    requires
        call_ensures(Crop::get_handle_pos, (pos, size, h), p),
    ensures
        ({
            let (x0, y0) = (pos.x as int, pos.y as int);
            let (x1, y1) = (pos.x + size.x, pos.y + size.y);
            let mid_x = -1 <= 2 * p.x - (x0 + x1) <= 1;
            let mid_y = -1 <= 2 * p.y - (y0 + y1) <= 1;
            match h {
                CropHandle::TopLeftCorner => p.x == x0 && p.y == y0,
                CropHandle::TopEdge => mid_x && p.y == y0,
                CropHandle::TopRightCorner => p.x == x1 && p.y == y0,
                CropHandle::RightEdge => p.x == x1 && mid_y,
                CropHandle::BottomRightCorner => p.x == x1 && p.y == y1,
                CropHandle::BottomEdge => mid_x && p.y == y1,
                CropHandle::BottomLeftCorner => p.x == x0 && p.y == y1,
                CropHandle::LeftEdge => p.x == x0 && mid_y,
            }
        }),
{
}

/// The closest handle is as far away as is told, and no other is closer.
pub proof fn lemma_closest_handle(
    c: Crop,
    mouse: Vec2D,
    r: (CropHandle, i128),
    p: Vec2D,
    other: CropHandle,
    q: Vec2D,
)
    requires
        call_ensures(Crop::get_closest_handle, (&c, mouse), r),
        call_ensures(Crop::get_handle_pos, (c.pos, c.size, r.0), p),
        call_ensures(Crop::get_handle_pos, (c.pos, c.size, other), q),
    ensures
        r.1 == (p.x - mouse.x) * (p.x - mouse.x) + (p.y - mouse.y) * (p.y - mouse.y),
        r.1 <= (q.x - mouse.x) * (q.x - mouse.x) + (q.y - mouse.y) * (q.y - mouse.y),
{
    crate::laws::crop_session::lemma_nearest_handle_is_taken(c, r.0, mouse, r.1 as int, p, other, q);
    let at = choose|x: Vec2D| #[trigger]
        Crop::handle_at(c.pos, c.size, r.0, x) && r.1 == crate::math::dist2_spec(x, mouse);
    assert(at == p);
}

/// Away from the corners, the zone along an edge grabs that edge; further in
/// lies the body, and outside nothing.
pub proof fn lemma_hit_kind(c: Crop, p: Vec2D, scale: i64, hit: Option<CropHit>)
    requires
        scale == MICRO,
        c.size.x > 80 * UNIT,
        c.size.y > 80 * UNIT,
        call_ensures(Crop::hit_kind, (&c, p, scale), hit),
    ensures
        ({
            let (l, t) = (c.pos.x as int, c.pos.y as int);
            let (r, b) = (l + c.size.x, t + c.size.y);
            let tol = 20 * UNIT;
            let along_x = l + tol < p.x < r - tol;
            let along_y = t + tol < p.y < b - tol;
            &&& along_x && t - tol <= p.y <= t + tol ==> hit == Some(
                CropHit::Handle(CropHandle::TopEdge),
            )
            &&& along_x && b - tol <= p.y <= b + tol ==> hit == Some(
                CropHit::Handle(CropHandle::BottomEdge),
            )
            &&& along_y && l - tol <= p.x <= l + tol ==> hit == Some(
                CropHit::Handle(CropHandle::LeftEdge),
            )
            &&& along_y && r - tol <= p.x <= r + tol ==> hit == Some(
                CropHit::Handle(CropHandle::RightEdge),
            )
            &&& along_x && along_y ==> hit == Some(CropHit::Body)
            &&& (p.x < l - tol || p.x > r + tol || p.y < t - tol || p.y > b + tol) ==> hit is None
        }),
{
    crate::laws::crop::lemma_edges_and_body_are_told_apart(c, p);
}

/// The matte is half clear black by default and else opaque in its color.
pub proof fn lemma_paint_color(bg: CropBgColor, c: (i64, i64, i64, i64), r: i64, g: i64, b: i64)
    requires
        call_ensures(CropBgColor::paint_color, (bg,), c),
    ensures
        bg == CropBgColor::Auto ==> c == (0i64, 0i64, 0i64, 500_000i64),
        bg == CropBgColor::Transparent ==> c.3 == 0,
        bg == CropBgColor::White ==> c == (1_000_000i64, 1_000_000i64, 1_000_000i64, 1_000_000i64),
        bg == CropBgColor::Gray ==> c == (500_000i64, 500_000i64, 500_000i64, 1_000_000i64),
        bg == CropBgColor::Black ==> c == (0i64, 0i64, 0i64, 1_000_000i64),
        bg == CropBgColor::Custom(r, g, b) ==> c == (r, g, b, 1_000_000i64),
{
}

/// The places of colors and ratios in their menus are told apart.
pub proof fn lemma_menu_places(i: usize, a: AspectRatio, c: CropBgColor, j: usize, k: usize)
    requires
        i < 6,
        call_ensures(AspectRatio::from_index, (i,), a),
        call_ensures(AspectRatio::to_index, (a,), j),
        call_ensures(CropBgColor::from_index, (i,), c),
        call_ensures(CropBgColor::to_index, (c,), k),
    ensures
        j == i,
        k == i,
        i == 0 ==> a == AspectRatio::Freeform && c == CropBgColor::Auto,
        i == 1 ==> a == AspectRatio::Original && c == CropBgColor::Transparent,
        i == 2 ==> a == AspectRatio::Square && c == CropBgColor::White,
        i == 3 ==> a == AspectRatio::FiveFour && c == CropBgColor::Gray,
        i == 4 ==> a == AspectRatio::SevenFive && c == CropBgColor::Black,
        i == 5 ==> a == AspectRatio::FourThree && c is Custom,
{
}

} // verus!
