//! What shaping a crop comes to.
use vstd::prelude::*;
use crate::input::{
    KeyEventMsg, Modifiers, KEY_DOWN, KEY_DOWNARROW, KEY_LEFT, KEY_LEFTARROW, KEY_RIGHT,
    KEY_RIGHTARROW, KEY_UP, KEY_UPARROW,
};
use crate::math::Vec2D;
use crate::tools::crop::{
    bounds_ok, AspectRatio, Crop, CropHandle, CropHit, CropMessage, CropTool, CropToolAction,
    DragHandleState, MoveState,
};
use crate::units::{MICRO, UNIT};

verus! {

/// `v` is `n`, or the end of the range from 0 to `top` that `n` is past.
pub open spec fn rests_at(v: int, n: int, top: int) -> bool {
    &&& 0 <= n <= top ==> v == n
    &&& n < 0 ==> v == 0
    &&& n > top ==> v == top
}

/// Without snapping, a crop that is moved follows the pointer: it ends up as
/// far from where it started as the pointer does, and stops at the edges of
/// the image.
pub proof fn lemma_move_follows_pointer(
    tool: CropTool,
    state: MoveState,
    d: Vec2D,
    modifier: Modifiers,
    post: CropTool,
    redraw: bool,
)
    requires
        tool.crop is Some,
        tool.action == Some(CropToolAction::Move(state)),
        !tool.snap_to_edges || modifier.alt,
        tool.drag_step(d, modifier, post, redraw),
    ensures
        redraw,
        post.crop is Some,
        post.crop->0.size == tool.crop->0.size,
        tool.image_bounds is None ==> post.crop->0.pos.x == state.start.x + d.x
            && post.crop->0.pos.y == state.start.y + d.y,
        tool.image_bounds matches Some(b) ==> {
            let (s, p) = (tool.crop->0.size, post.crop->0.pos);
            &&& 0 <= s.x <= b.x ==> rests_at(p.x as int, state.start.x + d.x, b.x - s.x)
            &&& 0 <= s.y <= b.y ==> rests_at(p.y as int, state.start.y + d.y, b.y - s.y)
        },
{
}

/// With snapping, a crop that is moved to within eight pixels of an edge of
/// the image lies on that edge; further away it follows the pointer.
pub proof fn lemma_move_snaps(
    tool: CropTool,
    state: MoveState,
    d: Vec2D,
    modifier: Modifiers,
    post: CropTool,
    redraw: bool,
    b: Vec2D,
)
    requires
        tool.crop is Some,
        tool.image_bounds == Some(b),
        tool.action == Some(CropToolAction::Move(state)),
        tool.snap_to_edges,
        !modifier.alt,
        tool.drag_step(d, modifier, post, redraw),
        0 <= tool.crop->0.size.x <= b.x,
        0 <= tool.crop->0.size.y <= b.y,
    ensures
        ({
            let (s, p) = (tool.crop->0.size, post.crop->0.pos);
            let (x, y) = (state.start.x + d.x, state.start.y + d.y);
            let near = 8 * UNIT;
            &&& x <= near && (x != 0 || s.x < b.x - near) ==> p.x == 0
            &&& y <= near && (y != 0 || s.y < b.y - near) ==> p.y == 0
            &&& x > near && x + s.x >= b.x - near ==> p.x + s.x == b.x
            &&& y > near && y + s.y >= b.y - near ==> p.y + s.y == b.y
            &&& near < x && x + s.x < b.x - near ==> p.x == x
            &&& near < y && y + s.y < b.y - near ==> p.y == y
        }),
{
}

/// Without snapping or a ratio, the edges that a handle belongs to follow the
/// pointer up to the edges of the image, and the other edges stay.
pub proof fn lemma_handle_drag_moves_its_edges(
    tool: CropTool,
    state: DragHandleState,
    d: Vec2D,
    modifier: Modifiers,
    post: CropTool,
    redraw: bool,
    b: Vec2D,
)
    requires
        tool.crop is Some,
        tool.image_bounds == Some(b),
        bounds_ok(tool.image_bounds),
        tool.aspect_ratio == AspectRatio::Freeform,
        tool.action == Some(CropToolAction::DragHandle(state)),
        !tool.snap_to_edges || modifier.alt,
        tool.drag_step(d, modifier, post, redraw),
        0 <= state.top_left_start.x <= b.x,
        0 <= state.top_left_start.y <= b.y,
        0 <= state.bottom_right_start.x <= b.x,
        0 <= state.bottom_right_start.y <= b.y,
    ensures
        redraw,
        ({
            let (c, h) = (post.crop->0, state.handle);
            let (tl, br) = (state.top_left_start, state.bottom_right_start);
            let left = h == CropHandle::TopLeftCorner || h == CropHandle::LeftEdge || h
                == CropHandle::BottomLeftCorner;
            let right = h == CropHandle::TopRightCorner || h == CropHandle::RightEdge || h
                == CropHandle::BottomRightCorner;
            let top = h == CropHandle::TopLeftCorner || h == CropHandle::TopEdge || h
                == CropHandle::TopRightCorner;
            let bottom = h == CropHandle::BottomLeftCorner || h == CropHandle::BottomEdge || h
                == CropHandle::BottomRightCorner;
            &&& left ==> rests_at(c.pos.x as int, tl.x + d.x, b.x as int)
            &&& !left ==> c.pos.x == tl.x
            &&& top ==> rests_at(c.pos.y as int, tl.y + d.y, b.y as int)
            &&& !top ==> c.pos.y == tl.y
            &&& right ==> rests_at(c.pos.x + c.size.x, br.x + d.x, b.x as int)
            &&& !right ==> c.pos.x + c.size.x == br.x
            &&& bottom ==> rests_at(c.pos.y + c.size.y, br.y + d.y, b.y as int)
            &&& !bottom ==> c.pos.y + c.size.y == br.y
        }),
{
}

/// With snapping, an edge that is dragged to within eight pixels of an edge of
/// the image lies on it.
pub proof fn lemma_handle_drag_snaps(
    tool: CropTool,
    state: DragHandleState,
    d: Vec2D,
    modifier: Modifiers,
    post: CropTool,
    redraw: bool,
    b: Vec2D,
)
    requires
        tool.crop is Some,
        tool.image_bounds == Some(b),
        tool.aspect_ratio == AspectRatio::Freeform,
        tool.action == Some(CropToolAction::DragHandle(state)),
        tool.snap_to_edges,
        !modifier.alt,
        tool.drag_step(d, modifier, post, redraw),
        state.handle == CropHandle::TopLeftCorner || state.handle
            == CropHandle::BottomRightCorner,
        b.x > 16 * UNIT,
        b.y > 16 * UNIT,
    ensures
        ({
            let c = post.crop->0;
            let near = 8 * UNIT;
            let (px, py, x, y) = if state.handle == CropHandle::TopLeftCorner {
                (
                    c.pos.x as int,
                    c.pos.y as int,
                    state.top_left_start.x + d.x,
                    state.top_left_start.y + d.y,
                )
            } else {
                (
                    c.pos.x + c.size.x,
                    c.pos.y + c.size.y,
                    state.bottom_right_start.x + d.x,
                    state.bottom_right_start.y + d.y,
                )
            };
            &&& x <= near ==> px == 0
            &&& y <= near ==> py == 0
            &&& x >= b.x - near ==> px == b.x
            &&& y >= b.y - near ==> py == b.y
            &&& near < x < b.x - near ==> px == x
            &&& near < y < b.y - near ==> py == y
        }),
{
}

/// `w` by `h` has the ratio `rw : rh`, but for one side that is rounded.
pub open spec fn has_ratio(w: int, h: int, rw: int, rh: int) -> bool {
    ||| -rw <= 2 * (h * rw - w * rh) <= rw
    ||| -rh <= 2 * (w * rh - h * rw) <= rh
}

proof fn lemma_rounded(a: int, b: int, q: int)
    requires
        b > 0,
        q == crate::units::div_round_spec(a, b),
    ensures
        -b <= 2 * (q * b - a) <= b,
{
    crate::units::lemma_div_round_near(a, b);
}

/// With a ratio, the box of a dragged handle has that ratio, and the edge or
/// corner across from the handle stays where it was.
pub proof fn lemma_ratio_drag_keeps_ratio(
    tool: CropTool,
    state: DragHandleState,
    d: Vec2D,
    modifier: Modifiers,
    post: CropTool,
    redraw: bool,
    rw: int,
    rh: int,
)
    requires
        tool.crop is Some,
        tool.image_bounds is None,
        tool.aspect_spec() == Some((rw, rh)),
        rw > 0,
        rh > 0,
        tool.action == Some(CropToolAction::DragHandle(state)),
        tool.drag_step(d, modifier, post, redraw),
    ensures
        ({
            let (c, h) = (post.crop->0, state.handle);
            let (tl, br) = (state.top_left_start, state.bottom_right_start);
            &&& c.size.x >= 0 && c.size.y >= 0
            &&& has_ratio(c.size.x as int, c.size.y as int, rw, rh)
            &&& h == CropHandle::TopLeftCorner ==> c.pos.x + c.size.x == br.x && c.pos.y
                + c.size.y == br.y
            &&& h == CropHandle::TopRightCorner ==> c.pos.x == tl.x && c.pos.y + c.size.y == br.y
            &&& h == CropHandle::BottomLeftCorner ==> c.pos.x + c.size.x == br.x && c.pos.y == tl.y
            &&& h == CropHandle::BottomRightCorner ==> c.pos.x == tl.x && c.pos.y == tl.y
            &&& h == CropHandle::LeftEdge ==> c.pos.x + c.size.x == br.x
            &&& h == CropHandle::RightEdge ==> c.pos.x == tl.x
            &&& h == CropHandle::TopEdge ==> c.pos.y + c.size.y == br.y
            &&& h == CropHandle::BottomEdge ==> c.pos.y == tl.y
            &&& (h == CropHandle::BottomRightCorner && br.x + d.x >= tl.x && br.y + d.y >= tl.y)
                ==> c.size.x >= br.x + d.x - tl.x && c.size.y >= br.y + d.y - tl.y && (c.size.x
                == br.x + d.x - tl.x || c.size.y == br.y + d.y - tl.y)
            &&& (h == CropHandle::RightEdge && br.x + d.x >= tl.x) ==> c.size.x == br.x + d.x
                - tl.x
            &&& (h == CropHandle::BottomEdge && br.y + d.y >= tl.y) ==> c.size.y == br.y + d.y
                - tl.y
        }),
{
    let s = state.start_edges();
    let e = crate::tools::crop::dragged_edges(
        state.handle,
        s,
        d.x as int,
        d.y as int,
        tool.snap_active_spec(modifier),
        None,
    );
    let w = crate::units::abs_spec(e.r - e.l);
    let h = crate::units::abs_spec(e.b - e.t);
    lemma_rounded(w * rh, rw, crate::units::div_round_spec(w * rh, rw));
    lemma_rounded(h * rw, rh, crate::units::div_round_spec(h * rw, rh));
    let fh = crate::units::div_round_spec(w * rh, rw);
    let fw = crate::units::div_round_spec(h * rw, rh);
    assert(fh >= 0 && (w * rh >= h * rw ==> fh >= h)) by (nonlinear_arith)
        requires
            rw > 0,
            rh > 0,
            w >= 0,
            h >= 0,
            -rw <= 2 * (fh * rw - w * rh) <= rw,
    ;
    assert(fw >= 0 && (h * rw >= w * rh ==> fw >= w)) by (nonlinear_arith)
        requires
            rw > 0,
            rh > 0,
            w >= 0,
            h >= 0,
            -rh <= 2 * (fw * rh - h * rw) <= rh,
    ;
}

/// A crop that is opened without snapping or a ratio spans the way of the
/// pointer, from where it was pressed up to the edges of the image.
pub proof fn lemma_opened_crop_spans_drag(
    tool: CropTool,
    d: Vec2D,
    modifier: Modifiers,
    post: CropTool,
    redraw: bool,
)
    requires
        tool.crop is Some,
        bounds_ok(tool.image_bounds),
        tool.aspect_ratio == AspectRatio::Freeform,
        tool.action == Some(CropToolAction::NewCrop),
        !tool.snap_to_edges || modifier.alt,
        tool.drag_step(d, modifier, post, redraw),
    ensures
        redraw,
        post.crop->0.pos == tool.crop->0.pos,
        tool.image_bounds is None ==> post.crop->0.size == d,
        tool.image_bounds matches Some(b) ==> {
            let c = post.crop->0;
            &&& rests_at(c.pos.x + c.size.x, c.pos.x + d.x, b.x as int)
            &&& rests_at(c.pos.y + c.size.y, c.pos.y + d.y, b.y as int)
        },
{
}

/// A press begins what lies under it: a new crop where there is none, a move
/// on the inside, nothing far outside; it never moves the crop by itself.
pub proof fn lemma_press_begins(tool: CropTool, p: Vec2D, post: CropTool, redraw: bool)
    requires
        tool.image_bounds matches Some(b) ==> 0 <= p.x <= b.x && 0 <= p.y <= b.y,
        tool.begin_step(p, post, redraw),
    ensures
        tool.crop is None ==> {
            &&& redraw
            &&& post.action == Some(CropToolAction::NewCrop)
            &&& post.crop->0.pos == p
            &&& post.crop->0.size == (Vec2D { x: 0, y: 0 })
        },
        tool.crop matches Some(c) ==> {
            &&& post.crop->0.pos == c.pos
            &&& post.crop->0.size == c.size
            &&& (c.size.x >= UNIT && c.size.y >= UNIT && c.pos.x < p.x < c.pos.x + c.size.x
                && c.pos.y < p.y < c.pos.y + c.size.y && tool.handle_under(p) is None)
                ==> post.action == Some(CropToolAction::Move(MoveState { start: c.pos }))
            &&& (c.size.x >= 0 && p.x > c.pos.x + c.size.x + 40 * UNIT && tool.handle_under(p)
                is None) ==> !redraw && post == tool
        },
{
}

/// A press on a corner of a crop grabs that corner, from any place nearer
/// than twenty screen pixels.
#[verifier::rlimit(40)]
pub proof fn lemma_corner_is_grabbed(tool: CropTool, c: Crop, p: Vec2D, x: int, y: int)
    requires
        tool.crop == Some(c),
        c.size.x >= UNIT,
        c.size.y >= UNIT,
        tool.render_scale == MICRO,
        x == c.pos.x || x == c.pos.x + c.size.x,
        y == c.pos.y || y == c.pos.y + c.size.y,
        c.size.x > 40 * UNIT,
        c.size.y > 40 * UNIT,
        (x - p.x) * (x - p.x) + (y - p.y) * (y - p.y) <= (20 * UNIT) * (20 * UNIT),
    ensures
        tool.handle_under(p) == Some(
            if x == c.pos.x && y == c.pos.y {
                CropHandle::TopLeftCorner
            } else if x == c.pos.x {
                CropHandle::BottomLeftCorner
            } else if y == c.pos.y {
                CropHandle::TopRightCorner
            } else {
                CropHandle::BottomRightCorner
            },
        ),
{
    let tol = 20 * UNIT;
    assert(Crop::tolerance_spec(tool.render_scale as int) == tol) by {
        crate::units::lemma_div_round_near(tol * MICRO, MICRO as int);
    }
    lemma_within(x - p.x, y - p.y, tol);
    lemma_within(y - p.y, x - p.x, tol);
    let x2 = if x == c.pos.x {
        c.pos.x + c.size.x
    } else {
        c.pos.x as int
    };
    let y2 = if y == c.pos.y {
        c.pos.y + c.size.y
    } else {
        c.pos.y as int
    };
    lemma_beyond(x2 - p.x, y - p.y, tol);
    lemma_beyond(x2 - p.x, y2 - p.y, tol);
    lemma_beyond(y2 - p.y, x - p.x, tol);
    assert(c.corner_near(p, tol) is Some);
    assert(tool.handle_under(p) == c.corner_near(p, tol));
}

proof fn lemma_within(a: int, b: int, t: int)
    requires
        t >= 0,
        a * a + b * b <= t * t,
    ensures
        -t <= a <= t,
{
    assert(-t <= a <= t) by (nonlinear_arith)
        requires
            t >= 0,
            a * a + b * b <= t * t,
    ;
}

proof fn lemma_beyond(a: int, b: int, t: int)
    requires
        t >= 0,
        a > t || a < -t,
    ensures
        a * a + b * b > t * t,
{
    assert(a * a + b * b > t * t) by (nonlinear_arith)
        requires
            t >= 0,
            a > t || a < -t,
    ;
}

/// The middle of a span stays where it was, to the sub-unit.
pub open spec fn same_middle(p: int, s: int, p2: int, s2: int) -> bool {
    -2 <= (2 * p + s) - (2 * p2 + s2) <= 2
}

/// A symmetric resize adds what was asked for, within a pixel and the image,
/// and leaves the middle of the crop where it was unless an edge of the image
/// is in the way.
pub proof fn lemma_grow_adds_on_both_sides(tool: CropTool, dw: int, dh: int, c: Crop, b: Vec2D)
    requires
        tool.crop is Some,
        tool.image_bounds == Some(b),
        tool.is_grown(dw, dh, c),
    ensures
        ({
            let c0 = tool.crop->0;
            let (w, h) = (c0.size.x + dw, c0.size.y + dh);
            &&& UNIT <= w <= b.x ==> c.size.x == w
            &&& UNIT <= h <= b.y ==> c.size.y == h
            &&& dw != 0 && b.x >= UNIT && w < UNIT ==> c.size.x == UNIT
            &&& dh != 0 && b.y >= UNIT && h < UNIT ==> c.size.y == UNIT
            &&& dw != 0 && b.x >= UNIT && w > b.x ==> c.size.x == b.x
            &&& dh != 0 && b.y >= UNIT && h > b.y ==> c.size.y == b.y
            &&& (UNIT <= w <= b.x && 2 * c0.pos.x >= dw && 2 * (c0.pos.x + c0.size.x) + dw <= 2
                * b.x - 2) ==> same_middle(
                c0.pos.x as int,
                c0.size.x as int,
                c.pos.x as int,
                c.size.x as int,
            )
            &&& (UNIT <= h <= b.y && 2 * c0.pos.y >= dh && 2 * (c0.pos.y + c0.size.y) + dh <= 2
                * b.y - 2) ==> same_middle(
                c0.pos.y as int,
                c0.size.y as int,
                c.pos.y as int,
                c.size.y as int,
            )
        }),
{
}

/// A factor multiplies both sides of a crop that has room for it.
pub proof fn lemma_scaling_multiplies(
    tool: CropTool,
    factor: i64,
    r: bool,
    post: CropTool,
    before: Seq<CropMessage>,
    after: Seq<CropMessage>,
    b: Vec2D,
)
    requires
        tool.crop is Some,
        tool.image_bounds == Some(b),
        factor > 0,
        tool.scale_step(factor, r, post, before, after),
    ensures
        ({
            let (s, s2) = (tool.crop->0.size, post.crop->0.size);
            &&& (UNIT * MICRO <= s.x * factor <= (b.x - 1) * MICRO) ==> -MICRO <= 2 * (s2.x * MICRO
                - s.x * factor) <= MICRO
            &&& (UNIT * MICRO <= s.y * factor <= (b.y - 1) * MICRO) ==> -MICRO <= 2 * (s2.y * MICRO
                - s.y * factor) <= MICRO
        }),
{
    let s = tool.crop->0.size;
    crate::units::lemma_div_round_near(s.x * factor, MICRO as int);
    crate::units::lemma_div_round_near(s.y * factor, MICRO as int);
}

/// `v` is `n`, or the end of the range from `lo` to `hi` that `n` is past.
pub open spec fn stops_at(v: int, n: int, lo: int, hi: int) -> bool {
    &&& lo <= n <= hi ==> v == n
    &&& n < lo ==> v == lo
    &&& n > hi ==> v == hi
}

/// An arrow key on its own moves one edge of a crop in its direction: the
/// right or bottom one, with Shift the left or top one. The step is thirty
/// pixels, with Control one. The edge stays inside the image and a pixel away
/// from the one across; the other three do not move.
pub proof fn lemma_arrow_key_moves_one_edge(
    tool: CropTool,
    event: KeyEventMsg,
    post: CropTool,
    changed: bool,
    b: Vec2D,
)
    requires
        tool.crop is Some,
        tool.image_bounds == Some(b),
        tool.aspect_ratio == AspectRatio::Freeform,
        tool.held_arrows == 0,
        CropTool::is_arrow_event(event),
        tool.holding(event).arrow_step(
            tool.holding(event).held_arrows,
            CropTool::arrow_step_length(event),
            event.modifier.shift,
            post,
            changed,
        ),
        0 <= tool.crop->0.pos.x,
        0 <= tool.crop->0.pos.y,
        tool.crop->0.size.x >= UNIT,
        tool.crop->0.size.y >= UNIT,
        tool.crop->0.pos.x + tool.crop->0.size.x <= b.x,
        tool.crop->0.pos.y + tool.crop->0.size.y <= b.y,
    ensures
        ({
            let (c0, c) = (tool.crop->0, post.crop->0);
            let k = event.key.0;
            let step: int = if event.modifier.control {
                UNIT as int
            } else {
                30 * UNIT
            };
            let dx: int = if k == KEY_RIGHT || k == KEY_RIGHTARROW {
                step
            } else if k == KEY_LEFT || k == KEY_LEFTARROW {
                -step
            } else {
                0
            };
            let dy: int = if k == KEY_DOWN || k == KEY_DOWNARROW {
                step
            } else if k == KEY_UP || k == KEY_UPARROW {
                -step
            } else {
                0
            };
            let (l, t) = (c0.pos.x as int, c0.pos.y as int);
            let (r, bt) = (l + c0.size.x, t + c0.size.y);
            &&& dx != 0 || dy != 0
            &&& if event.modifier.shift {
                &&& stops_at(c.pos.x as int, l + dx, 0, r - UNIT)
                &&& stops_at(c.pos.y as int, t + dy, 0, bt - UNIT)
                &&& c.pos.x + c.size.x == r
                &&& c.pos.y + c.size.y == bt
            } else {
                &&& c.pos == c0.pos
                &&& stops_at(c.pos.x + c.size.x, r + dx, l + UNIT, b.x as int)
                &&& stops_at(c.pos.y + c.size.y, bt + dy, t + UNIT, b.y as int)
            }
        }),
{
    assert(0u8 | 1u8 == 1u8 && 0u8 | 2u8 == 2u8 && 0u8 | 4u8 == 4u8 && 0u8 | 8u8 == 8u8)
        by (bit_vector);
    assert(1u8 & 1u8 == 1 && 1u8 & 2u8 == 0 && 1u8 & 4u8 == 0 && 1u8 & 8u8 == 0) by (bit_vector);
    assert(2u8 & 1u8 == 0 && 2u8 & 2u8 == 2 && 2u8 & 4u8 == 0 && 2u8 & 8u8 == 0) by (bit_vector);
    assert(4u8 & 1u8 == 0 && 4u8 & 2u8 == 0 && 4u8 & 4u8 == 4 && 4u8 & 8u8 == 0) by (bit_vector);
    assert(8u8 & 1u8 == 0 && 8u8 & 2u8 == 0 && 8u8 & 4u8 == 0 && 8u8 & 8u8 == 8) by (bit_vector);
}

/// With a ratio, the arrow keys keep the corner across from the one that they
/// drive, and the crop inside the image.
pub proof fn lemma_arrow_keys_keep_the_far_corner(
    c0: Crop,
    dx: int,
    dy: int,
    shift: bool,
    rw: int,
    rh: int,
    b: Vec2D,
    c: Crop,
)
    requires
        rw > 0,
        rh > 0,
        c0.is_arrow_resized(dx, dy, shift, Some((rw, rh)), b, c),
    ensures
        !shift ==> c.pos == c0.pos,
        shift ==> c.pos.x + c.size.x == c0.pos.x + c0.size.x && c.pos.y + c.size.y == c0.pos.y
            + c0.size.y,
        c.size.x >= UNIT,
        c.size.y >= UNIT,
        !shift && c0.pos.x + UNIT <= b.x && c0.pos.y + UNIT <= b.y ==> c.pos.x + c.size.x <= b.x
            && c.pos.y + c.size.y <= b.y,
        shift && c0.pos.x + c0.size.x >= UNIT && c0.pos.y + c0.size.y >= UNIT ==> c.pos.x >= 0
            && c.pos.y >= 0,
        ({
            let lead = if shift {
                c0.size.x - dx
            } else {
                c0.size.x + dx
            };
            let (room_x, room_y) = if shift {
                (c0.pos.x + c0.size.x, c0.pos.y + c0.size.y)
            } else {
                (b.x - c0.pos.x, b.y - c0.pos.y)
            };
            dy == 0 && UNIT <= lead <= room_x && UNIT * rw <= lead * rh && lead * rh + rw <= room_y
                * rw ==> c.size.x == lead && has_ratio(lead, c.size.y as int, rw, rh)
        }),
        ({
            let lead = if shift {
                c0.size.y - dy
            } else {
                c0.size.y + dy
            };
            let (room_x, room_y) = if shift {
                (c0.pos.x + c0.size.x, c0.pos.y + c0.size.y)
            } else {
                (b.x - c0.pos.x, b.y - c0.pos.y)
            };
            dx == 0 && dy != 0 && UNIT <= lead <= room_y && UNIT * rh <= lead * rw && lead * rw + rh
                <= room_x * rh ==> c.size.y == lead && has_ratio(c.size.x as int, lead, rw, rh)
        }),
{
    let (sx, sy) = if shift {
        (-dx, -dy)
    } else {
        (dx, dy)
    };
    let (room_x, room_y) = if shift {
        (c0.pos.x + c0.size.x, c0.pos.y + c0.size.y)
    } else {
        (b.x - c0.pos.x, b.y - c0.pos.y)
    };
    let (lead_x, lead_y) = (c0.size.x + sx, c0.size.y + sy);
    if dy == 0 && UNIT <= lead_x <= room_x && UNIT * rw <= lead_x * rh && lead_x * rh + rw <= room_y
        * rw {
        lemma_ratio_fits(lead_x, room_x, room_y, rw, rh);
    }
    if dx == 0 && dy != 0 && UNIT <= lead_y <= room_y && UNIT * rh <= lead_y * rw && lead_y * rw
        + rh <= room_x * rh {
        lemma_ratio_fits(lead_y, room_y, room_x, rh, rw);
    }
}

/// A side whose partner at the ratio `rw` to `rh` fits is cut by neither limit.
proof fn lemma_ratio_fits(lead: int, room_x: int, room_y: int, rw: int, rh: int)
    requires
        rw > 0,
        rh > 0,
        UNIT <= lead <= room_x,
        UNIT * rw <= lead * rh,
        lead * rh + rw <= room_y * rw,
    ensures
        UNIT <= crate::units::div_round_spec(lead * rh, rw) <= room_y,
        -rw <= 2 * (crate::units::div_round_spec(lead * rh, rw) * rw - lead * rh) <= rw,
        lead <= crate::units::div_round_spec(room_y * rw, rh),
        crate::units::div_round_spec(lead * rh, rw) <= crate::units::div_round_spec(
            room_x * rh,
            rw,
        ),
{
    let q = crate::units::div_round_spec(lead * rh, rw);
    let far = crate::units::div_round_spec(room_y * rw, rh);
    crate::units::lemma_div_round_near(lead * rh, rw);
    crate::units::lemma_div_round_near(room_y * rw, rh);
    assert(UNIT <= q <= room_y) by (nonlinear_arith)
        requires
            rw > 0,
            UNIT * rw <= lead * rh,
            lead * rh + rw <= room_y * rw,
            -rw <= 2 * (q * rw - lead * rh) <= rw,
    ;
    assert(lead <= far) by (nonlinear_arith)
        requires
            rw > 0,
            rh > 0,
            lead * rh + rw <= room_y * rw,
            -rh <= 2 * (far * rh - room_y * rw) <= rh,
    ;
    assert(lead * rh <= room_x * rh) by (nonlinear_arith)
        requires
            lead <= room_x,
            rh > 0,
    ;
    vstd::arithmetic::div_mod::lemma_div_is_ordered(
        2 * (lead * rh) + rw,
        2 * (room_x * rh) + rw,
        2 * rw,
    );
}

/// A preset is half as wide and half as high as the image: the first four lie
/// in its corners, the fifth in its middle.
pub proof fn lemma_presets_are_quarters(
    tool: CropTool,
    preset: u32,
    r: bool,
    post: CropTool,
    before: Seq<CropMessage>,
    after: Seq<CropMessage>,
    b: Vec2D,
)
    requires
        tool.crop is Some,
        tool.image_bounds == Some(b),
        b.x >= 0,
        b.y >= 0,
        1 <= preset <= 5,
        tool.preset_step(preset, r, post, before, after),
    ensures
        r,
        ({
            let (p, s) = (post.crop->0.pos, post.crop->0.size);
            &&& b.x - 1 <= 2 * s.x <= b.x
            &&& b.y - 1 <= 2 * s.y <= b.y
            &&& preset == 1 ==> p.x == 0 && p.y == 0
            &&& preset == 2 ==> b.x - 1 <= p.x + s.x <= b.x && p.y == 0
            &&& preset == 3 ==> p.x == 0 && b.y - 1 <= p.y + s.y <= b.y
            &&& preset == 4 ==> b.x - 1 <= p.x + s.x <= b.x && b.y - 1 <= p.y + s.y <= b.y
            &&& preset == 5 ==> -2 <= b.x - s.x - 2 * p.x <= 2 && -2 <= b.y - s.y - 2 * p.y <= 2
        }),
{
}

/// Another ratio gives the largest box of that ratio inside the crop, around
/// the same middle.
pub proof fn lemma_ratio_is_inscribed(c0: Crop, rw: int, rh: int, c: Crop)
    requires
        rw > 0,
        rh > 0,
        c0.size.x > 0,
        c0.size.y > 0,
        CropTool::is_inscribed(c0, rw, rh, c),
    ensures
        has_ratio(c.size.x as int, c.size.y as int, rw, rh),
        c.size.x <= c0.size.x,
        c.size.y <= c0.size.y,
        c.size.x == c0.size.x || c.size.y == c0.size.y,
        same_middle(c0.pos.x as int, c0.size.x as int, c.pos.x as int, c.size.x as int),
        same_middle(c0.pos.y as int, c0.size.y as int, c.pos.y as int, c.size.y as int),
{
    let (w, h) = (c0.size.x as int, c0.size.y as int);
    let (fw, fh) = (
        crate::units::div_round_spec(h * rw, rh),
        crate::units::div_round_spec(w * rh, rw),
    );
    crate::units::lemma_div_round_near(h * rw, rh);
    crate::units::lemma_div_round_near(w * rh, rw);
    assert(w * rh > h * rw ==> fw <= w) by (nonlinear_arith)
        requires
            rh > 0,
            -rh <= 2 * (fw * rh - h * rw) <= rh,
    ;
    assert(w * rh <= h * rw ==> fh <= h) by (nonlinear_arith)
        requires
            rw > 0,
            -rw <= 2 * (fh * rw - w * rh) <= rw,
    ;
}

/// The named ratios are what their names say.
pub proof fn lemma_named_ratios(r: AspectRatio, b: Vec2D)
    requires
        b.x > 0,
        b.y > 0,
    ensures
        r.ratio_spec(Some(b)) is None <==> r == AspectRatio::Freeform,
        r.ratio_spec(Some(b)) matches Some((w, h)) ==> {
            &&& w > 0 && h > 0
            &&& r == AspectRatio::Original ==> w * b.y == h * b.x
            &&& r == AspectRatio::Square ==> w == h
            &&& r == AspectRatio::FiveFour ==> 4 * w == 5 * h
            &&& r == AspectRatio::SevenFive ==> 5 * w == 7 * h
            &&& r == AspectRatio::FourThree ==> 3 * w == 4 * h
            &&& r == AspectRatio::ThreeTwo ==> 2 * w == 3 * h
            &&& r == AspectRatio::SixteenNine ==> 9 * w == 16 * h
        },
{
    assert(b.x * b.y == b.y * b.x) by (nonlinear_arith);
}

/// A typed size is taken as it is, around the middle of the crop or, without
/// one, of the image.
pub proof fn lemma_typed_size_is_taken(
    tool: CropTool,
    width: i64,
    height: i64,
    post: CropTool,
    before: Seq<CropMessage>,
    after: Seq<CropMessage>,
    b: Vec2D,
)
    requires
        tool.image_bounds == Some(b),
        width > 0,
        height > 0,
        tool.dimensions_step(width, height, post, before, after),
    ensures
        ({
            let c = post.crop->0;
            &&& post.crop is Some
            &&& c.size.x == width && c.size.y == height
            &&& tool.crop is None ==> same_middle(0, b.x as int, c.pos.x as int, width as int)
                && same_middle(0, b.y as int, c.pos.y as int, height as int)
            &&& tool.crop matches Some(c0) ==> same_middle(
                c0.pos.x as int,
                c0.size.x as int,
                c.pos.x as int,
                width as int,
            ) && same_middle(c0.pos.y as int, c0.size.y as int, c.pos.y as int, height as int)
        }),
{
}

/// What is applied is the part of the crop inside the image, and its size is
/// what is reported.
pub proof fn lemma_commit_cuts_to_image(tool: CropTool, post: CropTool, redraw: bool, b: Vec2D)
    requires
        tool.crop is Some,
        tool.crop->0.active,
        tool.image_bounds == Some(b),
        bounds_ok(tool.image_bounds),
        tool.crop->0.size.x >= 0,
        tool.crop->0.size.y >= 0,
        tool.commit_step(post, redraw),
    ensures
        redraw,
        post.action is None,
        ({
            let (c0, c) = (tool.crop->0, post.crop->0);
            &&& c.committed && !c.active
            &&& rests_at(c.pos.x as int, c0.pos.x as int, b.x as int)
            &&& rests_at(c.pos.y as int, c0.pos.y as int, b.y as int)
            &&& rests_at(c.pos.x + c.size.x, c0.pos.x + c0.size.x, b.x as int)
            &&& rests_at(c.pos.y + c.size.y, c0.pos.y + c0.size.y, b.y as int)
            &&& post.committed_rect_spec() == if c.size.x > 0 && c.size.y > 0 {
                Some((c.pos, c.size))
            } else {
                None
            }
            &&& tool.connected ==> tool.commit_msgs(post)[0] == (CropMessage::ContentSizeChanged {
                width: c.size.x,
                height: c.size.y,
            })
        }),
{
}

/// Entering the tool opens the crop that is there, as it is, or else one of
/// the whole image; leaving it without applying keeps a first draft.
pub proof fn lemma_entering_opens_the_crop(tool: CropTool, b: Vec2D)
    requires
        tool.image_bounds == Some(b),
    ensures
        tool.activated_crop() is Some,
        ({
            let c = tool.activated_crop()->0;
            &&& c.active && !c.committed
            &&& tool.crop is None ==> c.pos.x == 0 && c.pos.y == 0 && c.size == b
            &&& tool.crop matches Some(c0) ==> c.pos == c0.pos && c.size == c0.size
                && c.last_committed == c0.last_committed && c.ever_committed == c0.ever_committed
        }),
{
}

/// Cancelling drops a crop that was never applied and nothing else.
pub proof fn lemma_cancel_drops_first_draft(tool: CropTool)
    ensures
        tool.cancelled().action is None,
        tool.crop matches Some(c) && !c.ever_committed ==> tool.cancelled().crop is None,
        tool.crop matches Some(c) && c.ever_committed ==> tool.cancelled().crop == tool.crop,
        tool.connected ==> tool.cancel_msgs().last() == CropMessage::ExitCropToPreviousTool,
{
}

/// The handles lie on the corners and in the middle of the edges.
pub proof fn lemma_handles_lie_on_the_rectangle(pos: Vec2D, size: Vec2D, h: CropHandle, p: Vec2D)
    requires
        Crop::handle_at(pos, size, h, p),
    ensures
        ({
            let (x0, y0) = (pos.x as int, pos.y as int);
            let (x1, y1) = (pos.x + size.x, pos.y + size.y);
            let mid_x = -1 <= 2 * p.x - (x0 + x1) <= 1;
            let mid_y = -1 <= 2 * p.y - (y0 + y1) <= 1;
            match h {
                CropHandle::TopLeftCorner => p.x == x0 && p.y == y0,
                CropHandle::TopEdge => mid_x && p.y == y0,
                CropHandle::TopRightCorner => p.x == x1 && p.y == y0,
                CropHandle::RightEdge => p.x == x1 && mid_y,
                CropHandle::BottomRightCorner => p.x == x1 && p.y == y1,
                CropHandle::BottomEdge => mid_x && p.y == y1,
                CropHandle::BottomLeftCorner => p.x == x0 && p.y == y1,
                CropHandle::LeftEdge => p.x == x0 && mid_y,
            }
        }),
{
}

/// Away from the corners, the zone along an edge grabs that edge; further in
/// lies the body, and outside nothing.
pub proof fn lemma_edges_and_body_are_told_apart(c: Crop, p: Vec2D)
    requires
        c.size.x > 80 * UNIT,
        c.size.y > 80 * UNIT,
    ensures
        ({
            let (l, t) = (c.pos.x as int, c.pos.y as int);
            let (r, b) = (l + c.size.x, t + c.size.y);
            let tol = 20 * UNIT;
            let hit = c.hit_kind_spec(p, MICRO as int);
            let along_x = l + tol < p.x < r - tol;
            let along_y = t + tol < p.y < b - tol;
            &&& along_x && t - tol <= p.y <= t + tol ==> hit == Some(
                CropHit::Handle(CropHandle::TopEdge),
            )
            &&& along_x && b - tol <= p.y <= b + tol ==> hit == Some(
                CropHit::Handle(CropHandle::BottomEdge),
            )
            &&& along_y && l - tol <= p.x <= l + tol ==> hit == Some(
                CropHit::Handle(CropHandle::LeftEdge),
            )
            &&& along_y && r - tol <= p.x <= r + tol ==> hit == Some(
                CropHit::Handle(CropHandle::RightEdge),
            )
            &&& along_x && along_y ==> hit == Some(CropHit::Body)
            &&& (p.x < l - tol || p.x > r + tol || p.y < t - tol || p.y > b + tol) ==> hit is None
        }),
{
    let tol = 20 * UNIT;
    assert(Crop::tolerance_spec(MICRO as int) == tol) by {
        crate::units::lemma_div_round_near(tol * MICRO, MICRO as int);
    }
    let (l, t) = (c.pos.x as int, c.pos.y as int);
    let (r, b) = (l + c.size.x, t + c.size.y);
    let along_x = l + tol < p.x < r - tol;
    let along_y = t + tol < p.y < b - tol;
    let off = p.x < l - tol || p.x > r + tol || p.y < t - tol || p.y > b + tol;
    if along_x || along_y || off {
        lemma_no_corner(l - p.x, t - p.y, tol);
        lemma_no_corner(r - p.x, t - p.y, tol);
        lemma_no_corner(l - p.x, b - p.y, tol);
        lemma_no_corner(r - p.x, b - p.y, tol);
    }
}

proof fn lemma_no_corner(a: int, b: int, t: int)
    requires
        t >= 0,
    ensures
        a > t || a < -t || b > t || b < -t ==> a * a + b * b > t * t,
{
    if a > t || a < -t {
        lemma_beyond(a, b, t);
    } else if b > t || b < -t {
        lemma_beyond(b, a, t);
    }
}

} // verus!
