//! What dragging handles and turning the canvas come to.
use vstd::prelude::*;
use crate::math::{Rect, Vec2D};
use crate::tools::{
    bbox_handle_at, is_aspect_locked, is_resized, opposite_side, CanvasTransform, HandleId,
};

verus! {

/// `r` has two opposite corners at `(x1, y1)` and `(x2, y2)`.
pub open spec fn lies_between(r: Rect, x1: int, y1: int, x2: int, y2: int) -> bool {
    let (left, right) = (r.pos.x as int, r.pos.x + r.size.x);
    let (top, bottom) = (r.pos.y as int, r.pos.y + r.size.y);
    &&& left <= right && top <= bottom
    &&& (left == x1 && right == x2) || (left == x2 && right == x1)
    &&& (top == y1 && bottom == y2) || (top == y2 && bottom == y1)
}

/// The handles of a box lie on its corners and in the middle of its sides.
pub proof fn lemma_handles_lie_on_the_box(rect: Rect, id: HandleId, p: Vec2D)
    requires
        id.is_box_handle(),
        bbox_handle_at(rect, id, p),
    ensures
        ({
            let (x0, y0) = (rect.pos.x as int, rect.pos.y as int);
            let (x1, y1) = (x0 + rect.size.x, y0 + rect.size.y);
            let mid_x = x0 + x1 - 1 <= 2 * p.x <= x0 + x1;
            let mid_y = y0 + y1 - 1 <= 2 * p.y <= y0 + y1;
            match id {
                HandleId::TopLeft => p.x == x0 && p.y == y0,
                HandleId::TopRight => p.x == x1 && p.y == y0,
                HandleId::BottomLeft => p.x == x0 && p.y == y1,
                HandleId::BottomRight => p.x == x1 && p.y == y1,
                HandleId::Top => mid_x && p.y == y0,
                HandleId::Bottom => mid_x && p.y == y1,
                HandleId::Left => p.x == x0 && mid_y,
                HandleId::Right => p.x == x1 && mid_y,
                _ => false,
            }
        }),
{
}

/// A dragged corner meets the pointer while the corner across stays; a dragged
/// side meets the pointer while the other three stay.
pub proof fn lemma_dragged_handle_meets_pointer(rect: Rect, id: HandleId, to: Vec2D, r: Rect)
    requires
        id.is_box_handle(),
        is_resized(rect, id, to, r),
    ensures
        ({
            let (x0, y0) = (rect.pos.x as int, rect.pos.y as int);
            let (x1, y1) = (x0 + rect.size.x, y0 + rect.size.y);
            let (tx, ty) = (to.x as int, to.y as int);
            match id {
                HandleId::TopLeft => lies_between(r, tx, ty, x1, y1),
                HandleId::TopRight => lies_between(r, x0, ty, tx, y1),
                HandleId::BottomLeft => lies_between(r, tx, y0, x1, ty),
                HandleId::BottomRight => lies_between(r, x0, y0, tx, ty),
                HandleId::Top => lies_between(r, x0, ty, x1, y1),
                HandleId::Bottom => lies_between(r, x0, y0, x1, ty),
                HandleId::Left => lies_between(r, tx, y0, x1, y1),
                HandleId::Right => lies_between(r, x0, y0, tx, y1),
                _ => false,
            }
        }),
{
}

/// The distance from `a` to `b`.
pub open spec fn apart(a: int, b: int) -> int {
    if a >= b {
        a - b
    } else {
        b - a
    }
}

/// The corner across from the corner `id` of a box.
pub open spec fn corner_across(rect: Rect, id: HandleId) -> (int, int) {
    let (x0, y0) = (rect.pos.x as int, rect.pos.y as int);
    let (x1, y1) = (x0 + rect.size.x, y0 + rect.size.y);
    match id {
        HandleId::TopLeft => (x1, y1),
        HandleId::TopRight => (x0, y1),
        HandleId::BottomLeft => (x1, y0),
        _ => (x0, y0),
    }
}

/// With a locked ratio, one side of the box reaches to the pointer and the
/// other has the length that the ratio asks for; the corner across stays, and
/// the box opens toward the pointer.
pub proof fn lemma_locked_corner_keeps_ratio(
    orig: Rect,
    id: HandleId,
    to: Vec2D,
    locked: Vec2D,
    r: Rect,
)
    requires
        orig.size.x > 0,
        orig.size.y > 0,
        id == HandleId::TopLeft || id == HandleId::TopRight || id == HandleId::BottomLeft || id
            == HandleId::BottomRight,
        is_aspect_locked(orig, id, to, locked),
        is_resized(orig, id, locked, r),
    ensures
        ({
            let (ax, ay) = corner_across(orig, id);
            let (w, h) = (r.size.x as int, r.size.y as int);
            let (ow, oh) = (orig.size.x as int, orig.size.y as int);
            let (px, py) = (apart(to.x as int, ax), apart(to.y as int, ay));
            &&& lies_between(r, ax, ay, locked.x as int, locked.y as int)
            &&& to.x >= ax ==> locked.x >= ax
            &&& to.x < ax ==> locked.x <= ax
            &&& to.y >= ay ==> locked.y >= ay
            &&& to.y < ay ==> locked.y <= ay
            &&& px * oh >= py * ow ==> w == px && -ow <= 2 * (h * ow - w * oh) <= ow
            &&& px * oh < py * ow ==> h == py && -oh <= 2 * (w * oh - h * ow) <= oh
        }),
{
    let (ax, ay) = corner_across(orig, id);
    let (ow, oh) = (orig.size.x as int, orig.size.y as int);
    let (px, py) = (apart(to.x as int, ax), apart(to.y as int, ay));
    crate::units::lemma_div_round_near(px * oh, ow);
    crate::units::lemma_div_round_near(py * ow, oh);
    assert(px * oh >= 0 && py * ow >= 0) by (nonlinear_arith)
        requires
            px >= 0,
            py >= 0,
            ow > 0,
            oh > 0,
    ;
    crate::tools::lemma_div_round_nonneg(px * oh, ow);
    crate::tools::lemma_div_round_nonneg(py * ow, oh);
}

/// The side across from a side.
pub proof fn lemma_sides_face_each_other()
    ensures
        opposite_side(HandleId::Top) == HandleId::Bottom,
        opposite_side(HandleId::Bottom) == HandleId::Top,
        opposite_side(HandleId::Left) == HandleId::Right,
        opposite_side(HandleId::Right) == HandleId::Left,
{
}

/// Mirroring swaps left and right and leaves heights alone.
pub proof fn lemma_flip_swaps_left_and_right(x: int, y: int, w: int, h: int)
    ensures
        ({
            let t = CanvasTransform::FlipHorizontal;
            &&& t.map_x(x, y, w, h) + x == w
            &&& t.map_y(x, y, w, h) == y
            &&& t.new_w(w, h) == w && t.new_h(w, h) == h
        }),
{
}

/// A quarter turn counter-clockwise brings the top right corner to the top
/// left; a step to the right becomes one up, and a step down one to the right.
pub proof fn lemma_turn_left_brings_right_to_top(x: int, y: int, dx: int, dy: int, w: int, h: int)
    ensures
        ({
            let t = CanvasTransform::RotateCcw;
            &&& t.map_x(w, 0, w, h) == 0 && t.map_y(w, 0, w, h) == 0
            &&& t.map_x(x + dx, y + dy, w, h) - t.map_x(x, y, w, h) == dy
            &&& t.map_y(x + dx, y + dy, w, h) - t.map_y(x, y, w, h) == -dx
            &&& t.new_w(w, h) == h && t.new_h(w, h) == w
        }),
{
}

/// A quarter turn clockwise brings the bottom left corner to the top left; a
/// step to the right becomes one down, and a step down one to the left.
pub proof fn lemma_turn_right_brings_left_to_top(x: int, y: int, dx: int, dy: int, w: int, h: int)
    ensures
        ({
            let t = CanvasTransform::RotateCw;
            &&& t.map_x(0, h, w, h) == 0 && t.map_y(0, h, w, h) == 0
            &&& t.map_x(x + dx, y + dy, w, h) - t.map_x(x, y, w, h) == -dy
            &&& t.map_y(x + dx, y + dy, w, h) - t.map_y(x, y, w, h) == dx
            &&& t.new_w(w, h) == h && t.new_h(w, h) == w
        }),
{
}

/// Scaling multiplies both coordinates by their ratios, to the nearest
/// sub-unit.
pub proof fn lemma_scale_multiplies(t: CanvasTransform, x: int, y: int, w: int, h: int)
    requires
        t.wf(),
        t is Scale,
    ensures
        ({
            let (sx, sy) = (t->sx, t->sy);
            let (nx, ny) = (t.map_x(x, y, w, h), t.map_y(x, y, w, h));
            &&& -sx.den <= 2 * (nx * sx.den - x * sx.num) <= sx.den
            &&& -sy.den <= 2 * (ny * sy.den - y * sy.num) <= sy.den
            &&& -sx.den <= 2 * (t.new_w(w, h) * sx.den - w * sx.num) <= sx.den
            &&& -sy.den <= 2 * (t.new_h(w, h) * sy.den - h * sy.num) <= sy.den
        }),
{
    let (sx, sy) = (t->sx, t->sy);
    crate::units::lemma_div_round_near(x * sx.num, sx.den as int);
    crate::units::lemma_div_round_near(y * sy.num, sy.den as int);
    crate::units::lemma_div_round_near(w * sx.num, sx.den as int);
    crate::units::lemma_div_round_near(h * sy.num, sy.den as int);
}

/// A turned or mirrored rectangle covers exactly the images of the points that
/// it covered.
pub proof fn lemma_mapped_rect_covers_images(
    t: CanvasTransform,
    a: Rect,
    w: int,
    h: int,
    r: Rect,
    x: int,
    y: int,
)
    requires
        !(t is Scale),
        a.size.x >= 0,
        a.size.y >= 0,
        t.is_mapped_rect(a, w, h, r),
    ensures
        ({
            let (nx, ny) = (t.map_x(x, y, w, h), t.map_y(x, y, w, h));
            (a.pos.x <= x <= a.pos.x + a.size.x && a.pos.y <= y <= a.pos.y + a.size.y) <==> (
            r.pos.x <= nx <= r.pos.x + r.size.x && r.pos.y <= ny <= r.pos.y + r.size.y)
        }),
{
}

} // verus!
