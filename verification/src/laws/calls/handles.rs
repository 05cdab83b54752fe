//! What dragging handles and turning the canvas give back.
use vstd::prelude::*;
use crate::laws::handles::{apart, corner_across, lies_between};
use crate::math::{Rect, Vec2D};
use crate::tools::{
    aspect_lock_corner_target, bbox_handles, bbox_resize, mirror_side_target, CanvasTransform,
    Handle, HandleId, Ratio,
};

verus! {

/// The eight handles of a box: its corners, and the middles of its sides.
pub proof fn lemma_bbox_handles(rect: Rect, radius: i64, r: Vec<Handle>)
    requires
        call_ensures(bbox_handles, (rect, radius), r),
    ensures
        ({
            let (x0, y0) = (rect.pos.x as int, rect.pos.y as int);
            let (x1, y1) = (x0 + rect.size.x, y0 + rect.size.y);
            let at = |i: int, id: HandleId, x: int, y: int|
                r@[i].id == id && r@[i].pos.x == x && r@[i].pos.y == y;
            &&& r@.len() == 8
            &&& at(0, HandleId::TopLeft, x0, y0)
            &&& at(1, HandleId::TopRight, x1, y0)
            &&& at(2, HandleId::BottomLeft, x0, y1)
            &&& at(3, HandleId::BottomRight, x1, y1)
            &&& r@[4].id == HandleId::Top && r@[4].pos.y == y0
            &&& r@[5].id == HandleId::Bottom && r@[5].pos.y == y1
            &&& r@[6].id == HandleId::Left && r@[6].pos.x == x0
            &&& r@[7].id == HandleId::Right && r@[7].pos.x == x1
            &&& x0 + x1 - 1 <= 2 * r@[4].pos.x <= x0 + x1 && r@[5].pos.x == r@[4].pos.x
            &&& y0 + y1 - 1 <= 2 * r@[6].pos.y <= y0 + y1 && r@[7].pos.y == r@[6].pos.y
            &&& forall|i: int| 0 <= i < 8 ==> (#[trigger] r@[i]).hit_radius == radius
        }),
{
    let o = crate::tools::bbox_handle_order();
    assert(r@[0].id == o[0] && r@[1].id == o[1] && r@[2].id == o[2] && r@[3].id == o[3] && r@[4].id
        == o[4] && r@[5].id == o[5] && r@[6].id == o[6] && r@[7].id == o[7]);
}

/// Dragging a handle takes the corner or the side to the pointer; the corner
/// or the sides across stay. Other handles leave the box alone.
pub proof fn lemma_bbox_resize(rect: Rect, id: HandleId, to: Vec2D, r: Rect)
    requires
        call_ensures(bbox_resize, (rect, id, to), r),
    ensures
        ({
            let (x0, y0) = (rect.pos.x as int, rect.pos.y as int);
            let (x1, y1) = (x0 + rect.size.x, y0 + rect.size.y);
            let (tx, ty) = (to.x as int, to.y as int);
            match id {
                HandleId::TopLeft => lies_between(r, tx, ty, x1, y1),
                HandleId::TopRight => lies_between(r, x0, ty, tx, y1),
                HandleId::BottomLeft => lies_between(r, tx, y0, x1, ty),
                HandleId::BottomRight => lies_between(r, x0, y0, tx, ty),
                HandleId::Top => lies_between(r, x0, ty, x1, y1),
                HandleId::Bottom => lies_between(r, x0, y0, x1, ty),
                HandleId::Left => lies_between(r, tx, y0, x1, y1),
                HandleId::Right => lies_between(r, x0, y0, tx, y1),
                _ => r == rect,
            }
        }),
{
}

/// A corner held to the ratio of its box, and the box dragged there: the
/// corner across stays, one side reaches the pointer, and the ratio is kept.
pub proof fn lemma_aspect_lock(
    orig: Rect,
    id: HandleId,
    to: Vec2D,
    locked: Vec2D,
    r: Rect,
)
    requires
        orig.size.x > 0,
        orig.size.y > 0,
        id == HandleId::TopLeft || id == HandleId::TopRight || id == HandleId::BottomLeft || id
            == HandleId::BottomRight,
        call_ensures(aspect_lock_corner_target, (orig, id, to), locked),
        call_ensures(bbox_resize, (orig, id, locked), r),
    ensures
        ({
            let (ax, ay) = corner_across(orig, id);
            let (w, h) = (r.size.x as int, r.size.y as int);
            let (ow, oh) = (orig.size.x as int, orig.size.y as int);
            let (px, py) = (apart(to.x as int, ax), apart(to.y as int, ay));
            &&& lies_between(r, ax, ay, locked.x as int, locked.y as int)
            &&& px * oh >= py * ow ==> locked.x == to.x && -ow <= 2 * (h * ow - w * oh) <= ow
            &&& px * oh < py * ow ==> locked.y == to.y && -oh <= 2 * (w * oh - h * ow) <= oh
            &&& to.x >= ax ==> locked.x >= ax
            &&& to.x < ax ==> locked.x <= ax
            &&& to.y >= ay ==> locked.y >= ay
            &&& to.y < ay ==> locked.y <= ay
        }),
{
    crate::laws::handles::lemma_locked_corner_keeps_ratio(orig, id, to, locked, r);
}

/// The side across from a dragged one goes as far the other way, so that the
/// middle of the box stays.
pub proof fn lemma_mirror_side(
    orig: Rect,
    id: HandleId,
    to: Vec2D,
    across: HandleId,
    mirrored: Vec2D,
    first: Rect,
    second: Rect,
)
    requires
        orig.size.x >= 0,
        orig.size.y >= 0,
        call_ensures(mirror_side_target, (orig, id, to), Some((across, mirrored))),
        call_ensures(bbox_resize, (orig, id, to), first),
        call_ensures(bbox_resize, (first, across, mirrored), second),
        id == HandleId::Top ==> to.y <= orig.pos.y + orig.size.y,
        id == HandleId::Bottom ==> to.y >= orig.pos.y,
        id == HandleId::Left ==> to.x <= orig.pos.x + orig.size.x,
        id == HandleId::Right ==> to.x >= orig.pos.x,
    ensures
        2 * second.pos.x + second.size.x == 2 * orig.pos.x + orig.size.x,
        2 * second.pos.y + second.size.y == 2 * orig.pos.y + orig.size.y,
        id == HandleId::Top ==> across == HandleId::Bottom,
        id == HandleId::Bottom ==> across == HandleId::Top,
        id == HandleId::Left ==> across == HandleId::Right,
        id == HandleId::Right ==> across == HandleId::Left,
        id == HandleId::Top || id == HandleId::Bottom ==> second.size.x == orig.size.x,
        id == HandleId::Left || id == HandleId::Right ==> second.size.y == orig.size.y,
{
}

/// Where the points of an image go when it is mirrored or turned.
pub proof fn lemma_map_point(p: Vec2D, w: i64, h: i64, f: Vec2D, l: Vec2D, r: Vec2D)
    requires
        call_ensures(CanvasTransform::map_point, (CanvasTransform::FlipHorizontal, p, w, h), f),
        call_ensures(CanvasTransform::map_point, (CanvasTransform::RotateCcw, p, w, h), l),
        call_ensures(CanvasTransform::map_point, (CanvasTransform::RotateCw, p, w, h), r),
    ensures
        f.x + p.x == w && f.y == p.y,
        l.x == p.y && l.y + p.x == w,
        r.x + p.y == h && r.y == p.x,
{
}

/// An offset goes where the two points that it lies between go.
pub proof fn lemma_map_offset(
    t: CanvasTransform,
    a: Vec2D,
    b: Vec2D,
    d: Vec2D,
    w: i64,
    h: i64,
    ta: Vec2D,
    tb: Vec2D,
    td: Vec2D,
)
    requires
        !(t is Scale),
        b.x - a.x == d.x,
        b.y - a.y == d.y,
        call_ensures(CanvasTransform::map_point, (t, a, w, h), ta),
        call_ensures(CanvasTransform::map_point, (t, b, w, h), tb),
        call_ensures(CanvasTransform::map_offset, (t, d), td),
    ensures
        tb.x - ta.x == td.x,
        tb.y - ta.y == td.y,
{
}

/// A rectangle goes where its points go.
pub proof fn lemma_map_rect(
    t: CanvasTransform,
    a: Rect,
    w: i64,
    h: i64,
    r: Rect,
    p: Vec2D,
    q: Vec2D,
)
    requires
        !(t is Scale),
        a.size.x >= 0,
        a.size.y >= 0,
        call_ensures(CanvasTransform::map_rect, (t, a, w, h), r),
        call_ensures(CanvasTransform::map_point, (t, p, w, h), q),
    ensures
        (a.pos.x <= p.x <= a.pos.x + a.size.x && a.pos.y <= p.y <= a.pos.y + a.size.y) <==> (r.pos.x
            <= q.x <= r.pos.x + r.size.x && r.pos.y <= q.y <= r.pos.y + r.size.y),
{
}

/// A turn swaps width and height, mirroring keeps them.
pub proof fn lemma_new_size(w: i64, h: i64, f: (i64, i64), l: (i64, i64), r: (i64, i64))
    requires
        call_ensures(CanvasTransform::new_size, (CanvasTransform::FlipHorizontal, w, h), f),
        call_ensures(CanvasTransform::new_size, (CanvasTransform::RotateCcw, w, h), l),
        call_ensures(CanvasTransform::new_size, (CanvasTransform::RotateCw, w, h), r),
    ensures
        f == (w, h),
        l == (h, w),
        r == (h, w),
{
}

/// The inverse brings every point back.
pub proof fn lemma_inverse(
    t: CanvasTransform,
    back: CanvasTransform,
    p: Vec2D,
    w: i64,
    h: i64,
    q: Vec2D,
    size: (i64, i64),
    r: Vec2D,
)
    requires
        !(t is Scale),
        call_ensures(CanvasTransform::inverse, (t,), back),
        call_ensures(CanvasTransform::map_point, (t, p, w, h), q),
        call_ensures(CanvasTransform::new_size, (t, w, h), size),
        call_ensures(CanvasTransform::map_point, (back, q, size.0, size.1), r),
    ensures
        r == p,
{
}

/// A ratio scales a length, to the nearest sub-unit.
pub proof fn lemma_scale(s: Ratio, v: i64, r: i64)
    requires
        s.den > 0,
        call_ensures(Ratio::scale, (&s, v), r),
    ensures
        -s.den <= 2 * (r * s.den - v * s.num) <= s.den,
{
    crate::units::lemma_div_round_near(v * s.num, s.den as int);
}

} // verus!
