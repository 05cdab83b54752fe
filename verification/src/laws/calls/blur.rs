//! What the functions of blurring give back.
use vstd::prelude::*;
use crate::input::{MouseButton, MouseEventMsg, MouseEventType};
use crate::laws::blur::{halves_on_first_column, halves_on_first_row, pixel, weighs_by_distance};
use crate::laws::handles::lies_between;
use crate::math::{Rect, Vec2D};
use crate::tools::blur::{
    canvas_cell, canvas_region, lacks_fringe, pixelate, quantize, secure_fill, Blur, BlurPlan,
    BlurStyle, BlurTool, Channel, Rgba,
};
use crate::tools::{CanvasTransform, HandleId, ToolUpdateResult};
use crate::units::UNIT;

verus! {

/// The first row of a securely blurred region is half the row above it,
/// whatever lies below.
pub proof fn lemma_secure_fill_first_row(outer: Vec<Rgba>, w: u32, h: u32, r: Vec<Rgba>, x: int)
    requires
        0 <= x < w,
        0 < h,
        call_ensures(secure_fill, (&outer, w, h), r),
    ensures
        ({
            let p = r@[x];
            let above = outer@[x + 1];
            let left = outer@[w + 2];
            let right = outer@[2 * w + 3];
            &&& halves_on_first_row(
                p.r as int,
                above.r as int,
                left.r as int,
                right.r as int,
                x,
                w as int,
            )
            &&& halves_on_first_row(
                p.g as int,
                above.g as int,
                left.g as int,
                right.g as int,
                x,
                w as int,
            )
            &&& halves_on_first_row(
                p.b as int,
                above.b as int,
                left.b as int,
                right.b as int,
                x,
                w as int,
            )
            &&& p.a == 255
        }),
{
    let (wi, hi) = (w as int, h as int);
    assert(r@[crate::tools::blur::at(wi, x, 0)] == crate::tools::blur::secure_pixel(
        outer@,
        wi,
        hi,
        x,
        0,
    ));
    crate::laws::blur::lemma_first_row_takes_after_the_row_above(outer@, wi, hi, x);
    assert(1 * (wi + 2) + (wi + 1) == 2 * wi + 3);
}

/// The first column of a securely blurred region is half the column to its
/// left, whatever lies to the right.
pub proof fn lemma_secure_fill_first_column(outer: Vec<Rgba>, w: u32, h: u32, r: Vec<Rgba>, y: int)
    requires
        0 < w,
        0 <= y < h,
        call_ensures(secure_fill, (&outer, w, h), r),
    ensures
        ({
            let p = r@[y * w];
            let left = outer@[(y + 1) * (w + 2)];
            let above = outer@[1];
            let below = outer@[(h + 1) * (w + 2) + 1];
            &&& halves_on_first_column(
                p.r as int,
                left.r as int,
                above.r as int,
                below.r as int,
                y,
                h as int,
            )
            &&& halves_on_first_column(
                p.g as int,
                left.g as int,
                above.g as int,
                below.g as int,
                y,
                h as int,
            )
            &&& halves_on_first_column(
                p.b as int,
                left.b as int,
                above.b as int,
                below.b as int,
                y,
                h as int,
            )
            &&& p.a == 255
        }),
{
    let (wi, hi) = (w as int, h as int);
    assert(r@[crate::tools::blur::at(wi, 0, y)] == crate::tools::blur::secure_pixel(
        outer@,
        wi,
        hi,
        0,
        y,
    ));
    crate::laws::blur::lemma_first_column_takes_after_the_column_left(outer@, wi, hi, y);
}

/// Everywhere the four pixels of the fringe count by how near they are.
pub proof fn lemma_secure_fill_weighs(outer: Vec<Rgba>, w: u32, h: u32, r: Vec<Rgba>, x: int, y: int)
    requires
        0 <= x < w,
        0 <= y < h,
        call_ensures(secure_fill, (&outer, w, h), r),
    ensures
        r@.len() == w * h,
        ({
            let (wi, hi) = (w as int, h as int);
            let p = pixel(r@, wi, x, y);
            let n = pixel(outer@, wi + 2, x + 1, 0);
            let s = pixel(outer@, wi + 2, x + 1, hi + 1);
            let l = pixel(outer@, wi + 2, 0, y + 1);
            let e = pixel(outer@, wi + 2, wi + 1, y + 1);
            &&& weighs_by_distance(
                p.r as int,
                n.r as int,
                s.r as int,
                l.r as int,
                e.r as int,
                x,
                y,
                wi,
                hi,
            )
            &&& weighs_by_distance(
                p.g as int,
                n.g as int,
                s.g as int,
                l.g as int,
                e.g as int,
                x,
                y,
                wi,
                hi,
            )
            &&& weighs_by_distance(
                p.b as int,
                n.b as int,
                s.b as int,
                l.b as int,
                e.b as int,
                x,
                y,
                wi,
                hi,
            )
        }),
{
    let (wi, hi) = (w as int, h as int);
    assert(r@[crate::tools::blur::at(wi, x, y)] == crate::tools::blur::secure_pixel(
        outer@,
        wi,
        hi,
        x,
        y,
    ));
    crate::laws::blur::lemma_secure_blur_weighs_by_distance(outer@, wi, hi, x, y);
}

/// Where all pixels of a cell have one value in a channel, the mosaic shows
/// that value, its high half repeated.
pub proof fn lemma_pixelate(
    src: Vec<Rgba>,
    w: u32,
    h: u32,
    cell: u32,
    r: (Vec<Rgba>, u32, u32),
    dx: int,
    dy: int,
    c: Channel,
    v: int,
)
    requires
        w > 0,
        h > 0,
        cell > 0,
        call_ensures(pixelate, (&src, w, h, cell), r),
        0 <= dx < r.1,
        0 <= dy < r.2,
        0 <= v <= 255,
        0 <= dx * cell < w,
        0 <= dy * cell < h,
        forall|x: int, y: int|
            dx * cell <= x < dx * cell + cell && x < w && dy * cell <= y < dy * cell + cell && y < h
                ==> (#[trigger] pixel(src@, w as int, x, y)).get_spec(c) == v,
    ensures
        (r.1 - 1) * cell < w <= r.1 * cell,
        (r.2 - 1) * cell < h <= r.2 * cell,
        ({
            let p = pixel(r.0@, r.1 as int, dx, dy);
            let q = match c {
                Channel::Red => p.r,
                Channel::Green => p.g,
                Channel::Blue => p.b,
                Channel::Alpha => p.a,
            };
            q / 16 == v / 16 && q % 16 == v / 16
        }),
{
    let (wi, hi, ci) = (w as int, h as int, cell as int);
    crate::laws::blur::lemma_cells_cover(wi, ci);
    crate::laws::blur::lemma_cells_cover(hi, ci);
    crate::laws::blur::lemma_plain_cell_keeps_its_value(src@, wi, hi, ci, dx, dy, c, v);
    assert(r.0@[crate::tools::blur::at(r.1 as int, dx, dy)] == crate::tools::blur::cell_pixel(
        src@,
        wi,
        hi,
        ci,
        dx,
        dy,
    ));
}

/// A channel keeps its high half and repeats it.
pub proof fn lemma_quantize(c: u8, r: u8)
    requires
        call_ensures(quantize, (c,), r),
    ensures
        r / 16 == c / 16,
        r % 16 == c / 16,
{
}

/// A cell is as many whole pixels as are nearest, and two at least.
pub proof fn lemma_canvas_cell(cell: i64, r: u32)
    requires
        cell >= 0,
        call_ensures(canvas_cell, (cell,), r),
    ensures
        r >= 2,
        r == 2 || 65536 * r - 32768 <= cell < 65536 * r + 32768,
        cell >= 2 * 65536 - 32768 ==> 65536 * r - 32768 <= cell < 65536 * r + 32768,
{
}

/// The part of the canvas that a region touches, in whole pixels.
pub proof fn lemma_canvas_region(
    origin: Vec2D,
    extent: Vec2D,
    cw: u32,
    ch: u32,
    r: Option<(usize, usize, usize, usize)>,
    px: int,
    py: int,
)
    requires
        extent.x > 0,
        extent.y > 0,
        call_ensures(canvas_region, (origin, extent, cw, ch), r),
    ensures
        ({
            let on_x = 0 <= px < cw && px * UNIT < origin.x + extent.x && (px + 1) * UNIT > origin.x;
            let on_y = 0 <= py < ch && py * UNIT < origin.y + extent.y && (py + 1) * UNIT > origin.y;
            match r {
                Some((x, y, w, h)) => (x <= px < x + w <==> on_x) && (y <= py < y + h <==> on_y),
                None => !(on_x && on_y),
            }
        }),
{
}

/// A fringe needs a pixel of the canvas on all four sides.
pub proof fn lemma_lacks_fringe(x: usize, y: usize, w: usize, h: usize, cw: u32, ch: u32, r: bool)
    requires
        call_ensures(lacks_fringe, (x, y, w, h, cw, ch), r),
    ensures
        !r <==> x >= 1 && y >= 1 && x + w + 1 <= cw && y + h + 1 <= ch,
{
}

/// What is painted of a region is the part between the corners of the canvas,
/// and how depends on its style.
pub proof fn lemma_draw_plan(b: Blur, lo: Vec2D, hi: Vec2D, r: BlurPlan, s: Vec2D)
    requires
        b.size == Some(s),
        s.x >= 0,
        s.y >= 0,
        call_ensures(Blur::draw_plan, (&b, lo, hi), r),
        lo.x <= b.top_left.x,
        lo.y <= b.top_left.y,
        b.top_left.x + s.x <= hi.x,
        b.top_left.y + s.y <= hi.y,
    ensures
        b.editing ==> r == BlurPlan::Veil(b.top_left, s),
        !b.editing && s.x > 0 && s.y > 0 && b.blur_style == BlurStyle::BlackOut ==> r
            == BlurPlan::Black(b.top_left, s),
        !b.editing && s.x > 0 && s.y > 0 && b.blur_style != BlurStyle::BlackOut ==> r
            == match b.cached_image {
            Some(id) => BlurPlan::Cached(id, b.top_left, s),
            None => BlurPlan::Resample(b.blur_style, b.top_left, s),
        },
        !b.editing && (s.x == 0 || s.y == 0) ==> r == BlurPlan::Nothing,
{
}

/// A press and a release at an offset blur the region between the two points.
pub proof fn lemma_drag(
    a: &mut BlurTool,
    b: &mut BlurTool,
    press: MouseEventMsg,
    release: MouseEventMsg,
    r: ToolUpdateResult<Blur>,
    done: Blur,
)
    requires
        press.type_ == MouseEventType::BeginDrag,
        press.button != MouseButton::Middle,
        release.type_ == MouseEventType::EndDrag,
        release.button != MouseButton::Middle,
        call_ensures(BlurTool::handle_mouse_event, (a, press), r),
        *final(a) == *old(b),
        call_ensures(BlurTool::handle_mouse_event, (b, release), ToolUpdateResult::Commit(done)),
    ensures
        done.top_left == press.pos,
        done.size == Some(release.pos),
        done.style == old(a).style,
        done.blur_style == old(a).blur_style,
        !done.editing,
        done.cached_image is None,
        final(b).blur is None,
{
}

/// A moved region covers other pixels: it goes along and is painted anew.
pub proof fn lemma_translate(b: &mut Blur, d: Vec2D, deleted: &mut Vec<u64>)
    requires
        call_ensures(Blur::translate, (b, d, deleted), ()),
    ensures
        final(b).top_left.x - old(b).top_left.x == d.x,
        final(b).top_left.y - old(b).top_left.y == d.y,
        final(b).size == old(b).size,
        final(b).blur_style == old(b).blur_style,
        final(b).cached_image is None,
        old(b).cached_image matches Some(id) ==> final(deleted)@ == old(deleted)@.push(id),
        old(b).cached_image is None ==> final(deleted)@ == old(deleted)@,
{
}

/// A dragged handle takes its corner or side of the region to the pointer.
pub proof fn lemma_move_handle(
    b: &mut Blur,
    id: HandleId,
    to: Vec2D,
    deleted: &mut Vec<u64>,
    s: Vec2D,
)
    requires
        old(b).size == Some(s),
        call_ensures(Blur::move_handle, (b, id, to, deleted), ()),
    ensures
        final(b).size is Some,
        ({
            let (x0, y0) = (old(b).top_left.x as int, old(b).top_left.y as int);
            let (x1, y1) = (x0 + s.x, y0 + s.y);
            let r = Rect { pos: final(b).top_left, size: final(b).size->0 };
            &&& id == HandleId::TopLeft ==> lies_between(r, to.x as int, to.y as int, x1, y1)
            &&& id == HandleId::BottomRight ==> lies_between(r, x0, y0, to.x as int, to.y as int)
            &&& id == HandleId::Left ==> lies_between(r, to.x as int, y0, x1, y1)
            &&& id == HandleId::Bottom ==> lies_between(r, x0, y0, x1, to.y as int)
        }),
        final(b).cached_image is None,
{
}

/// The region is hit within the tolerance around it.
pub proof fn lemma_hit(b: Blur, p: Vec2D, tolerance: i64, r: bool, box_of: Option<Rect>, s: Vec2D)
    requires
        b.size == Some(s),
        s.x >= 0,
        s.y >= 0,
        call_ensures(Blur::hit_test, (&b, p, tolerance), r),
        call_ensures(Blur::bounds, (&b,), box_of),
    ensures
        r <==> {
            &&& b.top_left.x - tolerance <= p.x <= b.top_left.x + s.x + tolerance
            &&& b.top_left.y - tolerance <= p.y <= b.top_left.y + s.y + tolerance
        },
        box_of == Some(Rect { pos: b.top_left, size: s }),
{
}

/// A mirrored or turned region covers the same part of the picture.
pub proof fn lemma_canvas_transform(
    b: &mut Blur,
    t: CanvasTransform,
    w: i64,
    h: i64,
    deleted: &mut Vec<u64>,
    s: Vec2D,
    x: int,
    y: int,
)
    requires
        !(t is Scale),
        old(b).size == Some(s),
        s.x >= 0,
        s.y >= 0,
        call_ensures(Blur::apply_canvas_transform, (b, t, w, h, deleted), ()),
    ensures
        final(b).size is Some,
        ({
            let (p, q, z) = (old(b).top_left, final(b).top_left, final(b).size->0);
            let (nx, ny) = match t {
                CanvasTransform::FlipHorizontal => (w - x, y),
                CanvasTransform::RotateCcw => (y, w - x),
                _ => (h - y, x),
            };
            (p.x <= x <= p.x + s.x && p.y <= y <= p.y + s.y) <==> (q.x <= nx <= q.x + z.x && q.y
                <= ny <= q.y + z.y)
        }),
{
}

} // verus!
