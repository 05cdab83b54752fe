//! Images pasted onto the canvas.
use vstd::prelude::*;
use crate::math::{Rect, Vec2D};
use crate::pixels::Pixbuf;
use crate::tools::arrow::point_in;
use crate::tools::blur::{at, lemma_at_in_bounds};
use crate::tools::{
    bbox_handle_at, bbox_handle_order, bbox_handles, bbox_resize, is_resized, CanvasTransform,
    Handle, HandleId, HandleKind,
};
use crate::units::{abs_len, abs_spec, coord_ok, input_ok, max_len, max_spec, UNIT};

verus! {

/// Tightly packed RGBA pixels, row by row.
#[derive(Debug)]
pub struct ImageData {
    pub rgba: Vec<u8>,
    pub width: u32,
    pub height: u32,
}

/// Channel `c` of pixel `(x, y)` of an image `w` pixels wide.
pub open spec fn channel_of(rgba: Seq<u8>, w: int, x: int, y: int, c: int) -> u8 {
    rgba[4 * at(w, x, y) + c]
}

impl ImageData {
    /// There are four bytes for every pixel, and at least one pixel.
    pub open spec fn wf(&self) -> bool {
        &&& self.width > 0
        &&& self.height > 0
        &&& self.rgba@.len() == 4 * (self.width * self.height)
    }

    /// Channel `c` of pixel `(x, y)`.
    pub open spec fn channel(&self, x: int, y: int, c: int) -> u8 {
        channel_of(self.rgba@, self.width as int, x, y, c)
    }
}

/// Where pixel `(x, y)` of a `w` by `h` image goes.
pub open spec fn turned(t: CanvasTransform, x: int, y: int, w: int, h: int) -> (int, int) {
    match t {
        CanvasTransform::FlipHorizontal => (w - 1 - x, y),
        CanvasTransform::RotateCcw => (y, w - 1 - x),
        CanvasTransform::RotateCw => (h - 1 - y, x),
        _ => (x, y),
    }
}

/// Size of a `w` by `h` image after it was turned.
pub open spec fn turned_size(t: CanvasTransform, w: int, h: int) -> (int, int) {
    match t {
        CanvasTransform::RotateCcw | CanvasTransform::RotateCw => (h, w),
        _ => (w, h),
    }
}

/// Turning an image and turning it back puts every pixel where it was.
pub proof fn lemma_turn_and_back(t: CanvasTransform, x: int, y: int, w: int, h: int)
    ensures
        ({
            let (tx, ty) = turned(t, x, y, w, h);
            let (tw, th) = turned_size(t, w, h);
            turned(t.inverse_spec(), tx, ty, tw, th) == (x, y) && turned_size(
                t.inverse_spec(),
                tw,
                th,
            ) == (w, h)
        }),
{
}

/// `b` is `a` with every pixel where the turn puts it.
pub open spec fn is_turned(t: CanvasTransform, a: &ImageData, b: &ImageData) -> bool {
    let (w, h) = turned_size(t, a.width as int, a.height as int);
    &&& b.wf()
    &&& b.width == w
    &&& b.height == h
    &&& forall|x: int, y: int, c: int|
        0 <= x < a.width && 0 <= y < a.height && 0 <= c < 4 ==> ({
            let (tx, ty) = turned(t, x, y, a.width as int, a.height as int);
            b.channel(tx, ty, c)
        }) == #[trigger] a.channel(x, y, c)
}

/// A turned image that is turned back is the image again.
pub proof fn lemma_turned_back(t: CanvasTransform, a: &ImageData, b: &ImageData, c: &ImageData)
    requires
        a.wf(),
        is_turned(t, a, b),
        is_turned(t.inverse_spec(), b, c),
    ensures
        c.width == a.width,
        c.height == a.height,
        forall|x: int, y: int, k: int|
            0 <= x < a.width && 0 <= y < a.height && 0 <= k < 4 ==> #[trigger] a.channel(x, y, k)
                == c.channel(x, y, k),
{
    assert forall|x: int, y: int, k: int|
        0 <= x < a.width && 0 <= y < a.height && 0 <= k < 4 implies #[trigger] a.channel(x, y, k)
        == c.channel(x, y, k) by {
        let (w, h) = (a.width as int, a.height as int);
        let (tx, ty) = turned(t, x, y, w, h);
        lemma_turn_and_back(t, x, y, w, h);
        assert(b.channel(tx, ty, k) == a.channel(x, y, k));
    }
}

/// The pixel that turns into pixel `(x, y)`.
fn source_of(t: CanvasTransform, x: usize, y: usize, w: usize, h: usize) -> (r: (usize, usize))
    requires
        x < turned_size(t, w as int, h as int).0,
        y < turned_size(t, w as int, h as int).1,
    ensures
        r.0 < w,
        r.1 < h,
        turned(t, r.0 as int, r.1 as int, w as int, h as int) == (x as int, y as int),
{
    match t {
        CanvasTransform::FlipHorizontal => (w - 1 - x, y),
        CanvasTransform::RotateCcw => (w - 1 - y, x),
        CanvasTransform::RotateCw => (y, h - 1 - x),
        _ => (x, y),
    }
}

/// Turns an image.
pub fn turn(t: CanvasTransform, src: &ImageData) -> (r: ImageData)
    requires
        src.wf(),
    ensures
        is_turned(t, src, &r),
{
    let len: usize = src.rgba.len();
    let (sw, sh): (usize, usize) = (src.width as usize, src.height as usize);
    let (nw, nh): (usize, usize) = match t {
        CanvasTransform::RotateCcw | CanvasTransform::RotateCw => (sh, sw),
        _ => (sw, sh),
    };
    let mut rgba: Vec<u8> = Vec::new();
    let mut y: usize = 0;
    while y < nh
        invariant
            src.wf(),
            len == src.rgba@.len(),
            sw == src.width,
            sh == src.height,
            (nw as int, nh as int) == turned_size(t, sw as int, sh as int),
            y <= nh,
            rgba@.len() == 4 * (y * nw),
            forall|i: int, j: int, c: int|
                0 <= i < nw && 0 <= j < y && 0 <= c < 4 ==> comes_from(
                    t,
                    src,
                    i,
                    j,
                    c,
                    #[trigger] channel_of(rgba@, nw as int, i, j, c),
                ),
        decreases nh - y,
    {
        let mut x: usize = 0;
        while x < nw
            invariant
                src.wf(),
                len == src.rgba@.len(),
                sw == src.width,
                sh == src.height,
                (nw as int, nh as int) == turned_size(t, sw as int, sh as int),
                y < nh,
                x <= nw,
                rgba@.len() == 4 * (y * nw + x),
                forall|i: int, j: int, c: int|
                    0 <= i < nw && 0 <= j < y && 0 <= c < 4 ==> comes_from(
                        t,
                        src,
                        i,
                        j,
                        c,
                        #[trigger] channel_of(rgba@, nw as int, i, j, c),
                    ),
                forall|i: int, c: int|
                    0 <= i < x && 0 <= c < 4 ==> comes_from(
                        t,
                        src,
                        i,
                        y as int,
                        c,
                        #[trigger] channel_of(rgba@, nw as int, i, y as int, c),
                    ),
            decreases nw - x,
        {
            let (sx, sy): (usize, usize) = source_of(t, x, y, sw, sh);
            proof {
                lemma_at_in_bounds(sw as int, sh as int, sx as int, sy as int);
            }
            let si: usize = 4 * (sy * sw + sx);
            let ghost before = rgba@;
            rgba.push(src.rgba[si]);
            rgba.push(src.rgba[si + 1]);
            rgba.push(src.rgba[si + 2]);
            rgba.push(src.rgba[si + 3]);
            proof {
                assert forall|i: int, j: int, c: int|
                    0 <= i < nw && 0 <= j < y && 0 <= c < 4 implies comes_from(
                    t,
                    src,
                    i,
                    j,
                    c,
                    #[trigger] channel_of(rgba@, nw as int, i, j, c),
                ) by {
                    lemma_at_in_bounds(nw as int, y as int, i, j);
                    assert(y * nw == nw * y) by (nonlinear_arith);
                    assert(channel_of(rgba@, nw as int, i, j, c) == channel_of(
                        before,
                        nw as int,
                        i,
                        j,
                        c,
                    ));
                }
                assert forall|i: int, c: int| 0 <= i < x + 1 && 0 <= c < 4 implies comes_from(
                    t,
                    src,
                    i,
                    y as int,
                    c,
                    #[trigger] channel_of(rgba@, nw as int, i, y as int, c),
                ) by {
                    if i < x {
                        assert(0 <= y * nw) by (nonlinear_arith)
                            requires
                                y >= 0,
                                nw >= 0,
                        ;
                        assert(channel_of(rgba@, nw as int, i, y as int, c) == channel_of(
                            before,
                            nw as int,
                            i,
                            y as int,
                            c,
                        ));
                    } else {
                        let v = channel_of(rgba@, nw as int, i, y as int, c);
                        assert(v == rgba@[before.len() + c]);
                        assert(v == src.rgba@[si + c]);
                        assert(v == src.channel(sx as int, sy as int, c));
                    }
                }
            }
            x = x + 1;
        }
        proof {
            assert((y + 1) * nw == y * nw + nw) by (nonlinear_arith);
        }
        y = y + 1;
    }
    let r = ImageData { rgba, width: nw as u32, height: nh as u32 };
    proof {
        assert(nh * nw == nw * nh) by (nonlinear_arith);
        assert forall|x: int, y: int, c: int|
            0 <= x < src.width && 0 <= y < src.height && 0 <= c < 4 implies ({
            let (tx, ty) = turned(t, x, y, src.width as int, src.height as int);
            r.channel(tx, ty, c)
        }) == #[trigger] src.channel(x, y, c) by {
            let (tx, ty) = turned(t, x, y, sw as int, sh as int);
            let v = channel_of(r.rgba@, nw as int, tx, ty, c);
            assert(comes_from(t, src, tx, ty, c, v));
        }
    }
    r
}

/// `v` is channel `c` of the pixel that turns into `(x, y)`.
pub open spec fn comes_from(t: CanvasTransform, src: &ImageData, x: int, y: int, c: int, v: u8) -> bool {
    forall|sx: int, sy: int|
        0 <= sx < src.width && 0 <= sy < src.height && turned(
            t,
            sx,
            sy,
            src.width as int,
            src.height as int,
        ) == (x, y) ==> v == #[trigger] src.channel(sx, sy, c)
}

/// An image on the canvas.
#[derive(Debug)]
pub struct PastedImage {
    /// Top left corner.
    pub pos: Vec2D,
    /// Size that it is shown at.
    pub size: Vec2D,
    pub data: ImageData,
    /// The uploaded image, once there is one.
    pub image_id: Option<u64>,
}

impl Clone for ImageData {
    fn clone(&self) -> (r: ImageData)
        ensures
            r.rgba@ == self.rgba@,
            r.width == self.width,
            r.height == self.height,
    {
        let rgba: Vec<u8> = self.rgba.clone();
        assert(rgba@ =~= self.rgba@);
        ImageData { rgba, width: self.width, height: self.height }
    }
}

/// A copy starts without an uploaded image, so that it never frees that of the
/// image it was copied from.
impl Clone for PastedImage {
    fn clone(&self) -> (r: PastedImage)
        ensures
            r.pos == self.pos,
            r.size == self.size,
            r.data.rgba@ == self.data.rgba@,
            r.data.width == self.data.width,
            r.data.height == self.data.height,
            r.image_id is None,
    {
        PastedImage { pos: self.pos, size: self.size, data: self.data.clone(), image_id: None }
    }
}

impl PastedImage {
    /// Position and size are in range, and the pixels fit.
    pub open spec fn ok(&self) -> bool {
        point_in(self.pos) && point_in(self.size) && self.data.wf()
    }

    /// The area that it covers.
    pub open spec fn area(&self) -> Rect {
        Rect { pos: self.pos, size: self.size }
    }

    /// Takes the pixels of `pixbuf` and shows them at `pos`, at least one
    /// pixel large. Pixels without alpha become opaque.
    pub fn from_pixbuf(pixbuf: &Pixbuf, pos: Vec2D, display_size: Vec2D) -> (r: PastedImage)
        requires
            pixbuf.wf(),
            pixbuf.width > 0,
            pixbuf.height > 0,
        ensures
            r.pos == pos,
            r.size.x == max_spec(display_size.x as int, UNIT as int),
            r.size.y == max_spec(display_size.y as int, UNIT as int),
            r.image_id is None,
            r.data.wf(),
            r.data.width == pixbuf.width,
            r.data.height == pixbuf.height,
            forall|x: int, y: int, c: int|
                0 <= x < pixbuf.width && 0 <= y < pixbuf.height && 0 <= c < 4
                    ==> #[trigger] r.data.channel(x, y, c) == if c < 3 || pixbuf.has_alpha {
                    pixbuf.channel(x, y, c)
                } else {
                    255
                },
    {
        let rgba: Vec<u8> = packed_rgba(pixbuf);
        PastedImage {
            pos,
            size: Vec2D::new(max_len(display_size.x, UNIT), max_len(display_size.y, UNIT)),
            data: ImageData { rgba, width: pixbuf.width, height: pixbuf.height },
            image_id: None,
        }
    }

    pub fn bounds(&self) -> (r: Option<Rect>)
        ensures
            r == Some(self.area()),
    {
        Some(Rect::new(self.pos, self.size))
    }

    /// Whether `point` is on the image, give or take `tolerance`.
    pub fn hit_test(&self, point: Vec2D, tolerance: i64) -> (r: bool)
        requires
            point_in(self.pos),
            point_in(self.size),
            input_ok(tolerance as int),
        ensures
            r == (self.pos.x - tolerance <= point.x <= self.pos.x + self.size.x + tolerance
                && self.pos.y - tolerance <= point.y <= self.pos.y + self.size.y + tolerance),
    {
        Rect::new(self.pos, self.size).inflated(tolerance).contains(point)
    }

    pub fn translate(&mut self, delta: Vec2D)
        requires
            i64::MIN <= old(self).pos.x + delta.x <= i64::MAX,
            i64::MIN <= old(self).pos.y + delta.y <= i64::MAX,
        ensures
            final(self).pos.x == old(self).pos.x + delta.x,
            final(self).pos.y == old(self).pos.y + delta.y,
            *final(self) == (PastedImage { pos: final(self).pos, ..*old(self) }),
    {
        self.pos = self.pos.plus(delta);
    }

    /// Moves the image along with a transform of the whole canvas. A flip or
    /// a turn also turns its pixels, which then have to be uploaded again.
    pub fn apply_canvas_transform(&mut self, t: CanvasTransform, w: i64, h: i64)
        requires
            old(self).ok(),
            t.wf(),
            coord_ok(w as int),
            coord_ok(h as int),
            t.fits(old(self).pos.x as int, old(self).pos.y as int),
            t.fits(old(self).area().right(), old(self).area().bottom()),
        ensures
            t.is_mapped_rect(old(self).area(), w as int, h as int, final(self).area()),
            t is Scale ==> final(self).data == old(self).data && final(self).image_id == old(self).image_id,
            !(t is Scale) ==> is_turned(t, &old(self).data, &final(self).data) && final(self).image_id is None,
    {
        let r: Rect = t.map_rect(Rect::new(self.pos, self.size), w, h);
        self.pos = r.pos;
        self.size = r.size;
        match t {
            CanvasTransform::Scale { .. } => {},
            _ => {
                self.data = turn(t, &self.data);
                self.image_id = None;
            },
        }
    }

    pub fn handles(&self, hit_radius: i64) -> (r: Vec<Handle>)
        requires
            point_in(self.pos),
            point_in(self.size),
        ensures
            r@.len() == 8,
            forall|i: int|
                0 <= i < 8 ==> {
                    &&& (#[trigger] r@[i]).id == bbox_handle_order()[i]
                    &&& bbox_handle_at(self.area(), r@[i].id, r@[i].pos)
                    &&& r@[i].hit_radius == hit_radius
                    &&& r@[i].kind == HandleKind::Round
                },
    {
        bbox_handles(Rect::new(self.pos, self.size), hit_radius)
    }

    /// Resizes the image by a handle of its box, to no less than one pixel.
    pub fn move_handle(&mut self, handle: HandleId, to: Vec2D)
        requires
            point_in(old(self).pos),
            point_in(old(self).size),
            to.ok(),
        ensures
            final(self).data == old(self).data,
            final(self).image_id == old(self).image_id,
            exists|n: Rect| #[trigger]
                is_dragged(old(self).area(), handle, to, n) && final(self).pos == n.pos && final(self).size.x == max_spec(abs_spec(n.size.x as int), UNIT as int) && final(self).size.y
                    == max_spec(abs_spec(n.size.y as int), UNIT as int),
    {
        let cur: Rect = Rect::new(self.pos, self.size);
        let new: Rect = bbox_resize(cur, handle, to);
        assert(is_dragged(old(self).area(), handle, to, new));
        self.pos = new.pos;
        self.size = Vec2D::new(
            max_len(abs_len(new.size.x), UNIT),
            max_len(abs_len(new.size.y), UNIT),
        );
    }

    pub fn kind_label(&self) -> (r: &'static str)
        ensures
            r == "Image",
    {
        "Image"
    }

    pub fn icon_name(&self) -> (r: &'static str)
        ensures
            r == "image-regular",
    {
        "image-regular"
    }
}

/// `n` is `a` after its handle was dragged to `to`.
pub open spec fn is_dragged(a: Rect, handle: HandleId, to: Vec2D, n: Rect) -> bool {
    if handle.is_box_handle() {
        is_resized(a, handle, to, n)
    } else {
        n == a
    }
}

/// The pixels of an image as tightly packed RGBA.
fn packed_rgba(pixbuf: &Pixbuf) -> (r: Vec<u8>)
    requires
        pixbuf.wf(),
    ensures
        r@.len() == 4 * (pixbuf.width * pixbuf.height),
        forall|x: int, y: int, c: int|
            0 <= x < pixbuf.width && 0 <= y < pixbuf.height && 0 <= c < 4
                ==> #[trigger] channel_of(r@, pixbuf.width as int, x, y, c) == opaque_channel(
                pixbuf,
                x,
                y,
                c,
            ),
{
    let w: u32 = pixbuf.width;
    let h: u32 = pixbuf.height;
    let mut rgba: Vec<u8> = Vec::new();
    let mut y: u32 = 0;
    while y < h
        invariant
            pixbuf.wf(),
            w == pixbuf.width,
            h == pixbuf.height,
            y <= h,
            rgba@.len() == 4 * (y * w),
            forall|i: int, j: int, c: int|
                0 <= i < w && 0 <= j < y && 0 <= c < 4 ==> #[trigger] channel_of(
                    rgba@,
                    w as int,
                    i,
                    j,
                    c,
                ) == opaque_channel(pixbuf, i, j, c),
        decreases h - y,
    {
        let mut x: u32 = 0;
        while x < w
            invariant
                pixbuf.wf(),
                w == pixbuf.width,
                h == pixbuf.height,
                y < h,
                x <= w,
                rgba@.len() == 4 * (y * w + x),
                forall|i: int, j: int, c: int|
                    0 <= i < w && 0 <= j < y && 0 <= c < 4 ==> #[trigger] channel_of(
                        rgba@,
                        w as int,
                        i,
                        j,
                        c,
                    ) == opaque_channel(pixbuf, i, j, c),
                forall|i: int, c: int|
                    0 <= i < x && 0 <= c < 4 ==> #[trigger] channel_of(
                        rgba@,
                        w as int,
                        i,
                        y as int,
                        c,
                    ) == opaque_channel(pixbuf, i, y as int, c),
            decreases w - x,
        {
            let o: usize = pixbuf.offset(x, y);
            let ghost before = rgba@;
            rgba.push(pixbuf.pixels[o]);
            rgba.push(pixbuf.pixels[o + 1]);
            rgba.push(pixbuf.pixels[o + 2]);
            if pixbuf.has_alpha {
                rgba.push(pixbuf.pixels[o + 3]);
            } else {
                rgba.push(255);
            }
            proof {
                assert forall|i: int, j: int, c: int|
                    0 <= i < w && 0 <= j < y && 0 <= c < 4 implies #[trigger] channel_of(
                    rgba@,
                    w as int,
                    i,
                    j,
                    c,
                ) == opaque_channel(pixbuf, i, j, c) by {
                    lemma_at_in_bounds(w as int, y as int, i, j);
                    assert(y * w == w * y) by (nonlinear_arith);
                    assert(channel_of(rgba@, w as int, i, j, c) == channel_of(
                        before,
                        w as int,
                        i,
                        j,
                        c,
                    ));
                }
                assert forall|i: int, c: int| 0 <= i < x + 1 && 0 <= c < 4 implies #[trigger] channel_of(
                    rgba@,
                    w as int,
                    i,
                    y as int,
                    c,
                ) == opaque_channel(pixbuf, i, y as int, c) by {
                    assert(0 <= y * w) by (nonlinear_arith)
                        requires
                            y >= 0,
                            w >= 0,
                    ;
                    if i < x {
                        assert(channel_of(rgba@, w as int, i, y as int, c) == channel_of(
                            before,
                            w as int,
                            i,
                            y as int,
                            c,
                        ));
                    } else {
                        assert(channel_of(rgba@, w as int, i, y as int, c) == rgba@[before.len()
                            + c]);
                    }
                }
            }
            x = x + 1;
        }
        proof {
            assert((y + 1) * w == y * w + w) by (nonlinear_arith);
        }
        y = y + 1;
    }
    proof {
        assert(h * w == w * h) by (nonlinear_arith);
    }
    rgba
}

/// Channel `c` of a pixel, opaque where there is no alpha channel.
pub open spec fn opaque_channel(pixbuf: &Pixbuf, x: int, y: int, c: int) -> u8 {
    if c < 3 || pixbuf.has_alpha {
        pixbuf.channel(x, y, c)
    } else {
        255
    }
}

} // verus!
