//! What pixels come to.
use vstd::prelude::*;
use crate::pixels::Pixbuf;
use crate::tools::pasted_image::{opaque_channel, turned, turned_size, ImageData};
use crate::tools::CanvasTransform;

verus! {

/// A byte of an image is found by its row, its column and its channel.
pub proof fn lemma_pixels_lie_in_rows(img: &Pixbuf, data: &ImageData, x: int, y: int, c: int)
    ensures
        ({
            let bytes: int = if img.has_alpha {
                4
            } else {
                3
            };
            img.channel(x, y, c) == img.pixels@[y * img.rowstride + x * bytes + c]
        }),
        data.channel(x, y, c) == data.rgba@[4 * (y * data.width + x) + c],
        opaque_channel(img, x, y, 3) == if img.has_alpha {
            img.channel(x, y, 3)
        } else {
            255
        },
        0 <= c < 3 ==> opaque_channel(img, x, y, c) == img.channel(x, y, c),
{
}

/// The pixels of an image that is turned go where the canvas around them
/// goes: the middle of each to where its middle is mapped.
pub proof fn lemma_pixels_turn_with_the_canvas(t: CanvasTransform, x: int, y: int, w: int, h: int)
    requires
        !(t is Scale),
    ensures
        ({
            let (tx, ty) = turned(t, x, y, w, h);
            let (tw, th) = turned_size(t, w, h);
            &&& 2 * tx + 1 == t.map_x(2 * x + 1, 2 * y + 1, 2 * w, 2 * h)
            &&& 2 * ty + 1 == t.map_y(2 * x + 1, 2 * y + 1, 2 * w, 2 * h)
            &&& tw == t.new_w(w, h)
            &&& th == t.new_h(w, h)
            &&& 0 <= x < w && 0 <= y < h ==> 0 <= tx < tw && 0 <= ty < th
        }),
{
}

/// Mirroring brings the first column last; a turn to the left brings the last
/// column to the top row, a turn to the right the last row to the left column.
pub proof fn lemma_turned_edges(x: int, y: int, w: int, h: int)
    ensures
        turned(CanvasTransform::FlipHorizontal, 0, y, w, h) == (w - 1, y),
        turned(CanvasTransform::FlipHorizontal, x, y, w, h).0 + x == w - 1,
        turned(CanvasTransform::RotateCcw, w - 1, y, w, h) == (y, 0int),
        turned(CanvasTransform::RotateCcw, x, y, w, h).1 + x == w - 1,
        turned(CanvasTransform::RotateCw, x, h - 1, w, h) == (0int, x),
        turned(CanvasTransform::RotateCw, x, y, w, h).0 + y == h - 1,
        turned_size(CanvasTransform::RotateCcw, w, h) == (h, w),
        turned_size(CanvasTransform::RotateCw, w, h) == (h, w),
        turned_size(CanvasTransform::FlipHorizontal, w, h) == (w, h),
{
}

} // verus!
