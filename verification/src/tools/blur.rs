//! Regions that hide what is beneath them.
use vstd::prelude::*;
use crate::input::{KeyEventMsg, MouseButton, MouseEventMsg, MouseEventType, KEY_ESCAPE};
use crate::math::{rect_ensure_in_bounds, rect_ensure_positive_size, Rect, Vec2D};
use crate::style::Style;
use crate::tools::arrow::{is_mapped_point, point_in};
use crate::tools::{
    bbox_handle_at, bbox_handle_order, bbox_handles, bbox_resize, is_resized, CanvasTransform,
    Handle, HandleId, HandleKind, PanelSwatch, ToolUpdateResult, Tools,
};
use crate::units::{
    input_ok, clamp_len, clamp_spec, coord_ok, max_spec, min_spec, round_px, round_px_spec, UNIT,
};

verus! {

/// How a region is obscured.
#[derive(Clone, Copy, Debug, PartialEq, Eq, Structural)]
pub enum BlurStyle {
    /// A coarse mosaic with few colors.
    Pixelate,
    /// A blur of what surrounds the region: nothing inside it shows.
    SecureBlur,
    /// A blur of the region itself, which can be undone in principle.
    Gaussian,
    /// Solid black.
    BlackOut,
}

impl Default for BlurStyle {
    fn default() -> (r: BlurStyle)
        ensures
            r == BlurStyle::Gaussian,
    {
        BlurStyle::Gaussian
    }
}

impl BlurStyle {
    /// Name shown when the style is cycled.
    pub open spec fn display_name_spec(self) -> &'static str {
        match self {
            BlurStyle::Pixelate => "Pixelate",
            BlurStyle::SecureBlur => "Secure Blur",
            BlurStyle::Gaussian => "Gaussian",
            BlurStyle::BlackOut => "Black Out",
        }
    }

    pub fn display_name(self) -> (r: &'static str)
        ensures
            r == self.display_name_spec(),
    {
        match self {
            BlurStyle::Pixelate => "Pixelate",
            BlurStyle::SecureBlur => "Secure Blur",
            BlurStyle::Gaussian => "Gaussian",
            BlurStyle::BlackOut => "Black Out",
        }
    }
}

/// One pixel.
#[derive(Clone, Copy, Debug, PartialEq, Eq, Structural)]
pub struct Rgba {
    pub r: u8,
    pub g: u8,
    pub b: u8,
    pub a: u8,
}

/// The four channels of a pixel.
#[derive(Clone, Copy, Debug, PartialEq, Eq, Structural)]
pub enum Channel {
    Red,
    Green,
    Blue,
    Alpha,
}

impl Rgba {
    /// One channel of the pixel.
    pub open spec fn get_spec(self, c: Channel) -> u8 {
        match c {
            Channel::Red => self.r,
            Channel::Green => self.g,
            Channel::Blue => self.b,
            Channel::Alpha => self.a,
        }
    }

    pub fn get(self, c: Channel) -> (r: u8)
        ensures
            r == self.get_spec(c),
    {
        match c {
            Channel::Red => self.r,
            Channel::Green => self.g,
            Channel::Blue => self.b,
            Channel::Alpha => self.a,
        }
    }
}

/// Rows above `y` and columns left of `x` come first.
pub open spec fn at(w: int, x: int, y: int) -> int {
    y * w + x
}

/// A pixel inside an image has its place inside the buffer.
pub proof fn lemma_at_in_bounds(w: int, h: int, x: int, y: int)
    requires
        0 <= x < w,
        0 <= y < h,
    ensures
        0 <= at(w, x, y) < w * h,
        0 <= y * w,
{
    assert(0 <= y * w && y * w + x < w * h) by (nonlinear_arith)
        requires
            0 <= x < w,
            0 <= y < h,
    ;
}

/// Cut down to the whole pixel at or before it.
pub open spec fn floor_px_spec(v: int) -> int {
    v / UNIT as int
}

/// Raised to the whole pixel at or after it.
pub open spec fn ceil_px_spec(v: int) -> int {
    -((-v) / UNIT as int)
}

fn floor_px(v: i64) -> (r: i64)
    requires
        -0x4000_0000_0000_0000 <= v <= 0x4000_0000_0000_0000,
    ensures
        r == floor_px_spec(v as int),
{
    if v >= 0 {
        v / UNIT
    } else {
        -((UNIT - 1 - v) / UNIT)
    }
}

fn ceil_px(v: i64) -> (r: i64)
    requires
        -0x4000_0000_0000_0000 <= v <= 0x4000_0000_0000_0000,
    ensures
        r == ceil_px_spec(v as int),
{
    -floor_px(-v)
}

/// One side of the part of a region that is on the canvas: where it starts
/// and ends, in whole pixels.
pub open spec fn region_span(origin: int, extent: int, canvas: int) -> (int, int) {
    (
        clamp_spec(floor_px_spec(origin), 0, canvas),
        clamp_spec(ceil_px_spec(origin + extent), 0, canvas),
    )
}

/// The whole pixels of a `cw` by `ch` canvas that a region covers, as left,
/// top, width and height; `None` where nothing of it is on the canvas.
pub fn canvas_region(origin: Vec2D, extent: Vec2D, cw: u32, ch: u32) -> (r: Option<
    (usize, usize, usize, usize),
>)
    requires
        origin.ok(),
        extent.ok(),
    ensures
        ({
            let (x0, x1) = region_span(origin.x as int, extent.x as int, cw as int);
            let (y0, y1) = region_span(origin.y as int, extent.y as int, ch as int);
            match r {
                Some((x, y, w, h)) => x == x0 && y == y0 && w == x1 - x0 && h == y1 - y0 && w > 0
                    && h > 0 && x + w <= cw && y + h <= ch,
                None => x1 <= x0 || y1 <= y0,
            }
        }),
{
    let x0: i64 = clamp_len(floor_px(origin.x), 0, cw as i64);
    let y0: i64 = clamp_len(floor_px(origin.y), 0, ch as i64);
    let x1: i64 = clamp_len(ceil_px(origin.x + extent.x), 0, cw as i64);
    let y1: i64 = clamp_len(ceil_px(origin.y + extent.y), 0, ch as i64);
    if x1 > x0 && y1 > y0 {
        Some((x0 as usize, y0 as usize, (x1 - x0) as usize, (y1 - y0) as usize))
    } else {
        None
    }
}

/// The region lies flush against an edge of the canvas: the fringe of one pixel
/// around it is not all on the canvas.
pub open spec fn lacks_fringe_spec(x: int, y: int, w: int, h: int, cw: int, ch: int) -> bool {
    x < 1 || y < 1 || x + w >= cw || y + h >= ch
}

/// Whether a region lies flush against an edge of the canvas, so that there is
/// no fringe to sample and a secure blur has to black it out instead.
pub fn lacks_fringe(x: usize, y: usize, w: usize, h: usize, cw: u32, ch: u32) -> (r: bool)
    requires
        x + w <= cw,
        y + h <= ch,
    ensures
        r == lacks_fringe_spec(x as int, y as int, w as int, h as int, cw as int, ch as int),
{
    x < 1 || y < 1 || (x + w) as u64 >= cw as u64 || (y + h) as u64 >= ch as u64
}

/// The fringe pixels that pixel `(x, y)` of a `w` by `h` region is filled
/// from, in a buffer that holds the region and the fringe around it.
pub open spec fn fringe(outer: Seq<Rgba>, w: int, h: int, x: int, y: int) -> (Rgba, Rgba, Rgba, Rgba) {
    (
        outer[at(w + 2, x + 1, 0)],
        outer[at(w + 2, x + 1, h + 1)],
        outer[at(w + 2, 0, y + 1)],
        outer[at(w + 2, w + 1, y + 1)],
    )
}

/// The mean of the fringe pixels above, below, left and right of `(x, y)`,
/// each weighed by how near it is.
pub open spec fn mix_spec(n: int, s: int, w_: int, e: int, x: int, y: int, w: int, h: int) -> int {
    ((n * (h - y) + s * y) * w + (w_ * (w - x) + e * x) * h) / (2 * (w * h))
}

/// What pixel `(x, y)` of a securely blurred region is filled with.
pub open spec fn secure_pixel(outer: Seq<Rgba>, w: int, h: int, x: int, y: int) -> Rgba {
    let (n, s, we, e) = fringe(outer, w, h, x, y);
    Rgba {
        r: mix_spec(n.r as int, s.r as int, we.r as int, e.r as int, x, y, w, h) as u8,
        g: mix_spec(n.g as int, s.g as int, we.g as int, e.g as int, x, y, w, h) as u8,
        b: mix_spec(n.b as int, s.b as int, we.b as int, e.b as int, x, y, w, h) as u8,
        a: 255,
    }
}

/// The mean of four channel values is a channel value.
pub proof fn lemma_mix_bound(n: int, s: int, we: int, e: int, x: int, y: int, w: int, h: int)
    requires
        0 <= n <= 255,
        0 <= s <= 255,
        0 <= we <= 255,
        0 <= e <= 255,
        0 <= x < w,
        0 <= y < h,
    ensures
        0 <= mix_spec(n, s, we, e, x, y, w, h) <= 255,
        0 <= n * (h - y) + s * y <= 255 * h,
        0 <= we * (w - x) + e * x <= 255 * w,
        0 <= (n * (h - y) + s * y) * w <= 255 * (w * h),
        0 <= (we * (w - x) + e * x) * h <= 255 * (w * h),
        w * h > 0,
{
    let p = n * (h - y) + s * y;
    let q = we * (w - x) + e * x;
    assert(0 <= p <= 255 * h) by (nonlinear_arith)
        requires
            p == n * (h - y) + s * y,
            0 <= n <= 255,
            0 <= s <= 255,
            0 <= y < h,
    ;
    assert(0 <= q <= 255 * w) by (nonlinear_arith)
        requires
            q == we * (w - x) + e * x,
            0 <= we <= 255,
            0 <= e <= 255,
            0 <= x < w,
    ;
    assert(0 <= p * w <= 255 * (w * h)) by (nonlinear_arith)
        requires
            0 <= p <= 255 * h,
            w > 0,
    ;
    assert(0 <= q * h <= 255 * (w * h)) by (nonlinear_arith)
        requires
            0 <= q <= 255 * w,
            h > 0,
    ;
    assert(w * h > 0) by (nonlinear_arith)
        requires
            w > 0,
            h > 0,
    ;
    let d = 2 * (w * h);
    let t = p * w + q * h;
    assert(0 <= t / d <= 255) by (nonlinear_arith)
        requires
            0 <= t <= 255 * d,
            d > 0,
    ;
}

fn mix(n: u8, s: u8, we: u8, e: u8, x: u32, y: u32, w: u32, h: u32) -> (r: u8)
    requires
        x < w,
        y < h,
    ensures
        r == mix_spec(n as int, s as int, we as int, e as int, x as int, y as int, w as int, h as int),
{
    proof {
        lemma_mix_bound(
            n as int,
            s as int,
            we as int,
            e as int,
            x as int,
            y as int,
            w as int,
            h as int,
        );
        assert(w * h <= 0x1_0000_0000 * 0x1_0000_0000) by (nonlinear_arith)
            requires
                0 <= w <= 0xffff_ffff,
                0 <= h <= 0xffff_ffff,
        ;
        assert(0 <= n * (h - y) <= 255 * 0xffff_ffff && 0 <= s * y <= 255 * 0xffff_ffff && 0 <= we
            * (w - x) <= 255 * 0xffff_ffff && 0 <= e * x <= 255 * 0xffff_ffff) by (nonlinear_arith)
            requires
                0 <= n <= 255,
                0 <= s <= 255,
                0 <= we <= 255,
                0 <= e <= 255,
                0 <= x < w <= 0xffff_ffff,
                0 <= y < h <= 0xffff_ffff,
        ;
    }
    let p: u128 = n as u128 * (h - y) as u128 + s as u128 * y as u128;
    let q: u128 = we as u128 * (w - x) as u128 + e as u128 * x as u128;
    let d: u128 = 2 * (w as u128 * h as u128);
    ((p * w as u128 + q * h as u128) / d) as u8
}

/// Fills a region from the one pixel wide fringe around it. `outer` holds the
/// region with its fringe, row by row; nothing of the region itself is read.
pub fn secure_fill(outer: &Vec<Rgba>, width: u32, height: u32) -> (r: Vec<Rgba>)
    requires
        0 < width <= 0x7fff_0000,
        0 < height <= 0x7fff_0000,
        outer@.len() == (width + 2) * (height + 2),
    ensures
        r@.len() == width * height,
        forall|x: int, y: int|
            0 <= x < width && 0 <= y < height ==> #[trigger] r@[at(width as int, x, y)]
                == secure_pixel(outer@, width as int, height as int, x, y),
{
    let len: usize = outer.len();
    let ow: usize = width as usize + 2;
    let w: usize = width as usize;
    let h: usize = height as usize;
    let mut out: Vec<Rgba> = Vec::new();
    let mut y: usize = 0;
    while y < h
        invariant
            0 < width <= 0x7fff_0000,
            0 < height <= 0x7fff_0000,
            w == width,
            h == height,
            ow == width + 2,
            outer@.len() == (width + 2) * (height + 2),
            len == outer@.len(),
            y <= h,
            out@.len() == y * w,
            forall|i: int, j: int|
                0 <= i < w && 0 <= j < y ==> #[trigger] out@[at(w as int, i, j)] == secure_pixel(
                    outer@,
                    w as int,
                    h as int,
                    i,
                    j,
                ),
        decreases h - y,
    {
        let mut x: usize = 0;
        while x < w
            invariant
                0 < width <= 0x7fff_0000,
                0 < height <= 0x7fff_0000,
                w == width,
                h == height,
                ow == width + 2,
                outer@.len() == (width + 2) * (height + 2),
                len == outer@.len(),
                y < h,
                x <= w,
                out@.len() == y * w + x,
                forall|i: int, j: int|
                    0 <= i < w && 0 <= j < y ==> #[trigger] out@[at(w as int, i, j)]
                        == secure_pixel(outer@, w as int, h as int, i, j),
                forall|i: int|
                    0 <= i < x ==> #[trigger] out@[at(w as int, i, y as int)] == secure_pixel(
                        outer@,
                        w as int,
                        h as int,
                        i,
                        y as int,
                    ),
            decreases w - x,
        {
            proof {
                lemma_at_in_bounds(ow as int, h + 2, x + 1, 0);
                lemma_at_in_bounds(ow as int, h + 2, x + 1, h + 1);
                lemma_at_in_bounds(ow as int, h + 2, 0, y + 1);
                lemma_at_in_bounds(ow as int, h + 2, w + 1, y + 1);
                assert(at(ow as int, x + 1, 0) == x + 1) by (nonlinear_arith)
                    requires
                        at(ow as int, x + 1, 0) == 0 * ow + (x + 1),
                ;
            }
            let pn: Rgba = outer[1 + x];
            let ps: Rgba = outer[(h + 1) * ow + (1 + x)];
            let pw: Rgba = outer[(y + 1) * ow];
            let pe: Rgba = outer[(y + 1) * ow + (w + 1)];
            let (xx, yy): (u32, u32) = (x as u32, y as u32);
            let pixel = Rgba {
                r: mix(pn.r, ps.r, pw.r, pe.r, xx, yy, width, height),
                g: mix(pn.g, ps.g, pw.g, pe.g, xx, yy, width, height),
                b: mix(pn.b, ps.b, pw.b, pe.b, xx, yy, width, height),
                a: 255,
            };
            let ghost before = out@;
            out.push(pixel);
            proof {
                assert(pixel == secure_pixel(outer@, w as int, h as int, x as int, y as int));
                assert forall|i: int, j: int| 0 <= i < w && 0 <= j < y implies #[trigger] out@[at(
                    w as int,
                    i,
                    j,
                )] == secure_pixel(outer@, w as int, h as int, i, j) by {
                    lemma_at_in_bounds(w as int, y as int, i, j);
                    assert(y * w == w * y) by (nonlinear_arith);
                    assert(out@[at(w as int, i, j)] == before[at(w as int, i, j)]);
                }
                assert forall|i: int| 0 <= i < x + 1 implies #[trigger] out@[at(w as int, i, y as int)]
                    == secure_pixel(outer@, w as int, h as int, i, y as int) by {
                    if i < x {
                        assert(out@[at(w as int, i, y as int)] == before[at(w as int, i, y as int)]);
                    }
                }
            }
            x = x + 1;
        }
        proof {
            assert((y + 1) * w == y * w + w) by (nonlinear_arith);
        }
        y = y + 1;
    }
    proof {
        assert(h * w == width * height) by (nonlinear_arith)
            requires
                h == height,
                w == width,
        ;
    }
    out
}

/// Nothing of the original content reaches a securely blurred region: two
/// images with the same fringe are filled the same way.
pub proof fn lemma_secure_fill_ignores_content(a: Seq<Rgba>, b: Seq<Rgba>, w: int, h: int, x: int, y: int)
    requires
        0 <= x < w,
        0 <= y < h,
        forall|i: int, j: int|
            0 <= i < w + 2 && 0 <= j < h + 2 && (i == 0 || i == w + 1 || j == 0 || j == h + 1)
                ==> #[trigger] a[at(w + 2, i, j)] == b[at(w + 2, i, j)],
    ensures
        secure_pixel(a, w, h, x, y) == secure_pixel(b, w, h, x, y),
{
    assert(a[at(w + 2, x + 1, 0)] == b[at(w + 2, x + 1, 0)]);
    assert(a[at(w + 2, x + 1, h + 1)] == b[at(w + 2, x + 1, h + 1)]);
    assert(a[at(w + 2, 0, y + 1)] == b[at(w + 2, 0, y + 1)]);
    assert(a[at(w + 2, w + 1, y + 1)] == b[at(w + 2, w + 1, y + 1)]);
}

/// Sum of a channel over the pixels `x0..x1` of a row.
pub open spec fn row_sum(src: Seq<Rgba>, w: int, y: int, x0: int, x1: int, c: Channel) -> int
    decreases x1 - x0,
{
    if x1 <= x0 {
        0
    } else {
        row_sum(src, w, y, x0, x1 - 1, c) + src[at(w, x1 - 1, y)].get_spec(c)
    }
}

/// Sum of a channel over the pixels `x0..x1` of the rows `y0..y1`.
pub open spec fn block_sum(src: Seq<Rgba>, w: int, x0: int, x1: int, y0: int, y1: int, c: Channel) -> int
    decreases y1 - y0,
{
    if y1 <= y0 {
        0
    } else {
        block_sum(src, w, x0, x1, y0, y1 - 1, c) + row_sum(src, w, y1 - 1, x0, x1, c)
    }
}

proof fn lemma_row_sum_bound(src: Seq<Rgba>, w: int, y: int, x0: int, x1: int, c: Channel)
    requires
        x0 <= x1,
    ensures
        0 <= row_sum(src, w, y, x0, x1, c) <= 255 * (x1 - x0),
    decreases x1 - x0,
{
    if x1 > x0 {
        lemma_row_sum_bound(src, w, y, x0, x1 - 1, c);
    }
}

proof fn lemma_block_sum_bound(src: Seq<Rgba>, w: int, x0: int, x1: int, y0: int, y1: int, c: Channel)
    requires
        x0 <= x1,
        y0 <= y1,
    ensures
        0 <= block_sum(src, w, x0, x1, y0, y1, c) <= 255 * ((y1 - y0) * (x1 - x0)),
    decreases y1 - y0,
{
    if y1 > y0 {
        lemma_block_sum_bound(src, w, x0, x1, y0, y1 - 1, c);
        lemma_row_sum_bound(src, w, y1 - 1, x0, x1, c);
        assert((y1 - y0) * (x1 - x0) == (y1 - 1 - y0) * (x1 - x0) + (x1 - x0)) by (nonlinear_arith);
    }
}

/// A channel value cut to its four high bits, spread over the whole range.
pub open spec fn quantized(c: int) -> int {
    (c / 16) * 17
}

/// Keeps the four high bits of a channel value and repeats them below.
pub fn quantize(c: u8) -> (r: u8)
    ensures
        r == quantized(c as int),
{
    assert((c & 0xF0) | (c >> 4) == (c / 16) * 17) by (bit_vector);
    (c & 0xF0) | (c >> 4)
}

/// A quantized channel has one of sixteen values, and quantizing it again
/// changes nothing.
pub proof fn lemma_quantized_levels(c: int)
    requires
        0 <= c <= 255,
    ensures
        0 <= quantized(c) <= 255,
        quantized(c) % 17 == 0,
        quantized(quantized(c)) == quantized(c),
{
}

/// How many cells cover `n` pixels.
pub open spec fn cells(n: int, cell: int) -> int {
    (n + cell - 1) / cell
}

fn div_ceil(n: u32, cell: u32) -> (r: u32)
    requires
        cell >= 1,
    ensures
        r == cells(n as int, cell as int),
        r <= n,
        n > 0 ==> r > 0,
        n > 0 ==> (r - 1) * cell < n <= r * cell,
{
    let r: u64 = (n as u64 + (cell as u64 - 1)) / cell as u64;
    proof {
        let t = n as int + cell as int - 1;
        vstd::arithmetic::div_mod::lemma_fundamental_div_mod(t, cell as int);
        let q = t / cell as int;
        let m = t % cell as int;
        assert(t == cell as int * q + m && 0 <= m < cell as int);
        assert((q - 1) * cell as int == cell as int * q - cell as int) by (nonlinear_arith);
        assert(q * cell as int == cell as int * q) by (nonlinear_arith);
        assert(n as int <= q * cell as int);
        assert(q >= 0 && (n > 0 ==> q > 0)) by (nonlinear_arith)
            requires
                n as int <= q * cell as int,
                cell >= 1,
                n >= 0,
        ;
        assert(q <= n as int) by (nonlinear_arith)
            requires
                (q - 1) * cell as int <= n as int - 1,
                cell >= 1,
                n >= 0,
        ;
    }
    r as u32
}

/// The mean of a channel over one cell of the mosaic, quantized.
pub open spec fn cell_value(src: Seq<Rgba>, w: int, h: int, cell: int, dx: int, dy: int, c: Channel) -> int {
    let x0 = dx * cell;
    let y0 = dy * cell;
    let x1 = min_spec(x0 + cell, w);
    let y1 = min_spec(y0 + cell, h);
    quantized(block_sum(src, w, x0, x1, y0, y1, c) / ((y1 - y0) * (x1 - x0)))
}

/// One cell of the mosaic.
pub open spec fn cell_pixel(src: Seq<Rgba>, w: int, h: int, cell: int, dx: int, dy: int) -> Rgba {
    Rgba {
        r: cell_value(src, w, h, cell, dx, dy, Channel::Red) as u8,
        g: cell_value(src, w, h, cell, dx, dy, Channel::Green) as u8,
        b: cell_value(src, w, h, cell, dx, dy, Channel::Blue) as u8,
        a: cell_value(src, w, h, cell, dx, dy, Channel::Alpha) as u8,
    }
}

/// The mean of a channel over a block of pixels, quantized.
fn block_value(src: &Vec<Rgba>, w: usize, h: usize, x0: usize, x1: usize, y0: usize, y1: usize, c: Channel) -> (r:
    u8)
    requires
        src@.len() == w * h,
        w <= u32::MAX,
        h <= u32::MAX,
        x0 < x1 <= w,
        y0 < y1 <= h,
    ensures
        r == quantized(
            block_sum(src@, w as int, x0 as int, x1 as int, y0 as int, y1 as int, c) / ((y1 - y0)
                * (x1 - x0)),
        ),
{
    let len: usize = src.len();
    let mut sum: u128 = 0;
    let mut sy: usize = y0;
    while sy < y1
        invariant
            src@.len() == w * h,
            len == src@.len(),
            w <= u32::MAX,
            h <= u32::MAX,
            x0 < x1 <= w,
            y0 <= sy <= y1 <= h,
            sum == block_sum(src@, w as int, x0 as int, x1 as int, y0 as int, sy as int, c),
        decreases y1 - sy,
    {
        proof {
            lemma_at_in_bounds(w as int, h as int, 0, sy as int);
            lemma_block_sum_bound(src@, w as int, x0 as int, x1 as int, y0 as int, sy as int, c);
            assert((sy - y0) * (x1 - x0) <= 0xffff_ffff * 0xffff_ffff) by (nonlinear_arith)
                requires
                    0 <= sy - y0 <= 0xffff_ffff,
                    0 <= x1 - x0 <= 0xffff_ffff,
            ;
        }
        let row: usize = sy * w;
        let mut part: u128 = 0;
        let mut sx: usize = x0;
        while sx < x1
            invariant
                src@.len() == w * h,
                len == src@.len(),
                w <= u32::MAX,
                h <= u32::MAX,
                x0 <= sx <= x1 <= w,
                sy < h,
                row == sy * w,
                part == row_sum(src@, w as int, sy as int, x0 as int, sx as int, c),
            decreases x1 - sx,
        {
            proof {
                lemma_at_in_bounds(w as int, h as int, sx as int, sy as int);
                lemma_row_sum_bound(src@, w as int, sy as int, x0 as int, sx as int, c);
            }
            let p: Rgba = src[row + sx];
            part = part + p.get(c) as u128;
            sx = sx + 1;
        }
        proof {
            lemma_row_sum_bound(src@, w as int, sy as int, x0 as int, x1 as int, c);
        }
        sum = sum + part;
        sy = sy + 1;
    }
    proof {
        lemma_block_sum_bound(src@, w as int, x0 as int, x1 as int, y0 as int, y1 as int, c);
        let n = (y1 - y0) * (x1 - x0);
        assert(0 < n <= 0xffff_ffff * 0xffff_ffff) by (nonlinear_arith)
            requires
                n == (y1 - y0) * (x1 - x0),
                0 < y1 - y0 <= 0xffff_ffff,
                0 < x1 - x0 <= 0xffff_ffff,
        ;
        assert(0 <= sum as int / n <= 255) by (nonlinear_arith)
            requires
                0 <= sum <= 255 * n,
                n > 0,
        ;
    }
    let count: u128 = (y1 - y0) as u128 * (x1 - x0) as u128;
    quantize((sum / count) as u8)
}

/// A mosaic of a `src_w` by `src_h` image: one pixel for every cell of `cell`
/// by `cell` pixels, the mean of that cell with four bits per channel. Returns
/// the pixels row by row, and how many cells there are across and down.
pub fn pixelate(src: &Vec<Rgba>, src_w: u32, src_h: u32, cell: u32) -> (r: (Vec<Rgba>, u32, u32))
    requires
        src@.len() == src_w * src_h,
        src_w > 0,
        src_h > 0,
        cell >= 1,
    ensures
        r.1 == cells(src_w as int, cell as int),
        r.2 == cells(src_h as int, cell as int),
        r.0@.len() == r.1 * r.2,
        forall|dx: int, dy: int|
            0 <= dx < r.1 && 0 <= dy < r.2 ==> #[trigger] r.0@[at(r.1 as int, dx, dy)] == cell_pixel(
                src@,
                src_w as int,
                src_h as int,
                cell as int,
                dx,
                dy,
            ),
{
    let len: usize = src.len();
    let dst_w: u32 = div_ceil(src_w, cell);
    let dst_h: u32 = div_ceil(src_h, cell);
    let mut down: Vec<Rgba> = Vec::new();
    let mut dy: u32 = 0;
    while dy < dst_h
        invariant
            src@.len() == src_w * src_h,
            src_w > 0,
            src_h > 0,
            cell >= 1,
            dst_w > 0,
            (dst_w - 1) * cell < src_w,
            (dst_h - 1) * cell < src_h,
            dy <= dst_h,
            down@.len() == dy * dst_w,
            forall|i: int, j: int|
                0 <= i < dst_w && 0 <= j < dy ==> #[trigger] down@[at(dst_w as int, i, j)]
                    == cell_pixel(src@, src_w as int, src_h as int, cell as int, i, j),
        decreases dst_h - dy,
    {
        let mut dx: u32 = 0;
        while dx < dst_w
            invariant
                src@.len() == src_w * src_h,
                src_w > 0,
                src_h > 0,
                cell >= 1,
                (dst_w - 1) * cell < src_w,
                (dst_h - 1) * cell < src_h,
                dy < dst_h,
                dx <= dst_w,
                down@.len() == dy * dst_w + dx,
                forall|i: int, j: int|
                    0 <= i < dst_w && 0 <= j < dy ==> #[trigger] down@[at(dst_w as int, i, j)]
                        == cell_pixel(src@, src_w as int, src_h as int, cell as int, i, j),
                forall|i: int|
                    0 <= i < dx ==> #[trigger] down@[at(dst_w as int, i, dy as int)] == cell_pixel(
                        src@,
                        src_w as int,
                        src_h as int,
                        cell as int,
                        i,
                        dy as int,
                    ),
            decreases dst_w - dx,
        {
            let ghost before = down@;
            let pixel: Rgba = mosaic_cell(src, src_w, src_h, cell, dx, dy, Ghost((dst_w as int, dst_h as int)));
            down.push(pixel);
            proof {
                assert forall|i: int, j: int| 0 <= i < dst_w && 0 <= j < dy implies #[trigger] down@[at(
                    dst_w as int,
                    i,
                    j,
                )] == cell_pixel(src@, src_w as int, src_h as int, cell as int, i, j) by {
                    lemma_at_in_bounds(dst_w as int, dy as int, i, j);
                    assert(dy * dst_w == dst_w * dy) by (nonlinear_arith);
                    assert(down@[at(dst_w as int, i, j)] == before[at(dst_w as int, i, j)]);
                }
                assert forall|i: int| 0 <= i < dx + 1 implies #[trigger] down@[at(
                    dst_w as int,
                    i,
                    dy as int,
                )] == cell_pixel(src@, src_w as int, src_h as int, cell as int, i, dy as int) by {
                    if i < dx {
                        assert(down@[at(dst_w as int, i, dy as int)] == before[at(
                            dst_w as int,
                            i,
                            dy as int,
                        )]);
                    }
                }
            }
            dx = dx + 1;
        }
        proof {
            assert((dy + 1) * dst_w == dy * dst_w + dst_w) by (nonlinear_arith);
        }
        dy = dy + 1;
    }
    proof {
        assert(dst_h * dst_w == dst_w * dst_h) by (nonlinear_arith);
    }
    (down, dst_w, dst_h)
}

/// One cell of the mosaic.
fn mosaic_cell(
    src: &Vec<Rgba>,
    src_w: u32,
    src_h: u32,
    cell: u32,
    dx: u32,
    dy: u32,
    Ghost(dst): Ghost<(int, int)>,
) -> (r: Rgba)
    requires
        src@.len() == src_w * src_h,
        cell >= 1,
        dx < dst.0,
        dy < dst.1,
        (dst.0 - 1) * cell < src_w,
        (dst.1 - 1) * cell < src_h,
    ensures
        r == cell_pixel(src@, src_w as int, src_h as int, cell as int, dx as int, dy as int),
{
    proof {
        assert(0 <= dx * cell <= (dst.0 - 1) * cell) by (nonlinear_arith)
            requires
                0 <= dx <= dst.0 - 1,
                cell >= 1,
        ;
        assert(0 <= dy * cell <= (dst.1 - 1) * cell) by (nonlinear_arith)
            requires
                0 <= dy <= dst.1 - 1,
                cell >= 1,
        ;
    }
    let x0: u64 = dx as u64 * cell as u64;
    let y0: u64 = dy as u64 * cell as u64;
    let x1: u64 = if x0 + cell as u64 <= src_w as u64 {
        x0 + cell as u64
    } else {
        src_w as u64
    };
    let y1: u64 = if y0 + cell as u64 <= src_h as u64 {
        y0 + cell as u64
    } else {
        src_h as u64
    };
    let (w, h): (usize, usize) = (src_w as usize, src_h as usize);
    let (a, b): (usize, usize) = (x0 as usize, x1 as usize);
    let (c, d): (usize, usize) = (y0 as usize, y1 as usize);
    Rgba {
        r: block_value(src, w, h, a, b, c, d, Channel::Red),
        g: block_value(src, w, h, a, b, c, d, Channel::Green),
        b: block_value(src, w, h, a, b, c, d, Channel::Blue),
        a: block_value(src, w, h, a, b, c, d, Channel::Alpha),
    }
}

/// Side of a mosaic cell in whole canvas pixels, at least two. The cell is
/// given on the canvas too, so that the blocks look the same at every zoom.
pub fn canvas_cell(cell: i64) -> (r: u32)
    requires
        0 <= cell <= 0x1_0000_0000_0000,
        round_px_spec(cell as int) <= u32::MAX,
    ensures
        r == max_spec(round_px_spec(cell as int), 2),
{
    let n: i64 = round_px(cell);
    if n >= 2 {
        n as u32
    } else {
        2
    }
}

/// A region that hides what is beneath it; without a size it is not there
/// yet.
#[derive(Debug)]
pub struct Blur {
    pub top_left: Vec2D,
    pub size: Option<Vec2D>,
    pub style: Style,
    pub blur_style: BlurStyle,
    pub editing: bool,
    /// The image of the obscured region, once it was made.
    pub cached_image: Option<u64>,
}

/// A copy lies over other pixels, so it starts without an image.
impl Clone for Blur {
    fn clone(&self) -> (r: Blur)
        ensures
            r == (Blur { cached_image: None, ..*self }),
    {
        Blur {
            top_left: self.top_left,
            size: self.size,
            style: self.style,
            blur_style: self.blur_style,
            editing: self.editing,
            cached_image: None,
        }
    }
}

/// What to paint for a blur.
#[derive(Clone, Copy, Debug, PartialEq, Eq, Structural)]
pub enum BlurPlan {
    Nothing,
    /// A translucent veil while the region is being dragged out.
    Veil(Vec2D, Vec2D),
    /// Solid black.
    Black(Vec2D, Vec2D),
    /// The image made earlier.
    Cached(u64, Vec2D, Vec2D),
    /// A new image, made in this style.
    Resample(BlurStyle, Vec2D, Vec2D),
}

impl Blur {
    /// Corner and size are coordinates that came from outside.
    pub open spec fn ok(&self) -> bool {
        &&& point_in(self.top_left)
        &&& self.size matches Some(s) ==> point_in(s)
    }

    /// Gives the image back for deletion, if there is one.
    pub open spec fn freed(self, before: Seq<u64>) -> Seq<u64> {
        match self.cached_image {
            Some(id) => before.push(id),
            None => before,
        }
    }

    /// Drops the image and queues it for deletion.
    pub fn invalidate_cache(&mut self, deleted: &mut Vec<u64>)
        ensures
            *final(self) == (Blur { cached_image: None, ..*old(self) }),
            final(deleted)@ == old(self).freed(old(deleted)@),
    {
        if let Some(id) = self.cached_image {
            deleted.push(id);
            self.cached_image = None;
        }
    }

    /// `(pos, size)` is the part of the region between the corners `lo` and
    /// `hi` of the canvas.
    pub open spec fn is_visible_part(&self, lo: Vec2D, hi: Vec2D, pos: Vec2D, size: Vec2D) -> bool {
        let s = self.size->0;
        let left = min_spec(self.top_left.x as int, self.top_left.x + s.x);
        let top = min_spec(self.top_left.y as int, self.top_left.y + s.y);
        let right = max_spec(self.top_left.x as int, self.top_left.x + s.x);
        let bottom = max_spec(self.top_left.y as int, self.top_left.y + s.y);
        &&& pos.x == max_spec(left, lo.x as int)
        &&& pos.y == max_spec(top, lo.y as int)
        &&& pos.x + size.x == min_spec(right, hi.x as int)
        &&& pos.y + size.y == min_spec(bottom, hi.y as int)
    }

    /// What has to be painted between the corners `lo` and `hi` of the canvas.
    pub fn draw_plan(&self, lo: Vec2D, hi: Vec2D) -> (r: BlurPlan)
        requires
            self.ok(),
            lo.ok(),
            hi.ok(),
        ensures
            self.size is None ==> r == BlurPlan::Nothing,
            self.size is Some ==> exists|pos: Vec2D, size: Vec2D| #[trigger]
                self.is_visible_part(lo, hi, pos, size) && r == if self.editing {
                    BlurPlan::Veil(pos, size)
                } else if size.x <= 0 || size.y <= 0 {
                    BlurPlan::Nothing
                } else if self.blur_style == BlurStyle::BlackOut {
                    BlurPlan::Black(pos, size)
                } else {
                    match self.cached_image {
                        Some(id) => BlurPlan::Cached(id, pos, size),
                        None => BlurPlan::Resample(self.blur_style, pos, size),
                    }
                },
    {
        let Some(size) = self.size else {
            return BlurPlan::Nothing;
        };
        let (pos0, size0): (Vec2D, Vec2D) = rect_ensure_positive_size(self.top_left, size);
        let (pos, size): (Vec2D, Vec2D) = rect_ensure_in_bounds(pos0, size0, lo, hi);
        assert(self.is_visible_part(lo, hi, pos, size));
        if self.editing {
            return BlurPlan::Veil(pos, size);
        }
        if size.x <= 0 || size.y <= 0 {
            return BlurPlan::Nothing;
        }
        if self.blur_style == BlurStyle::BlackOut {
            return BlurPlan::Black(pos, size);
        }
        match self.cached_image {
            Some(id) => BlurPlan::Cached(id, pos, size),
            None => BlurPlan::Resample(self.blur_style, pos, size),
        }
    }

    pub fn bounds(&self) -> (r: Option<Rect>)
        ensures
            r == match self.size {
                Some(s) => Some(Rect { pos: self.top_left, size: s }),
                None => None,
            },
    {
        match self.size {
            Some(s) => Some(Rect::new(self.top_left, s)),
            None => None,
        }
    }

    /// Whether `point` is on the region, give or take `tolerance`.
    pub fn hit_test(&self, point: Vec2D, tolerance: i64) -> (r: bool)
        requires
            point_in(self.top_left),
            self.size matches Some(s) ==> point_in(s),
            input_ok(tolerance as int),
        ensures
            r == match self.size {
                Some(s) => self.top_left.x - tolerance <= point.x <= self.top_left.x + s.x + tolerance
                    && self.top_left.y - tolerance <= point.y <= self.top_left.y + s.y + tolerance,
                None => false,
            },
    {
        match self.size {
            Some(s) => Rect::new(self.top_left, s).inflated(tolerance).contains(point),
            None => false,
        }
    }

    /// Moves the region; its image is no longer right.
    pub fn translate(&mut self, delta: Vec2D, deleted: &mut Vec<u64>)
        requires
            i64::MIN <= old(self).top_left.x + delta.x <= i64::MAX,
            i64::MIN <= old(self).top_left.y + delta.y <= i64::MAX,
        ensures
            final(self).top_left.x == old(self).top_left.x + delta.x,
            final(self).top_left.y == old(self).top_left.y + delta.y,
            *final(self) == (Blur {
                top_left: final(self).top_left,
                cached_image: None,
                ..*old(self)
            }),
            final(deleted)@ == old(self).freed(old(deleted)@),
    {
        self.top_left = self.top_left.plus(delta);
        self.invalidate_cache(deleted);
    }

    /// Moves the region along with a transform of the whole canvas.
    pub fn apply_canvas_transform(&mut self, t: CanvasTransform, w: i64, h: i64, deleted: &mut Vec<u64>)
        requires
            old(self).ok(),
            t.wf(),
            coord_ok(w as int),
            coord_ok(h as int),
            t.fits(old(self).top_left.x as int, old(self).top_left.y as int),
            old(self).size matches Some(s) ==> t.fits(
                old(self).top_left.x + s.x,
                old(self).top_left.y + s.y,
            ),
        ensures
            final(deleted)@ == old(self).freed(old(deleted)@),
            *final(self) == (Blur {
                top_left: final(self).top_left,
                size: final(self).size,
                cached_image: None,
                ..*old(self)
            }),
            match (old(self).size, final(self).size) {
                (Some(s), Some(s2)) => t.is_mapped_rect(
                    Rect { pos: old(self).top_left, size: s },
                    w as int,
                    h as int,
                    Rect { pos: final(self).top_left, size: s2 },
                ),
                (None, None) => is_mapped_point(
                    t,
                    old(self).top_left,
                    w as int,
                    h as int,
                    final(self).top_left,
                ),
                _ => false,
            },
    {
        if let Some(size) = self.size {
            let r: Rect = t.map_rect(Rect::new(self.top_left, size), w, h);
            self.top_left = r.pos;
            self.size = Some(r.size);
        } else {
            self.top_left = t.map_point(self.top_left, w, h);
        }
        self.invalidate_cache(deleted);
    }

    /// The eight handles of the box.
    pub fn handles(&self, hit_radius: i64) -> (r: Vec<Handle>)
        requires
            self.ok(),
        ensures
            self.size is None ==> r@.len() == 0,
            self.size matches Some(s) ==> r@.len() == 8 && forall|i: int|
                0 <= i < 8 ==> {
                    &&& (#[trigger] r@[i]).id == bbox_handle_order()[i]
                    &&& bbox_handle_at(
                        Rect { pos: self.top_left, size: s },
                        r@[i].id,
                        r@[i].pos,
                    )
                    &&& r@[i].hit_radius == hit_radius
                    &&& r@[i].kind == HandleKind::Round
                },
    {
        match self.bounds() {
            Some(b) => bbox_handles(b, hit_radius),
            None => Vec::new(),
        }
    }

    /// Resizes the region by a handle of its box.
    pub fn move_handle(&mut self, handle: HandleId, to: Vec2D, deleted: &mut Vec<u64>)
        requires
            old(self).ok(),
            to.ok(),
        ensures
            old(self).size is None ==> *final(self) == *old(self) && final(deleted)@ == old(deleted)@,
            old(self).size matches Some(s) ==> {
                &&& final(deleted)@ == old(self).freed(old(deleted)@)
                &&& final(self).size matches Some(s2)
                &&& *final(self) == (Blur {
                    top_left: final(self).top_left,
                    size: Some(s2),
                    cached_image: None,
                    ..*old(self)
                })
                &&& handle.is_box_handle() ==> is_resized(
                    Rect { pos: old(self).top_left, size: s },
                    handle,
                    to,
                    Rect { pos: final(self).top_left, size: s2 },
                )
                &&& !handle.is_box_handle() ==> final(self).top_left == old(self).top_left && s2
                    == s
            },
    {
        let Some(cur) = self.bounds() else {
            return ;
        };
        let new: Rect = bbox_resize(cur, handle, to);
        self.top_left = new.pos;
        self.size = Some(new.size);
        self.invalidate_cache(deleted);
    }

    /// The style sets how strong the blur is.
    pub fn set_style(&mut self, style: Style, deleted: &mut Vec<u64>)
        ensures
            *final(self) == (Blur { style, cached_image: None, ..*old(self) }),
            final(deleted)@ == old(self).freed(old(deleted)@),
    {
        self.style = style;
        self.invalidate_cache(deleted);
    }

    pub fn style(&self) -> (r: Option<Style>)
        ensures
            r == Some(self.style),
    {
        Some(self.style)
    }

    pub fn blur_style(&self) -> (r: Option<BlurStyle>)
        ensures
            r == Some(self.blur_style),
    {
        Some(self.blur_style)
    }

    pub fn set_blur_style_on_drawable(&mut self, style: BlurStyle, deleted: &mut Vec<u64>)
        ensures
            *final(self) == (Blur { blur_style: style, cached_image: None, ..*old(self) }),
            final(deleted)@ == old(self).freed(old(deleted)@),
    {
        self.blur_style = style;
        self.invalidate_cache(deleted);
    }

    pub fn tool_type(&self) -> (r: Option<Tools>)
        ensures
            r == Some(Tools::Blur),
    {
        Some(Tools::Blur)
    }

    pub fn kind_label(&self) -> (r: &'static str)
        ensures
            r == "Blur",
    {
        "Blur"
    }

    pub fn icon_name(&self) -> (r: &'static str)
        ensures
            r == match self.blur_style {
                BlurStyle::Pixelate => "tetris-app-regular",
                BlurStyle::SecureBlur => "shield-lock-regular",
                BlurStyle::Gaussian => "drop-regular",
                BlurStyle::BlackOut => "weather-moon-regular",
            },
    {
        match self.blur_style {
            BlurStyle::Pixelate => "tetris-app-regular",
            BlurStyle::SecureBlur => "shield-lock-regular",
            BlurStyle::Gaussian => "drop-regular",
            BlurStyle::BlackOut => "weather-moon-regular",
        }
    }

    /// Name of its kind in the layer list.
    pub fn panel_label_kind(&self) -> (r: String)
        ensures
            r@ == (match self.blur_style {
                BlurStyle::Pixelate => "Pixelate Blur"@,
                BlurStyle::SecureBlur => "Secure Blur"@,
                BlurStyle::Gaussian => "Gaussian Blur"@,
                BlurStyle::BlackOut => "Black Out"@,
            }),
    {
        match self.blur_style {
            BlurStyle::Pixelate => "Pixelate Blur".to_owned(),
            BlurStyle::SecureBlur => "Secure Blur".to_owned(),
            BlurStyle::Gaussian => "Gaussian Blur".to_owned(),
            BlurStyle::BlackOut => "Black Out".to_owned(),
        }
    }

    pub fn panel_swatch(&self) -> (r: PanelSwatch)
        ensures
            r == PanelSwatch::Checkerboard,
    {
        PanelSwatch::Checkerboard
    }
}

/// Draws regions that hide what is beneath them.
#[derive(Debug)]
pub struct BlurTool {
    pub blur: Option<Blur>,
    pub style: Style,
    pub blur_style: BlurStyle,
    pub input_enabled: bool,
}

impl BlurTool {
    /// What a pointer event makes of the tool, and what it asks for.
    pub open spec fn mouse_step(self, event: MouseEventMsg) -> (BlurTool, ToolUpdateResult<Blur>) {
        let still = event.pos == (Vec2D { x: 0, y: 0 });
        if event.button == MouseButton::Middle {
            (self, ToolUpdateResult::Unmodified)
        } else {
            match (event.type_, self.blur) {
                (MouseEventType::BeginDrag, _) => (
                    BlurTool {
                        blur: Some(
                            Blur {
                                top_left: event.pos,
                                size: None,
                                style: self.style,
                                blur_style: self.blur_style,
                                editing: true,
                                cached_image: None,
                            },
                        ),
                        ..self
                    },
                    ToolUpdateResult::Redraw,
                ),
                (MouseEventType::UpdateDrag, Some(b)) => if still {
                    (self, ToolUpdateResult::Unmodified)
                } else {
                    (
                        BlurTool { blur: Some(Blur { size: Some(event.pos), ..b }), ..self },
                        ToolUpdateResult::Redraw,
                    )
                },
                (MouseEventType::EndDrag, Some(b)) => (
                    BlurTool { blur: None, ..self },
                    if still {
                        ToolUpdateResult::Redraw
                    } else {
                        ToolUpdateResult::Commit(
                            Blur {
                                size: Some(event.pos),
                                editing: false,
                                cached_image: None,
                                ..b
                            },
                        )
                    },
                ),
                _ => (self, ToolUpdateResult::Unmodified),
            }
        }
    }

    pub fn handle_mouse_event(&mut self, event: MouseEventMsg) -> (r: ToolUpdateResult<Blur>)
        ensures
            (*final(self), r) == old(self).mouse_step(event),
    {
        if event.button == MouseButton::Middle {
            return ToolUpdateResult::Unmodified;
        }
        match event.type_ {
            MouseEventType::BeginDrag => {
                self.blur = Some(
                    Blur {
                        top_left: event.pos,
                        size: None,
                        style: self.style,
                        blur_style: self.blur_style,
                        editing: true,
                        cached_image: None,
                    },
                );
                ToolUpdateResult::Redraw
            },
            MouseEventType::EndDrag => {
                match self.blur.take() {
                    Some(b) => {
                        if event.pos == Vec2D::zero() {
                            ToolUpdateResult::Redraw
                        } else {
                            let mut done = b.clone();
                            done.size = Some(event.pos);
                            done.editing = false;
                            ToolUpdateResult::Commit(done)
                        }
                    },
                    None => ToolUpdateResult::Unmodified,
                }
            },
            MouseEventType::UpdateDrag => {
                match self.blur.take() {
                    Some(b) => {
                        if event.pos == Vec2D::zero() {
                            self.blur = Some(b);
                            return ToolUpdateResult::Unmodified;
                        }
                        let mut next = b;
                        next.size = Some(event.pos);
                        self.blur = Some(next);
                        ToolUpdateResult::Redraw
                    },
                    None => ToolUpdateResult::Unmodified,
                }
            },
            _ => ToolUpdateResult::Unmodified,
        }
    }

    /// Escape drops the region being drawn.
    pub fn handle_key_event(&mut self, event: KeyEventMsg) -> (r: ToolUpdateResult<Blur>)
        ensures
            event.key.0 == KEY_ESCAPE && old(self).blur is Some ==> r == ToolUpdateResult::<
                Blur,
            >::Redraw && *final(self) == (BlurTool { blur: None, ..*old(self) }),
            !(event.key.0 == KEY_ESCAPE && old(self).blur is Some) ==> r == ToolUpdateResult::<
                Blur,
            >::Unmodified && *final(self) == *old(self),
    {
        if event.key.0 == KEY_ESCAPE && self.blur.is_some() {
            self.blur = None;
            ToolUpdateResult::Redraw
        } else {
            ToolUpdateResult::Unmodified
        }
    }

    /// New regions get `style`.
    pub fn handle_style_event(&mut self, style: Style) -> (r: ToolUpdateResult<Blur>)
        ensures
            *final(self) == (BlurTool { style, ..*old(self) }),
            r == ToolUpdateResult::<Blur>::Unmodified,
    {
        self.style = style;
        ToolUpdateResult::Unmodified
    }

    /// New regions are obscured in this way; those that are there stay.
    pub fn set_blur_style(&mut self, style: BlurStyle)
        ensures
            *final(self) == (BlurTool { blur_style: style, ..*old(self) }),
    {
        self.blur_style = style;
    }

    pub fn get_drawable(&self) -> (r: Option<&Blur>)
        ensures
            r == match &self.blur {
                Some(b) => Some(b),
                None => None,
            },
    {
        match &self.blur {
            Some(b) => Some(b),
            None => None,
        }
    }

    pub fn get_tool_type(&self) -> (r: Tools)
        ensures
            r == Tools::Blur,
    {
        Tools::Blur
    }

    pub fn input_enabled(&self) -> (r: bool)
        ensures
            r == self.input_enabled,
    {
        self.input_enabled
    }

    pub fn set_input_enabled(&mut self, value: bool)
        ensures
            *final(self) == (BlurTool { input_enabled: value, ..*old(self) }),
    {
        self.input_enabled = value;
    }
}

} // verus!
