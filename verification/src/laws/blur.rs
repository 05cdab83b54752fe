//! What blurring comes to.
use vstd::prelude::*;
use crate::input::{MouseButton, MouseEventMsg, MouseEventType};
use crate::tools::blur::{
    block_sum, cell_pixel, cell_value, cells, lacks_fringe_spec, lemma_mix_bound, mix_spec,
    quantized, region_span, row_sum, secure_pixel, Blur, BlurTool, Channel, Rgba,
};
use crate::tools::ToolUpdateResult;
use crate::units::UNIT;

verus! {

/// The pixel in column `x` of row `y` of a picture `w` pixels wide.
pub open spec fn pixel(buf: Seq<Rgba>, w: int, x: int, y: int) -> Rgba {
    buf[y * w + x]
}

/// `v` is half `above` and half the mean of `left` and `right`, weighed by the
/// column `x` of `w`; cut to a whole number.
pub open spec fn halves_on_first_row(v: int, above: int, left: int, right: int, x: int, w: int) -> bool {
    2 * w * v <= above * w + left * (w - x) + right * x < 2 * w * (v + 1)
}

/// `v` is half `left` and half the mean of `above` and `below`, weighed by the
/// row `y` of `h`; cut to a whole number.
pub open spec fn halves_on_first_column(v: int, left: int, above: int, below: int, y: int, h: int) -> bool {
    2 * h * v <= left * h + above * (h - y) + below * y < 2 * h * (v + 1)
}

proof fn lemma_mix_on_first_row(n: int, s: int, we: int, e: int, x: int, w: int, h: int)
    requires
        0 <= n <= 255,
        0 <= s <= 255,
        0 <= we <= 255,
        0 <= e <= 255,
        0 <= x < w,
        0 < h,
    ensures
        0 <= mix_spec(n, s, we, e, x, 0, w, h) <= 255,
        halves_on_first_row(mix_spec(n, s, we, e, x, 0, w, h), n, we, e, x, w),
{
    lemma_mix_bound(n, s, we, e, x, 0, w, h);
    let v = mix_spec(n, s, we, e, x, 0, w, h);
    let q = we * (w - x) + e * x;
    let t = (n * (h - 0) + s * 0) * w + q * h;
    let d = 2 * (w * h);
    vstd::arithmetic::div_mod::lemma_fundamental_div_mod(t, d);
    assert(t == h * (n * w + q)) by (nonlinear_arith)
        requires
            t == (n * (h - 0) + s * 0) * w + q * h,
    ;
    assert(d * v == h * (2 * w * v)) by (nonlinear_arith)
        requires
            d == 2 * (w * h),
    ;
    assert(d * v + d == h * (2 * w * (v + 1))) by (nonlinear_arith)
        requires
            d == 2 * (w * h),
    ;
    let (lo, mid, hi) = (2 * w * v, n * w + q, 2 * w * (v + 1));
    assert(lo <= mid < hi) by (nonlinear_arith)
        requires
            h > 0,
            h * lo <= h * mid,
            h * mid < h * hi,
    ;
}

proof fn lemma_mix_turned(n: int, s: int, we: int, e: int, x: int, y: int, w: int, h: int)
    ensures
        mix_spec(n, s, we, e, x, y, w, h) == mix_spec(we, e, n, s, y, x, h, w),
{
    assert(w * h == h * w) by (nonlinear_arith);
}

/// In the first row of a securely blurred region the pixel directly above
/// makes up one half, whatever lies below the region.
pub proof fn lemma_first_row_takes_after_the_row_above(outer: Seq<Rgba>, w: int, h: int, x: int)
    requires
        0 <= x < w,
        0 < h,
    ensures
        ({
            let p = secure_pixel(outer, w, h, x, 0);
            let above = pixel(outer, w + 2, x + 1, 0);
            let left = pixel(outer, w + 2, 0, 1);
            let right = pixel(outer, w + 2, w + 1, 1);
            &&& halves_on_first_row(p.r as int, above.r as int, left.r as int, right.r as int, x, w)
            &&& halves_on_first_row(p.g as int, above.g as int, left.g as int, right.g as int, x, w)
            &&& halves_on_first_row(p.b as int, above.b as int, left.b as int, right.b as int, x, w)
            &&& p.a == 255
        }),
{
    let above = pixel(outer, w + 2, x + 1, 0);
    let below = pixel(outer, w + 2, x + 1, h + 1);
    let left = pixel(outer, w + 2, 0, 1);
    let right = pixel(outer, w + 2, w + 1, 1);
    lemma_mix_on_first_row(above.r as int, below.r as int, left.r as int, right.r as int, x, w, h);
    lemma_mix_on_first_row(above.g as int, below.g as int, left.g as int, right.g as int, x, w, h);
    lemma_mix_on_first_row(above.b as int, below.b as int, left.b as int, right.b as int, x, w, h);
}

/// In the first column of a securely blurred region the pixel directly to the
/// left makes up one half, whatever lies to the right of the region.
pub proof fn lemma_first_column_takes_after_the_column_left(
    outer: Seq<Rgba>,
    w: int,
    h: int,
    y: int,
)
    requires
        0 < w,
        0 <= y < h,
    ensures
        ({
            let p = secure_pixel(outer, w, h, 0, y);
            let left = pixel(outer, w + 2, 0, y + 1);
            let above = pixel(outer, w + 2, 1, 0);
            let below = pixel(outer, w + 2, 1, h + 1);
            &&& halves_on_first_column(
                p.r as int,
                left.r as int,
                above.r as int,
                below.r as int,
                y,
                h,
            )
            &&& halves_on_first_column(
                p.g as int,
                left.g as int,
                above.g as int,
                below.g as int,
                y,
                h,
            )
            &&& halves_on_first_column(
                p.b as int,
                left.b as int,
                above.b as int,
                below.b as int,
                y,
                h,
            )
            &&& p.a == 255
        }),
{
    let above = pixel(outer, w + 2, 1, 0);
    let below = pixel(outer, w + 2, 1, h + 1);
    let left = pixel(outer, w + 2, 0, y + 1);
    let right = pixel(outer, w + 2, w + 1, y + 1);
    lemma_mix_turned(
        above.r as int,
        below.r as int,
        left.r as int,
        right.r as int,
        0,
        y,
        w,
        h,
    );
    lemma_mix_turned(
        above.g as int,
        below.g as int,
        left.g as int,
        right.g as int,
        0,
        y,
        w,
        h,
    );
    lemma_mix_turned(
        above.b as int,
        below.b as int,
        left.b as int,
        right.b as int,
        0,
        y,
        w,
        h,
    );
    lemma_mix_on_first_row(left.r as int, right.r as int, above.r as int, below.r as int, y, h, w);
    lemma_mix_on_first_row(left.g as int, right.g as int, above.g as int, below.g as int, y, h, w);
    lemma_mix_on_first_row(left.b as int, right.b as int, above.b as int, below.b as int, y, h, w);
}

/// What lies across the region comes in evenly: a row further down takes one
/// `h`th of its upright half from below instead of from above, a column
/// further right one `w`th of its level half from the right instead of from
/// the left.
pub open spec fn weighs_by_distance(
    v: int,
    above: int,
    below: int,
    left: int,
    right: int,
    x: int,
    y: int,
    w: int,
    h: int,
) -> bool {
    let upright = above * h + (below - above) * y;
    let level = left * w + (right - left) * x;
    2 * (w * h) * v <= upright * w + level * h < 2 * (w * h) * (v + 1)
}

proof fn lemma_mix_weighs(n: int, s: int, we: int, e: int, x: int, y: int, w: int, h: int)
    requires
        0 <= n <= 255,
        0 <= s <= 255,
        0 <= we <= 255,
        0 <= e <= 255,
        0 <= x < w,
        0 <= y < h,
    ensures
        0 <= mix_spec(n, s, we, e, x, y, w, h) <= 255,
        weighs_by_distance(mix_spec(n, s, we, e, x, y, w, h), n, s, we, e, x, y, w, h),
{
    lemma_mix_bound(n, s, we, e, x, y, w, h);
    let v = mix_spec(n, s, we, e, x, y, w, h);
    let d = 2 * (w * h);
    let t = (n * (h - y) + s * y) * w + (we * (w - x) + e * x) * h;
    vstd::arithmetic::div_mod::lemma_fundamental_div_mod(t, d);
    assert(n * (h - y) + s * y == n * h + (s - n) * y) by (nonlinear_arith);
    assert(we * (w - x) + e * x == we * w + (e - we) * x) by (nonlinear_arith);
    assert(d * (v + 1) == d * v + d) by (nonlinear_arith);
}

/// Every pixel of a securely blurred region weighs the four pixels of the
/// fringe in its row and column by how near they are.
pub proof fn lemma_secure_blur_weighs_by_distance(outer: Seq<Rgba>, w: int, h: int, x: int, y: int)
    requires
        0 <= x < w,
        0 <= y < h,
    ensures
        ({
            let p = secure_pixel(outer, w, h, x, y);
            let n = pixel(outer, w + 2, x + 1, 0);
            let s = pixel(outer, w + 2, x + 1, h + 1);
            let l = pixel(outer, w + 2, 0, y + 1);
            let r = pixel(outer, w + 2, w + 1, y + 1);
            &&& weighs_by_distance(
                p.r as int,
                n.r as int,
                s.r as int,
                l.r as int,
                r.r as int,
                x,
                y,
                w,
                h,
            )
            &&& weighs_by_distance(
                p.g as int,
                n.g as int,
                s.g as int,
                l.g as int,
                r.g as int,
                x,
                y,
                w,
                h,
            )
            &&& weighs_by_distance(
                p.b as int,
                n.b as int,
                s.b as int,
                l.b as int,
                r.b as int,
                x,
                y,
                w,
                h,
            )
        }),
{
    let n = pixel(outer, w + 2, x + 1, 0);
    let s = pixel(outer, w + 2, x + 1, h + 1);
    let l = pixel(outer, w + 2, 0, y + 1);
    let r = pixel(outer, w + 2, w + 1, y + 1);
    lemma_mix_weighs(n.r as int, s.r as int, l.r as int, r.r as int, x, y, w, h);
    lemma_mix_weighs(n.g as int, s.g as int, l.g as int, r.g as int, x, y, w, h);
    lemma_mix_weighs(n.b as int, s.b as int, l.b as int, r.b as int, x, y, w, h);
}

/// The pixels of the canvas that a region touches are the ones that are
/// painted.
pub proof fn lemma_region_is_what_it_touches(origin: int, extent: int, canvas: int, p: int)
    requires
        extent > 0,
        0 <= canvas,
    ensures
        region_span(origin, extent, canvas).0 <= p < region_span(origin, extent, canvas).1 <==> 0
            <= p < canvas && p * UNIT < origin + extent && (p + 1) * UNIT > origin,
{
}

/// A region has its fringe exactly where a pixel of the canvas is left on
/// each of its four sides.
pub proof fn lemma_fringe_needs_a_pixel_all_round(x: int, y: int, w: int, h: int, cw: int, ch: int)
    ensures
        !lacks_fringe_spec(x, y, w, h, cw, ch) <==> 0 <= x - 1 && 0 <= y - 1 && x + w <= cw - 1 && y
            + h <= ch - 1,
{
}

/// Quantizing keeps the high half of a channel and repeats it as the low half.
pub proof fn lemma_quantized_repeats_high_half(c: int)
    requires
        0 <= c <= 255,
    ensures
        quantized(c) / 16 == c / 16,
        quantized(c) % 16 == c / 16,
{
}

/// As many cells as it takes to cover `n` pixels, and no more.
pub proof fn lemma_cells_cover(n: int, cell: int)
    requires
        n > 0,
        cell > 0,
    ensures
        (cells(n, cell) - 1) * cell < n <= cells(n, cell) * cell,
{
    let t = n + cell - 1;
    vstd::arithmetic::div_mod::lemma_fundamental_div_mod(t, cell);
    let q = t / cell;
    assert((q - 1) * cell == cell * q - cell && q * cell == cell * q) by (nonlinear_arith);
}

/// All pixels of the block `x0..x1` by `y0..y1` have the value `v` in channel
/// `c`.
pub open spec fn is_plain(src: Seq<Rgba>, w: int, x0: int, x1: int, y0: int, y1: int, c: Channel, v: int) -> bool {
    forall|x: int, y: int|
        x0 <= x < x1 && y0 <= y < y1 ==> (#[trigger] pixel(src, w, x, y)).get_spec(c) == v
}

proof fn lemma_plain_row(src: Seq<Rgba>, w: int, y: int, x0: int, x1: int, c: Channel, v: int)
    requires
        x0 <= x1,
        is_plain(src, w, x0, x1, y, y + 1, c, v),
    ensures
        row_sum(src, w, y, x0, x1, c) == v * (x1 - x0),
    decreases x1 - x0,
{
    if x0 < x1 {
        lemma_plain_row(src, w, y, x0, x1 - 1, c, v);
        assert(pixel(src, w, x1 - 1, y).get_spec(c) == v);
        assert(v * (x1 - x0) == v * (x1 - 1 - x0) + v) by (nonlinear_arith);
    } else {
        assert(v * (x1 - x0) == 0) by (nonlinear_arith)
            requires
                x1 == x0,
        ;
    }
}

proof fn lemma_plain_block(
    src: Seq<Rgba>,
    w: int,
    x0: int,
    x1: int,
    y0: int,
    y1: int,
    c: Channel,
    v: int,
)
    requires
        x0 <= x1,
        y0 <= y1,
        is_plain(src, w, x0, x1, y0, y1, c, v),
    ensures
        block_sum(src, w, x0, x1, y0, y1, c) == v * ((y1 - y0) * (x1 - x0)),
    decreases y1 - y0,
{
    if y0 < y1 {
        lemma_plain_block(src, w, x0, x1, y0, y1 - 1, c, v);
        lemma_plain_row(src, w, y1 - 1, x0, x1, c, v);
        assert(v * ((y1 - y0) * (x1 - x0)) == v * ((y1 - 1 - y0) * (x1 - x0)) + v * (x1 - x0))
            by (nonlinear_arith);
    } else {
        assert(v * ((y1 - y0) * (x1 - x0)) == 0) by (nonlinear_arith)
            requires
                y1 == y0,
        ;
    }
}

/// Where all pixels of a cell have one value, the mosaic shows that value,
/// its high half repeated. The cells at the right and bottom edge end with
/// the picture.
pub proof fn lemma_plain_cell_keeps_its_value(
    src: Seq<Rgba>,
    w: int,
    h: int,
    cell: int,
    dx: int,
    dy: int,
    c: Channel,
    v: int,
)
    requires
        cell > 0,
        0 <= v <= 255,
        0 <= dx * cell < w,
        0 <= dy * cell < h,
        forall|x: int, y: int|
            dx * cell <= x < dx * cell + cell && x < w && dy * cell <= y < dy * cell + cell && y < h
                ==> (#[trigger] pixel(src, w, x, y)).get_spec(c) == v,
    ensures
        ({
            let q = cell_value(src, w, h, cell, dx, dy, c);
            q / 16 == v / 16 && q % 16 == v / 16
        }),
{
    let (x0, y0) = (dx * cell, dy * cell);
    let x1 = if x0 + cell <= w {
        x0 + cell
    } else {
        w
    };
    let y1 = if y0 + cell <= h {
        y0 + cell
    } else {
        h
    };
    lemma_plain_block(src, w, x0, x1, y0, y1, c, v);
    let n = (y1 - y0) * (x1 - x0);
    assert(n > 0) by (nonlinear_arith)
        requires
            n == (y1 - y0) * (x1 - x0),
            y0 < y1,
            x0 < x1,
    ;
    assert(v * n / n == v) by {
        vstd::arithmetic::div_mod::lemma_div_multiples_vanish(v, n);
        assert(v * n == n * v) by (nonlinear_arith);
    }
}

/// Each channel of a mosaic cell is made from that channel of the picture.
pub proof fn lemma_cell_channels(src: Seq<Rgba>, w: int, h: int, cell: int, dx: int, dy: int)
    ensures
        ({
            let p = cell_pixel(src, w, h, cell, dx, dy);
            let v = |c: Channel| cell_value(src, w, h, cell, dx, dy, c);
            &&& 0 <= v(Channel::Red) <= 255 ==> p.r == v(Channel::Red)
            &&& 0 <= v(Channel::Green) <= 255 ==> p.g == v(Channel::Green)
            &&& 0 <= v(Channel::Blue) <= 255 ==> p.b == v(Channel::Blue)
            &&& 0 <= v(Channel::Alpha) <= 255 ==> p.a == v(Channel::Alpha)
        }),
{
}

/// A press and a release at an offset leave a blurred region between the two
/// points, in the style that is set, not yet painted.
pub proof fn lemma_drag_blurs_region(
    tool: BlurTool,
    press: MouseEventMsg,
    release: MouseEventMsg,
    b: Blur,
)
    requires
        press.type_ == MouseEventType::BeginDrag,
        press.button != MouseButton::Middle,
        release.type_ == MouseEventType::EndDrag,
        release.button != MouseButton::Middle,
        tool.mouse_step(press).0.mouse_step(release).1 == ToolUpdateResult::Commit(b),
    ensures
        b.top_left == press.pos,
        b.size == Some(release.pos),
        b.style == tool.style,
        b.blur_style == tool.blur_style,
        !b.editing,
        b.cached_image is None,
{
}

} // verus!
