//! What numbered badges come to.
use vstd::prelude::*;
use crate::math::Vec2D;
use crate::style::{Color, Size};
use crate::tools::marker::{
    dark_text_spec, digits_spec, is_disc_radius, is_radius, is_resized_scale, text_size_spec,
    Marker, MarkerTool,
};
use crate::tools::marks::{handle_mark_spec, screen_length, HALO_PAD};
use crate::tools::HandleKind;
use crate::units::UNIT;
use crate::wide::is_isqrt;

verus! {

/// The number on a badge is 14, 22, 36, 50, 70 or 96 pixels high, times both
/// factors.
pub proof fn lemma_numbers_grow_with_size(size: Size, factor: int, scale: int)
    ensures
        ({
            let px: int = match size {
                Size::XSmall => 14,
                Size::Small => 22,
                Size::Medium => 36,
                Size::Large => 50,
                Size::XLarge => 70,
                Size::XXLarge => 96,
            };
            let m: int = 1_000_000_000_000;
            -m <= 2 * (text_size_spec(size, factor, scale) * m - px * UNIT * factor * scale) <= m
        }),
{
    let px: int = match size {
        Size::XSmall => 14,
        Size::Small => 22,
        Size::Medium => 36,
        Size::Large => 50,
        Size::XLarge => 70,
        Size::XXLarge => 96,
    };
    crate::units::lemma_div_round_near(px * UNIT * factor * scale, 1_000_000_000_000);
}

/// A number has one digit more than its tenth part.
pub proof fn lemma_digits_are_counted(number: int)
    requires
        0 <= number < 100_000,
    ensures
        digits_spec(number) == if number < 10 {
            1int
        } else if number < 100 {
            2
        } else if number < 1000 {
            3
        } else if number < 10_000 {
            4
        } else {
            5
        },
{
    reveal_with_fuel(digits_spec, 6);
}

/// `s` is the length of the diagonal of a `w` by `h` box, cut to a whole
/// number.
pub open spec fn is_diagonal(s: int, w: int, h: int) -> bool {
    s >= 0 && s * s <= w * w + h * h < (s + 1) * (s + 1)
}

/// A badge is drawn around the diagonal of its number: 65 hundredths of the
/// diagonal of a text that is as high as the number and seven tenths of that
/// wide for every digit.
pub proof fn lemma_badge_is_drawn_around_its_number(text_size: int, number: int, r: int)
    requires
        is_radius(text_size, number, r),
        0 <= number < 100_000,
    ensures
        exists|s: int| #[trigger]
            is_diagonal(s, 7 * digits_spec(number) * text_size, 10 * text_size) && -1000 <= 2 * (r
                * 1000 - s * 65) <= 1000,
{
    let w = 7 * digits_spec(number) * text_size;
    let h = 10 * text_size;
    let s = choose|s: int| #[trigger]
        is_isqrt(crate::tools::marker::tenths_diagonal2(text_size, number), s) && r
            == crate::units::div_round_spec(s * 65, 1000);
    crate::units::lemma_div_round_near(s * 65, 1000);
    assert(is_diagonal(s, w, h));
}

/// The disc behind a number reaches 65 hundredths of the diagonal of the
/// number out, and at least 55 hundredths of the text size.
pub proof fn lemma_disc_reaches_around_number(w: int, h: int, text_size: int, r: int)
    requires
        is_disc_radius(w, h, text_size, r),
    ensures
        2 * r * 100 >= 2 * text_size * 55 - 100,
        exists|s: int| #[trigger]
            is_diagonal(s, w, h) && 2 * r * 100 >= 2 * s * 65 - 100 && (2 * r * 100 <= 2 * s * 65
                + 100 || 2 * r * 100 <= 2 * text_size * 55 + 100),
{
    let s = choose|s: int| #[trigger]
        is_isqrt(w * w + h * h, s) && r == crate::units::max_spec(
            crate::units::div_round_spec(s * 65, 100),
            crate::units::div_round_spec(text_size * 55, 100),
        );
    crate::units::lemma_div_round_near(s * 65, 100);
    crate::units::lemma_div_round_near(text_size * 55, 100);
    assert(is_diagonal(s, w, h));
}

/// Numbers are black on bright badges and white on dark ones. Green counts
/// most: alone it makes a badge bright from 179 on, red and blue never do,
/// and gray does from 128 on.
pub proof fn lemma_numbers_stand_out(c: Color, d: Color)
    ensures
        c.g == 0 && c.b == 0 ==> !dark_text_spec(c),
        c.r == 0 && c.g == 0 ==> !dark_text_spec(c),
        c.r == 0 && c.b == 0 ==> (dark_text_spec(c) <==> c.g >= 179),
        c.r == c.g && c.g == c.b ==> (dark_text_spec(c) <==> c.g >= 128),
        c.r == 255 && c.b == 0 ==> (dark_text_spec(c) <==> c.g >= 103),
        c.r == 0 && c.b == 255 ==> (dark_text_spec(c) <==> c.g >= 153),
        dark_text_spec(c) && d.r >= c.r && d.g >= c.g && d.b >= c.b ==> dark_text_spec(d),
{
}

/// Dragging a corner of a badge scales it as the corner moves away from its
/// middle, between a fifth and ten times its size.
pub proof fn lemma_dragged_badge_follows_corner(
    m: Marker,
    to: Vec2D,
    radius: int,
    reach: int,
    scale: int,
)
    requires
        is_resized_scale(m, to, radius, reach, scale),
        radius > 0,
        m.scale >= 0,
    ensures
        ({
            let (dx, dy) = (m.pos.x - to.x, m.pos.y - to.y);
            2 * (reach * reach) <= dx * dx + dy * dy < 2 * ((reach + 1) * (reach + 1))
        }),
        200_000 <= scale <= 10_000_000,
        200_000 * radius <= m.scale * reach <= 10_000_000 * radius ==> -radius <= 2 * (scale
            * radius - m.scale * reach) <= radius,
{
    let q = crate::units::div_round_spec(m.scale * reach, radius);
    crate::units::lemma_div_round_near(m.scale * reach, radius);
    if 200_000 * radius <= m.scale * reach <= 10_000_000 * radius {
        let p = m.scale * reach;
        assert(200_000 <= q <= 10_000_000) by (nonlinear_arith)
            requires
                radius > 0,
                200_000 * radius <= p <= 10_000_000 * radius,
                -radius <= 2 * (q * radius - p) <= radius,
        ;
    }
}

/// A click would stamp the next number, at the pointer, in the style that is
/// set and at its own size.
pub proof fn lemma_preview_is_next_badge(tool: MarkerTool, pos: Vec2D)
    ensures
        ({
            let m = tool.preview_at(pos);
            &&& m.pos == pos
            &&& m.number == tool.next_number
            &&& m.style == tool.style
            &&& m.scale == 1_000_000
            &&& m.preview
        }),
{
}

/// A length on screen is longer on the image the smaller the image is shown
/// and the denser the display is.
pub proof fn lemma_screen_lengths_scale(len: int, scale: int, ratio: int)
    requires
        scale >= 100,
    ensures
        -scale <= 2 * (screen_length(len, scale, ratio) * scale - len * ratio) <= scale,
        HALO_PAD == 4 * UNIT,
{
    crate::units::lemma_div_round_near(len * ratio, scale);
}

/// `len` is `tenths` tenths of a pixel on screen.
pub open spec fn is_on_screen(len: int, tenths: int, scale: int, ratio: int) -> bool {
    -scale <= 2 * (len * scale - tenths * UNIT / 10 * ratio) <= scale
}

/// On screen a round handle is six pixels from middle to edge with a ring of
/// two, a square one three with a ring of two and corners of one and a half.
pub proof fn lemma_handles_keep_their_size_on_screen(scale: int, ratio: int)
    requires
        scale >= 100,
        0 <= ratio <= 1_000_000_000,
    ensures
        ({
            let r = handle_mark_spec(HandleKind::Round, scale, ratio);
            let s = handle_mark_spec(HandleKind::Square, scale, ratio);
            &&& is_on_screen(r.inner as int, 60, scale, ratio)
            &&& is_on_screen(r.outer as int, 80, scale, ratio)
            &&& r.corner == 0
            &&& is_on_screen(s.inner as int, 30, scale, ratio)
            &&& is_on_screen(s.outer as int, 50, scale, ratio)
            &&& is_on_screen(s.corner as int, 15, scale, ratio)
        }),
{
    lemma_on_screen(6 * UNIT, scale, ratio);
    lemma_on_screen(8 * UNIT, scale, ratio);
    lemma_on_screen(3 * UNIT, scale, ratio);
    lemma_on_screen(5 * UNIT, scale, ratio);
    lemma_on_screen(3 * UNIT / 2, scale, ratio);
}

proof fn lemma_on_screen(len: int, scale: int, ratio: int)
    requires
        scale >= 100,
        0 <= len <= 64 * UNIT,
        0 <= ratio <= 1_000_000_000,
    ensures
        0 <= screen_length(len, scale, ratio) <= 0x1000_0000_0000_0000,
        -scale <= 2 * (screen_length(len, scale, ratio) * scale - len * ratio) <= scale,
{
    crate::tools::marks::lemma_screen_length(len, scale, ratio);
    crate::units::lemma_div_round_near(len * ratio, scale);
}

} // verus!
