//! The marks around a selection: its glow and its handles, which keep their
//! size on screen.
use vstd::prelude::*;
use crate::tools::HandleKind;
use crate::units::{div_round_spec, max_len, max_spec, mul_div, UNIT};

verus! {

/// How far the glow reaches beyond a drawable, in screen lengths.
pub const HALO_PAD: i64 = 4 * UNIT;

/// Smallest scale of the view that lengths are worked out for, in millionths.
pub const MIN_VIEW_SCALE: i64 = 100;

/// Largest pixel ratio of a display, in millionths.
pub const MAX_PIXEL_RATIO: i64 = 1_000_000_000;

/// A screen length on an image shown at `scale` on a display with the given
/// pixel ratio, both in millionths.
pub open spec fn screen_length(len: int, scale: int, ratio: int) -> int {
    div_round_spec(len * ratio, max_spec(scale, MIN_VIEW_SCALE as int))
}

/// A short screen length is in range on any display.
pub proof fn lemma_screen_length(len: int, scale: int, ratio: int)
    requires
        0 <= len <= 64 * UNIT,
        0 <= ratio <= MAX_PIXEL_RATIO,
    ensures
        0 <= screen_length(len, scale, ratio) <= 0x1000_0000_0000_0000,
{
    let s = max_spec(scale, MIN_VIEW_SCALE as int);
    let n = len * ratio;
    assert(0 <= n <= 64 * 65536 * 1_000_000_000) by (nonlinear_arith)
        requires
            n == len * ratio,
            0 <= len <= 64 * 65536,
            0 <= ratio <= 1_000_000_000,
    ;
    let q = div_round_spec(n, s);
    let m = 2 * n + s;
    vstd::arithmetic::div_mod::lemma_fundamental_div_mod(m, 2 * s);
    vstd::arithmetic::div_mod::lemma_div_pos_is_pos(m, 2 * s);
    assert(q * (2 * s) <= m);
    assert(q <= n + 1) by (nonlinear_arith)
        requires
            q * (2 * s) <= 2 * n + s,
            s >= 1,
            n >= 0,
    ;
}

fn on_screen(len: i64, scale: i64, ratio: i64) -> (r: i64)
    requires
        0 <= len <= 64 * UNIT,
        0 <= ratio <= MAX_PIXEL_RATIO,
    ensures
        r == screen_length(len as int, scale as int, ratio as int),
{
    proof {
        lemma_screen_length(len as int, scale as int, ratio as int);
    }
    mul_div(len, ratio, max_len(scale, MIN_VIEW_SCALE))
}

/// How far the glow reaches beyond a drawable, in image lengths.
pub fn halo_in_image_units(scale: i64, device_pixel_ratio: i64) -> (r: i64)
    requires
        0 <= device_pixel_ratio <= MAX_PIXEL_RATIO,
    ensures
        r == screen_length(HALO_PAD as int, scale as int, device_pixel_ratio as int),
{
    on_screen(HALO_PAD, scale, device_pixel_ratio)
}

/// A handle as it is drawn: a disc, or a rounded square, on a white one. Half
/// widths and the corner radius, in image lengths.
#[derive(Clone, Copy, Debug, PartialEq, Eq, Structural)]
pub struct HandleMark {
    pub inner: i64,
    pub outer: i64,
    pub corner: i64,
}

/// A round handle is twelve across in a ring of two; a square one is half as
/// large in the same ring.
pub open spec fn handle_mark_spec(kind: HandleKind, scale: int, ratio: int) -> HandleMark {
    match kind {
        HandleKind::Round => HandleMark {
            inner: screen_length(6 * UNIT, scale, ratio) as i64,
            outer: screen_length(8 * UNIT, scale, ratio) as i64,
            corner: 0,
        },
        HandleKind::Square => HandleMark {
            inner: screen_length(3 * UNIT, scale, ratio) as i64,
            outer: screen_length(5 * UNIT, scale, ratio) as i64,
            corner: screen_length(3 * UNIT / 2, scale, ratio) as i64,
        },
    }
}

/// How a handle is drawn.
pub fn handle_mark(kind: HandleKind, scale: i64, device_pixel_ratio: i64) -> (r: HandleMark)
    requires
        0 <= device_pixel_ratio <= MAX_PIXEL_RATIO,
    ensures
        r == handle_mark_spec(kind, scale as int, device_pixel_ratio as int),
{
    match kind {
        HandleKind::Round => HandleMark {
            inner: on_screen(6 * UNIT, scale, device_pixel_ratio),
            outer: on_screen(8 * UNIT, scale, device_pixel_ratio),
            corner: 0,
        },
        HandleKind::Square => HandleMark {
            inner: on_screen(3 * UNIT, scale, device_pixel_ratio),
            outer: on_screen(5 * UNIT, scale, device_pixel_ratio),
            corner: on_screen(3 * UNIT / 2, scale, device_pixel_ratio),
        },
    }
}

} // verus!
