//! What scrolling comes to.
use vstd::prelude::*;
use crate::board::messages::scroll_deltas_spec;
use crate::board::scroll::{
    arrow_order, arrow_place, blur_order, blur_place, carried, slid_darkness, slid_factor,
    slid_opacity, slid_smooth, stepped_rung, text_order, text_place, wrapped,
};
use crate::input::Modifiers;
use crate::tools::arrow::ArrowStyle;
use crate::tools::blur::BlurStyle;
use crate::tools::TextBackground;
use crate::units::{trunc_px_spec, UNIT};

verus! {

/// Every further step goes to the next style: standard, pointy, curved,
/// double and around. No step stays.
pub proof fn lemma_arrow_styles_go_round(s: ArrowStyle, steps: int)
    ensures
        arrow_order()[wrapped(4, arrow_place(s), 0)] == s,
        arrow_order()[wrapped(4, arrow_place(s), steps + 1)] == match arrow_order()[wrapped(
            4,
            arrow_place(s),
            steps,
        )] {
            ArrowStyle::Standard => ArrowStyle::Pointy,
            ArrowStyle::Pointy => ArrowStyle::Curved,
            ArrowStyle::Curved => ArrowStyle::Double,
            ArrowStyle::Double => ArrowStyle::Standard,
        },
{
}

/// Every further step goes to the next style: pixelate, secure blur, Gaussian,
/// black and around. No step stays.
pub proof fn lemma_blur_styles_go_round(s: BlurStyle, steps: int)
    ensures
        blur_order()[wrapped(4, blur_place(s), 0)] == s,
        blur_order()[wrapped(4, blur_place(s), steps + 1)] == match blur_order()[wrapped(
            4,
            blur_place(s),
            steps,
        )] {
            BlurStyle::Pixelate => BlurStyle::SecureBlur,
            BlurStyle::SecureBlur => BlurStyle::Gaussian,
            BlurStyle::Gaussian => BlurStyle::BlackOut,
            BlurStyle::BlackOut => BlurStyle::Pixelate,
        },
{
}

/// The two backgrounds of text take turns.
pub proof fn lemma_text_backgrounds_take_turns(s: TextBackground, steps: int)
    ensures
        text_order()[wrapped(2, text_place(s), 0)] == s,
        text_order()[wrapped(2, text_place(s), steps + 1)] != text_order()[wrapped(
            2,
            text_place(s),
            steps,
        )],
{
}

/// A size goes up or down by as many rungs as there are steps, and stops at
/// the ends of the ladder.
pub proof fn lemma_sizes_step(rung: int, steps: int)
    requires
        0 <= rung <= 5,
    ensures
        0 <= rung + steps <= 5 ==> stepped_rung(rung, steps) == rung + steps,
        rung + steps < 0 ==> stepped_rung(rung, steps) == 0,
        rung + steps > 5 ==> stepped_rung(rung, steps) == 5,
{
}

/// Scrolling up by whole notches counts one step for each, scrolling down one
/// back for each; what is left of a notch waits, unless the wheel turns round.
pub proof fn lemma_notches_count(accum: int, dy: int)
    requires
        -UNIT < accum < UNIT,
    ensures
        ({
            let steps = trunc_px_spec(carried(accum, dy) - dy);
            let turned = (accum > 0 && dy > 0) || (accum < 0 && dy < 0);
            let whole = if turned {
                -dy
            } else {
                accum - dy
            };
            &&& whole >= 0 ==> steps * UNIT <= whole < (steps + 1) * UNIT
            &&& whole <= 0 ==> (steps - 1) * UNIT < whole <= steps * UNIT
        }),
{
}

/// Within their limits the sliders move by whole levels, five percent or a
/// tenth for every step, up for scrolling up.
pub proof fn lemma_sliders_move(cur: int, steps: int)
    ensures
        0 <= cur + steps <= 6 ==> slid_smooth(cur, steps) == cur + steps,
        100_000 <= cur + 50_000 * steps <= 900_000 ==> slid_darkness(cur, steps) == cur + 50_000
            * steps,
        100_000 <= cur + 50_000 * steps <= 1_000_000 ==> slid_opacity(cur, steps) == cur + 50_000
            * steps,
        cur % 100_000 == 0 && 100_000 <= cur + 100_000 * steps <= 10_000_000 ==> slid_factor(
            cur,
            steps,
        ) == cur + 100_000 * steps,
{
    if cur % 100_000 == 0 && 100_000 <= cur + 100_000 * steps <= 10_000_000 {
        let k = cur / 100_000 + steps;
        assert(cur + 100_000 * steps == 100_000 * k);
        let q = (2 * (100_000 * k) + 100_000) / 200_000;
        assert(q == k);
    }
}

/// Past their limits the sliders stop there.
pub proof fn lemma_sliders_stop(cur: int, steps: int)
    ensures
        cur + steps > 6 ==> slid_smooth(cur, steps) == 6,
        cur + steps < 0 ==> slid_smooth(cur, steps) == 0,
        cur + 50_000 * steps > 900_000 ==> slid_darkness(cur, steps) == 900_000,
        cur + 50_000 * steps < 100_000 ==> slid_darkness(cur, steps) == 100_000,
        cur + 50_000 * steps > 1_000_000 ==> slid_opacity(cur, steps) == 1_000_000,
        cur + 50_000 * steps < 100_000 ==> slid_opacity(cur, steps) == 100_000,
        cur + 100_000 * steps > 10_000_000 ==> slid_factor(cur, steps) == 10_000_000,
        cur + 100_000 * steps < 100_000 ==> slid_factor(cur, steps) == 100_000,
{
    let v = crate::board::scroll::slid(cur, steps, 100_000, 100_000, 10_000_000);
    let q = (2 * v + 100_000) / 200_000;
    assert(slid_factor(cur, steps) == q * 100_000);
    assert(v == 10_000_000 ==> q == 100);
    assert(v == 100_000 ==> q == 1);
}

/// The view follows the wheel, the other way round where that is set; with
/// Shift alone an upright scroll goes sideways.
pub proof fn lemma_wheel_directions(dx: int, dy: int, m: Modifiers, invert: bool)
    ensures
        ({
            let (x, y) = scroll_deltas_spec(dx, dy, m, invert);
            let sideways = m.shift && !m.control && !m.alt && dx == 0;
            &&& !sideways && !invert ==> x == dx && y == dy
            &&& !sideways && invert ==> x + dx == 0 && y + dy == 0
            &&& sideways && !invert ==> x == dy && y == 0
            &&& sideways && invert ==> x + dy == 0 && y == 0
        }),
{
}

} // verus!
