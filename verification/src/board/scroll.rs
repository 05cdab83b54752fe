//! The steps that scrolling comes to, and the sliders they move.
use vstd::prelude::*;
use crate::style::Size;
use crate::tools::arrow::ArrowStyle;
use crate::tools::blur::BlurStyle;
use crate::tools::TextBackground;
use crate::units::{clamp_spec, div_round_spec, mul_div, trunc_px_spec, UNIT};

verus! {

/// Entry `steps` after entry `at` of a list of `n`, around its end.
pub open spec fn wrapped(n: int, at: int, steps: int) -> int {
    (at + steps) % n
}

/// A choice that scrolling cycles through.
pub trait Cycled: Copy {
    /// Whether two choices are the same.
    fn same(self, other: Self) -> (r: bool)
        ensures
            r == (self == other),
    ;
}

impl Cycled for ArrowStyle {
    fn same(self, other: Self) -> (r: bool) {
        self == other
    }
}

impl Cycled for BlurStyle {
    fn same(self, other: Self) -> (r: bool) {
        self == other
    }
}

impl Cycled for TextBackground {
    fn same(self, other: Self) -> (r: bool) {
        self == other
    }
}

/// Where a choice first stands in `order`.
pub open spec fn first_at<T>(order: Seq<T>, current: T, at: int) -> bool {
    &&& 0 <= at < order.len()
    &&& order[at] == current
    &&& forall|k: int| 0 <= k < at ==> #[trigger] order[k] != current
}

/// The choice `steps` after `current` in `order`, around its end. What is not
/// in `order` stays as it is.
pub fn wrap_cycle<T: Cycled>(order: &Vec<T>, current: T, steps: i32) -> (r: T)
    ensures
        forall|at: int| #[trigger]
            first_at(order@, current, at) ==> r == order@[wrapped(
                order@.len() as int,
                at,
                steps as int,
            )],
        !order@.contains(current) ==> r == current,
{
    let mut at: usize = 0;
    while at < order.len()
        invariant
            at <= order@.len(),
            forall|k: int| 0 <= k < at ==> #[trigger] order@[k] != current,
        decreases order.len() - at,
    {
        if order[at].same(current) {
            assert(order@[at as int] == current);
            assert forall|k: int| #[trigger] first_at(order@, current, k) implies k == at by {
                if k < at {
                    assert(order@[k] != current);
                } else if k > at {
                    assert(order@[at as int] != current);
                }
            }
            let m: usize = wrap_place(order.len(), at, steps);
            return order[m];
        }
        at = at + 1;
    }
    assert forall|k: int| !(#[trigger] first_at(order@, current, k)) by {
        if first_at(order@, current, k) {
            assert(order@[k] == current);
        }
    }
    current
}

/// The place `steps` after place `at` of `n`, around the end.
fn wrap_place(n: usize, at: usize, steps: i32) -> (m: usize)
    requires
        at < n,
    ensures
        m < n,
        m == wrapped(n as int, at as int, steps as int),
{
    let n: i128 = n as i128;
    let t: i128 = at as i128 + steps as i128;
    let m: i128 = if t >= 0 {
        t % n
    } else {
        let k: i128 = (-(t + 1)) % n;
        proof {
            let u = -(t + 1) as int;
            vstd::arithmetic::div_mod::lemma_fundamental_div_mod(u, n as int);
            let q = u / n as int;
            assert(t as int == (-q - 1) * n as int + (n as int - 1 - k as int)) by (nonlinear_arith)
                requires
                    u == n as int * q + k as int,
                    u == -(t + 1) as int,
            ;
            vstd::arithmetic::div_mod::lemma_fundamental_div_mod_converse(
                t as int,
                n as int,
                -q - 1,
                n as int - 1 - k as int,
            );
        }
        n - 1 - k
    };
    m as usize
}

/// Cycling forth and back again ends where it began, in an order without
/// repetition.
pub proof fn lemma_cycle_back<T>(order: Seq<T>, at: int, steps: int)
    requires
        order.no_duplicates(),
        0 <= at < order.len(),
    ensures
        first_at(order, order[at], at),
        ({
            let to = wrapped(order.len() as int, at, steps);
            &&& first_at(order, order[to], to)
            &&& order[wrapped(order.len() as int, to, -steps)] == order[at]
        }),
{
    lemma_wrap_back(order.len() as int, at, steps);
}

/// Stepping forth and back again ends where it began.
pub proof fn lemma_wrap_back(n: int, at: int, steps: int)
    requires
        0 <= at < n,
    ensures
        0 <= wrapped(n, at, steps) < n,
        wrapped(n, wrapped(n, at, steps), -steps) == at,
        wrapped(n, at, n) == at,
{
    vstd::arithmetic::div_mod::lemma_mod_bound(at + steps, n);
    vstd::arithmetic::div_mod::lemma_sub_mod_noop(at + steps, steps, n);
    vstd::arithmetic::div_mod::lemma_sub_mod_noop((at + steps) % n, steps, n);
    vstd::arithmetic::div_mod::lemma_mod_twice(at + steps, n);
    vstd::arithmetic::div_mod::lemma_small_mod(at as nat, n as nat);
    vstd::arithmetic::div_mod::lemma_mod_add_multiples_vanish(at, n);
    assert(at + n == n + at);
}

/// Arrow geometries in the order that scrolling goes through them.
pub open spec fn arrow_order() -> Seq<ArrowStyle> {
    seq![ArrowStyle::Standard, ArrowStyle::Pointy, ArrowStyle::Curved, ArrowStyle::Double]
}

/// Place of an arrow geometry in that order.
pub open spec fn arrow_place(s: ArrowStyle) -> int {
    match s {
        ArrowStyle::Standard => 0,
        ArrowStyle::Pointy => 1,
        ArrowStyle::Curved => 2,
        ArrowStyle::Double => 3,
    }
}

/// The arrow geometry some steps on.
pub fn step_arrow(s: ArrowStyle, steps: i32) -> (r: ArrowStyle)
    ensures
        r == arrow_order()[wrapped(4, arrow_place(s), steps as int)],
{
    let order: Vec<ArrowStyle> = vec![
        ArrowStyle::Standard,
        ArrowStyle::Pointy,
        ArrowStyle::Curved,
        ArrowStyle::Double,
    ];
    proof {
        assert(order@ =~= arrow_order());
        assert(first_at(order@, s, arrow_place(s)));
    }
    wrap_cycle(&order, s, steps)
}

/// Blur algorithms in the order that scrolling goes through them.
pub open spec fn blur_order() -> Seq<BlurStyle> {
    seq![BlurStyle::Pixelate, BlurStyle::SecureBlur, BlurStyle::Gaussian, BlurStyle::BlackOut]
}

/// Place of a blur algorithm in that order.
pub open spec fn blur_place(s: BlurStyle) -> int {
    match s {
        BlurStyle::Pixelate => 0,
        BlurStyle::SecureBlur => 1,
        BlurStyle::Gaussian => 2,
        BlurStyle::BlackOut => 3,
    }
}

/// The blur algorithm some steps on.
pub fn step_blur(s: BlurStyle, steps: i32) -> (r: BlurStyle)
    ensures
        r == blur_order()[wrapped(4, blur_place(s), steps as int)],
{
    let order: Vec<BlurStyle> = vec![
        BlurStyle::Pixelate,
        BlurStyle::SecureBlur,
        BlurStyle::Gaussian,
        BlurStyle::BlackOut,
    ];
    proof {
        assert(order@ =~= blur_order());
        assert(first_at(order@, s, blur_place(s)));
    }
    wrap_cycle(&order, s, steps)
}

/// Text backgrounds in the order that scrolling goes through them.
pub open spec fn text_order() -> Seq<TextBackground> {
    seq![TextBackground::Rounded, TextBackground::Plain]
}

/// Place of a text background in that order.
pub open spec fn text_place(s: TextBackground) -> int {
    match s {
        TextBackground::Rounded => 0,
        TextBackground::Plain => 1,
    }
}

/// The text background some steps on.
pub fn step_text(s: TextBackground, steps: i32) -> (r: TextBackground)
    ensures
        r == text_order()[wrapped(2, text_place(s), steps as int)],
{
    let order: Vec<TextBackground> = vec![TextBackground::Rounded, TextBackground::Plain];
    proof {
        assert(order@ =~= text_order());
        assert(first_at(order@, s, text_place(s)));
    }
    wrap_cycle(&order, s, steps)
}

/// The rung `steps` above `rung`, on the ladder of six.
pub open spec fn stepped_rung(rung: int, steps: int) -> int {
    clamp_spec(rung + steps, 0, 5)
}

/// The size some steps larger, or smaller, on the ladder of sizes.
pub fn apply_size_steps(size: Size, steps: i32) -> (r: Size)
    requires
        steps > i32::MIN,
    ensures
        r.rung() == stepped_rung(size.rung(), steps as int),
{
    let mut s: Size = size;
    if steps > 0 {
        let mut i: i32 = 0;
        while i < steps
            invariant
                0 <= i <= steps,
                s.rung() == stepped_rung(size.rung(), i as int),
            decreases steps - i,
        {
            s = s.step_up();
            i = i + 1;
        }
    } else if steps < 0 {
        let mut i: i32 = 0;
        while i < -steps
            invariant
                i32::MIN < steps < 0,
                0 <= i <= -steps,
                s.rung() == stepped_rung(size.rung(), -i as int),
            decreases -steps - i,
        {
            s = s.step_down();
            i = i + 1;
        }
    }
    s
}

/// What is left of earlier scrolling when it goes on by `dy`: nothing, where
/// the direction changed.
pub open spec fn carried(accum: int, dy: int) -> int {
    if (accum > 0 && dy > 0) || (accum < 0 && dy < 0) {
        0
    } else {
        accum
    }
}

/// Adds a scroll by `dy` to what is left of earlier ones, and takes the whole
/// steps out of it. Scrolling up counts as positive.
pub fn drain_scroll_resize_steps(accum: &mut i64, dy: i64) -> (steps: i32)
    requires
        -0x3fff_ffff_0000 <= dy <= 0x3fff_ffff_0000,
        -UNIT < *old(accum) < UNIT,
    ensures
        steps == trunc_px_spec(carried(*old(accum) as int, dy as int) - dy),
        steps * UNIT + *final(accum) == carried(*old(accum) as int, dy as int) - dy,
        -UNIT < *final(accum) < UNIT,
        steps > i32::MIN,
{
    if (*accum > 0 && dy > 0) || (*accum < 0 && dy < 0) {
        *accum = 0;
    }
    let total: i64 = *accum - dy;
    let whole: i64 = if total >= 0 {
        total / UNIT
    } else {
        -(-total / UNIT)
    };
    *accum = total - whole * UNIT;
    whole as i32
}

/// The steps and the rest together account for every bit of a scroll that
/// goes on in the same direction.
pub proof fn lemma_no_scroll_is_lost(accum: int, dy: int, steps: int, rest: int)
    requires
        accum >= 0 && dy <= 0 || accum <= 0 && dy >= 0,
        steps * UNIT + rest == carried(accum, dy) - dy,
    ensures
        steps * UNIT + rest == accum - dy,
{
}

/// A slider that moves by `step` for every scroll step, within limits.
pub open spec fn slid(cur: int, steps: int, step: int, lo: int, hi: int) -> int {
    clamp_spec(cur + steps * step, lo, hi)
}

fn slide(cur: i64, steps: i32, step: i64, lo: i64, hi: i64) -> (r: i64)
    requires
        0 <= step <= 1_000_000,
        lo <= hi,
    ensures
        r == slid(cur as int, steps as int, step as int, lo as int, hi as int),
{
    proof {
        assert(-0x8000_0000 * 1_000_000 <= steps * step <= 0x8000_0000 * 1_000_000)
            by (nonlinear_arith)
            requires
                -0x8000_0000 <= steps <= 0x7fff_ffff,
                0 <= step <= 1_000_000,
        ;
    }
    let v: i128 = cur as i128 + steps as i128 * step as i128;
    if v < lo as i128 {
        lo
    } else if v > hi as i128 {
        hi
    } else {
        v as i64
    }
}

/// Smoothing of the brush: whole levels from 0 to 6.
pub open spec fn slid_smooth(cur: int, steps: int) -> int {
    clamp_spec(cur + steps, 0, 6)
}

/// The smoothing level some steps on.
pub fn slide_smooth(cur: usize, steps: i32) -> (r: usize)
    ensures
        r == slid_smooth(cur as int, steps as int),
{
    let v: i128 = cur as i128 + steps as i128;
    if v < 0 {
        0
    } else if v > 6 {
        6
    } else {
        v as usize
    }
}

/// Darkness around a spotlight: from 10 to 90 percent by five.
pub open spec fn slid_darkness(cur: int, steps: int) -> int {
    slid(cur, steps, 50_000, 100_000, 900_000)
}

pub fn slide_darkness(cur: i64, steps: i32) -> (r: i64)
    ensures
        r == slid_darkness(cur as int, steps as int),
{
    slide(cur, steps, 50_000, 100_000, 900_000)
}

/// Opacity of highlights: from 10 to 100 percent by five.
pub open spec fn slid_opacity(cur: int, steps: int) -> int {
    slid(cur, steps, 50_000, 100_000, 1_000_000)
}

pub fn slide_opacity(cur: i64, steps: i32) -> (r: i64)
    ensures
        r == slid_opacity(cur as int, steps as int),
{
    slide(cur, steps, 50_000, 100_000, 1_000_000)
}

/// Size factor of annotations: from a tenth to ten by tenths, on whole
/// tenths.
pub open spec fn slid_factor(cur: int, steps: int) -> int {
    div_round_spec(slid(cur, steps, 100_000, 100_000, 10_000_000), 100_000) * 100_000
}

pub fn slide_factor(cur: i64, steps: i32) -> (r: i64)
    ensures
        r == slid_factor(cur as int, steps as int),
        100_000 <= r <= 10_000_000,
{
    let v: i64 = slide(cur, steps, 100_000, 100_000, 10_000_000);
    mul_div(v, 1, 100_000) * 100_000
}

/// Every slider stays within its limits, wherever it was before.
pub proof fn lemma_sliders_stay_in_range(cur: int, steps: int)
    ensures
        0 <= slid_smooth(cur, steps) <= 6,
        100_000 <= slid_darkness(cur, steps) <= 900_000,
        100_000 <= slid_opacity(cur, steps) <= 1_000_000,
        100_000 <= slid_factor(cur, steps) <= 10_000_000,
        slid_factor(cur, steps) % 100_000 == 0,
{
    let v = slid(cur, steps, 100_000, 100_000, 10_000_000);
    assert(100_000 <= v <= 10_000_000);
    let q = (2 * v + 100_000) / 200_000;
    assert(1 <= q <= 100);
    assert(slid_factor(cur, steps) == q * 100_000);
}

/// Within its limits a slider that goes up and down again by the same number
/// of steps is back where it was.
pub proof fn lemma_slider_back(cur: int, steps: int, step: int, lo: int, hi: int)
    requires
        lo <= cur <= hi,
        lo <= cur + steps * step <= hi,
    ensures
        slid(slid(cur, steps, step, lo, hi), -steps, step, lo, hi) == cur,
{
    assert((-steps) * step == -(steps * step)) by (nonlinear_arith);
}

} // verus!
