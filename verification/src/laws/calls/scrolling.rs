//! What the functions of scrolling give back.
use vstd::prelude::*;
use crate::board::layers::{layer_of, Layer};
use crate::board::messages::{pinch_factor, scroll_deltas, SketchBoardOutput, Toast};
use crate::board::scroll::{
    apply_size_steps, drain_scroll_resize_steps, slide_darkness, slide_factor, slide_opacity,
    slide_smooth, step_arrow, step_blur, step_text,
};
use crate::board::scrolling::ScrollRoute;
use crate::board::{BoardConfig, Effect, SketchBoard};
use crate::input::Modifiers;
use crate::laws::layers::next_size;
use crate::state::PersistedState;
use crate::style::{Size, Style};
use crate::tools::arrow::ArrowStyle;
use crate::tools::blur::BlurStyle;
use crate::tools::{TextBackground, Tools};
use crate::units::UNIT;

verus! {

/// A step further is a style further, round and round.
pub proof fn lemma_step_styles(
    a: ArrowStyle,
    b: BlurStyle,
    t: TextBackground,
    steps: i32,
    a1: ArrowStyle,
    a2: ArrowStyle,
    b1: BlurStyle,
    b2: BlurStyle,
    t1: TextBackground,
    t2: TextBackground,
)
    requires
        steps < i32::MAX,
        call_ensures(step_arrow, (a, steps), a1),
        call_ensures(step_arrow, (a, (steps + 1) as i32), a2),
        call_ensures(step_blur, (b, steps), b1),
        call_ensures(step_blur, (b, (steps + 1) as i32), b2),
        call_ensures(step_text, (t, steps), t1),
        call_ensures(step_text, (t, (steps + 1) as i32), t2),
    ensures
        steps == 0 ==> a1 == a && b1 == b && t1 == t,
        a2 == match a1 {
            ArrowStyle::Standard => ArrowStyle::Pointy,
            ArrowStyle::Pointy => ArrowStyle::Curved,
            ArrowStyle::Curved => ArrowStyle::Double,
            ArrowStyle::Double => ArrowStyle::Standard,
        },
        b2 == match b1 {
            BlurStyle::Pixelate => BlurStyle::SecureBlur,
            BlurStyle::SecureBlur => BlurStyle::Gaussian,
            BlurStyle::Gaussian => BlurStyle::BlackOut,
            BlurStyle::BlackOut => BlurStyle::Pixelate,
        },
        t2 != t1,
{
    crate::laws::scroll::lemma_arrow_styles_go_round(a, steps as int);
    crate::laws::scroll::lemma_blur_styles_go_round(b, steps as int);
    crate::laws::scroll::lemma_text_backgrounds_take_turns(t, steps as int);
}

/// A step up is a size up, a step down a size down; at the ends it stays.
pub proof fn lemma_size_steps(size: Size, up: Size, down: Size, same: Size)
    requires
        call_ensures(apply_size_steps, (size, 1i32), up),
        call_ensures(apply_size_steps, (size, -1i32), down),
        call_ensures(apply_size_steps, (size, 0i32), same),
    ensures
        up == next_size(size),
        size != Size::XSmall ==> next_size(down) == size && down != size,
        size == Size::XSmall ==> down == size,
        same == size,
{
    crate::laws::scroll::lemma_sizes_step(size.rung(), 1);
    crate::laws::scroll::lemma_sizes_step(size.rung(), -1);
    crate::laws::scroll::lemma_sizes_step(size.rung(), 0);
}

/// Whole notches of the wheel are steps, up for scrolling up; what is left of
/// a notch waits for the next scroll, unless the wheel turns round.
pub proof fn lemma_notches(accum: &mut i64, dy: i64, steps: i32)
    requires
        -UNIT < *old(accum) < UNIT,
        call_ensures(drain_scroll_resize_steps, (accum, dy), steps),
    ensures
        ({
            let a = *old(accum);
            let turned = (a > 0 && dy > 0) || (a < 0 && dy < 0);
            let whole = if turned {
                -dy
            } else {
                a - dy
            };
            &&& steps * UNIT + *final(accum) == whole
            &&& -UNIT < *final(accum) < UNIT
            &&& whole >= 0 ==> *final(accum) >= 0
            &&& whole <= 0 ==> *final(accum) <= 0
        }),
{
    crate::laws::scroll::lemma_notches_count(*old(accum) as int, dy as int);
}

/// The sliders move by a level, five percent or a tenth for every step, and
/// stop at their ends.
pub proof fn lemma_sliders(
    cur: i64,
    level: usize,
    steps: i32,
    smooth: usize,
    dark: i64,
    opaque: i64,
    factor: i64,
)
    requires
        call_ensures(slide_smooth, (level, steps), smooth),
        call_ensures(slide_darkness, (cur, steps), dark),
        call_ensures(slide_opacity, (cur, steps), opaque),
        call_ensures(slide_factor, (cur, steps), factor),
    ensures
        0 <= level + steps <= 6 ==> smooth == level + steps,
        level + steps > 6 ==> smooth == 6,
        level + steps < 0 ==> smooth == 0,
        100_000 <= cur + 50_000 * steps <= 900_000 ==> dark == cur + 50_000 * steps,
        cur + 50_000 * steps > 900_000 ==> dark == 900_000,
        cur + 50_000 * steps < 100_000 ==> dark == 100_000,
        100_000 <= cur + 50_000 * steps <= 1_000_000 ==> opaque == cur + 50_000 * steps,
        cur + 50_000 * steps > 1_000_000 ==> opaque == 1_000_000,
        cur + 50_000 * steps < 100_000 ==> opaque == 100_000,
        cur % 100_000 == 0 && 100_000 <= cur + 100_000 * steps <= 10_000_000 ==> factor == cur
            + 100_000 * steps,
        cur + 100_000 * steps > 10_000_000 ==> factor == 10_000_000,
        cur + 100_000 * steps < 100_000 ==> factor == 100_000,
{
    crate::laws::scroll::lemma_sliders_move(cur as int, steps as int);
    crate::laws::scroll::lemma_sliders_stop(cur as int, steps as int);
    crate::laws::scroll::lemma_sliders_move(level as int, steps as int);
    crate::laws::scroll::lemma_sliders_stop(level as int, steps as int);
}

/// The view follows the wheel; with Shift alone an upright scroll goes
/// sideways.
pub proof fn lemma_wheel(dx: i64, dy: i64, m: Modifiers, invert: bool, r: (i64, i64))
    requires
        dx > i64::MIN,
        dy > i64::MIN,
        call_ensures(scroll_deltas, (dx, dy, m, invert), r),
    ensures
        ({
            let sideways = m.shift && !m.control && !m.alt && dx == 0;
            &&& !sideways && !invert ==> r.0 == dx && r.1 == dy
            &&& !sideways && invert ==> r.0 + dx == 0 && r.1 + dy == 0
            &&& sideways && !invert ==> r.0 == dy && r.1 == 0
            &&& sideways && invert ==> r.0 + dy == 0 && r.1 == 0
        }),
{
    crate::laws::scroll::lemma_wheel_directions(dx as int, dy as int, m, invert);
}

/// A pinch zooms by what the fingers did since they were last seen.
pub proof fn lemma_pinch(previous: i64, scale: i64, r: Option<i64>)
    requires
        call_ensures(pinch_factor, (previous, scale), r),
    ensures
        previous > 0 && scale > 0 ==> r is Some && -previous <= 2 * (r->0 * previous - scale
            * 1_000_000) <= previous,
        previous <= 0 || scale <= 0 ==> r is None,
{
    if previous > 0 && scale > 0 {
        crate::units::lemma_div_round_near(scale * 1_000_000, previous as int);
    }
}

/// What the wheel is for: with Control and Shift the slider of the tool, with
/// Alt and Shift the size factor, with Alt the size to draw with, with Control
/// the zoom or the crop, and alone the selected drawables.
pub proof fn lemma_route(b: SketchBoard, m: Modifiers, r: ScrollRoute)
    requires
        call_ensures(SketchBoard::scroll_route, (&b, m), r),
    ensures
        m.control && m.shift ==> r == ScrollRoute::AltSlider,
        m.alt && m.shift && !m.control ==> r == ScrollRoute::Factor,
        m.alt && !m.shift ==> r == ScrollRoute::ToolSize,
        m.control && !m.shift && !m.alt && b.active_tool != Tools::Crop ==> r == ScrollRoute::Zoom,
        m.control && !m.shift && !m.alt && b.active_tool == Tools::Crop
            && b.crop_tool.active_edit_spec() ==> r == ScrollRoute::ScaleCrop,
        !m.control && !m.alt && b.active_tool != Tools::Spotlight ==> r == if b.selection@.len()
            > 0 {
            ScrollRoute::Selection
        } else {
            ScrollRoute::Pass
        },
        !m.control && !m.alt && !m.shift && b.active_tool == Tools::Spotlight ==> r
            == ScrollRoute::AltSlider,
{
}

/// Scrolling the size factor by a notch changes it by a tenth, for the board,
/// the saved choices and the configuration alike, and says so.
pub proof fn lemma_factor_by_a_notch(
    b: &mut SketchBoard,
    dy: i64,
    layers: Vec<Layer>,
    state: &mut PersistedState,
    config: &mut BoardConfig,
    out: &mut Vec<Effect>,
)
    requires
        dy == UNIT || dy == -UNIT,
        old(b).scroll_resize_accum == 0,
        old(b).style.annotation_size_factor % 100_000 == 0,
        200_000 <= old(b).style.annotation_size_factor <= 9_900_000,
        call_ensures(
            SketchBoard::scroll_annotation_multiplier,
            (b, dy, &layers, state, config, out),
            (),
        ),
    ensures
        ({
            let v = final(b).style.annotation_size_factor;
            &&& dy < 0 ==> v == old(b).style.annotation_size_factor + 100_000
            &&& dy > 0 ==> v == old(b).style.annotation_size_factor - 100_000
            &&& final(state).annotation_size_factor == Some(v)
            &&& final(config).annotation_size_factor == v
            &&& final(b).style == (Style { annotation_size_factor: v, ..old(b).style })
            &&& final(out)@.contains(
                Effect::Output(SketchBoardOutput::ShowCycleToast(Toast::AnnotationSize(
                    (v as int / 100_000) as i64,
                ))),
            )
        }),
{
    crate::laws::scroll::lemma_notches_count(0, dy as int);
    let f = old(b).style.annotation_size_factor as int;
    crate::laws::scroll::lemma_sliders_move(f, 1);
    crate::laws::scroll::lemma_sliders_move(f, -1);
    let toast = Effect::Output(
        SketchBoardOutput::ShowCycleToast(
            Toast::AnnotationSize((final(b).style.annotation_size_factor as int / 100_000) as i64),
        ),
    );
    assert(final(out)@[final(out)@.len() - 2] == toast);
}

/// At its end the size factor stays, and nothing is said or saved.
pub proof fn lemma_factor_at_its_end(
    b: &mut SketchBoard,
    dy: i64,
    layers: Vec<Layer>,
    state: &mut PersistedState,
    config: &mut BoardConfig,
    out: &mut Vec<Effect>,
)
    requires
        dy == UNIT || dy == -UNIT,
        old(b).scroll_resize_accum == 0,
        dy < 0 ==> old(b).style.annotation_size_factor == 10_000_000,
        dy > 0 ==> old(b).style.annotation_size_factor == 100_000,
        call_ensures(
            SketchBoard::scroll_annotation_multiplier,
            (b, dy, &layers, state, config, out),
            (),
        ),
    ensures
        *final(b) == *old(b),
        *final(state) == *old(state),
        *final(config) == *old(config),
        final(out)@ == old(out)@,
{
    crate::laws::scroll::lemma_notches_count(0, dy as int);
    let f = old(b).style.annotation_size_factor as int;
    crate::laws::scroll::lemma_sliders_stop(f, 1);
    crate::laws::scroll::lemma_sliders_stop(f, -1);
}

/// At their ends the other sliders stay, and nothing is said.
pub proof fn lemma_sliders_at_their_ends(
    b: &mut SketchBoard,
    dy: i64,
    layers: Vec<Layer>,
    state: PersistedState,
    config: &mut BoardConfig,
    out: &mut Vec<Effect>,
)
    requires
        dy == -UNIT,
        old(b).scroll_resize_accum == 0,
        old(b).selection@.len() == 0,
        (old(b).active_tool == Tools::Spotlight && old(b).style.spotlight_darkness == 900_000) || (
        old(b).active_tool == Tools::Highlighter && old(b).style.highlighter_opacity == 1_000_000)
            || (old(b).active_tool == Tools::Brush && old(config).brush_post_smooth_iterations == 6),
        call_ensures(SketchBoard::scroll_alt_slider, (b, dy, &layers, &state, config, out), ()),
    ensures
        *final(b) == *old(b),
        *final(config) == *old(config),
        final(out)@ == old(out)@,
{
    crate::laws::scroll::lemma_notches_count(0, dy as int);
    let s = old(b).style;
    crate::laws::scroll::lemma_sliders_stop(s.spotlight_darkness as int, 1);
    crate::laws::scroll::lemma_sliders_stop(s.highlighter_opacity as int, 1);
    crate::laws::scroll::lemma_sliders_stop(old(config).brush_post_smooth_iterations as int, 1);
}

/// Scrolling the size to draw with by a notch takes the next size, up for
/// scrolling up, and says so.
pub proof fn lemma_tool_size_by_a_notch(b: &mut SketchBoard, dy: i64, out: &mut Vec<Effect>)
    requires
        dy == UNIT || dy == -UNIT,
        old(b).scroll_resize_accum == 0,
        call_ensures(SketchBoard::scroll_resize_tool_size, (b, dy, out), ()),
    ensures
        ({
            let (s, s2) = (old(b).style.size, final(b).style.size);
            &&& dy < 0 ==> s2 == next_size(s)
            &&& dy > 0 && s != Size::XSmall ==> next_size(s2) == s && s2 != s
            &&& dy > 0 && s == Size::XSmall ==> s2 == s
            &&& s2 != s ==> final(out)@.last() == Effect::Output(
                SketchBoardOutput::ToolSizeChanged(s2),
            )
            &&& s2 == s ==> final(out)@ == old(out)@
            &&& final(b).style == (Style { size: s2, ..old(b).style })
        }),
{
    crate::laws::scroll::lemma_notches_count(0, dy as int);
    crate::laws::scroll::lemma_sizes_step(old(b).style.size.rung(), 1);
    crate::laws::scroll::lemma_sizes_step(old(b).style.size.rung(), -1);
}

/// The slider of the tool at hand, by a notch: the darkness of spotlights and
/// the opacity of highlights by five percent, the smoothing by a level, the
/// styles of arrows, blurs and text by one.
#[verifier::rlimit(40)]
pub proof fn lemma_slider_by_a_notch(
    b: &mut SketchBoard,
    dy: i64,
    layers: Vec<Layer>,
    state: PersistedState,
    config: &mut BoardConfig,
    out: &mut Vec<Effect>,
)
    requires
        dy == -UNIT,
        old(b).scroll_resize_accum == 0,
        old(b).selection@.len() == 0,
        call_ensures(SketchBoard::scroll_alt_slider, (b, dy, &layers, &state, config, out), ()),
    ensures
        ({
            let (s, s2) = (old(b).style, final(b).style);
            let t = old(b).active_tool;
            &&& t == Tools::Spotlight && 100_000 <= s.spotlight_darkness <= 850_000 ==> s2
                == (Style { spotlight_darkness: (s.spotlight_darkness + 50_000) as i64, ..s })
                && final(out)@.contains(
                Effect::Output(SketchBoardOutput::SpotlightDarknessReset(s2.spotlight_darkness)),
            )
            &&& t == Tools::Highlighter && 100_000 <= s.highlighter_opacity <= 950_000 ==> s2
                == (Style { highlighter_opacity: (s.highlighter_opacity + 50_000) as i64, ..s })
                && final(b).session_highlighter_opacity == Some(s2.highlighter_opacity)
            &&& t == Tools::Brush && old(config).brush_post_smooth_iterations < 6
                ==> final(config).brush_post_smooth_iterations == old(config).brush_post_smooth_iterations + 1 && final(b).session_brush_smooth == Some(
                final(config).brush_post_smooth_iterations,
            )
            &&& t == Tools::Arrow && state.arrow_style == Some(ArrowStyle::Pointy) ==> final(out)@.last() == Effect::Output(SketchBoardOutput::ArrowStyleCycled(ArrowStyle::Curved))
            &&& t == Tools::Blur && state.blur_style == Some(BlurStyle::Gaussian) ==> final(out)@.last() == Effect::Output(SketchBoardOutput::BlurStyleCycled(BlurStyle::BlackOut))
            &&& t == Tools::Text && state.text_background == Some(TextBackground::Rounded)
                ==> final(out)@.last() == Effect::Output(
                SketchBoardOutput::TextBackgroundCycled(TextBackground::Plain),
            )
            &&& t == Tools::Line || t == Tools::Marker || t == Tools::Crop ==> s2 == s
                && final(out)@ == old(out)@
        }),
{
    crate::laws::scroll::lemma_notches_count(0, dy as int);
    let s = old(b).style;
    crate::laws::scroll::lemma_sliders_move(s.spotlight_darkness as int, 1);
    crate::laws::scroll::lemma_sliders_move(s.highlighter_opacity as int, 1);
    crate::laws::scroll::lemma_sliders_move(old(config).brush_post_smooth_iterations as int, 1);
    if old(b).active_tool == Tools::Spotlight && 100_000 <= s.spotlight_darkness <= 850_000 {
        assert(final(out)@[old(out)@.len() + 1int] == Effect::Output(
            SketchBoardOutput::SpotlightDarknessReset(final(b).style.spotlight_darkness),
        ));
    }
}

/// Scrolling over selected drawables asks for new sizes and for the toolbar to
/// follow; without a whole notch nothing happens yet.
pub proof fn lemma_selection_scroll(
    b: &mut SketchBoard,
    dy: i64,
    layers: Vec<Layer>,
    out: &mut Vec<Effect>,
)
    requires
        old(b).scroll_resize_accum == 0,
        call_ensures(SketchBoard::scroll_resize_selection, (b, dy, &layers, out), ()),
    ensures
        -UNIT < dy < UNIT ==> final(out)@ == old(out)@ && final(b).scroll_resize_accum + dy == 0,
        dy == -UNIT || dy == UNIT ==> final(out)@.last() == Effect::SyncToolbar
            && final(b).scroll_resize_accum == 0,
        final(b).style == old(b).style,
{
    crate::laws::scroll::lemma_notches_count(0, dy as int);
}

/// The tool whose slider moves is the one that made all selected drawables,
/// or else the active one.
pub proof fn lemma_slider_target(b: SketchBoard, layers: Vec<Layer>, r: Option<Tools>, t: Tools)
    requires
        call_ensures(SketchBoard::alt_slider_target_tool, (&b, &layers), r),
    ensures
        b.selection@.len() == 0 ==> r == Some(b.active_tool),
        b.selection@.len() > 0 && (forall|i: int|
            0 <= i < b.selection@.len() ==> layer_of(layers@, #[trigger] b.selection@[i]) is Some
                && layer_of(layers@, b.selection@[i])->0.tool_type == Some(t)) ==> r == Some(t),
{
}

/// Without scrolling nothing is scrolled, and zooming is left to the view.
pub proof fn lemma_scroll(
    b: &mut SketchBoard,
    dy: i64,
    m: Modifiers,
    layers: Vec<Layer>,
    state: &mut PersistedState,
    config: &mut BoardConfig,
    out: &mut Vec<Effect>,
    r: ScrollRoute,
)
    requires
        call_ensures(SketchBoard::handle_scroll, (b, dy, m, &layers, state, config, out), r),
    ensures
        dy == 0 ==> r == ScrollRoute::Pass && *final(b) == *old(b) && final(out)@ == old(out)@,
        r == ScrollRoute::Zoom ==> *final(b) == *old(b) && final(out)@ == old(out)@,
        r == ScrollRoute::Pass && dy != 0 && !m.control ==> final(b).scroll_resize_accum == 0,
        r == ScrollRoute::ToolSize ==> *final(state) == *old(state) && *final(config) == *old(config),
{
}

} // verus!
