//! What is remembered, and what a tool starts with.
use vstd::prelude::*;
use hex_color::HexColor;
use crate::board::layers::Layer;
use crate::board::switch::{next_blur, next_text};
use crate::board::{BoardConfig, SketchBoard};
use crate::state::{
    color_of, hex_of, hex_to_slot_spec, slot_to_hex_spec, slots_of, trimmed, with_color,
    PersistedState,
};
use crate::style::{Color, Style};
use crate::tools::arrow::ArrowStyle;
use crate::tools::blur::BlurStyle;
use crate::tools::{TextBackground, Tools};

verus! {

/// A stored color has the red, green, blue and alpha of the color.
pub proof fn lemma_stored_colors_keep_their_channels(c: Color, hc: HexColor)
    ensures
        hex_of(c).r == c.r && hex_of(c).g == c.g && hex_of(c).b == c.b && hex_of(c).a == c.a,
        color_of(hc).r == hc.r && color_of(hc).g == hc.g && color_of(hc).b == hc.b && color_of(hc).a
            == hc.a,
        slot_to_hex_spec(Some(c)) == hex_of(c),
        hex_to_slot_spec(hc) is None <==> hc.r == 0 && hc.g == 0 && hc.b == 0 && hc.a == 0,
        hex_to_slot_spec(hc) is Some ==> hex_to_slot_spec(hc) == Some(color_of(hc)),
{
}

/// Every stored color has its own slot.
pub proof fn lemma_slots_stand_in_order(stored: Seq<HexColor>, i: int)
    requires
        0 <= i < stored.len(),
    ensures
        slots_of(stored).len() == stored.len(),
        slots_of(stored)[i] == hex_to_slot_spec(stored[i]),
{
}

/// Trimming cuts empty slots from the end, all of them and nothing else.
pub proof fn lemma_trimmed_ends_with_a_color(slots: Seq<Option<Color>>)
    ensures
        ({
            let r = trimmed(slots);
            &&& r.len() <= slots.len()
            &&& r == slots.take(r.len() as int)
            &&& r.len() > 0 ==> r.last() is Some
            &&& forall|i: int| r.len() <= i < slots.len() ==> (#[trigger] slots[i]) is None
        }),
    decreases slots.len(),
{
    let r = trimmed(slots);
    if slots.len() > 0 && slots.last() is None {
        let rest = slots.drop_last();
        lemma_trimmed_ends_with_a_color(rest);
        assert(r =~= slots.take(r.len() as int));
        assert forall|i: int| r.len() <= i < slots.len() implies (#[trigger] slots[i]) is None by {
            if i < rest.len() {
                assert(rest[i] == slots[i]);
            }
        }
    } else {
        assert(r =~= slots.take(r.len() as int));
    }
}

/// A color is added in the first empty slot, or behind the last; no other
/// slot changes.
pub proof fn lemma_color_takes_first_empty_slot(slots: Seq<Option<Color>>, color: Color, k: int)
    requires
        0 <= k <= slots.len(),
        forall|i: int| 0 <= i < k ==> (#[trigger] slots[i]) is Some,
        k < slots.len() ==> slots[k] is None,
    ensures
        with_color(slots, color) == if k < slots.len() {
            slots.update(k, Some(color))
        } else {
            slots.push(Some(color))
        },
    decreases slots.len(),
{
    let r = with_color(slots, color);
    if slots.len() == 0 {
        assert(r =~= slots.push(Some(color)));
    } else if slots[0] is None {
        assert(k == 0);
    } else {
        let rest = slots.drop_first();
        assert forall|i: int| 0 <= i < k - 1 implies (#[trigger] rest[i]) is Some by {
            assert(rest[i] == slots[i + 1]);
        }
        lemma_color_takes_first_empty_slot(rest, color, k - 1);
        if k < slots.len() {
            assert(r =~= slots.update(k, Some(color)));
        } else {
            assert(r =~= slots.push(Some(color)));
        }
    }
}

/// The opacity that highlights start with: that of the session where it
/// sticks, else the saved one, else forty percent.
pub proof fn lemma_opacity_to_start_with(b: SketchBoard, state: PersistedState, config: BoardConfig)
    ensures
        ({
            let v = b.entry_opacity(state, config);
            let sticks = config.sticky_session_defaults && b.session_highlighter_opacity is Some;
            &&& sticks ==> v == b.session_highlighter_opacity->0
            &&& !sticks && state.highlighter_opacity is Some ==> v == state.highlighter_opacity->0
            &&& !sticks && state.highlighter_opacity is None ==> v == 400_000
        }),
{
}

/// The smoothing that the brush starts with: that of the selected drawable,
/// else that of the session where it sticks, else the saved one, else the
/// configured one.
pub proof fn lemma_smoothing_to_start_with(
    b: SketchBoard,
    layers: Seq<Layer>,
    state: PersistedState,
    config: BoardConfig,
)
    ensures
        ({
            let v = b.entry_smooth(layers, state, config);
            let chosen = b.single(layers) is Some && b.single(layers)->0.smooth_level is Some;
            let sticks = config.sticky_session_defaults && b.session_brush_smooth is Some;
            &&& chosen ==> v == b.single(layers)->0.smooth_level->0
            &&& !chosen && sticks ==> v == b.session_brush_smooth->0
            &&& !chosen && !sticks && state.brush_post_smooth_iterations is Some ==> v
                == state.brush_post_smooth_iterations->0
            &&& !chosen && !sticks && state.brush_post_smooth_iterations is None ==> v
                == config.brush_post_smooth_iterations
        }),
{
}

/// Shapes start with the fill remembered for them, and other tools leave the
/// fill alone.
pub proof fn lemma_fill_to_start_with(
    b: SketchBoard,
    tool: Tools,
    state: PersistedState,
    config: BoardConfig,
)
    requires
        tool != b.active_tool,
    ensures
        ({
            let s = b.entry_style(tool, state, config);
            let shape = tool == Tools::Rectangle || tool == Tools::Ellipse;
            let sticks = config.sticky_session_defaults && b.session_fill(tool) is Some;
            let saved = state.fill_per_tool@.dom().contains(tool);
            &&& !shape ==> s.fill == b.style.fill
            &&& shape && sticks ==> s.fill == b.session_fill(tool)->0
            &&& shape && !sticks && saved ==> s.fill == state.fill_per_tool@[tool]
            &&& shape && !sticks && !saved ==> s.fill == b.style.fill
        }),
{
}

/// The fill of the session is kept for rectangles and ellipses apart.
pub proof fn lemma_session_fills_are_apart(b: SketchBoard, tool: Tools, other: Tools, fill: bool)
    requires
        tool == Tools::Rectangle || tool == Tools::Ellipse,
    ensures
        b.with_session_fill(tool, fill).session_fill(tool) == Some(fill),
        other != tool ==> b.with_session_fill(tool, fill).session_fill(other) == b.session_fill(
            other,
        ),
        other != Tools::Rectangle && other != Tools::Ellipse ==> b.session_fill(other) is None,
{
}

/// Cycling goes on from the style of the selected drawable, else from the
/// saved one, else from the standard one.
pub proof fn lemma_cycling_goes_on_from(b: SketchBoard, layers: Seq<Layer>, state: PersistedState)
    ensures
        ({
            let d = b.single(layers);
            &&& d is Some && d->0.arrow_style is Some ==> b.arrow_seed(layers, state)
                == d->0.arrow_style->0
            &&& (d is None || d->0.arrow_style is None) && state.arrow_style is Some
                ==> b.arrow_seed(layers, state) == state.arrow_style->0
            &&& (d is None || d->0.arrow_style is None) && state.arrow_style is None
                ==> b.arrow_seed(layers, state) == ArrowStyle::Standard
            &&& d is Some && d->0.blur_style is Some ==> b.blur_seed(layers, state)
                == d->0.blur_style->0
            &&& (d is None || d->0.blur_style is None) && state.blur_style is Some ==> b.blur_seed(
                layers,
                state,
            ) == state.blur_style->0
            &&& (d is None || d->0.blur_style is None) && state.blur_style is None ==> b.blur_seed(
                layers,
                state,
            ) == BlurStyle::Gaussian
            &&& d is Some && d->0.text_background is Some ==> b.text_seed(layers, state)
                == d->0.text_background->0
            &&& (d is None || d->0.text_background is None) && state.text_background is Some
                ==> b.text_seed(layers, state) == state.text_background->0
            &&& (d is None || d->0.text_background is None) && state.text_background is None
                ==> b.text_seed(layers, state) == TextBackground::Plain
        }),
{
}

/// The styles that follow each other.
pub proof fn lemma_styles_follow(s: BlurStyle, t: TextBackground)
    ensures
        next_blur(s) == match s {
            BlurStyle::Pixelate => BlurStyle::SecureBlur,
            BlurStyle::SecureBlur => BlurStyle::Gaussian,
            BlurStyle::Gaussian => BlurStyle::BlackOut,
            BlurStyle::BlackOut => BlurStyle::Pixelate,
        },
        next_text(t) != t,
{
}

/// Entering a tool changes nothing of the style but its opacity or fill.
pub proof fn lemma_entering_keeps_the_rest(
    b: SketchBoard,
    tool: Tools,
    state: PersistedState,
    config: BoardConfig,
)
    ensures
        ({
            let s = b.entry_style(tool, state, config);
            s == (Style {
                fill: s.fill,
                highlighter_opacity: s.highlighter_opacity,
                ..b.style
            })
        }),
        tool == b.active_tool ==> b.entry_style(tool, state, config) == b.style,
{
}

} // verus!
