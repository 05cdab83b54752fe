//! What starting, switching tools and following the selection give back.
use vstd::prelude::*;
use crate::board::canvas::Dims;
use crate::board::layers::{find_layer, Layer, LayerEdit};
use crate::board::messages::{SketchBoardOutput, ToolbarEvent};
use crate::board::sync::present;
use crate::board::update::initial_size;
use crate::board::{BoardConfig, Effect, Shortcut, SketchBoard};
use crate::state::{initial_color, PersistedState};
use crate::style::{Color, Size, Style};
use crate::tools::arrow::ArrowStyle;
use crate::tools::blur::BlurStyle;
use crate::tools::highlight::HighlighterStyle;
use crate::tools::{DrawableId, TextBackground, ToolUpdateResult, Tools};

verus! {

/// The board starts with the given tool, the color that was used last and
/// nothing selected; saved styles go to their tools.
pub proof fn lemma_start(
    dims: Dims,
    tool: Tools,
    base: Style,
    shortcut: Option<Shortcut>,
    state: PersistedState,
    out: &mut Vec<Effect>,
    r: SketchBoard,
    color: Color,
)
    requires
        dims.ok(),
        call_ensures(initial_color, (&state,), color),
        call_ensures(SketchBoard::init, (dims, tool, base, shortcut, &state, out), r),
    ensures
        r.active_tool == tool,
        r.selection@.len() == 0,
        r.style == (Style { color, size: initial_size(tool, state), ..base }),
        !r.layer_panel_open,
        r.layer_panel_shortcut == shortcut,
        r.crop_tool.image_bounds is Some,
        r.crop_tool.image_bounds->0.x == dims.w * 65536,
        r.crop_tool.image_bounds->0.y == dims.h * 65536,
        r.crop_tool.crop is None,
        r.highlighter_style == match state.highlighter_style {
            Some(s) => s,
            None => HighlighterStyle::TextLocked,
        },
        ({
            let n = final(out)@.len() as int;
            &&& final(out)@[n - 1] == Effect::Activate(tool)
            &&& final(out)@[n - 2] == Effect::ToolStyle(tool, r.style)
            &&& final(out)@[n - 3] == Effect::SetActiveTool(tool)
            &&& final(out)@[n - 4] == Effect::SpotlightDarkness(base.spotlight_darkness)
        }),
        state.arrow_style matches Some(s) ==> final(out)@.contains(Effect::ToolArrowStyle(s)),
        state.blur_style matches Some(s) ==> final(out)@.contains(Effect::ToolBlurStyle(s)),
        state.text_background matches Some(s) ==> final(out)@.contains(
            Effect::ToolTextBackground(s),
        ),
        state.highlighter_style matches Some(s) ==> final(out)@.contains(
            Effect::ToolHighlighterStyle(s),
        ),
{
    let n = old(out)@.len() as int;
    let a: int = if state.arrow_style is Some {
        1
    } else {
        0
    };
    let b: int = if state.blur_style is Some {
        1
    } else {
        0
    };
    let c: int = if state.text_background is Some {
        1
    } else {
        0
    };
    if let Some(s) = state.arrow_style {
        assert(final(out)@[n] == Effect::ToolArrowStyle(s));
    }
    if let Some(s) = state.blur_style {
        assert(final(out)@[n + a] == Effect::ToolBlurStyle(s));
    }
    if let Some(s) = state.text_background {
        assert(final(out)@[n + a + b] == Effect::ToolTextBackground(s));
    }
    if let Some(s) = state.highlighter_style {
        assert(final(out)@[n + a + b + c] == Effect::ToolHighlighterStyle(s));
    }
}

/// A switch remembers the tool that cropping is left for, takes the style that
/// belongs to the new tool and takes leave of the old one.
pub proof fn lemma_begin_switch(
    b: &mut SketchBoard,
    tool: Tools,
    layers: Vec<Layer>,
    state: PersistedState,
    config: &mut BoardConfig,
    out: &mut Vec<Effect>,
)
    requires
        tool != old(b).active_tool,
        call_ensures(SketchBoard::begin_switch, (b, tool, &layers, &state, config, out), ()),
    ensures
        tool == Tools::Crop ==> final(b).tool_before_crop == Some(old(b).active_tool),
        tool != Tools::Crop ==> final(b).tool_before_crop == old(b).tool_before_crop,
        final(b).active_tool == old(b).active_tool,
        final(b).style == (Style {
            fill: final(b).style.fill,
            highlighter_opacity: final(b).style.highlighter_opacity,
            ..old(b).style
        }),
        tool == Tools::Highlighter && !old(config).sticky_session_defaults
            && state.highlighter_opacity is Some ==> final(b).style.highlighter_opacity
            == state.highlighter_opacity->0 && final(out)@[old(out)@.len() as int]
            == Effect::Output(
            SketchBoardOutput::HighlighterOpacityReset(state.highlighter_opacity->0),
        ),
        tool == Tools::Brush && old(b).selection@.len() == 0 && !old(config).sticky_session_defaults
            && state.brush_post_smooth_iterations is Some
            ==> final(config).brush_post_smooth_iterations == state.brush_post_smooth_iterations->0,
        tool != Tools::Brush ==> *final(config) == *old(config),
        final(out)@[final(out)@.len() - 2] == Effect::Output(
            SketchBoardOutput::ToolSwitchShortcut(tool),
        ),
        final(out)@.last() == Effect::Deactivate(old(b).active_tool),
{
    let first = *old(b);
    crate::laws::state::lemma_entering_keeps_the_rest(first, tool, state, *old(config));
}

/// The new tool is set, styled and entered, in this order; cropping learns the
/// scale that the image is shown at.
pub proof fn lemma_finish_switch(
    b: &mut SketchBoard,
    tool: Tools,
    stored: bool,
    config: BoardConfig,
    out: &mut Vec<Effect>,
)
    requires
        call_ensures(SketchBoard::finish_switch, (b, tool, stored, &config, out), ()),
    ensures
        final(b).active_tool == tool,
        final(b).style == old(b).style,
        ({
            let n = final(out)@.len() - (if tool == Tools::Crop {
                1int
            } else {
                0
            });
            &&& final(out)@[n - 4] == Effect::SetActiveTool(tool)
            &&& final(out)@[n - 3] == Effect::ToolStyle(tool, old(b).style)
            &&& final(out)@[n - 2] == Effect::Activate(tool)
            &&& tool == Tools::Crop ==> final(out)@.last() == Effect::SyncRenderScale
            &&& n == old(out)@.len() + 4 + (if stored && config.auto_copy {
                1int
            } else {
                0
            })
        }),
{
}

/// After cropping, the tool from before it comes back.
pub proof fn lemma_tool_after_crop(b: SketchBoard, r: Tools)
    requires
        call_ensures(SketchBoard::tool_after_crop, (&b,), r),
    ensures
        b.tool_before_crop matches Some(t) ==> r == t,
        b.tool_before_crop is None ==> r == Tools::Pointer,
{
}

/// Cycling takes the next style, keeps it and says so.
pub proof fn lemma_cycle(
    b: &mut SketchBoard,
    tool: Tools,
    layers: Vec<Layer>,
    state: &mut PersistedState,
    out: &mut Vec<Effect>,
    a: ArrowStyle,
    u: BlurStyle,
    t: TextBackground,
)
    requires
        call_ensures(SketchBoard::cycle_seed_arrow, (&*old(b), &layers, &*old(state)), a),
        call_ensures(SketchBoard::cycle_seed_blur, (&*old(b), &layers, &*old(state)), u),
        call_ensures(SketchBoard::cycle_seed_text, (&*old(b), &layers, &*old(state)), t),
        call_ensures(SketchBoard::cycle_tool_style, (b, tool, &layers, state, out), ()),
    ensures
        tool == Tools::Arrow ==> final(state).arrow_style == Some(
            match a {
                ArrowStyle::Standard => ArrowStyle::Pointy,
                ArrowStyle::Pointy => ArrowStyle::Curved,
                ArrowStyle::Curved => ArrowStyle::Double,
                ArrowStyle::Double => ArrowStyle::Standard,
            },
        ) && final(out)@.last() == Effect::Output(
            SketchBoardOutput::ArrowStyleCycled(final(state).arrow_style->0),
        ),
        tool == Tools::Blur ==> final(state).blur_style == Some(
            match u {
                BlurStyle::Pixelate => BlurStyle::SecureBlur,
                BlurStyle::SecureBlur => BlurStyle::Gaussian,
                BlurStyle::Gaussian => BlurStyle::BlackOut,
                BlurStyle::BlackOut => BlurStyle::Pixelate,
            },
        ) && final(out)@.last() == Effect::Output(
            SketchBoardOutput::BlurStyleCycled(final(state).blur_style->0),
        ),
        tool == Tools::Text ==> final(state).text_background is Some
            && final(state).text_background != Some(t) && final(out)@.last() == Effect::Output(
            SketchBoardOutput::TextBackgroundCycled(final(state).text_background->0),
        ),
        tool == Tools::Highlighter ==> final(b).highlighter_style != old(b).highlighter_style
            && final(state).highlighter_style == Some(final(b).highlighter_style),
        tool == Tools::Line || tool == Tools::Crop ==> *final(state) == *old(state) && final(out)@
            == old(out)@,
{
}

/// The styles that cycling goes on from: those of the only selected drawable,
/// else the saved ones, else the standard ones.
pub proof fn lemma_cycle_seeds(
    b: SketchBoard,
    layers: Vec<Layer>,
    state: PersistedState,
    d: Option<Layer>,
    a: ArrowStyle,
    u: BlurStyle,
    t: TextBackground,
)
    requires
        call_ensures(SketchBoard::single_layer, (&b, &layers), d),
        call_ensures(SketchBoard::cycle_seed_arrow, (&b, &layers, &state), a),
        call_ensures(SketchBoard::cycle_seed_blur, (&b, &layers, &state), u),
        call_ensures(SketchBoard::cycle_seed_text, (&b, &layers, &state), t),
    ensures
        d is Some && d->0.arrow_style is Some ==> a == d->0.arrow_style->0,
        d is None && state.arrow_style is Some ==> a == state.arrow_style->0,
        d is None && state.arrow_style is None ==> a == ArrowStyle::Standard,
        d is Some && d->0.blur_style is Some ==> u == d->0.blur_style->0,
        d is None && state.blur_style is Some ==> u == state.blur_style->0,
        d is None && state.blur_style is None ==> u == BlurStyle::Gaussian,
        d is Some && d->0.text_background is Some ==> t == d->0.text_background->0,
        d is None && state.text_background is Some ==> t == state.text_background->0,
        d is None && state.text_background is None ==> t == TextBackground::Plain,
{
    crate::laws::state::lemma_cycling_goes_on_from(b, layers@, state);
}

/// The toolbar follows the only selected drawable: its style is told when it
/// is news, and its tool is asked for unless that is active.
pub proof fn lemma_sync_single(
    b: &mut SketchBoard,
    layers: Vec<Layer>,
    out: &mut Vec<Effect>,
    r: Option<Tools>,
    id: DrawableId,
    d: Layer,
    s: Style,
)
    requires
        old(b).selection@ == seq![id],
        old(b).last_synced_selection is None,
        call_ensures(find_layer, (&layers, id), Some(d)),
        d.style == Some(s),
        call_ensures(SketchBoard::sync_toolbar_to_selection, (b, &layers, out), r),
    ensures
        final(out)@[old(out)@.len() as int] == Effect::Output(
            SketchBoardOutput::SelectionStyleChanged(Some(s)),
        ),
        !final(b).last_was_multi_selection,
        final(b).last_synced_selection is Some,
        final(b).last_synced_selection->0.id == id,
        final(b).last_synced_selection->0.size == s.size,
        d.tool_type matches Some(t) && t != old(b).active_tool && t != Tools::Crop ==> r
            == d.tool_type,
        d.tool_type == Some(old(b).active_tool) ==> r is None,
{
}

/// Without a selection the style of the tools is shown again, once.
pub proof fn lemma_sync_none(
    b: &mut SketchBoard,
    c: &mut SketchBoard,
    layers: Vec<Layer>,
    out: &mut Vec<Effect>,
    more: &mut Vec<Effect>,
    r: Option<Tools>,
    q: Option<Tools>,
)
    requires
        old(b).selection@.len() == 0,
        old(b).last_synced_selection is Some,
        call_ensures(SketchBoard::sync_toolbar_to_selection, (b, &layers, out), r),
        *final(b) == *old(c),
        call_ensures(SketchBoard::sync_toolbar_to_selection, (c, &layers, more), q),
    ensures
        final(out)@ == old(out)@.push(
            Effect::Output(SketchBoardOutput::SelectionStyleChanged(None)),
        ),
        final(more)@ == old(more)@,
        r is None && q is None,
{
}

/// Of several selected drawables the toolbar is told what they agree on.
pub proof fn lemma_sync_many(
    b: &mut SketchBoard,
    layers: Vec<Layer>,
    out: &mut Vec<Effect>,
    r: Option<Tools>,
    size: Size,
)
    requires
        old(b).selection@.len() >= 2,
        old(b).last_was_multi_selection,
        old(b).last_synced_selection is None,
        present(old(b).selection@, layers@).len() > 0,
        call_ensures(SketchBoard::sync_toolbar_to_selection, (b, &layers, out), r),
    ensures
        r is None,
        final(out)@.len() == old(out)@.len() + 1,
        final(out)@.last() matches Effect::Output(
            SketchBoardOutput::SelectionMultiAgreement { size: agreed, smooth },
        ) && (agreed == Some(size) <==> forall|i: int|
            0 <= i < present(old(b).selection@, layers@).len() ==> (#[trigger] present(
                old(b).selection@,
                layers@,
            )[i]).style is Some && present(old(b).selection@, layers@)[i].style->0.size == size),
{
    crate::laws::layers::lemma_agreement_on_size(present(old(b).selection@, layers@), size);
}

/// Filling is switched for the drawn shapes and remembered for the tool.
pub proof fn lemma_toggle_fill(
    b: &mut SketchBoard,
    layers: Vec<Layer>,
    out: &mut Vec<Effect>,
    r: ToolUpdateResult<LayerEdit>,
)
    requires
        old(b).selection@.len() == 0,
        call_ensures(SketchBoard::toggle_fill, (b, &layers, out), r),
    ensures
        old(b).active_tool == Tools::Rectangle ==> final(b).style.fill == !old(b).style.fill
            && final(b).session_fill_rectangle == Some(final(b).style.fill)
            && final(b).session_fill_ellipse == old(b).session_fill_ellipse,
        old(b).active_tool == Tools::Ellipse ==> final(b).style.fill == !old(b).style.fill
            && final(b).session_fill_ellipse == Some(final(b).style.fill)
            && final(b).session_fill_rectangle == old(b).session_fill_rectangle,
{
}

/// A chosen background of text is kept, handed to the tool and shown.
pub proof fn lemma_text_background(
    b: &mut SketchBoard,
    bg: TextBackground,
    layers: Vec<Layer>,
    state: &mut PersistedState,
    out: &mut Vec<Effect>,
    r: ToolUpdateResult<LayerEdit>,
)
    requires
        call_ensures(SketchBoard::select_text_background, (b, bg, &layers, state, out), r),
    ensures
        final(state).text_background == Some(bg),
        final(out)@[old(out)@.len() as int] == Effect::ToolTextBackground(bg),
        *final(b) == *old(b),
{
}

/// A chosen smoothing is for the selected drawables, or without any for those
/// to come.
pub proof fn lemma_brush_smooth(
    b: &mut SketchBoard,
    value: usize,
    layers: Vec<Layer>,
    config: &mut BoardConfig,
    r: ToolUpdateResult<LayerEdit>,
)
    requires
        old(b).selection@.len() == 0,
        call_ensures(SketchBoard::change_brush_smooth, (b, value, &layers, config), r),
    ensures
        final(b).session_brush_smooth == Some(value),
        final(config).brush_post_smooth_iterations == value,
        r is Unmodified,
{
}

/// Another size factor goes to the active tool; the same one changes nothing.
pub proof fn lemma_annotation_factor(b: &mut SketchBoard, value: i64, out: &mut Vec<Effect>)
    requires
        call_ensures(SketchBoard::set_annotation_factor, (b, value, out), ()),
    ensures
        final(b).style == (Style { annotation_size_factor: value, ..old(b).style }),
        value == old(b).style.annotation_size_factor ==> final(out)@ == old(out)@,
        value != old(b).style.annotation_size_factor ==> final(out)@[old(out)@.len() as int]
            == Effect::ToolStyle(old(b).active_tool, final(b).style),
{
}

/// Text is edited with its own tool.
pub proof fn lemma_edit_text(
    b: SketchBoard,
    id: DrawableId,
    layers: Vec<Layer>,
    d: Option<Layer>,
    out: &mut Vec<Effect>,
)
    requires
        call_ensures(find_layer, (&layers, id), d),
        call_ensures(SketchBoard::enter_text_edit_mode, (&b, id, &layers, out), ()),
    ensures
        d is None ==> final(out)@ == old(out)@,
        d is Some ==> final(out)@ == old(out)@ + seq![
            Effect::Toolbar(ToolbarEvent::ToolSelected(Tools::Text)),
            Effect::EditText(id),
            Effect::Refresh,
        ],
{
}

} // verus!
