//! What the toolbar and the sliders come to.
use vstd::prelude::*;
use crate::board::layers::{edits, layer_of, Change, Layer};
use crate::board::messages::{Action, ToolbarEvent};
use crate::board::scrolling::{
    agreed_smooth, brush_slid, factor_slid, highlighter_slid, maker, spotlight_slid, tool_size_slid,
    ScrollRoute,
};
use crate::board::toolbar::{
    command_step, crop_step, first_fill, keep_step, level_step, look_step, toolbar_step, window_step,
    ToolbarStep, World,
};
use crate::board::{BoardConfig, Effect, SketchBoard};
use crate::input::Modifiers;
use crate::state::PersistedState;
use crate::tools::Tools;
use crate::units::UNIT;

verus! {

/// Whole steps and what is left of them add up to what was scrolled; less than
/// a step is left.
pub proof fn lemma_scrolled_steps_add_up(b: SketchBoard, dy: int)
    requires
        -UNIT < b.scroll_resize_accum < UNIT,
    ensures
        ({
            let a = b.scroll_resize_accum as int;
            let turned = (a > 0 && dy > 0) || (a < 0 && dy < 0);
            let all = if turned {
                -dy
            } else {
                a - dy
            };
            &&& b.steps_of(dy) * UNIT + b.rest_of(dy) == all
            &&& -UNIT < b.rest_of(dy) < UNIT
            &&& all >= 0 ==> b.rest_of(dy) >= 0 && b.steps_of(dy) >= 0
            &&& all <= 0 ==> b.rest_of(dy) <= 0 && b.steps_of(dy) <= 0
        }),
{
}

/// What the wheel is for: the slider at hand with Control and Shift, the size
/// factor with Alt and Shift, the size with Alt, zooming with Control, and the
/// selection else. Over a crop Control scales it.
pub proof fn lemma_wheel_is_for(b: SketchBoard, m: Modifiers)
    ensures
        m.control && m.shift ==> b.route_spec(m) == ScrollRoute::AltSlider,
        !m.control && m.shift && m.alt ==> b.route_spec(m) == ScrollRoute::Factor,
        !m.shift && m.alt ==> b.route_spec(m) == ScrollRoute::ToolSize,
        m.control && !m.shift && !m.alt && b.active_tool != Tools::Crop ==> b.route_spec(m)
            == ScrollRoute::Zoom,
        m.control && !m.shift && !m.alt && b.active_tool == Tools::Crop ==> b.route_spec(m) == if b.crop_tool.active_edit_spec() {
            ScrollRoute::ScaleCrop
        } else {
            ScrollRoute::Pass
        },
        !m.control && !m.shift && !m.alt && b.active_tool == Tools::Spotlight ==> b.route_spec(m)
            == ScrollRoute::AltSlider,
        !m.control && !m.alt && (m.shift || b.active_tool != Tools::Spotlight) ==> b.route_spec(m)
            == if b.selection@.len() > 0 {
            ScrollRoute::Selection
        } else {
            ScrollRoute::Pass
        },
{
}

/// The slider at hand is that of the tool that made the selection, or of the
/// active tool where nothing is selected or several tools made it.
pub proof fn lemma_slider_at_hand(b: SketchBoard, layers: Seq<Layer>, i: int, j: int)
    ensures
        b.selection@.len() == 0 ==> b.alt_target(layers) == Some(b.active_tool),
        0 <= i < b.selection@.len() && 0 <= j < b.selection@.len() && maker(
            layers,
            b.selection@[i],
        ) != maker(layers, b.selection@[j]) ==> b.alt_target(layers) == Some(b.active_tool),
        b.selection@.len() == 1 && layer_of(layers, b.selection@[0]) is Some ==> b.alt_target(
            layers,
        ) == layer_of(layers, b.selection@[0])->0.tool_type,
{
}

/// Scrolling the size factor moves it by a tenth a step, here and in what is
/// kept.
pub proof fn lemma_factor_moves_by_tenths(
    a: SketchBoard,
    steps: int,
    layers: Seq<Layer>,
    state: PersistedState,
    config: BoardConfig,
    before: Seq<Effect>,
    b: SketchBoard,
    state_after: PersistedState,
    config_after: BoardConfig,
    after: Seq<Effect>,
)
    requires
        factor_slid(
            a,
            steps,
            layers,
            state,
            config,
            before,
            b,
            state_after,
            config_after,
            after,
        ),
        steps != 0,
        a.style.annotation_size_factor as int % 100_000 == 0,
        100_000 <= a.style.annotation_size_factor + 100_000 * steps <= 10_000_000,
    ensures
        ({
            let v = a.style.annotation_size_factor + 100_000 * steps;
            &&& b.style.annotation_size_factor == v
            &&& state_after.annotation_size_factor is Some
            &&& state_after.annotation_size_factor->0 == v
            &&& config_after.annotation_size_factor == v
            &&& b.style.size == a.style.size && b.style.color == a.style.color
        }),
{
    crate::laws::scroll::lemma_sliders_move(a.style.annotation_size_factor as int, steps);
}

/// Scrolling the size goes up or down the ladder.
pub proof fn lemma_size_moves_by_rungs(
    a: SketchBoard,
    steps: int,
    before: Seq<Effect>,
    b: SketchBoard,
    after: Seq<Effect>,
)
    requires
        tool_size_slid(a, steps, before, b, after),
        0 <= a.style.size.rung() + steps <= 5,
    ensures
        b.style.size.rung() == a.style.size.rung() + steps,
        b.style.color == a.style.color,
        steps == 0 ==> after == before,
{
    if steps == 0 {
        crate::style::Size::lemma_rung_injective(b.style.size, a.style.size);
    }
}

/// Scrolling the highlighter moves its opacity by five percent a step, and the
/// session remembers it.
pub proof fn lemma_opacity_moves_by_steps(
    a: SketchBoard,
    steps: int,
    layers: Seq<Layer>,
    before: Seq<Effect>,
    b: SketchBoard,
    after: Seq<Effect>,
)
    requires
        highlighter_slid(a, steps, layers, before, b, after),
        steps != 0,
        100_000 <= a.style.highlighter_opacity + 50_000 * steps <= 1_000_000,
    ensures
        b.style.highlighter_opacity == a.style.highlighter_opacity + 50_000 * steps,
        b.session_highlighter_opacity == Some(b.style.highlighter_opacity),
        b.style.spotlight_darkness == a.style.spotlight_darkness,
{
}

/// Scrolling the spotlight moves its darkness by five percent a step.
pub proof fn lemma_darkness_moves_by_steps(
    a: SketchBoard,
    steps: int,
    before: Seq<Effect>,
    b: SketchBoard,
    after: Seq<Effect>,
)
    requires
        spotlight_slid(a, steps, before, b, after),
        steps != 0,
        100_000 <= a.style.spotlight_darkness + 50_000 * steps <= 900_000,
    ensures
        b.style.spotlight_darkness == a.style.spotlight_darkness + 50_000 * steps,
        b.style.highlighter_opacity == a.style.highlighter_opacity,
        after[before.len() as int] == Effect::SpotlightDarkness(b.style.spotlight_darkness),
{
}

/// Scrolling the brush with nothing selected moves its smoothing by a level a
/// step.
pub proof fn lemma_smoothing_moves_by_levels(
    a: SketchBoard,
    steps: int,
    layers: Seq<Layer>,
    config: BoardConfig,
    before: Seq<Effect>,
    b: SketchBoard,
    config_after: BoardConfig,
    after: Seq<Effect>,
)
    requires
        brush_slid(a, steps, layers, config, before, b, config_after, after),
        a.selection@.len() == 0,
        steps != 0,
        0 <= config.brush_post_smooth_iterations + steps <= 6,
    ensures
        config_after.brush_post_smooth_iterations == config.brush_post_smooth_iterations + steps,
        b.session_brush_smooth == Some(config_after.brush_post_smooth_iterations),
{
    assert(edits(
        a.selection@,
        layers,
        Change::Smooth(config_after.brush_post_smooth_iterations),
    ).len() == 0);
}

/// A smoothing level is agreed on when every selected drawable has it.
pub proof fn lemma_smoothing_is_agreed_on(b: SketchBoard, layers: Seq<Layer>, level: usize)
    requires
        b.selection@.len() > 0,
    ensures
        agreed_smooth(b.selection@, layers) == Some(level) <==> forall|i: int|
            0 <= i < b.selection@.len() ==> {
                let d = layer_of(layers, #[trigger] b.selection@[i]);
                d is Some && d->0.smooth_level == Some(level)
            },
{
    let sel = b.selection@;
    if forall|i: int|
        0 <= i < sel.len() ==> {
            let d = layer_of(layers, #[trigger] sel[i]);
            d is Some && d->0.smooth_level == Some(level)
        } {
        assert(layer_of(layers, sel[0]) is Some);
        assert forall|i: int| 0 <= i < sel.len() implies crate::board::scrolling::smoothed_by(
            layers,
            #[trigger] sel[i],
            level,
        ) by {
            assert(layer_of(layers, sel[i]) is Some);
        }
    }
    if agreed_smooth(sel, layers) == Some(level) {
        assert forall|i: int| 0 <= i < sel.len() implies {
            let d = layer_of(layers, #[trigger] sel[i]);
            d is Some && d->0.smooth_level == Some(level)
        } by {
            assert(crate::board::scrolling::smoothed_by(layers, sel[i], level));
        }
    }
}

/// Choosing a color or a size changes that of what is drawn next.
pub proof fn lemma_choosing_a_look(a: World, e: ToolbarEvent, layers: Seq<Layer>, b: World, step: ToolbarStep)
    requires
        toolbar_step(a, e, layers, b, step),
    ensures
        e matches ToolbarEvent::ColorSelected(color) ==> {
            &&& b.board.style.color == color && b.board.style.size == a.board.style.size
            &&& b.board.style.fill == a.board.style.fill
            &&& step == ToolbarStep::StyleChanged
        },
        e matches ToolbarEvent::SizeSelected(size) ==> {
            &&& b.board.style.size == size && b.board.style.color == a.board.style.color
            &&& b.board.style.fill == a.board.style.fill
            &&& step == ToolbarStep::StyleChanged
        },
        e matches ToolbarEvent::ToolSelected(tool) ==> {
            &&& b.board.selection@.len() == 0 && b.board.style == a.board.style
            &&& step == ToolbarStep::SwitchTool {
                tool,
                had_selection: a.board.selection@.len() > 0,
            }
        },
        e matches ToolbarEvent::HighlighterOpacityChanged(v) ==> {
            &&& b.board.style.highlighter_opacity == v
            &&& b.board.session_highlighter_opacity == Some(v)
        },
        e matches ToolbarEvent::SpotlightDarknessChanged(v) ==> {
            &&& b.board.style.spotlight_darkness == v
            &&& b.effects == a.effects.push(Effect::SpotlightDarkness(v))
        },
{
    reveal(command_step);
    reveal(level_step);
}

/// The command buttons ask for what they are named for, and change nothing
/// themselves.
pub proof fn lemma_command_buttons(a: World, e: ToolbarEvent, layers: Seq<Layer>, b: World, step: ToolbarStep)
    requires
        toolbar_step(a, e, layers, b, step),
    ensures
        e == ToolbarEvent::SaveFile ==> step == ToolbarStep::Act(Action::SaveToFile) && b.board
            == a.board,
        e == ToolbarEvent::SaveFileAs ==> step == ToolbarStep::Act(Action::SaveToFileAs) && b.board
            == a.board,
        e == ToolbarEvent::CopyClipboard ==> step == ToolbarStep::Act(Action::SaveToClipboard)
            && b.board == a.board,
        e == ToolbarEvent::Undo ==> step == ToolbarStep::Undo && b.board == a.board,
        e == ToolbarEvent::Redo ==> step == ToolbarStep::Redo && b.board == a.board,
        e == ToolbarEvent::Reset ==> step == ToolbarStep::Reset && b.board == a.board,
        e == ToolbarEvent::FlipHorizontal ==> step == ToolbarStep::Flip && b.board == a.board,
        e == ToolbarEvent::RotateImage ==> step == ToolbarStep::Rotate && b.board == a.board,
        e matches ToolbarEvent::ResizeImage { width, height } ==> step == (ToolbarStep::Resize {
            width,
            height,
        }) && b.board == a.board,
        e == ToolbarEvent::ToggleLayerPanel ==> b.board.layer_panel_open
            == !a.board.layer_panel_open,
{
    reveal(command_step);
    reveal(window_step);
}

/// What is chosen or kept is what is remembered.
pub proof fn lemma_chosen_styles_are_remembered(
    a: World,
    e: ToolbarEvent,
    layers: Seq<Layer>,
    b: World,
    step: ToolbarStep,
)
    requires
        toolbar_step(a, e, layers, b, step),
    ensures
        e matches ToolbarEvent::ArrowStyleSelected(s) ==> b.state.arrow_style == Some(s)
            && b.state.blur_style == a.state.blur_style,
        e matches ToolbarEvent::BlurStyleSelected(s) ==> b.state.blur_style == Some(s)
            && b.state.arrow_style == a.state.arrow_style,
        e matches ToolbarEvent::TextBackgroundSelected(s) ==> b.state.text_background == Some(s),
        e matches ToolbarEvent::HighlighterStyleSelected(s) ==> b.state.highlighter_style == Some(s)
            && b.board.highlighter_style == s,
        e matches ToolbarEvent::SnapToEdgesChanged(v) ==> b.state.snap_to_edges == Some(v)
            && b.board.crop_tool.snap_to_edges == v,
        e == ToolbarEvent::SaveSpotlightDarknessAsDefault ==> b.state.spotlight_darkness == Some(
            a.board.style.spotlight_darkness,
        ) && b.state.highlighter_opacity == a.state.highlighter_opacity,
        e == ToolbarEvent::SaveHighlighterOpacityAsDefault ==> b.state.highlighter_opacity == Some(
            a.board.style.highlighter_opacity,
        ) && b.state.spotlight_darkness == a.state.spotlight_darkness,
        e matches ToolbarEvent::SaveBrushPostSmoothAsDefault(v)
            ==> b.state.brush_post_smooth_iterations == Some(v)
            && b.config.brush_post_smooth_iterations == v,
        e == ToolbarEvent::SaveFillAsDefault && (a.board.active_tool == Tools::Rectangle
            || a.board.active_tool == Tools::Ellipse) ==> b.state.fill_per_tool@
            == a.state.fill_per_tool@.insert(a.board.active_tool, a.board.style.fill),
{
    reveal(look_step);
    reveal(keep_step);
}

/// With nothing selected, toggling the fill turns that of the style round for
/// rectangles and ellipses, and does nothing for other tools.
pub proof fn lemma_fill_is_toggled(a: World, layers: Seq<Layer>, b: World, step: ToolbarStep)
    requires
        toolbar_step(a, ToolbarEvent::ToggleFill, layers, b, step),
        a.board.selection@.len() == 0,
    ensures
        a.board.active_tool == Tools::Rectangle || a.board.active_tool == Tools::Ellipse
            ==> b.board.style.fill == !a.board.style.fill && b.board.session_fill(
            a.board.active_tool,
        ) == Some(b.board.style.fill),
        a.board.active_tool != Tools::Rectangle && a.board.active_tool != Tools::Ellipse
            ==> b.board == a.board,
{
    reveal(look_step);
}

/// The fill that a toggle goes by is that of the first selected shape.
pub proof fn lemma_first_shape_decides(b: SketchBoard, layers: Seq<Layer>)
    requires
        b.selection@.len() > 0,
        layer_of(layers, b.selection@[0]) is Some,
        ({
            let d = layer_of(layers, b.selection@[0])->0;
            (d.tool_type == Some(Tools::Rectangle) || d.tool_type == Some(Tools::Ellipse))
                && d.style is Some
        }),
    ensures
        b.toggled_fill(layers) == !layer_of(layers, b.selection@[0])->0.style->0.fill,
        b.can_fill(layers),
{
    assert(first_fill(b.selection@, layers) is Some);
    assert(crate::board::layers::fillable(layer_of(layers, b.selection@[0])->0.tool_type));
}

/// The crop buttons crop: a typed size is in pixels, cancelling drops a first
/// draft, and the matte is that of the crop.
pub proof fn lemma_crop_buttons(a: World, e: ToolbarEvent, layers: Seq<Layer>, b: World, step: ToolbarStep)
    requires
        toolbar_step(a, e, layers, b, step),
    ensures
        e matches ToolbarEvent::CropDimensionsSet { width, height } ==> width > 0 && height > 0
            && a.board.crop_tool.image_bounds is Some ==> {
            &&& b.board.crop_tool.crop is Some
            &&& b.board.crop_tool.crop->0.size.x == width * 65536
            &&& b.board.crop_tool.crop->0.size.y == height * 65536
        },
        e == ToolbarEvent::CancelCrop && a.board.crop_tool.crop is Some
            && !a.board.crop_tool.crop->0.ever_committed ==> b.board.crop_tool.crop is None,
        e == ToolbarEvent::RevertCrop && a.board.active_tool != Tools::Crop
            ==> b.board.crop_tool.crop is None,
        e matches ToolbarEvent::CropBgColorChanged(bg) ==> b.board.crop_tool.bg_color == bg && (
        a.board.crop_tool.crop is Some ==> b.board.crop_tool.crop is Some
            && b.board.crop_tool.crop->0.bg_color == bg),
        e matches ToolbarEvent::CropAspectRatioChanged(r) ==> b.board.crop_tool.aspect_ratio == r,
        e == ToolbarEvent::ApplyCrop && a.board.crop_tool.crop is Some
            && a.board.crop_tool.crop->0.active ==> b.board.crop_tool.crop is Some
            && b.board.crop_tool.crop->0.committed,
{
    reveal(crop_step);
}

} // verus!
