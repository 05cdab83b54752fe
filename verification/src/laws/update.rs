//! What the messages to the board come to.
use vstd::prelude::*;
use crate::board::canvas::Dims;
use crate::board::keys::CommitCommand;
use crate::board::layers::{layer_of, LayerEdit};
use crate::board::messages::{Action, SketchBoardInput, SketchBoardOutput};
use crate::board::panel::dropped;
use crate::board::toolbar::{command_step, ToolbarStep, World};
use crate::board::update::{
    initial_crop_spec, initial_size, panel_step, update_step, view_step, Context, UpdateStep,
};
use crate::board::{after_result_effects, touched, BoardConfig, Effect, ResultKind, SketchBoard};
use crate::state::PersistedState;
use crate::style::{Color, Size, Style};
use crate::tools::crop::CropMessage;
use crate::tools::{DrawableId, ToolUpdateResult, Tools};
use crate::units::{MICRO, UNIT};

verus! {

/// The eye of a layer shows or hides it, its lock locks or frees it; a layer
/// that gets locked leaves the selection.
pub proof fn lemma_flags_are_toggled(
    a: World,
    id: DrawableId,
    ctx: Context,
    b: World,
    step: UpdateStep,
    other: DrawableId,
)
    requires
        layer_of(ctx.layers@, id) is Some,
    ensures
        update_step(a, SketchBoardInput::PanelToggleVisible(id), ctx, b, step) ==> {
            let d = layer_of(ctx.layers@, id)->0;
            &&& b.effects == a.effects + seq![
                Effect::SetFlags { id, visible: !d.visible, locked: d.locked },
                Effect::Refresh,
            ]
            &&& b.board == a.board
        },
        update_step(a, SketchBoardInput::PanelToggleLocked(id), ctx, b, step) ==> {
            let d = layer_of(ctx.layers@, id)->0;
            &&& b.effects == a.effects + seq![
                Effect::SetFlags { id, visible: d.visible, locked: !d.locked },
                Effect::Refresh,
            ]
            &&& !d.locked ==> (b.board.selection@.contains(other) <==> a.board.selection@.contains(
                other,
            ) && other != id)
            &&& d.locked ==> b.board.selection@ == a.board.selection@
        },
{
    reveal(panel_step);
    crate::laws::panel::lemma_selection_is_sorted_out(
        a.board.selection@,
        ctx.layers@,
        id,
        other,
    );
}

/// Choosing a layer in the list selects it alone; a color chosen for it
/// changes its color alone.
pub proof fn lemma_layer_is_chosen(
    a: World,
    id: DrawableId,
    color: Color,
    s: Style,
    ctx: Context,
    b: World,
    step: UpdateStep,
)
    ensures
        update_step(
            a,
            SketchBoardInput::PanelSelectDrawable { id, additive: false },
            ctx,
            b,
            step,
        ) ==> b.board.selection@ == seq![id],
        update_step(a, SketchBoardInput::PanelSetColor { id, color }, ctx, b, step) && layer_of(
            ctx.layers@,
            id,
        ) is Some && layer_of(ctx.layers@, id)->0.style == Some(s) ==> b.effects == a.effects
            + seq![
            Effect::Modify(id, LayerEdit::Style(Style { color, ..s })),
            Effect::Refresh,
        ],
        update_step(a, SketchBoardInput::ToggleLayerPanel, ctx, b, step)
            ==> b.board.layer_panel_open == !a.board.layer_panel_open,
{
    reveal(panel_step);
}

/// The width of the list is kept once it changes by more than half a pixel.
pub proof fn lemma_list_width_is_kept(
    a: World,
    width: i64,
    ctx: Context,
    b: World,
    step: UpdateStep,
)
    requires
        update_step(a, SketchBoardInput::LayerPanelWidthChanged(width), ctx, b, step),
    ensures
        width - a.board.layer_panel_width > 32768 || a.board.layer_panel_width - width > 32768 ==> {
            &&& b.board.layer_panel_width == width
            &&& b.state.layer_panel_width == Some(width)
        },
        -32768 <= width - a.board.layer_panel_width <= 32768 ==> b == a,
{
    reveal(panel_step);
}

/// A layer dropped on another asks for the stack in its new order.
pub proof fn lemma_drop_asks_for_order(
    a: World,
    src: DrawableId,
    target: DrawableId,
    above_target: bool,
    ctx: Context,
    b: World,
    step: UpdateStep,
)
    requires
        update_step(
            a,
            SketchBoardInput::PanelDropOnto { src, target, above_target },
            ctx,
            b,
            step,
        ),
        dropped(ctx.order@, src, target, above_target) is Some,
    ensures
        step matches UpdateStep::Reorder(v) && v@ == dropped(
            ctx.order@,
            src,
            target,
            above_target,
        )->0,
{
    reveal(panel_step);
}

/// Leaving the crop goes back to the tool before, or else to the pointer.
pub proof fn lemma_crop_goes_back_to_tool_before(a: World, ctx: Context, b: World, step: UpdateStep)
    requires
        update_step(a, SketchBoardInput::ExitCropToPreviousTool, ctx, b, step),
    ensures
        step matches UpdateStep::Toolbar(t) && {
            let tool = if a.board.tool_before_crop is Some {
                a.board.tool_before_crop->0
            } else {
                Tools::Pointer
            };
            t == ToolbarStep::SwitchTool { tool, had_selection: a.board.selection@.len() > 0 }
        },
{
    reveal(command_step);
}

/// Zooming by a pinch takes any factor but none, and the scrollbars pan to
/// where they are set.
pub proof fn lemma_view_is_moved(
    a: World,
    factor: i64,
    horizontal: bool,
    value: i64,
    ctx: Context,
    b: World,
    step: UpdateStep,
)
    ensures
        update_step(a, SketchBoardInput::PinchZoom(factor), ctx, b, step) && factor > 0 && factor
            != 1_000_000 ==> b.effects == a.effects + seq![
            Effect::ZoomBy(factor),
            Effect::Render(None),
        ],
        update_step(a, SketchBoardInput::PinchZoom(factor), ctx, b, step) && (factor <= 0 || factor
            == 1_000_000) ==> b.effects == a.effects,
        update_step(a, SketchBoardInput::ScrollbarSet(horizontal, value), ctx, b, step)
            ==> b.effects == a.effects.push(Effect::PanTo { horizontal, value }),
{
    reveal(view_step);
}

/// A tool starts with the size it had last, a badge else small and the others
/// medium.
pub proof fn lemma_size_to_start_with(tool: Tools, state: PersistedState)
    ensures
        state.size_per_tool@.contains_key(tool) ==> initial_size(tool, state)
            == state.size_per_tool@[tool],
        !state.size_per_tool@.contains_key(tool) && tool == Tools::Marker ==> initial_size(
            tool,
            state,
        ) == Size::Small,
        !state.size_per_tool@.contains_key(tool) && tool != Tools::Marker ==> initial_size(
            tool,
            state,
        ) == Size::Medium,
{
}

/// At the start there is no crop, edges attract unless that was switched off,
/// and the image is known.
pub proof fn lemma_crop_to_start_with(dims: Dims, state: PersistedState)
    requires
        dims.ok(),
    ensures
        ({
            let t = initial_crop_spec(dims, state);
            &&& t.crop is None && t.action is None && t.held_arrows == 0
            &&& t.image_bounds is Some
            &&& t.image_bounds->0.x == dims.w * UNIT && t.image_bounds->0.y == dims.h * UNIT
            &&& t.snap_to_edges == (state.snap_to_edges != Some(false))
            &&& t.render_scale == MICRO
        }),
{
}

/// Digit keys choose colors, one the first and zero the tenth, where there are
/// as many.
pub proof fn lemma_digits_choose_colors(
    board: SketchBoard,
    digit: u32,
    n: usize,
    msgs: Seq<CropMessage>,
    before: Seq<Effect>,
    b: SketchBoard,
    msgs_after: Seq<CropMessage>,
    after: Seq<Effect>,
)
    requires
        digit <= 9,
        board.active_tool != Tools::Crop,
        board.digit_done(digit, n, msgs, before, b, msgs_after, after),
    ensures
        1 <= digit <= n ==> after == before.push(
            Effect::Output(SketchBoardOutput::ColorSwitchShortcut((digit - 1) as u64)),
        ),
        digit == 0 && n >= 10 ==> after == before.push(
            Effect::Output(SketchBoardOutput::ColorSwitchShortcut(9)),
        ),
        digit > n || (digit == 0 && n < 10) ==> after == before,
        b == board,
{
}

/// Typed text goes to the text being edited; else `f` toggles the fill, the
/// key of a tool chooses it, and a digit is a digit.
pub proof fn lemma_typed_text(
    board: SketchBoard,
    text: Seq<char>,
    enabled: bool,
    bound: Option<Tools>,
    now_ms: u64,
)
    requires
        text.len() == 1,
    ensures
        ({
            let c = board.commit_command_spec(text, enabled, bound, now_ms);
            let editing = board.active_tool == Tools::Text && enabled;
            &&& editing ==> c == CommitCommand::Forward
            &&& !editing && (text[0] == 'f' || text[0] == 'F') ==> c == CommitCommand::ToggleFill
            &&& !editing && text[0] != 'f' && text[0] != 'F' ==> match bound {
                Some(t) => {
                    &&& t == Tools::Crop && board.active_tool == Tools::Crop ==> c
                        == CommitCommand::ApplyCrop
                    &&& t != board.active_tool ==> c == CommitCommand::Choose(t, text[0])
                },
                None => {
                    &&& '0' <= text[0] <= '9' ==> c == CommitCommand::Digit(
                        (text[0] as u32 - 48) as u32,
                    )
                    &&& text[0] < '0' || text[0] > '9' ==> c == CommitCommand::Nothing
                },
            }
        }),
{
    assert(seq!['f'][0] == 'f' && seq!['F'][0] == 'F');
    if text[0] == 'f' {
        assert(text =~= seq!['f']);
    }
    if text[0] == 'F' {
        assert(text =~= seq!['F']);
    }
}

/// What changes a drawable, adds one or deletes one is stored, and copied at
/// once where that is configured; it is drawn again.
pub proof fn lemma_stored_changes_are_copied(kind: ResultKind, config: BoardConfig)
    ensures
        ({
            let out = after_result_effects(kind, config);
            let stored = kind == ResultKind::Commit || kind == ResultKind::ModifyDrawable || kind
                == ResultKind::ModifyDrawables || kind == ResultKind::ModifyDrawableCoalesce || kind
                == ResultKind::ModifyDrawablesCoalesce || kind == ResultKind::DeleteDrawable || kind
                == ResultKind::DeleteDrawables;
            let drawn = stored || kind == ResultKind::Redraw || kind
                == ResultKind::RedrawAndStopPropagation || kind == ResultKind::RaiseAndRedrawStop;
            &&& stored && config.auto_copy ==> out == seq![
                Effect::Render(Some(Action::SaveToClipboard)),
                Effect::Refresh,
            ]
            &&& drawn && !(stored && config.auto_copy) ==> out == seq![Effect::Refresh]
            &&& !drawn ==> out.len() == 0
        }),
{
    assert(seq![Effect::Render(Some(Action::SaveToClipboard))] + seq![Effect::Refresh] =~= seq![
        Effect::Render(Some(Action::SaveToClipboard)),
        Effect::Refresh,
    ]);
    assert(Seq::<Effect>::empty() + seq![Effect::Refresh] =~= seq![Effect::Refresh]);
}

/// Keys go no further once they changed or deleted something or were stopped.
pub proof fn lemma_taken_keys_go_no_further(kind: ResultKind)
    ensures
        kind.takes_key_spec() <==> kind != ResultKind::Commit && kind
            != ResultKind::EditTextDrawable && kind != ResultKind::Redraw && kind
            != ResultKind::Unmodified,
        kind.ends_key_spec() <==> kind != ResultKind::EditTextDrawable && kind
            != ResultKind::Redraw && kind != ResultKind::Unmodified,
        kind.takes_input_spec() <==> kind != ResultKind::Commit && kind != ResultKind::Redraw
            && kind != ResultKind::Unmodified,
        kind.ends_input_spec() <==> kind != ResultKind::Redraw && kind != ResultKind::Unmodified,
{
}

/// The drawables that a result names are those that were touched.
pub proof fn lemma_named_drawables_are_touched<D>(r: ToolUpdateResult<D>, id: DrawableId, d: D)
    ensures
        r == ToolUpdateResult::ModifyDrawable(id, d) || r
            == ToolUpdateResult::ModifyDrawableCoalesce(id, d) || r
            == ToolUpdateResult::<D>::DeleteDrawable(id) ==> touched(r) == seq![id],
        r matches ToolUpdateResult::DeleteDrawables(ids) ==> touched(r) == ids@,
        r matches ToolUpdateResult::ModifyDrawables(v) ==> touched(r).len() == v@.len()
            && forall|i: int| 0 <= i < v@.len() ==> #[trigger] touched(r)[i] == v@[i].0,
{
}

} // verus!
