//! The start of the board, and what it does when it is told something.
use vstd::prelude::*;
use crate::board::canvas::zoom_effects;
use crate::board::keys::CommitCommand;
use crate::board::layers::{find_layer, layer_of, Layer, LayerEdit};
use crate::board::messages::{
    Action, SketchBoardInput, SketchBoardOutput, TextEventMsg, ToolbarEvent,
};
use crate::board::output::{handle_render_result, needs_pixels, plan_of, wants_pixels, Job};
use crate::board::panel::{
    drop_onto, dropped, initial_panel_width, layer_name, lowest_first, move_effects, move_order,
    toggled, without, LAYER_PANEL_DEFAULT_WIDTH, LAYER_PANEL_MAX_WIDTH, LAYER_PANEL_MIN_WIDTH,
};
use crate::board::canvas::Dims;
use crate::board::toolbar::{toolbar_step, ToolbarStep, World};
use crate::board::{BoardConfig, Effect, Shortcut, SketchBoard};
use crate::state::{
    initial_color, load_arrow_style, load_blur_style, load_highlighter_style, load_size_for_tool,
    load_snap_to_edges, load_text_background, color_of, PersistedState,
};
use crate::style::{Color, Size, Style};
use crate::text::trim_spec;
use crate::tools::crop::{CropMessage, CropTool};
use crate::tools::highlight::HighlighterStyle;
use crate::tools::{DrawableId, ToolUpdateResult, Tools};
use crate::units::{abs_spec, clamp_spec, MICRO, UNIT};

verus! {

/// The size that a tool starts with: the one used last, else its own, else
/// the common one.
pub open spec fn initial_size(tool: Tools, state: PersistedState) -> Size {
    if state.size_per_tool@.contains_key(tool) {
        state.size_per_tool@[tool]
    } else if tool == Tools::Marker {
        Size::Small
    } else {
        Size::Medium
    }
}

/// A list of one effect, or of none.
pub open spec fn maybe(e: Option<Effect>) -> Seq<Effect> {
    match e {
        Some(e) => seq![e],
        None => Seq::empty(),
    }
}

/// The tools are told of the choices of the last run.
pub open spec fn choices(state: PersistedState) -> Seq<Effect> {
    maybe(
        match state.arrow_style {
            Some(s) => Some(Effect::ToolArrowStyle(s)),
            None => None,
        },
    ) + maybe(
        match state.blur_style {
            Some(s) => Some(Effect::ToolBlurStyle(s)),
            None => None,
        },
    ) + maybe(
        match state.text_background {
            Some(s) => Some(Effect::ToolTextBackground(s)),
            None => None,
        },
    ) + maybe(
        match state.highlighter_style {
            Some(s) => Some(Effect::ToolHighlighterStyle(s)),
            None => None,
        },
    )
}

fn push_maybe(e: Option<Effect>, out: &mut Vec<Effect>)
    ensures
        final(out)@ == old(out)@ + maybe(e),
{
    if let Some(e) = e {
        out.push(e);
    }
    assert(out@ =~= old(out)@ + maybe(e));
}

fn tell_choices(state: &PersistedState, out: &mut Vec<Effect>)
    ensures
        final(out)@ == old(out)@ + choices(*state),
{
    push_maybe(
        match load_arrow_style(state) {
            Some(s) => Some(Effect::ToolArrowStyle(s)),
            None => None,
        },
        out,
    );
    push_maybe(
        match load_blur_style(state) {
            Some(s) => Some(Effect::ToolBlurStyle(s)),
            None => None,
        },
        out,
    );
    push_maybe(
        match load_text_background(state) {
            Some(s) => Some(Effect::ToolTextBackground(s)),
            None => None,
        },
        out,
    );
    push_maybe(
        match load_highlighter_style(state) {
            Some(s) => Some(Effect::ToolHighlighterStyle(s)),
            None => None,
        },
        out,
    );
    assert(out@ =~= old(out)@ + choices(*state));
}

fn tell_start(tool: Tools, style: Style, state: &PersistedState, out: &mut Vec<Effect>)
    ensures
        final(out)@ == old(out)@ + SketchBoard::start_effects(tool, style, *state),
{
    tell_choices(state, out);
    out.push(Effect::SpotlightDarkness(style.spotlight_darkness));
    out.push(Effect::SetActiveTool(tool));
    out.push(Effect::ToolStyle(tool, style));
    out.push(Effect::Activate(tool));
    assert(out@ =~= old(out)@ + SketchBoard::start_effects(tool, style, *state));
}

fn find_initial_size(tool: Tools, state: &PersistedState) -> (r: Size)
    requires
        state.wf(),
    ensures
        r == initial_size(tool, *state),
{
    match load_size_for_tool(state, tool) {
        Some(s) => s,
        None => match tool.builtin_default_size() {
            Some(s) => s,
            None => Size::Medium,
        },
    }
}

/// The crop tool at the start.
pub open spec fn initial_crop_spec(dims: Dims, state: PersistedState) -> CropTool {
    CropTool {
        snap_to_edges: match state.snap_to_edges {
            Some(v) => v,
            None => true,
        },
        image_bounds: Some(dims.size_spec()),
        crop: None,
        action: None,
        input_enabled: false,
        connected: false,
        aspect_ratio: crate::tools::crop::AspectRatio::Freeform,
        bg_color: crate::tools::crop::CropBgColor::Auto,
        render_scale: MICRO,
        held_arrows: 0,
    }
}

fn initial_crop(dims: Dims, state: &PersistedState) -> (r: CropTool)
    requires
        dims.ok(),
    ensures
        r == initial_crop_spec(dims, *state),
        r.fits(),
{
    let mut crop_tool: CropTool = CropTool::default();
    crop_tool.set_image_bounds(dims.size());
    crop_tool.set_snap_to_edges(
        match load_snap_to_edges(state) {
            Some(v) => v,
            None => true,
        },
    );
    crop_tool
}

impl SketchBoard {
    /// What the tools are told at the start: the choices of the last run.
    pub open spec fn start_effects(tool: Tools, style: Style, state: PersistedState) -> Seq<Effect> {
        choices(state) + seq![
            Effect::SpotlightDarkness(style.spotlight_darkness),
            Effect::SetActiveTool(tool),
            Effect::ToolStyle(tool, style),
            Effect::Activate(tool),
        ]
    }

    /// A board for an image, with the choices of the last run. `base` is the
    /// style before color and size.
    pub fn init(
        dims: Dims,
        tool: Tools,
        base: Style,
        shortcut: Option<Shortcut>,
        state: &PersistedState,
        out: &mut Vec<Effect>,
    ) -> (r: SketchBoard)
        requires
            dims.ok(),
            state.wf(),
        ensures
            r.wf(),
            r.active_tool == tool,
            r.selection@.len() == 0,
            r.style == (Style {
                color: match state.last_color {
                    Some(hc) => color_of(hc),
                    None => Color::red_spec(),
                },
                size: initial_size(tool, *state),
                ..base
            }),
            r.crop_tool == initial_crop_spec(dims, *state),
            r.highlighter_style == match state.highlighter_style {
                Some(s) => s,
                None => HighlighterStyle::TextLocked,
            },
            r.last_saved_filepath is None,
            r.last_synced_selection is None,
            !r.last_was_multi_selection,
            r.tool_before_crop is None,
            r.scroll_resize_accum == 0,
            r.last_tool_press is None,
            r.last_hover_image_pos is None,
            r.session_highlighter_opacity is None,
            r.session_brush_smooth is None,
            r.session_fill_rectangle is None,
            r.session_fill_ellipse is None,
            !r.layer_panel_open,
            r.layer_panel_shortcut == shortcut,
            r.layer_panel_width == match state.layer_panel_width {
                Some(w) => clamp_spec(
                    w as int,
                    LAYER_PANEL_MIN_WIDTH as int,
                    LAYER_PANEL_MAX_WIDTH as int,
                ),
                None => LAYER_PANEL_DEFAULT_WIDTH as int,
            },
            final(out)@ == old(out)@ + SketchBoard::start_effects(tool, r.style, *state),
    {
        let style: Style = Style {
            color: initial_color(state),
            size: find_initial_size(tool, state),
            ..base
        };
        let crop_tool: CropTool = initial_crop(dims, state);
        let highlighter_style: HighlighterStyle = match load_highlighter_style(state) {
            Some(s) => s,
            None => HighlighterStyle::TextLocked,
        };
        tell_start(tool, style, state, out);
        SketchBoard {
            active_tool: tool,
            selection: Vec::new(),
            style,
            crop_tool,
            highlighter_style,
            last_saved_filepath: None,
            last_synced_selection: None,
            last_was_multi_selection: false,
            tool_before_crop: None,
            scroll_resize_accum: 0,
            last_tool_press: None,
            last_hover_image_pos: None,
            session_highlighter_opacity: None,
            session_brush_smooth: None,
            session_fill_rectangle: None,
            session_fill_ellipse: None,
            layer_panel_open: false,
            layer_panel_shortcut: shortcut,
            layer_panel_width: initial_panel_width(state),
        }
    }

    /// The image is shown at another scale.
    pub fn zoom_display_changed(&mut self, scale: i64, out: &mut Vec<Effect>)
        ensures
            *final(self) == (SketchBoard { last_hover_image_pos: None, ..*old(self) }),
            final(out)@ == old(out)@ + old(self).zoom_shown_effects(scale),
    {
        out.push(Effect::Output(SketchBoardOutput::ZoomChanged(scale)));
        self.last_hover_image_pos = None;
        out.push(Effect::ClearBandCache);
        if self.active_tool == Tools::Brush || self.active_tool == Tools::Highlighter {
            out.push(Effect::IdleCursor);
        }
        assert(out@ =~= old(out)@ + old(self).zoom_shown_effects(scale));
    }

    /// What another scale asks for.
    pub open spec fn zoom_shown_effects(&self, scale: i64) -> Seq<Effect> {
        seq![Effect::Output(SketchBoardOutput::ZoomChanged(scale)), Effect::ClearBandCache] + (
        if self.active_tool == Tools::Brush || self.active_tool == Tools::Highlighter {
            seq![Effect::IdleCursor]
        } else {
            Seq::empty()
        })
    }

    /// Another size factor of annotations was set in the preferences.
    pub fn set_annotation_factor(&mut self, value: i64, out: &mut Vec<Effect>)
        ensures
            if value == old(self).style.annotation_size_factor {
                *final(self) == *old(self) && final(out)@ == old(out)@
            } else {
                let style = Style { annotation_size_factor: value, ..old(self).style };
                &&& *final(self) == (SketchBoard { style, ..*old(self) })
                &&& final(out)@ == old(out)@ + seq![
                    Effect::ToolStyle(old(self).active_tool, style),
                    Effect::Refresh,
                ]
            },
    {
        if value != self.style.annotation_size_factor {
            self.style.annotation_size_factor = value;
            out.push(Effect::ToolStyle(self.active_tool, self.style));
            out.push(Effect::Refresh);
            assert(out@ =~= old(out)@ + seq![
                Effect::ToolStyle(self.active_tool, self.style),
                Effect::Refresh,
            ]);
        }
    }

    /// Text is to be edited: the text tool is chosen and gets the drawable.
    pub fn enter_text_edit_mode(&self, id: DrawableId, layers: &Vec<Layer>, out: &mut Vec<Effect>)
        ensures
            final(out)@ == if layer_of(layers@, id) is Some {
                old(out)@ + seq![
                    Effect::Toolbar(ToolbarEvent::ToolSelected(Tools::Text)),
                    Effect::EditText(id),
                    Effect::Refresh,
                ]
            } else {
                old(out)@
            },
    {
        if find_layer(layers, id).is_some() {
            out.push(Effect::Toolbar(ToolbarEvent::ToolSelected(Tools::Text)));
            out.push(Effect::EditText(id));
            out.push(Effect::Refresh);
            assert(out@ =~= old(out)@ + seq![
                Effect::Toolbar(ToolbarEvent::ToolSelected(Tools::Text)),
                Effect::EditText(id),
                Effect::Refresh,
            ]);
        }
    }
}

/// How a message goes on.
#[derive(Debug)]
pub enum UpdateStep {
    /// It is done, with this result.
    Done(ToolUpdateResult<LayerEdit>),
    /// The toolbar's request goes on.
    Toolbar(ToolbarStep),
    /// The event goes to the tools.
    Input,
    /// The jobs are done, one after the other; the actions wait for the save
    /// dialog.
    Jobs { jobs: Vec<Job>, later: Vec<Action> },
    Quit,
    /// The stack gets this order.
    Reorder(Vec<DrawableId>),
    /// The user picks a color, from this one on.
    PickColor(DrawableId, Color),
    /// The layer gets this name, or the one it has by itself.
    Rename(DrawableId, Option<String>),
    /// The pasted image goes on the stack.
    Paste,
}

/// What the board knows when it is told something.
#[derive(Debug)]
pub struct Context {
    pub layers: Vec<Layer>,
    /// The stack from the bottom up.
    pub order: Vec<DrawableId>,
    /// The text tool takes input.
    pub text_enabled: bool,
    /// The tool that the first character of committed text is the key of.
    pub bound: Option<Tools>,
    /// The time, in milliseconds.
    pub now_ms: u64,
}

/// The result that changes nothing.
pub open spec fn quiet(step: UpdateStep) -> bool {
    step == UpdateStep::Done(ToolUpdateResult::Unmodified)
}

/// The result that draws the screen again.
pub open spec fn redraws(step: UpdateStep) -> bool {
    step == UpdateStep::Done(ToolUpdateResult::Redraw)
}

/// What the board is told of the layer list.
#[verifier::opaque]
pub open spec fn panel_step(a: World, msg: SketchBoardInput, ctx: Context, b: World, step: UpdateStep) -> bool {
    let board = a.board;
    let sel = b.board.selection;
    match msg {
        SketchBoardInput::ToggleLayerPanel => {
            &&& b =~= World {
                board: SketchBoard { layer_panel_open: !board.layer_panel_open, ..board },
                effects: a.effects + (if board.layer_panel_open {
                    seq![Effect::PanelVisible(false)]
                } else {
                    seq![
                        Effect::PanelVisible(true),
                        Effect::PanelPosition(board.layer_panel_width),
                        Effect::RebuildRows,
                    ]
                }),
                ..a
            }
            &&& quiet(step)
        },
        SketchBoardInput::PanelSelectDrawable { id, additive } => {
            &&& sel@ =~= if additive {
                toggled(board.selection@, id)
            } else {
                seq![id]
            }
            &&& b =~= World {
                board: SketchBoard { selection: sel, ..board },
                effects: a.effects.push(Effect::Refresh),
                ..a
            }
            &&& quiet(step)
        },
        SketchBoardInput::PanelToggleVisible(id) => {
            &&& b =~= World {
                effects: match layer_of(ctx.layers@, id) {
                    Some(d) => a.effects + seq![
                        Effect::SetFlags { id, visible: !d.visible, locked: d.locked },
                        Effect::Refresh,
                    ],
                    None => a.effects,
                },
                ..a
            }
            &&& quiet(step)
        },
        SketchBoardInput::PanelToggleLocked(id) => {
            &&& match layer_of(ctx.layers@, id) {
                Some(d) => {
                    &&& sel@ == if d.locked {
                        board.selection@
                    } else {
                        without(board.selection@, id)
                    }
                    &&& b =~= World {
                        board: SketchBoard { selection: sel, ..board },
                        effects: a.effects + seq![
                            Effect::SetFlags { id, visible: d.visible, locked: !d.locked },
                            Effect::Refresh,
                        ],
                        ..a
                    }
                },
                None => sel@ == board.selection@ && b =~= World {
                    board: SketchBoard { selection: sel, ..board },
                    ..a
                },
            }
            &&& quiet(step)
        },
        SketchBoardInput::PanelMoveDrawable { id, direction } => {
            &&& b =~= World { effects: a.effects + move_effects(seq![id], direction), ..a }
            &&& quiet(step)
        },
        SketchBoardInput::PanelMoveSelected(direction) => {
            &&& b =~= World {
                effects: if board.selection@.len() == 0 {
                    a.effects
                } else {
                    a.effects + move_effects(
                        move_order(board.selection@, ctx.order@, lowest_first(direction)),
                        direction,
                    )
                },
                ..a
            }
            &&& quiet(step)
        },
        SketchBoardInput::PanelReorderTo(new_order) => {
            &&& b =~= a
            &&& step matches UpdateStep::Reorder(v) && v@ == new_order@
        },
        SketchBoardInput::PanelDropOnto { src, target, above_target } => {
            &&& b =~= a
            &&& match dropped(ctx.order@, src, target, above_target) {
                Some(s) => step matches UpdateStep::Reorder(v) && v@ == s,
                None => quiet(step),
            }
        },
        SketchBoardInput::PanelEditColor(id) => {
            &&& b =~= a
            &&& match layer_of(ctx.layers@, id) {
                Some(Layer { style: Some(s), .. }) => step == UpdateStep::PickColor(id, s.color),
                _ => quiet(step),
            }
        },
        SketchBoardInput::PanelSetColor { id, color } => {
            &&& b =~= World {
                effects: match layer_of(ctx.layers@, id) {
                    Some(Layer { style: Some(s), .. }) => a.effects + seq![
                        Effect::Modify(id, LayerEdit::Style(Style { color, ..s })),
                        Effect::Refresh,
                    ],
                    _ => a.effects,
                },
                ..a
            }
            &&& quiet(step)
        },
        SketchBoardInput::PanelRename { id, name } => {
            &&& b =~= a
            &&& step matches UpdateStep::Rename(to, new)
            &&& to == id
            &&& match new {
                Some(s) => s@ == trim_spec(name@) && s@.len() > 0,
                None => trim_spec(name@).len() == 0,
            }
        },
        SketchBoardInput::LayerPanelWidthChanged(width) => {
            &&& b =~= if abs_spec(board.layer_panel_width - width) > UNIT / 2 {
                World {
                    board: SketchBoard { layer_panel_width: width, ..board },
                    state: PersistedState { layer_panel_width: Some(width), ..a.state },
                    ..a
                }
            } else {
                a
            }
            &&& quiet(step)
        },
        _ => false,
    }
}

/// What the board is told of the view and the window.
#[verifier::opaque]
pub open spec fn view_step(a: World, msg: SketchBoardInput, b: World, step: UpdateStep) -> bool {
    let board = a.board;
    match msg {
        SketchBoardInput::Refresh => b =~= a && redraws(step),
        SketchBoardInput::Exit => b =~= a && step is Quit,
        SketchBoardInput::ScaleFactorChanged => {
            &&& b =~= World { effects: a.effects.push(Effect::Rescale), ..a }
            &&& redraws(step)
        },
        SketchBoardInput::ZoomDisplayChanged(scale) => {
            &&& b =~= World {
                board: SketchBoard { last_hover_image_pos: None, ..board },
                effects: a.effects + board.zoom_shown_effects(scale),
                ..a
            }
            &&& quiet(step)
        },
        SketchBoardInput::PanDisplayChanged(info) => {
            &&& b =~= World {
                effects: a.effects.push(Effect::Output(SketchBoardOutput::PanChanged(info))),
                ..a
            }
            &&& quiet(step)
        },
        SketchBoardInput::ScrollbarSet(horizontal, value) => {
            &&& b =~= World {
                effects: a.effects.push(Effect::PanTo { horizontal, value }),
                ..a
            }
            &&& redraws(step)
        },
        SketchBoardInput::PinchZoom(factor) => {
            &&& b =~= World {
                effects: if factor > 0 && factor != MICRO {
                    a.effects + seq![Effect::ZoomBy(factor), Effect::Render(None)]
                } else {
                    a.effects
                },
                ..a
            }
            &&& redraws(step)
        },
        SketchBoardInput::ZoomCommand(cmd) => {
            &&& b =~= World { effects: a.effects + zoom_effects(board, cmd), ..a }
            &&& redraws(step)
        },
        SketchBoardInput::FocusCanvas => {
            &&& b =~= World {
                effects: a.effects + seq![Effect::GrabFocus, Effect::GrabFocusLater],
                ..a
            }
            &&& quiet(step)
        },
        SketchBoardInput::SyncFillToToolbar => {
            &&& b =~= World {
                effects: a.effects.push(
                    Effect::Output(SketchBoardOutput::FillShapesChanged(board.style.fill)),
                ),
                ..a
            }
            &&& quiet(step)
        },
        SketchBoardInput::SetAnnotationFactor(value) => {
            let style = Style { annotation_size_factor: value, ..board.style };
            &&& b =~= if value == board.style.annotation_size_factor {
                a
            } else {
                World {
                    board: SketchBoard { style, ..board },
                    effects: a.effects + seq![
                        Effect::ToolStyle(board.active_tool, style),
                        Effect::Refresh,
                    ],
                    ..a
                }
            }
            &&& quiet(step)
        },
        SketchBoardInput::PasteImageFromClipboard(_) => b =~= a && step is Paste,
        SketchBoardInput::Output(output) => {
            &&& b =~= World { effects: a.effects.push(Effect::Output(output)), ..a }
            &&& quiet(step)
        },
        _ => false,
    }
}

/// The jobs are those that the actions come to.
pub open spec fn jobs_step(step: UpdateStep, actions: Seq<Action>, pixels: bool, config: BoardConfig) -> bool {
    &&& step matches UpdateStep::Jobs { jobs, later }
    &&& jobs@ == plan_of(actions, pixels, config).jobs
    &&& later@ == plan_of(actions, pixels, config).later
}

/// What the board makes of a message.
pub open spec fn update_step(a: World, msg: SketchBoardInput, ctx: Context, b: World, step: UpdateStep) -> bool {
    match msg {
        SketchBoardInput::InputEvent(_) => b == a && step is Input,
        SketchBoardInput::ToolbarEvent(event) => {
            &&& step matches UpdateStep::Toolbar(t)
            &&& toolbar_step(a, event, ctx.layers@, b, t)
        },
        SketchBoardInput::ExitCropToPreviousTool => {
            let tool = match a.board.tool_before_crop {
                Some(t) => t,
                None => Tools::Pointer,
            };
            &&& step matches UpdateStep::Toolbar(t)
            &&& toolbar_step(a, ToolbarEvent::ToolSelected(tool), ctx.layers@, b, t)
        },
        SketchBoardInput::RenderResult(_, actions) => {
            &&& b == a
            &&& jobs_step(
                step,
                actions@,
                exists|i: int| 0 <= i < actions@.len() && wants_pixels(#[trigger] actions@[i]),
                a.config,
            )
        },
        SketchBoardInput::RenderResultFollowup(image, actions, saved) => {
            let last = b.board.last_saved_filepath;
            &&& match saved {
                Some(path) => last matches Some(p) && p@ == path@,
                None => last == a.board.last_saved_filepath,
            }
            &&& b == World { board: SketchBoard { last_saved_filepath: last, ..a.board }, ..a }
            &&& jobs_step(step, actions@, image is Some, a.config)
        },
        SketchBoardInput::CommitEvent(text) => {
            &&& a.board.committed(
                match text {
                    TextEventMsg::Commit(s) => a.board.commit_command_spec(
                        s@,
                        ctx.text_enabled,
                        ctx.bound,
                        ctx.now_ms,
                    ),
                    _ => if a.board.active_tool == Tools::Text && ctx.text_enabled {
                        CommitCommand::Forward
                    } else {
                        CommitCommand::Nothing
                    },
                },
                ctx.now_ms,
                ctx.layers@,
                a.state,
                a.config,
                a.crop,
                a.effects,
                b.board,
                b.state,
                b.crop,
                b.effects,
            )
            &&& b.config == a.config
            &&& quiet(step)
        },
        SketchBoardInput::ToggleLayerPanel
        | SketchBoardInput::PanelSelectDrawable { .. }
        | SketchBoardInput::PanelToggleVisible(_)
        | SketchBoardInput::PanelToggleLocked(_)
        | SketchBoardInput::PanelMoveDrawable { .. }
        | SketchBoardInput::PanelMoveSelected(_)
        | SketchBoardInput::PanelReorderTo(_)
        | SketchBoardInput::PanelDropOnto { .. }
        | SketchBoardInput::PanelEditColor(_)
        | SketchBoardInput::PanelSetColor { .. }
        | SketchBoardInput::PanelRename { .. }
        | SketchBoardInput::LayerPanelWidthChanged(_) => panel_step(a, msg, ctx, b, step),
        _ => view_step(a, msg, b, step),
    }
}

fn copy_ids(ids: &Vec<DrawableId>) -> (r: Vec<DrawableId>)
    ensures
        r@ == ids@,
{
    let mut all: Vec<DrawableId> = Vec::new();
    let mut i: usize = 0;
    while i < ids.len()
        invariant
            i <= ids@.len(),
            all@ == ids@.take(i as int),
        decreases ids.len() - i,
    {
        all.push(ids[i]);
        assert(ids@.take(i + 1) =~= ids@.take(i as int).push(ids@[i as int]));
        i = i + 1;
    }
    assert(ids@.take(ids@.len() as int) =~= ids@);
    all
}

impl SketchBoard {
    fn update_panel(
        &mut self,
        msg: &SketchBoardInput,
        ctx: &Context,
        state: &mut PersistedState,
        out: &mut Vec<Effect>,
    ) -> (step: UpdateStep)
        requires
            old(self).wf(),
            old(state).wf(),
            msg is ToggleLayerPanel || msg is PanelSelectDrawable || msg is PanelToggleVisible
                || msg is PanelToggleLocked || msg is PanelMoveDrawable || msg is PanelMoveSelected
                || msg is PanelReorderTo || msg is PanelDropOnto || msg is PanelEditColor
                || msg is PanelSetColor || msg is PanelRename || msg is LayerPanelWidthChanged,
        ensures
            final(self).wf(),
            final(state).wf(),
            forall|config: BoardConfig, crop: Seq<CropMessage>| #[trigger]
                panel_step(
                    World {
                        board: *old(self),
                        state: *old(state),
                        config,
                        effects: old(out)@,
                        crop,
                    },
                    *msg,
                    *ctx,
                    World {
                        board: *final(self),
                        state: *final(state),
                        config,
                        effects: final(out)@,
                        crop,
                    },
                    step,
                ),
    {
        proof {
            reveal(panel_step);
        }
        match msg {
            SketchBoardInput::ToggleLayerPanel => self.toggle_layer_panel(out),
            SketchBoardInput::PanelSelectDrawable { id, additive } => self.panel_select(
                *id,
                *additive,
                out,
            ),
            SketchBoardInput::PanelToggleVisible(id) => self.panel_toggle_visible(
                *id,
                &ctx.layers,
                out,
            ),
            SketchBoardInput::PanelToggleLocked(id) => self.panel_toggle_locked(
                *id,
                &ctx.layers,
                out,
            ),
            SketchBoardInput::PanelMoveDrawable { id, direction } => self.panel_move(
                *id,
                *direction,
                out,
            ),
            SketchBoardInput::PanelMoveSelected(direction) => self.panel_move_selected(
                *direction,
                &ctx.order,
                out,
            ),
            SketchBoardInput::PanelReorderTo(new_order) => {
                return UpdateStep::Reorder(copy_ids(new_order));
            },
            SketchBoardInput::PanelDropOnto { src, target, above_target } => {
                if let Some(v) = drop_onto(&ctx.order, *src, *target, *above_target) {
                    return UpdateStep::Reorder(v);
                }
            },
            SketchBoardInput::PanelEditColor(id) => {
                if let Some(d) = find_layer(&ctx.layers, *id) {
                    if let Some(s) = d.style {
                        return UpdateStep::PickColor(*id, s.color);
                    }
                }
            },
            SketchBoardInput::PanelSetColor { id, color } => self.panel_set_color(
                *id,
                *color,
                &ctx.layers,
                out,
            ),
            SketchBoardInput::PanelRename { id, name } => {
                return UpdateStep::Rename(*id, layer_name(name.as_str()));
            },
            SketchBoardInput::LayerPanelWidthChanged(width) => self.panel_width_changed(
                *width,
                state,
            ),
            _ => {},
        }
        UpdateStep::Done(ToolUpdateResult::Unmodified)
    }

    fn update_view(&mut self, msg: &SketchBoardInput, out: &mut Vec<Effect>) -> (step: UpdateStep)
        requires
            old(self).wf(),
            msg is Refresh || msg is Exit || msg is ScaleFactorChanged || msg is ZoomDisplayChanged
                || msg is PanDisplayChanged || msg is ScrollbarSet || msg is PinchZoom
                || msg is ZoomCommand || msg is FocusCanvas || msg is SyncFillToToolbar
                || msg is SetAnnotationFactor || msg is PasteImageFromClipboard || msg is Output,
        ensures
            final(self).wf(),
            forall|state: PersistedState, config: BoardConfig, crop: Seq<CropMessage>| #[trigger]
                view_step(
                    World { board: *old(self), state, config, effects: old(out)@, crop },
                    *msg,
                    World { board: *final(self), state, config, effects: final(out)@, crop },
                    step,
                ),
    {
        proof {
            reveal(view_step);
        }
        match msg {
            SketchBoardInput::Refresh => UpdateStep::Done(ToolUpdateResult::Redraw),
            SketchBoardInput::Exit => UpdateStep::Quit,
            SketchBoardInput::ScaleFactorChanged => {
                out.push(Effect::Rescale);
                UpdateStep::Done(ToolUpdateResult::Redraw)
            },
            SketchBoardInput::ZoomDisplayChanged(scale) => {
                self.zoom_display_changed(*scale, out);
                UpdateStep::Done(ToolUpdateResult::Unmodified)
            },
            SketchBoardInput::PanDisplayChanged(info) => {
                out.push(Effect::Output(SketchBoardOutput::PanChanged(*info)));
                UpdateStep::Done(ToolUpdateResult::Unmodified)
            },
            SketchBoardInput::ScrollbarSet(horizontal, value) => {
                out.push(Effect::PanTo { horizontal: *horizontal, value: *value });
                UpdateStep::Done(ToolUpdateResult::Redraw)
            },
            SketchBoardInput::PinchZoom(factor) => UpdateStep::Done(
                self.handle_pinch(*factor, out),
            ),
            SketchBoardInput::ZoomCommand(cmd) => {
                self.handle_zoom_command(*cmd, out);
                UpdateStep::Done(ToolUpdateResult::Redraw)
            },
            SketchBoardInput::FocusCanvas => {
                out.push(Effect::GrabFocus);
                out.push(Effect::GrabFocusLater);
                UpdateStep::Done(ToolUpdateResult::Unmodified)
            },
            SketchBoardInput::SyncFillToToolbar => {
                out.push(Effect::Output(SketchBoardOutput::FillShapesChanged(self.style.fill)));
                UpdateStep::Done(ToolUpdateResult::Unmodified)
            },
            SketchBoardInput::SetAnnotationFactor(value) => {
                self.set_annotation_factor(*value, out);
                UpdateStep::Done(ToolUpdateResult::Unmodified)
            },
            SketchBoardInput::PasteImageFromClipboard(_) => UpdateStep::Paste,
            SketchBoardInput::Output(output) => {
                out.push(Effect::Output(*output));
                UpdateStep::Done(ToolUpdateResult::Unmodified)
            },
            _ => UpdateStep::Done(ToolUpdateResult::Unmodified),
        }
    }

    /// Does what a message asks for, and says what is left to do.
    pub fn update(
        &mut self,
        msg: &SketchBoardInput,
        ctx: &Context,
        state: &mut PersistedState,
        config: &mut BoardConfig,
        crop_out: &mut Vec<CropMessage>,
        out: &mut Vec<Effect>,
    ) -> (step: UpdateStep)
        requires
            old(self).wf(),
            old(state).wf(),
        ensures
            final(self).wf(),
            final(state).wf(),
            update_step(
                World {
                    board: *old(self),
                    state: *old(state),
                    config: *old(config),
                    effects: old(out)@,
                    crop: old(crop_out)@,
                },
                *msg,
                *ctx,
                World {
                    board: *final(self),
                    state: *final(state),
                    config: *final(config),
                    effects: final(out)@,
                    crop: final(crop_out)@,
                },
                step,
            ),
    {
        match msg {
            SketchBoardInput::InputEvent(_) => UpdateStep::Input,
            SketchBoardInput::ToolbarEvent(event) => UpdateStep::Toolbar(
                self.handle_toolbar_event(*event, &ctx.layers, state, config, crop_out, out),
            ),
            SketchBoardInput::ExitCropToPreviousTool => {
                let tool: Tools = self.tool_after_crop();
                UpdateStep::Toolbar(
                    self.handle_toolbar_event(
                        ToolbarEvent::ToolSelected(tool),
                        &ctx.layers,
                        state,
                        config,
                        crop_out,
                        out,
                    ),
                )
            },
            SketchBoardInput::RenderResult(_, actions) => {
                let pixels: bool = needs_pixels(actions);
                let (jobs, later): (Vec<Job>, Vec<Action>) = handle_render_result(
                    actions,
                    pixels,
                    config,
                );
                UpdateStep::Jobs { jobs, later }
            },
            SketchBoardInput::RenderResultFollowup(image, actions, saved) => {
                if let Some(path) = saved {
                    self.followup(Some(path.clone()));
                }
                let (jobs, later): (Vec<Job>, Vec<Action>) = handle_render_result(
                    actions,
                    image.is_some(),
                    config,
                );
                UpdateStep::Jobs { jobs, later }
            },
            SketchBoardInput::CommitEvent(text) => {
                self.handle_text_commit(
                    text,
                    ctx.text_enabled,
                    ctx.bound,
                    ctx.now_ms,
                    &ctx.layers,
                    state,
                    config,
                    crop_out,
                    out,
                );
                UpdateStep::Done(ToolUpdateResult::Unmodified)
            },
            SketchBoardInput::ToggleLayerPanel
            | SketchBoardInput::PanelSelectDrawable { .. }
            | SketchBoardInput::PanelToggleVisible(_)
            | SketchBoardInput::PanelToggleLocked(_)
            | SketchBoardInput::PanelMoveDrawable { .. }
            | SketchBoardInput::PanelMoveSelected(_)
            | SketchBoardInput::PanelReorderTo(_)
            | SketchBoardInput::PanelDropOnto { .. }
            | SketchBoardInput::PanelEditColor(_)
            | SketchBoardInput::PanelSetColor { .. }
            | SketchBoardInput::PanelRename { .. }
            | SketchBoardInput::LayerPanelWidthChanged(_) => self.update_panel(
                msg,
                ctx,
                state,
                out,
            ),
            _ => self.update_view(msg, out),
        }
    }
}

} // verus!
