//! What the toolbars ask for.
use vstd::prelude::*;
use crate::board::layers::{
    apply_to_selection, asks_for, collect_edits, edits, edits_result, fillable, find_layer,
    is_fillable, layer_of, Change, Layer, LayerEdit,
};
use crate::board::messages::{Action, SketchBoardOutput, Toast, ToolbarEvent};
use crate::board::{BoardConfig, Effect, SketchBoard};
use crate::state::{
    save_arrow_style, save_blur_style, save_brush_post_smooth_iterations, save_fill_for_tool,
    save_highlighter_opacity, save_highlighter_style, save_snap_to_edges, save_spotlight_darkness,
    save_text_background, PersistedState,
};
use crate::style::Style;
use crate::tools::crop::{CropMessage, CropTool};
use crate::tools::{DrawableId, TextBackground, ToolUpdateResult, Tools};
use crate::units::{px, UNIT};

verus! {

/// How a toolbar event goes on.
#[derive(Debug)]
pub enum ToolbarStep {
    /// It is done, with this result.
    Done(ToolUpdateResult<LayerEdit>),
    /// The tool changes.
    SwitchTool { tool: Tools, had_selection: bool },
    /// The tools have to be told of the style.
    StyleChanged,
    /// The active tool ends its work, then the image is rendered for this.
    Act(Action),
    Undo,
    Redo,
    Reset,
    /// The image is mirrored.
    Flip,
    /// The image is turned counter-clockwise.
    Rotate,
    /// The image gets this size.
    Resize { width: i32, height: i32 },
}

/// Everything that a toolbar event can change.
#[verifier::ext_equal]
pub ghost struct World {
    pub board: SketchBoard,
    pub state: PersistedState,
    pub config: BoardConfig,
    pub effects: Seq<Effect>,
    pub crop: Seq<CropMessage>,
}

/// Some selected drawable can be filled.
pub open spec fn any_fillable(sel: Seq<DrawableId>, layers: Seq<Layer>) -> bool {
    exists|i: int|
        0 <= i < sel.len() && (layer_of(layers, #[trigger] sel[i]) matches Some(d) && fillable(
            d.tool_type,
        ))
}

/// The fill of the first selected drawable that can be filled.
pub open spec fn first_fill(sel: Seq<DrawableId>, layers: Seq<Layer>) -> Option<bool>
    decreases sel.len(),
{
    if sel.len() == 0 {
        None
    } else {
        match layer_of(layers, sel[0]) {
            Some(Layer { tool_type: t, style: Some(s), .. }) if fillable(t) => Some(s.fill),
            _ => first_fill(sel.drop_first(), layers),
        }
    }
}

fn find_fillable(sel: &Vec<DrawableId>, layers: &Vec<Layer>) -> (r: (bool, Option<bool>))
    ensures
        r.0 == any_fillable(sel@, layers@),
        r.1 == first_fill(sel@, layers@),
{
    let mut any: bool = false;
    let mut fill: Option<bool> = None;
    let mut i: usize = 0;
    assert(sel@.skip(0) == sel@);
    while i < sel.len()
        invariant
            i <= sel@.len(),
            any == (exists|k: int|
                0 <= k < i && (layer_of(layers@, #[trigger] sel@[k]) matches Some(d) && fillable(
                    d.tool_type,
                ))),
            match fill {
                Some(f) => first_fill(sel@, layers@) == Some(f),
                None => first_fill(sel@, layers@) == first_fill(sel@.skip(i as int), layers@),
            },
        decreases sel.len() - i,
    {
        let ghost rest = sel@.skip(i as int);
        proof {
            assert(rest[0] == sel@[i as int]);
            assert(rest.drop_first() == sel@.skip(i + 1));
        }
        if let Some(d) = find_layer(layers, sel[i]) {
            if is_fillable(d.tool_type) {
                assert(layer_of(layers@, sel@[i as int]) matches Some(d) && fillable(d.tool_type));
                any = true;
                if fill.is_none() {
                    if let Some(s) = d.style {
                        fill = Some(s.fill);
                    }
                }
            }
        }
        i = i + 1;
    }
    assert(sel@.skip(sel@.len() as int) == Seq::<DrawableId>::empty());
    (any, fill)
}

impl SketchBoard {
    /// A toggle of the fill has something to work on.
    pub open spec fn can_fill(&self, layers: Seq<Layer>) -> bool {
        fillable(Some(self.active_tool)) || any_fillable(self.selection@, layers)
    }

    /// The fill after a toggle: the opposite of that of the selection, else of
    /// the style.
    pub open spec fn toggled_fill(&self, layers: Seq<Layer>) -> bool {
        match first_fill(self.selection@, layers) {
            Some(f) => !f,
            None => !self.style.fill,
        }
    }

    /// What is said of a toggled fill.
    pub open spec fn fill_effects(&self, layers: Seq<Layer>) -> Seq<Effect> {
        let fill = self.toggled_fill(layers);
        seq![
            Effect::Output(SketchBoardOutput::ShowCycleToast(Toast::Fill(fill))),
            Effect::Output(SketchBoardOutput::FillShapesChanged(fill)),
        ] + (if self.active_tool != Tools::Pointer {
            seq![Effect::ToolStyle(self.active_tool, Style { fill, ..self.style })]
        } else {
            Seq::empty()
        })
    }

    /// Fills what is not filled, and the other way round: the selection, and
    /// what is drawn next.
    pub fn toggle_fill(&mut self, layers: &Vec<Layer>, out: &mut Vec<Effect>) -> (r:
        ToolUpdateResult<LayerEdit>)
        ensures
            !old(self).can_fill(layers@) ==> *final(self) == *old(self) && final(out)@ == old(out)@
                && r is Unmodified,
            old(self).can_fill(layers@) ==> {
                let fill = old(self).toggled_fill(layers@);
                &&& *final(self) == (SketchBoard {
                    style: Style { fill, ..old(self).style },
                    ..*old(self)
                }).with_session_fill(old(self).active_tool, fill)
                &&& final(out)@ == old(out)@ + old(self).fill_effects(layers@)
                &&& asks_for(r, edits(old(self).selection@, layers@, Change::Fill(fill)))
            },
    {
        let (any, seed): (bool, Option<bool>) = find_fillable(&self.selection, layers);
        if !is_fillable(Some(self.active_tool)) && !any {
            return ToolUpdateResult::Unmodified;
        }
        if let Some(fill) = seed {
            self.style.fill = fill;
        }
        self.style.fill = !self.style.fill;
        let fill: bool = self.style.fill;
        match self.active_tool {
            Tools::Rectangle => {
                self.session_fill_rectangle = Some(fill);
            },
            Tools::Ellipse => {
                self.session_fill_ellipse = Some(fill);
            },
            _ => {},
        }
        out.push(Effect::Output(SketchBoardOutput::ShowCycleToast(Toast::Fill(fill))));
        out.push(Effect::Output(SketchBoardOutput::FillShapesChanged(fill)));
        if self.active_tool != Tools::Pointer {
            out.push(Effect::ToolStyle(self.active_tool, self.style));
        }
        assert(out@ =~= old(out)@ + old(self).fill_effects(layers@));
        apply_to_selection(&self.selection, layers, Change::Fill(fill))
    }

    /// Another text background: new text gets it, and everything selected is
    /// told of it.
    pub fn select_text_background(
        &mut self,
        bg: TextBackground,
        layers: &Vec<Layer>,
        state: &mut PersistedState,
        out: &mut Vec<Effect>,
    ) -> (r: ToolUpdateResult<LayerEdit>)
        ensures
            *final(self) == *old(self),
            *final(state) == (PersistedState { text_background: Some(bg), ..*old(state) }),
            final(out)@ == old(out)@ + seq![
                Effect::ToolTextBackground(bg),
                Effect::Output(SketchBoardOutput::ShowCycleToast(Toast::Text(bg))),
            ],
            ({
                let updates = edits(old(self).selection@, layers@, Change::TextBackground(bg));
                if updates.len() == 0 {
                    r is Redraw
                } else {
                    asks_for(r, updates)
                }
            }),
    {
        save_text_background(state, bg);
        out.push(Effect::ToolTextBackground(bg));
        out.push(Effect::Output(SketchBoardOutput::ShowCycleToast(Toast::Text(bg))));
        assert(out@ =~= old(out)@ + seq![
            Effect::ToolTextBackground(bg),
            Effect::Output(SketchBoardOutput::ShowCycleToast(Toast::Text(bg))),
        ]);
        let updates = collect_edits(&self.selection, layers, Change::TextBackground(bg));
        if updates.len() == 0 {
            return ToolUpdateResult::Redraw;
        }
        edits_result(updates)
    }

    /// Another smoothing level: that of the selection, or else that of the
    /// brush.
    pub fn change_brush_smooth(&mut self, value: usize, layers: &Vec<Layer>, config: &mut BoardConfig) -> (r:
        ToolUpdateResult<LayerEdit>)
        ensures
            ({
                let updates = edits(old(self).selection@, layers@, Change::Smooth(value));
                &&& asks_for(r, updates)
                &&& if updates.len() == 0 {
                    *final(self) == (SketchBoard {
                        session_brush_smooth: Some(value),
                        ..*old(self)
                    }) && *final(config) == (BoardConfig {
                        brush_post_smooth_iterations: value,
                        ..*old(config)
                    })
                } else {
                    *final(self) == *old(self) && *final(config) == *old(config)
                }
            }),
    {
        let updates = collect_edits(&self.selection, layers, Change::Smooth(value));
        if updates.len() == 0 {
            config.brush_post_smooth_iterations = value;
            self.session_brush_smooth = Some(value);
        }
        edits_result(updates)
    }
}

/// The result of a step is this one.
pub open spec fn done_with(step: ToolbarStep, r: ToolUpdateResult<LayerEdit>) -> bool {
    step == ToolbarStep::Done(r)
}

/// The step asks for these edits.
pub open spec fn done_asking(step: ToolbarStep, updates: Seq<(DrawableId, LayerEdit)>) -> bool {
    step matches ToolbarStep::Done(r) && asks_for(r, updates)
}

/// What choosing a tool or a colour and the plain commands do.
#[verifier::opaque]
pub open spec fn command_step(a: World, e: ToolbarEvent, b: World, step: ToolbarStep) -> bool {
    let board = a.board;
    match e {
        ToolbarEvent::ToolSelected(tool) => {
            &&& b.board.selection@.len() == 0
            &&& b =~= World {
                board: SketchBoard { selection: b.board.selection, ..board },
                ..a
            }
            &&& step == ToolbarStep::SwitchTool { tool, had_selection: board.selection@.len() > 0 }
        },
        ToolbarEvent::ColorSelected(color) => {
            &&& b =~= World {
                board: SketchBoard { style: Style { color, ..board.style }, ..board },
                ..a
            }
            &&& step == ToolbarStep::StyleChanged
        },
        ToolbarEvent::SizeSelected(size) => {
            &&& b =~= World {
                board: SketchBoard { style: Style { size, ..board.style }, ..board },
                ..a
            }
            &&& step == ToolbarStep::StyleChanged
        },
        ToolbarEvent::SaveFile => b =~= a && step == ToolbarStep::Act(Action::SaveToFile),
        ToolbarEvent::CopyClipboard => b =~= a && step == ToolbarStep::Act(
            Action::SaveToClipboard,
        ),
        ToolbarEvent::SaveFileAs => b =~= a && step == ToolbarStep::Act(Action::SaveToFileAs),
        ToolbarEvent::Undo => b =~= a && step == ToolbarStep::Undo,
        ToolbarEvent::Redo => b =~= a && step == ToolbarStep::Redo,
        ToolbarEvent::Reset => b =~= a && step == ToolbarStep::Reset,
        ToolbarEvent::FlipHorizontal => b =~= a && step == ToolbarStep::Flip,
        ToolbarEvent::RotateImage => b =~= a && step == ToolbarStep::Rotate,
        ToolbarEvent::ResizeImage { width, height } => b =~= a && step == (ToolbarStep::Resize {
            width,
            height,
        }),
        _ => false,
    }
}

/// What the events about the window do.
#[verifier::opaque]
pub open spec fn window_step(a: World, e: ToolbarEvent, b: World, step: ToolbarStep) -> bool {
    let board = a.board;
    let quiet = ToolUpdateResult::<LayerEdit>::Unmodified;
    match e {
        ToolbarEvent::OpenPreferences => {
            &&& b =~= World {
                effects: a.effects.push(Effect::Output(SketchBoardOutput::OpenPreferences)),
                ..a
            }
            &&& done_with(step, quiet)
        },
        ToolbarEvent::FocusZoom => {
            &&& b =~= World {
                effects: a.effects.push(Effect::Output(SketchBoardOutput::FocusZoom)),
                ..a
            }
            &&& done_with(step, quiet)
        },
        ToolbarEvent::ToggleLayerPanel => {
            let open = !board.layer_panel_open;
            &&& b =~= World {
                board: SketchBoard { layer_panel_open: open, ..board },
                effects: a.effects.push(Effect::PanelVisible(open)) + (if open {
                    seq![Effect::RebuildRows]
                } else {
                    Seq::empty()
                }),
                ..a
            }
            &&& done_with(step, quiet)
        },
        ToolbarEvent::FocusCanvas => {
            &&& b =~= World {
                effects: a.effects + seq![Effect::GrabFocus, Effect::GrabFocusLater],
                ..a
            }
            &&& done_with(step, quiet)
        },
        _ => false,
    }
}

/// What choosing a look does.
#[verifier::opaque]
pub open spec fn look_step(a: World, e: ToolbarEvent, layers: Seq<Layer>, b: World, step: ToolbarStep) -> bool {
    let board = a.board;
    let quiet = ToolUpdateResult::<LayerEdit>::Unmodified;
    match e {
        ToolbarEvent::ToggleFill => if board.can_fill(layers) {
            let fill = board.toggled_fill(layers);
            &&& b =~= World {
                board: (SketchBoard {
                    style: Style { fill, ..board.style },
                    ..board
                }).with_session_fill(board.active_tool, fill),
                effects: a.effects + board.fill_effects(layers),
                ..a
            }
            &&& done_asking(step, edits(board.selection@, layers, Change::Fill(fill)))
        } else {
            b =~= a && done_with(step, quiet)
        },
        ToolbarEvent::ArrowStyleSelected(s) => {
            &&& b =~= World {
                state: PersistedState { arrow_style: Some(s), ..a.state },
                effects: a.effects + seq![
                    Effect::ToolArrowStyle(s),
                    Effect::Output(SketchBoardOutput::ShowCycleToast(Toast::Arrow(s))),
                ],
                ..a
            }
            &&& done_asking(step, edits(board.selection@, layers, Change::Arrow(s)))
        },
        ToolbarEvent::HighlighterStyleSelected(s) => {
            &&& b =~= World {
                board: SketchBoard { highlighter_style: s, ..board },
                state: PersistedState { highlighter_style: Some(s), ..a.state },
                effects: a.effects + seq![
                    Effect::ToolHighlighterStyle(s),
                    Effect::Output(SketchBoardOutput::ShowCycleToast(Toast::Highlighter(s))),
                ],
                ..a
            }
            &&& done_with(step, quiet)
        },
        ToolbarEvent::BlurStyleSelected(s) => {
            &&& b =~= World {
                state: PersistedState { blur_style: Some(s), ..a.state },
                effects: a.effects + seq![
                    Effect::ToolBlurStyle(s),
                    Effect::Output(SketchBoardOutput::ShowCycleToast(Toast::Blur(s))),
                ],
                ..a
            }
            &&& done_asking(step, edits(board.selection@, layers, Change::Blur(s)))
        },
        ToolbarEvent::TextBackgroundSelected(bg) => {
            let updates = edits(board.selection@, layers, Change::TextBackground(bg));
            &&& b =~= World {
                state: PersistedState { text_background: Some(bg), ..a.state },
                effects: a.effects + seq![
                    Effect::ToolTextBackground(bg),
                    Effect::Output(SketchBoardOutput::ShowCycleToast(Toast::Text(bg))),
                ],
                ..a
            }
            &&& if updates.len() == 0 {
                done_with(step, ToolUpdateResult::Redraw)
            } else {
                done_asking(step, updates)
            }
        },
        ToolbarEvent::SnapToEdgesChanged(value) => {
            &&& b =~= World {
                board: SketchBoard {
                    crop_tool: CropTool { snap_to_edges: value, ..board.crop_tool },
                    ..board
                },
                state: PersistedState { snap_to_edges: Some(value), ..a.state },
                ..a
            }
            &&& done_with(step, quiet)
        },
        _ => false,
    }
}

/// What moving a slider does.
#[verifier::opaque]
pub open spec fn level_step(a: World, e: ToolbarEvent, layers: Seq<Layer>, b: World, step: ToolbarStep) -> bool {
    let board = a.board;
    match e {
        ToolbarEvent::SpotlightDarknessChanged(value) => {
            &&& b =~= World {
                board: SketchBoard {
                    style: Style { spotlight_darkness: value, ..board.style },
                    ..board
                },
                effects: a.effects.push(Effect::SpotlightDarkness(value)),
                ..a
            }
            &&& step == ToolbarStep::StyleChanged
        },
        ToolbarEvent::HighlighterOpacityChanged(value) => {
            &&& b =~= World {
                board: SketchBoard {
                    style: Style { highlighter_opacity: value, ..board.style },
                    session_highlighter_opacity: Some(value),
                    ..board
                },
                ..a
            }
            &&& step == ToolbarStep::StyleChanged
        },
        ToolbarEvent::BrushPostSmoothChanged(value) => {
            let updates = edits(board.selection@, layers, Change::Smooth(value));
            &&& done_asking(step, updates)
            &&& b =~= if updates.len() == 0 {
                World {
                    board: SketchBoard { session_brush_smooth: Some(value), ..board },
                    config: BoardConfig { brush_post_smooth_iterations: value, ..a.config },
                    ..a
                }
            } else {
                a
            }
        },
        _ => false,
    }
}

/// What keeping a setting for the next run does.
#[verifier::opaque]
pub open spec fn keep_step(a: World, e: ToolbarEvent, b: World, step: ToolbarStep) -> bool {
    let board = a.board;
    let quiet = ToolUpdateResult::<LayerEdit>::Unmodified;
    match e {
        ToolbarEvent::SaveSpotlightDarknessAsDefault => {
            &&& b =~= World {
                state: PersistedState {
                    spotlight_darkness: Some(board.style.spotlight_darkness),
                    ..a.state
                },
                ..a
            }
            &&& done_with(step, quiet)
        },
        ToolbarEvent::SaveHighlighterOpacityAsDefault => {
            &&& b =~= World {
                state: PersistedState {
                    highlighter_opacity: Some(board.style.highlighter_opacity),
                    ..a.state
                },
                ..a
            }
            &&& done_with(step, quiet)
        },
        ToolbarEvent::SaveBrushPostSmoothAsDefault(value) => {
            &&& b =~= World {
                state: PersistedState { brush_post_smooth_iterations: Some(value), ..a.state },
                config: BoardConfig { brush_post_smooth_iterations: value, ..a.config },
                ..a
            }
            &&& done_with(step, quiet)
        },
        ToolbarEvent::SaveFillAsDefault => {
            &&& if fillable(Some(board.active_tool)) {
                &&& b.state.fill_per_tool@ == a.state.fill_per_tool@.insert(
                    board.active_tool,
                    board.style.fill,
                )
                &&& b =~= World {
                    state: PersistedState { fill_per_tool: b.state.fill_per_tool, ..a.state },
                    ..a
                }
            } else {
                b =~= a
            }
            &&& done_with(step, quiet)
        },
        _ => false,
    }
}

/// What the events about cropping do.
#[verifier::opaque]
pub open spec fn crop_step(a: World, e: ToolbarEvent, b: World, step: ToolbarStep) -> bool {
    let board = a.board;
    let quiet = ToolUpdateResult::<LayerEdit>::Unmodified;
    match e {
        ToolbarEvent::RevertCrop => {
            &&& if board.active_tool == Tools::Crop {
                &&& board.crop_tool.seed_step(true, b.board.crop_tool, a.crop, b.crop)
                &&& b.effects == a.effects
            } else {
                &&& board.crop_tool.revert_step(b.board.crop_tool, a.crop, b.crop)
                &&& b.effects == a.effects.push(
                    Effect::Output(SketchBoardOutput::CropPresenceChanged(false)),
                )
            }
            &&& only_crop_changed(a, b)
            &&& done_with(step, ToolUpdateResult::Redraw)
        },
        ToolbarEvent::CancelCrop => {
            &&& b =~= World {
                board: SketchBoard { crop_tool: board.crop_tool.cancelled(), ..board },
                crop: a.crop + board.crop_tool.cancel_msgs(),
                ..a
            }
            &&& done_with(step, ToolUpdateResult::Redraw)
        },
        ToolbarEvent::ApplyCrop => {
            let changed = step == ToolbarStep::Done(ToolUpdateResult::Redraw);
            &&& changed || done_with(step, quiet)
            &&& board.crop_tool.commit_step(b.board.crop_tool, changed)
            &&& b.crop == a.crop + board.crop_tool.commit_msgs(b.board.crop_tool)
            &&& b.effects == a.effects
            &&& only_crop_changed(a, b)
        },
        ToolbarEvent::CropAspectRatioChanged(ratio) => {
            &&& board.crop_tool.ratio_step(ratio, b.board.crop_tool, a.crop, b.crop)
            &&& b.effects == a.effects
            &&& only_crop_changed(a, b)
            &&& done_with(step, ToolUpdateResult::Redraw)
        },
        ToolbarEvent::CropDimensionsSet { width, height } => {
            &&& board.crop_tool.dimensions_step(
                (width * UNIT) as i64,
                (height * UNIT) as i64,
                b.board.crop_tool,
                a.crop,
                b.crop,
            )
            &&& b.effects == a.effects
            &&& only_crop_changed(a, b)
            &&& done_with(step, ToolUpdateResult::Redraw)
        },
        ToolbarEvent::CropBgColorChanged(bg) => {
            &&& b =~= World {
                board: SketchBoard {
                    crop_tool: CropTool {
                        bg_color: bg,
                        crop: match board.crop_tool.crop {
                            Some(c) => Some(crate::tools::crop::Crop { bg_color: bg, ..c }),
                            None => None,
                        },
                        ..board.crop_tool
                    },
                    ..board
                },
                ..a
            }
            &&& done_with(step, ToolUpdateResult::Redraw)
        },
        _ => false,
    }
}

/// What a toolbar event makes of everything, and how it goes on.
pub open spec fn toolbar_step(a: World, e: ToolbarEvent, layers: Seq<Layer>, b: World, step: ToolbarStep) -> bool {
    match e {
        ToolbarEvent::ToolSelected(_)
        | ToolbarEvent::ColorSelected(_)
        | ToolbarEvent::SizeSelected(_)
        | ToolbarEvent::SaveFile
        | ToolbarEvent::CopyClipboard
        | ToolbarEvent::SaveFileAs
        | ToolbarEvent::Undo
        | ToolbarEvent::Redo
        | ToolbarEvent::Reset
        | ToolbarEvent::FlipHorizontal
        | ToolbarEvent::RotateImage
        | ToolbarEvent::ResizeImage { .. } => command_step(a, e, b, step),
        ToolbarEvent::OpenPreferences
        | ToolbarEvent::FocusZoom
        | ToolbarEvent::ToggleLayerPanel
        | ToolbarEvent::FocusCanvas => window_step(a, e, b, step),
        ToolbarEvent::ToggleFill
        | ToolbarEvent::ArrowStyleSelected(_)
        | ToolbarEvent::HighlighterStyleSelected(_)
        | ToolbarEvent::BlurStyleSelected(_)
        | ToolbarEvent::TextBackgroundSelected(_)
        | ToolbarEvent::SnapToEdgesChanged(_) => look_step(a, e, layers, b, step),
        ToolbarEvent::SpotlightDarknessChanged(_)
        | ToolbarEvent::HighlighterOpacityChanged(_)
        | ToolbarEvent::BrushPostSmoothChanged(_) => level_step(a, e, layers, b, step),
        ToolbarEvent::SaveSpotlightDarknessAsDefault
        | ToolbarEvent::SaveHighlighterOpacityAsDefault
        | ToolbarEvent::SaveBrushPostSmoothAsDefault(_)
        | ToolbarEvent::SaveFillAsDefault => keep_step(a, e, b, step),
        ToolbarEvent::RevertCrop
        | ToolbarEvent::CancelCrop
        | ToolbarEvent::ApplyCrop
        | ToolbarEvent::CropAspectRatioChanged(_)
        | ToolbarEvent::CropDimensionsSet { .. }
        | ToolbarEvent::CropBgColorChanged(_) => crop_step(a, e, b, step),
    }
}

/// Of the board only the crop tool changed; state and preferences did not.
pub open spec fn only_crop_changed(a: World, b: World) -> bool {
    &&& b.board == (SketchBoard { crop_tool: b.board.crop_tool, ..a.board })
    &&& b.state == a.state
    &&& b.config == a.config
}

impl SketchBoard {
    /// The tool, the colour, the size and the plain commands.
    fn handle_command_event(&mut self, event: ToolbarEvent) -> (step: ToolbarStep)
        requires
            old(self).wf(),
            event is ToolSelected || event is ColorSelected || event is SizeSelected || event is SaveFile || event is CopyClipboard || event is SaveFileAs || event is Undo || event is Redo || event is Reset || event is FlipHorizontal || event is RotateImage || event is ResizeImage,
        ensures
            final(self).wf(),
            forall|state: PersistedState, config: BoardConfig, effects: Seq<Effect>, crop: Seq<CropMessage>| #[trigger] command_step(
                    World {
                        board: *old(self),
                        state,
                        config,
                        effects,
                        crop,
                    },
                    event,
                    
                    World {
                        board: *final(self),
                        state,
                        config,
                        effects,
                        crop,
                    },
                    step,
                ),
    {
        proof {
            reveal(command_step);
        }
        match event {
            ToolbarEvent::ToolSelected(tool) => {
                let had_selection: bool = self.selection.len() > 0;
                self.selection = Vec::new();
                ToolbarStep::SwitchTool { tool, had_selection }
            },
            ToolbarEvent::ColorSelected(color) => {
                self.style.color = color;
                ToolbarStep::StyleChanged
            },
            ToolbarEvent::SizeSelected(size) => {
                self.style.size = size;
                ToolbarStep::StyleChanged
            },
            ToolbarEvent::SaveFile => ToolbarStep::Act(Action::SaveToFile),
            ToolbarEvent::CopyClipboard => ToolbarStep::Act(Action::SaveToClipboard),
            ToolbarEvent::SaveFileAs => ToolbarStep::Act(Action::SaveToFileAs),
            ToolbarEvent::Undo => ToolbarStep::Undo,
            ToolbarEvent::Redo => ToolbarStep::Redo,
            ToolbarEvent::Reset => ToolbarStep::Reset,
            ToolbarEvent::FlipHorizontal => ToolbarStep::Flip,
            ToolbarEvent::RotateImage => ToolbarStep::Rotate,
            ToolbarEvent::ResizeImage { width, height } => ToolbarStep::Resize { width, height },
            _ => ToolbarStep::Done(ToolUpdateResult::Unmodified),
        }
    }

    /// The events about the window.
    fn handle_window_event(&mut self, event: ToolbarEvent, out: &mut Vec<Effect>) -> (step: ToolbarStep)
        requires
            old(self).wf(),
            event is OpenPreferences || event is FocusZoom || event is ToggleLayerPanel || event is FocusCanvas,
        ensures
            final(self).wf(),
            forall|state: PersistedState, config: BoardConfig, crop: Seq<CropMessage>| #[trigger] window_step(
                    World {
                        board: *old(self),
                        state,
                        config,
                        effects: old(out)@,
                        crop,
                    },
                    event,
                    
                    World {
                        board: *final(self),
                        state,
                        config,
                        effects: final(out)@,
                        crop,
                    },
                    step,
                ),
    {
        proof {
            reveal(window_step);
        }
        match event {
            ToolbarEvent::OpenPreferences => {
                out.push(Effect::Output(SketchBoardOutput::OpenPreferences));
                ToolbarStep::Done(ToolUpdateResult::Unmodified)
            },
            ToolbarEvent::FocusZoom => {
                out.push(Effect::Output(SketchBoardOutput::FocusZoom));
                ToolbarStep::Done(ToolUpdateResult::Unmodified)
            },
            ToolbarEvent::ToggleLayerPanel => {
                self.layer_panel_open = !self.layer_panel_open;
                out.push(Effect::PanelVisible(self.layer_panel_open));
                if self.layer_panel_open {
                    out.push(Effect::RebuildRows);
                }
                ToolbarStep::Done(ToolUpdateResult::Unmodified)
            },
            ToolbarEvent::FocusCanvas => {
                out.push(Effect::GrabFocus);
                out.push(Effect::GrabFocusLater);
                ToolbarStep::Done(ToolUpdateResult::Unmodified)
            },
            _ => ToolbarStep::Done(ToolUpdateResult::Unmodified),
        }
    }

    /// The events that choose a look.
    fn handle_look_event(&mut self, event: ToolbarEvent, layers: &Vec<Layer>, state: &mut PersistedState, out: &mut Vec<Effect>) -> (step: ToolbarStep)
        requires
            old(self).wf(),
            old(state).wf(),
            event is ToggleFill || event is ArrowStyleSelected || event is HighlighterStyleSelected || event is BlurStyleSelected || event is TextBackgroundSelected || event is SnapToEdgesChanged,
        ensures
            final(self).wf(),
            final(state).wf(),
            forall|config: BoardConfig, crop: Seq<CropMessage>| #[trigger] look_step(
                    World {
                        board: *old(self),
                        state: *old(state),
                        config,
                        effects: old(out)@,
                        crop,
                    },
                    event,
                    layers@, 
                    World {
                        board: *final(self),
                        state: *final(state),
                        config,
                        effects: final(out)@,
                        crop,
                    },
                    step,
                ),
    {
        proof {
            reveal(look_step);
        }
        match event {
            ToolbarEvent::ToggleFill => ToolbarStep::Done(self.toggle_fill(layers, out)),
            ToolbarEvent::ArrowStyleSelected(s) => {
                save_arrow_style(state, s);
                out.push(Effect::ToolArrowStyle(s));
                out.push(Effect::Output(SketchBoardOutput::ShowCycleToast(Toast::Arrow(s))));
                ToolbarStep::Done(apply_to_selection(&self.selection, layers, Change::Arrow(s)))
            },
            ToolbarEvent::HighlighterStyleSelected(s) => {
                self.highlighter_style = s;
                save_highlighter_style(state, s);
                out.push(Effect::ToolHighlighterStyle(s));
                out.push(Effect::Output(SketchBoardOutput::ShowCycleToast(Toast::Highlighter(s))));
                ToolbarStep::Done(ToolUpdateResult::Unmodified)
            },
            ToolbarEvent::BlurStyleSelected(s) => {
                save_blur_style(state, s);
                out.push(Effect::ToolBlurStyle(s));
                out.push(Effect::Output(SketchBoardOutput::ShowCycleToast(Toast::Blur(s))));
                ToolbarStep::Done(apply_to_selection(&self.selection, layers, Change::Blur(s)))
            },
            ToolbarEvent::TextBackgroundSelected(bg) => ToolbarStep::Done(
                self.select_text_background(bg, layers, state, out),
            ),
            ToolbarEvent::SnapToEdgesChanged(value) => {
                self.crop_tool.set_snap_to_edges(value);
                save_snap_to_edges(state, value);
                ToolbarStep::Done(ToolUpdateResult::Unmodified)
            },
            _ => ToolbarStep::Done(ToolUpdateResult::Unmodified),
        }
    }

    /// The sliders.
    fn handle_level_event(&mut self, event: ToolbarEvent, layers: &Vec<Layer>, config: &mut BoardConfig, out: &mut Vec<Effect>) -> (step: ToolbarStep)
        requires
            old(self).wf(),
            event is SpotlightDarknessChanged || event is HighlighterOpacityChanged || event is BrushPostSmoothChanged,
        ensures
            final(self).wf(),
            forall|state: PersistedState, crop: Seq<CropMessage>| #[trigger] level_step(
                    World {
                        board: *old(self),
                        state,
                        config: *old(config),
                        effects: old(out)@,
                        crop,
                    },
                    event,
                    layers@, 
                    World {
                        board: *final(self),
                        state,
                        config: *final(config),
                        effects: final(out)@,
                        crop,
                    },
                    step,
                ),
    {
        proof {
            reveal(level_step);
        }
        match event {
            ToolbarEvent::SpotlightDarknessChanged(value) => {
                self.style.spotlight_darkness = value;
                out.push(Effect::SpotlightDarkness(value));
                ToolbarStep::StyleChanged
            },
            ToolbarEvent::HighlighterOpacityChanged(value) => {
                self.style.highlighter_opacity = value;
                self.session_highlighter_opacity = Some(value);
                ToolbarStep::StyleChanged
            },
            ToolbarEvent::BrushPostSmoothChanged(value) => ToolbarStep::Done(
                self.change_brush_smooth(value, layers, config),
            ),
            _ => ToolbarStep::Done(ToolUpdateResult::Unmodified),
        }
    }

    /// The events that keep a setting for the next run.
    fn handle_keep_event(&mut self, event: ToolbarEvent, state: &mut PersistedState, config: &mut BoardConfig) -> (step: ToolbarStep)
        requires
            old(self).wf(),
            old(state).wf(),
            event is SaveSpotlightDarknessAsDefault || event is SaveHighlighterOpacityAsDefault || event is SaveBrushPostSmoothAsDefault || event is SaveFillAsDefault,
        ensures
            final(self).wf(),
            final(state).wf(),
            forall|effects: Seq<Effect>, crop: Seq<CropMessage>| #[trigger] keep_step(
                    World {
                        board: *old(self),
                        state: *old(state),
                        config: *old(config),
                        effects,
                        crop,
                    },
                    event,
                    
                    World {
                        board: *final(self),
                        state: *final(state),
                        config: *final(config),
                        effects,
                        crop,
                    },
                    step,
                ),
    {
        proof {
            reveal(keep_step);
        }
        match event {
            ToolbarEvent::SaveSpotlightDarknessAsDefault => {
                save_spotlight_darkness(state, self.style.spotlight_darkness);
                ToolbarStep::Done(ToolUpdateResult::Unmodified)
            },
            ToolbarEvent::SaveHighlighterOpacityAsDefault => {
                save_highlighter_opacity(state, self.style.highlighter_opacity);
                ToolbarStep::Done(ToolUpdateResult::Unmodified)
            },
            ToolbarEvent::SaveBrushPostSmoothAsDefault(value) => {
                save_brush_post_smooth_iterations(state, value);
                config.brush_post_smooth_iterations = value;
                ToolbarStep::Done(ToolUpdateResult::Unmodified)
            },
            ToolbarEvent::SaveFillAsDefault => {
                if is_fillable(Some(self.active_tool)) {
                    save_fill_for_tool(state, self.active_tool, self.style.fill);
                }
                ToolbarStep::Done(ToolUpdateResult::Unmodified)
            },
            _ => ToolbarStep::Done(ToolUpdateResult::Unmodified),
        }
    }

    /// The events about cropping.
    fn handle_crop_event(&mut self, event: ToolbarEvent, crop_out: &mut Vec<CropMessage>, out: &mut Vec<Effect>) -> (step: ToolbarStep)
        requires
            old(self).wf(),
            event is RevertCrop || event is CancelCrop || event is ApplyCrop || event is CropAspectRatioChanged || event is CropDimensionsSet || event is CropBgColorChanged,
        ensures
            final(self).wf(),
            forall|state: PersistedState, config: BoardConfig| #[trigger] crop_step(
                    World {
                        board: *old(self),
                        state,
                        config,
                        effects: old(out)@,
                        crop: old(crop_out)@,
                    },
                    event,
                    
                    World {
                        board: *final(self),
                        state,
                        config,
                        effects: final(out)@,
                        crop: final(crop_out)@,
                    },
                    step,
                ),
    {
        proof {
            reveal(crop_step);
        }
        let r: ToolUpdateResult<LayerEdit> = match event {
            ToolbarEvent::RevertCrop => {
                if self.active_tool == Tools::Crop {
                    self.crop_tool.revert_to_seed(true, crop_out);
                } else {
                    self.crop_tool.revert(crop_out);
                    out.push(Effect::Output(SketchBoardOutput::CropPresenceChanged(false)));
                }
                ToolUpdateResult::Redraw
            },
            ToolbarEvent::CancelCrop => {
                self.crop_tool.cancel(crop_out);
                ToolUpdateResult::Redraw
            },
            ToolbarEvent::ApplyCrop => {
                match self.crop_tool.commit(crop_out) {
                    ToolUpdateResult::Redraw => ToolUpdateResult::Redraw,
                    _ => ToolUpdateResult::Unmodified,
                }
            },
            ToolbarEvent::CropAspectRatioChanged(ratio) => {
                self.crop_tool.set_aspect_ratio(ratio, crop_out);
                ToolUpdateResult::Redraw
            },
            ToolbarEvent::CropDimensionsSet { width, height } => {
                self.crop_tool.set_dimensions(px(width), px(height), crop_out);
                ToolUpdateResult::Redraw
            },
            ToolbarEvent::CropBgColorChanged(bg) => {
                self.crop_tool.set_bg_color(bg);
                ToolUpdateResult::Redraw
            },
            _ => ToolUpdateResult::Unmodified,
        };
        ToolbarStep::Done(r)
    }

    /// Does what the toolbar asks for.
    pub fn handle_toolbar_event(
        &mut self,
        event: ToolbarEvent,
        layers: &Vec<Layer>,
        state: &mut PersistedState,
        config: &mut BoardConfig,
        crop_out: &mut Vec<CropMessage>,
        out: &mut Vec<Effect>,
    ) -> (step: ToolbarStep)
        requires
            old(self).wf(),
            old(state).wf(),
        ensures
            final(self).wf(),
            final(state).wf(),
            toolbar_step(
                World {
                    board: *old(self),
                    state: *old(state),
                    config: *old(config),
                    effects: old(out)@,
                    crop: old(crop_out)@,
                },
                event,
                layers@,
                World {
                    board: *final(self),
                    state: *final(state),
                    config: *final(config),
                    effects: final(out)@,
                    crop: final(crop_out)@,
                },
                step,
            ),
    {
        match event {
            ToolbarEvent::ToolSelected(_)
            | ToolbarEvent::ColorSelected(_)
            | ToolbarEvent::SizeSelected(_)
            | ToolbarEvent::SaveFile
            | ToolbarEvent::CopyClipboard
            | ToolbarEvent::SaveFileAs
            | ToolbarEvent::Undo
            | ToolbarEvent::Redo
            | ToolbarEvent::Reset
            | ToolbarEvent::FlipHorizontal
            | ToolbarEvent::RotateImage
            | ToolbarEvent::ResizeImage { .. } => self.handle_command_event(event),
            ToolbarEvent::OpenPreferences
            | ToolbarEvent::FocusZoom
            | ToolbarEvent::ToggleLayerPanel
            | ToolbarEvent::FocusCanvas => self.handle_window_event(event, out),
            ToolbarEvent::ToggleFill
            | ToolbarEvent::ArrowStyleSelected(_)
            | ToolbarEvent::HighlighterStyleSelected(_)
            | ToolbarEvent::BlurStyleSelected(_)
            | ToolbarEvent::TextBackgroundSelected(_)
            | ToolbarEvent::SnapToEdgesChanged(_) => self.handle_look_event(event, layers, state, out),
            ToolbarEvent::SpotlightDarknessChanged(_)
            | ToolbarEvent::HighlighterOpacityChanged(_)
            | ToolbarEvent::BrushPostSmoothChanged(_) => self.handle_level_event(event, layers, config, out),
            ToolbarEvent::SaveSpotlightDarknessAsDefault
            | ToolbarEvent::SaveHighlighterOpacityAsDefault
            | ToolbarEvent::SaveBrushPostSmoothAsDefault(_)
            | ToolbarEvent::SaveFillAsDefault => self.handle_keep_event(event, state, config),
            ToolbarEvent::RevertCrop
            | ToolbarEvent::CancelCrop
            | ToolbarEvent::ApplyCrop
            | ToolbarEvent::CropAspectRatioChanged(_)
            | ToolbarEvent::CropDimensionsSet { .. }
            | ToolbarEvent::CropBgColorChanged(_) => self.handle_crop_event(event, crop_out, out),
        }
    }
}

/// Toggling the fill twice ends where it began, for the style and for a
/// selection that was told of it.
pub proof fn lemma_fill_toggles_back(a: SketchBoard, b: SketchBoard, layers: Seq<Layer>, after: Seq<Layer>)
    requires
        b.selection == a.selection,
        b.active_tool == a.active_tool,
        b.style.fill == a.toggled_fill(layers),
        first_fill(a.selection@, after) == match first_fill(a.selection@, layers) {
            Some(f) => Some(!f),
            None => None,
        },
    ensures
        b.toggled_fill(after) == !a.toggled_fill(layers),
        first_fill(a.selection@, layers) is None ==> b.toggled_fill(after) == a.style.fill,
{
}

} // verus!
