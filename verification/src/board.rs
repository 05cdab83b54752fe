//! The board: what happens when the user clicks, scrolls, types or uses the
//! toolbars and the layer list.
use vstd::prelude::*;
use crate::board::layers::{find_layer, layer_of, Layer, LayerEdit};
use crate::board::messages::{Action, PanelMoveDir, SketchBoardOutput, ToolbarEvent};
use crate::input::{Key, Modifiers};
use crate::math::Vec2D;
use crate::style::{Size, Style};
use crate::tools::arrow::ArrowStyle;
use crate::tools::blur::BlurStyle;
use crate::tools::crop::CropTool;
use crate::tools::highlight::HighlighterStyle;
use crate::tools::{DrawableId, TextBackground, ToolUpdateResult, Tools};

pub mod canvas;
pub mod keys;
pub mod layers;
pub mod messages;
pub mod output;
pub mod panel;
pub mod pointer;
pub mod rows;
pub mod scroll;
pub mod scrolling;
pub mod shortcut;
pub mod switch;
pub mod sync;
pub mod toolbar;
pub mod update;

verus! {

/// Something that the application has to do for the board, in the order
/// given. Scales are in millionths.
#[derive(Clone, Copy, Debug, PartialEq, Eq)]
pub enum Effect {
    /// Tell the rest of the application.
    Output(SketchBoardOutput),
    /// Handle this as if the toolbar had asked for it.
    Toolbar(ToolbarEvent),
    /// Tell the toolbar of the fill once more.
    SyncFillToToolbar,
    /// Show or hide the layer list.
    ToggleLayerPanel,
    /// Hand the text event on to the text tool.
    ForwardText,
    /// Render the image, for an action if there is one.
    Render(Option<Action>),
    /// Render for the actions on Escape, and leave where told to.
    RenderOnEscape { exit: bool },
    /// Render for the actions on Enter.
    RenderOnEnter,
    /// Render for the actions on a right click.
    RenderOnRightClick,
    /// Redraw the canvas and the layer list.
    Refresh,
    /// Show the layer list, or hide it.
    PanelVisible(bool),
    /// Build the rows of the layer list anew.
    RebuildRows,
    /// Give the layer list its width.
    PanelPosition(i64),
    GrabFocus,
    /// Grab the focus once the events at hand are done.
    GrabFocusLater,
    SpotlightDarkness(i64),
    /// Show the image at this scale; zero fits it to the window.
    ResetSize(i64),
    /// Zoom by a factor.
    ZoomBy(i64),
    ZoomIn,
    ZoomOut,
    /// Shift the view.
    PanBy(Vec2D),
    /// Shifts of the view count from where it is now.
    StorePan,
    /// Shift the view by screen lengths.
    PanByPixels(Vec2D),
    /// The view is being dragged, or no longer.
    PanDragging(bool),
    /// Where the pointer is.
    PointerAt(Vec2D),
    /// Edit a drawable.
    Modify(DrawableId, LayerEdit),
    /// Edit as many drawables as told, which follow, as one undo step.
    ModifyMany(usize),
    /// One of those edits.
    Edit(DrawableId, LayerEdit),
    /// Show or hide a drawable, lock or unlock it.
    SetFlags { id: DrawableId, visible: bool, locked: bool },
    /// Move a drawable in the stack.
    MoveLayer(DrawableId, PanelMoveDir),
    /// Redraw, where one of the moves right before changed the stack.
    RefreshIfMoved,
    /// Tell a tool of the style.
    ToolStyle(Tools, Style),
    ToolArrowStyle(ArrowStyle),
    ToolBlurStyle(BlurStyle),
    ToolTextBackground(TextBackground),
    ToolHighlighterStyle(HighlighterStyle),
    /// End what a tool is doing.
    Deactivate(Tools),
    /// Hand input to a tool from now on.
    SetActiveTool(Tools),
    Activate(Tools),
    /// Tell the toolbar of the selection, as it is by then.
    SyncToolbar,
    /// Forget the lines of text that were found under the pointer.
    ClearBandCache,
    /// Show the image at the scale of the screen.
    Rescale,
    /// Shift the view to where a scroll bar is.
    PanTo { horizontal: bool, value: i64 },
    /// Hand a drawable to the text tool.
    EditText(DrawableId),
    /// Set the cursor for a pointer that does not move.
    IdleCursor,
    /// Tell the crop tool of the scale that the image is shown at.
    SyncRenderScale,
}

/// The preferences that the board goes by. Factors are in millionths.
#[derive(Clone, Copy, Debug, PartialEq, Eq, Structural)]
pub struct BoardConfig {
    pub auto_copy: bool,
    pub close_on_copy: bool,
    pub close_on_save: bool,
    pub close_on_esc: bool,
    pub early_exit_save_as: bool,
    pub sticky_session_defaults: bool,
    pub select_any_annotation: bool,
    pub save_after_copy: bool,
    pub brush_post_smooth_iterations: usize,
    pub annotation_size_factor: i64,
    /// How many colors the palette has.
    pub palette_len: usize,
}

/// The state of the board.
#[derive(Debug)]
pub struct SketchBoard {
    pub active_tool: Tools,
    /// The selected drawables.
    pub selection: Vec<DrawableId>,
    pub style: Style,
    pub crop_tool: CropTool,
    /// How new highlights follow the pointer.
    pub highlighter_style: HighlighterStyle,
    pub last_saved_filepath: Option<String>,
    /// The selected drawable and its sizing when the toolbar was last told.
    pub last_synced_selection: Option<SyncedSelection>,
    pub last_was_multi_selection: bool,
    pub tool_before_crop: Option<Tools>,
    /// What is left of scrolling that did not come to a step, in sub-units.
    pub scroll_resize_accum: i64,
    /// The last tool key and when it was pressed, in milliseconds.
    pub last_tool_press: Option<ToolPress>,
    pub last_hover_image_pos: Option<Vec2D>,
    pub session_highlighter_opacity: Option<i64>,
    pub session_brush_smooth: Option<usize>,
    pub session_fill_rectangle: Option<bool>,
    pub session_fill_ellipse: Option<bool>,
    pub layer_panel_open: bool,
    pub layer_panel_shortcut: Option<Shortcut>,
    /// Width of the layer list, in sub-units.
    pub layer_panel_width: i64,
}

/// A selected drawable, its size and its size factor.
#[derive(Clone, Copy, Debug, PartialEq, Eq, Structural)]
pub struct SyncedSelection {
    pub id: DrawableId,
    pub size: Size,
    pub size_factor: i64,
}

/// A tool key that was pressed.
#[derive(Clone, Copy, Debug, PartialEq, Eq, Structural)]
pub struct ToolPress {
    pub ch: char,
    pub at_ms: u64,
}

/// A key with the modifiers that have to be held.
#[derive(Clone, Copy, Debug, PartialEq, Eq, Structural)]
pub struct Shortcut {
    pub key: Key,
    pub modifier: Modifiers,
}

impl SketchBoard {
    /// The crop tool and the scroll remainder are in range.
    pub open spec fn wf(&self) -> bool {
        &&& self.crop_tool.fits()
        &&& -crate::units::UNIT < self.scroll_resize_accum < crate::units::UNIT
    }

    pub fn active_tool_type(&self) -> (r: Tools)
        ensures
            r == self.active_tool,
    {
        self.active_tool
    }

    /// The fill used last in this session with a tool.
    pub open spec fn session_fill(&self, tool: Tools) -> Option<bool> {
        match tool {
            Tools::Rectangle => self.session_fill_rectangle,
            Tools::Ellipse => self.session_fill_ellipse,
            _ => None,
        }
    }

    /// The board with another fill used last with a tool.
    pub open spec fn with_session_fill(self, tool: Tools, fill: bool) -> SketchBoard {
        match tool {
            Tools::Rectangle => SketchBoard { session_fill_rectangle: Some(fill), ..self },
            Tools::Ellipse => SketchBoard { session_fill_ellipse: Some(fill), ..self },
            _ => self,
        }
    }

    /// The only selected drawable.
    pub open spec fn single(&self, layers: Seq<Layer>) -> Option<Layer> {
        if self.selection@.len() == 1 {
            layer_of(layers, self.selection@[0])
        } else {
            None
        }
    }

    /// The only selected drawable, if there is exactly one and it exists.
    pub fn single_layer(&self, layers: &Vec<Layer>) -> (r: Option<Layer>)
        ensures
            r == self.single(layers@),
    {
        if self.selection.len() == 1 {
            find_layer(layers, self.selection[0])
        } else {
            None
        }
    }
}

/// The effects that edits come to.
pub open spec fn modify_effects(updates: Seq<(DrawableId, LayerEdit)>) -> Seq<Effect> {
    if updates.len() == 0 {
        Seq::empty()
    } else if updates.len() == 1 {
        seq![Effect::Modify(updates[0].0, updates[0].1)]
    } else {
        seq![Effect::ModifyMany(updates.len() as usize)] + updates.map_values(
            |u: (DrawableId, LayerEdit)| Effect::Edit(u.0, u.1),
        )
    }
}

/// Asks for edits.
pub fn emit_edits(updates: &Vec<(DrawableId, LayerEdit)>, out: &mut Vec<Effect>)
    ensures
        final(out)@ == old(out)@ + modify_effects(updates@),
{
    if updates.len() == 0 {
        assert(out@ + modify_effects(updates@) =~= out@);
        return ;
    }
    if updates.len() == 1 {
        let (id, e): (DrawableId, LayerEdit) = updates[0];
        out.push(Effect::Modify(id, e));
        assert(out@ =~= old(out)@ + modify_effects(updates@));
        return ;
    }
    out.push(Effect::ModifyMany(updates.len()));
    let mut i: usize = 0;
    while i < updates.len()
        invariant
            i <= updates@.len(),
            updates@.len() >= 2,
            out@.len() == old(out)@.len() + 1 + i,
            forall|k: int| 0 <= k < old(out)@.len() ==> #[trigger] out@[k] == old(out)@[k],
            out@[old(out)@.len() as int] == Effect::ModifyMany(updates@.len() as usize),
            forall|k: int|
                0 <= k < i ==> #[trigger] out@[old(out)@.len() + 1 + k] == Effect::Edit(
                    updates@[k].0,
                    updates@[k].1,
                ),
        decreases updates.len() - i,
    {
        let (id, e): (DrawableId, LayerEdit) = updates[i];
        out.push(Effect::Edit(id, e));
        i = i + 1;
    }
    proof {
        let want = old(out)@ + modify_effects(updates@);
        let n = old(out)@.len();
        assert(out@.len() == want.len());
        assert forall|k: int| 0 <= k < want.len() implies out@[k] == want[k] by {
            if k > n {
                assert(out@[n + 1 + (k - n - 1)] == Effect::Edit(
                    updates@[k - n - 1].0,
                    updates@[k - n - 1].1,
                ));
            }
        }
        assert(out@ =~= want);
    }
}

/// What a tool made of an event, without the drawables.
#[derive(Clone, Copy, Debug, PartialEq, Eq, Structural)]
pub enum ResultKind {
    Commit,
    ModifyDrawable,
    ModifyDrawables,
    ModifyDrawableCoalesce,
    ModifyDrawablesCoalesce,
    RaiseAndRedrawStop,
    DeleteDrawable,
    DeleteDrawables,
    EditTextDrawable,
    Redraw,
    Unmodified,
    StopPropagation,
    RedrawAndStopPropagation,
}

impl<D> ToolUpdateResult<D> {
    /// The result without the drawables.
    pub open spec fn kind_spec(&self) -> ResultKind {
        match self {
            ToolUpdateResult::Commit(_) => ResultKind::Commit,
            ToolUpdateResult::ModifyDrawable(_, _) => ResultKind::ModifyDrawable,
            ToolUpdateResult::ModifyDrawables(_) => ResultKind::ModifyDrawables,
            ToolUpdateResult::ModifyDrawableCoalesce(_, _) => ResultKind::ModifyDrawableCoalesce,
            ToolUpdateResult::ModifyDrawablesCoalesce(_) => ResultKind::ModifyDrawablesCoalesce,
            ToolUpdateResult::RaiseAndRedrawStop(_) => ResultKind::RaiseAndRedrawStop,
            ToolUpdateResult::DeleteDrawable(_) => ResultKind::DeleteDrawable,
            ToolUpdateResult::DeleteDrawables(_) => ResultKind::DeleteDrawables,
            ToolUpdateResult::EditTextDrawable(_) => ResultKind::EditTextDrawable,
            ToolUpdateResult::Redraw => ResultKind::Redraw,
            ToolUpdateResult::Unmodified => ResultKind::Unmodified,
            ToolUpdateResult::StopPropagation => ResultKind::StopPropagation,
            ToolUpdateResult::RedrawAndStopPropagation => ResultKind::RedrawAndStopPropagation,
        }
    }

    /// The result without the drawables.
    pub fn kind(&self) -> (r: ResultKind)
        ensures
            r == self.kind_spec(),
    {
        match self {
            ToolUpdateResult::Commit(_) => ResultKind::Commit,
            ToolUpdateResult::ModifyDrawable(_, _) => ResultKind::ModifyDrawable,
            ToolUpdateResult::ModifyDrawables(_) => ResultKind::ModifyDrawables,
            ToolUpdateResult::ModifyDrawableCoalesce(_, _) => ResultKind::ModifyDrawableCoalesce,
            ToolUpdateResult::ModifyDrawablesCoalesce(_) => ResultKind::ModifyDrawablesCoalesce,
            ToolUpdateResult::RaiseAndRedrawStop(_) => ResultKind::RaiseAndRedrawStop,
            ToolUpdateResult::DeleteDrawable(_) => ResultKind::DeleteDrawable,
            ToolUpdateResult::DeleteDrawables(_) => ResultKind::DeleteDrawables,
            ToolUpdateResult::EditTextDrawable(_) => ResultKind::EditTextDrawable,
            ToolUpdateResult::Redraw => ResultKind::Redraw,
            ToolUpdateResult::Unmodified => ResultKind::Unmodified,
            ToolUpdateResult::StopPropagation => ResultKind::StopPropagation,
            ToolUpdateResult::RedrawAndStopPropagation => ResultKind::RedrawAndStopPropagation,
        }
    }
}

impl ResultKind {
    /// Drawables change.
    pub open spec fn modifies_spec(self) -> bool {
        self == ResultKind::ModifyDrawable || self == ResultKind::ModifyDrawables || self
            == ResultKind::ModifyDrawableCoalesce || self == ResultKind::ModifyDrawablesCoalesce
    }

    /// Drawables change.
    pub fn modifies(self) -> (r: bool)
        ensures
            r == self.modifies_spec(),
    {
        match self {
            ResultKind::ModifyDrawable
            | ResultKind::ModifyDrawables
            | ResultKind::ModifyDrawableCoalesce
            | ResultKind::ModifyDrawablesCoalesce => true,
            _ => false,
        }
    }

    /// The pointer tool, asked first, has dealt with a key.
    pub open spec fn takes_key_spec(self) -> bool {
        self.modifies_spec() || self == ResultKind::StopPropagation || self
            == ResultKind::RedrawAndStopPropagation || self == ResultKind::RaiseAndRedrawStop
            || self == ResultKind::DeleteDrawable || self == ResultKind::DeleteDrawables
    }

    /// The pointer tool, asked first, has dealt with a key.
    pub fn takes_key(self) -> (r: bool)
        ensures
            r == self.takes_key_spec(),
    {
        self.modifies() || match self {
            ResultKind::StopPropagation
            | ResultKind::RedrawAndStopPropagation
            | ResultKind::RaiseAndRedrawStop
            | ResultKind::DeleteDrawable
            | ResultKind::DeleteDrawables => true,
            _ => false,
        }
    }

    /// The active tool has dealt with a key: no shortcut is looked for.
    pub open spec fn ends_key_spec(self) -> bool {
        self.takes_key_spec() || self == ResultKind::Commit
    }

    /// The active tool has dealt with a key: no shortcut is looked for.
    pub fn ends_key(self) -> (r: bool)
        ensures
            r == self.ends_key_spec(),
    {
        self.takes_key() || self == ResultKind::Commit
    }

    /// The pointer tool, asked first, has dealt with other input.
    pub open spec fn takes_input_spec(self) -> bool {
        self.takes_key_spec() || self == ResultKind::EditTextDrawable
    }

    /// The pointer tool, asked first, has dealt with other input.
    pub fn takes_input(self) -> (r: bool)
        ensures
            r == self.takes_input_spec(),
    {
        self.takes_key() || self == ResultKind::EditTextDrawable
    }

    /// The active tool has dealt with other input: the canvas does not pan.
    pub open spec fn ends_input_spec(self) -> bool {
        self.takes_input_spec() || self == ResultKind::Commit
    }

    /// The active tool has dealt with other input: the canvas does not pan.
    pub fn ends_input(self) -> (r: bool)
        ensures
            r == self.ends_input_spec(),
    {
        self.takes_input() || self == ResultKind::Commit
    }

    /// The drawables on the stack change, so that the canvas may have to grow
    /// and an automatic copy is due.
    pub open spec fn stores_spec(self) -> bool {
        self.modifies_spec() || self == ResultKind::Commit || self == ResultKind::DeleteDrawable
            || self == ResultKind::DeleteDrawables
    }

    /// The drawables on the stack change.
    pub fn stores(self) -> (r: bool)
        ensures
            r == self.stores_spec(),
    {
        self.modifies() || match self {
            ResultKind::Commit | ResultKind::DeleteDrawable | ResultKind::DeleteDrawables => true,
            _ => false,
        }
    }

    /// The screen has to be drawn again.
    pub open spec fn redraws_spec(self) -> bool {
        self.stores_spec() || self == ResultKind::RaiseAndRedrawStop || self == ResultKind::Redraw
            || self == ResultKind::RedrawAndStopPropagation
    }

    /// The screen has to be drawn again.
    pub fn redraws(self) -> (r: bool)
        ensures
            r == self.redraws_spec(),
    {
        self.stores() || match self {
            ResultKind::RaiseAndRedrawStop
            | ResultKind::Redraw
            | ResultKind::RedrawAndStopPropagation => true,
            _ => false,
        }
    }

    /// A key that stops at one tool stops the search for shortcuts, whatever
    /// else that tool did; other input likewise.
    pub proof fn lemma_stages_nest(self)
        ensures
            self.takes_key_spec() ==> self.ends_key_spec(),
            self.takes_key_spec() ==> self.takes_input_spec(),
            self.takes_input_spec() ==> self.ends_input_spec(),
            self.ends_key_spec() ==> self.ends_input_spec(),
            self.stores_spec() ==> self.ends_key_spec() && self.redraws_spec(),
            self == ResultKind::Redraw || self == ResultKind::Unmodified ==> !self.ends_input_spec(),
    {
    }
}

/// A change for the stack of drawables.
#[derive(Debug)]
pub enum Store<D> {
    Commit(D),
    Modify(DrawableId, D),
}

/// Splits the result of ending a tool's work into what goes to the stack and
/// what is left: a redraw, where something went there.
pub fn settle<D>(r: ToolUpdateResult<D>) -> (s: (Option<Store<D>>, ToolUpdateResult<D>))
    ensures
        s == match r {
            ToolUpdateResult::Commit(d) => (
                Some(Store::Commit(d)),
                ToolUpdateResult::<D>::Redraw,
            ),
            ToolUpdateResult::ModifyDrawable(id, d) => (
                Some(Store::Modify(id, d)),
                ToolUpdateResult::<D>::Redraw,
            ),
            _ => (None, r),
        },
{
    match r {
        ToolUpdateResult::Commit(d) => (Some(Store::Commit(d)), ToolUpdateResult::Redraw),
        ToolUpdateResult::ModifyDrawable(id, d) => (
            Some(Store::Modify(id, d)),
            ToolUpdateResult::Redraw,
        ),
        other => (None, other),
    }
}

/// The result of a change of tools: that of activating the new one, unless it
/// did nothing.
pub fn switch_result<D>(deactivated: ToolUpdateResult<D>, activated: ToolUpdateResult<D>) -> (r:
    ToolUpdateResult<D>)
    ensures
        r == if activated is Unmodified {
            deactivated
        } else {
            activated
        },
{
    match activated {
        ToolUpdateResult::Unmodified => deactivated,
        other => other,
    }
}

/// The result of telling the tools of a new style: what the pointer tool did
/// to the selection wins.
pub fn style_result<D>(pointer: ToolUpdateResult<D>, active: ToolUpdateResult<D>) -> (r:
    ToolUpdateResult<D>)
    ensures
        r == if pointer.kind_spec().modifies_spec() {
            pointer
        } else {
            active
        },
{
    if pointer.kind().modifies() {
        pointer
    } else {
        active
    }
}

/// The result of choosing a tool: dropping a selection is seen on screen.
pub fn tool_selected_result<D>(had_selection: bool, r: ToolUpdateResult<D>) -> (s:
    ToolUpdateResult<D>)
    ensures
        s == if had_selection && r is Unmodified {
            ToolUpdateResult::<D>::Redraw
        } else {
            r
        },
{
    match r {
        ToolUpdateResult::Unmodified => if had_selection {
            ToolUpdateResult::Redraw
        } else {
            ToolUpdateResult::Unmodified
        },
        other => other,
    }
}

/// What undo and redo step through.
#[derive(Clone, Copy, Debug, PartialEq, Eq, Structural)]
pub enum HistoryRoute {
    /// What the active tool is doing.
    Tool,
    /// What was done to the canvas.
    Canvas,
}

/// A tool at work undoes its own steps; else those of the canvas are undone.
pub fn history_route(tool_active: bool) -> (r: HistoryRoute)
    ensures
        r == if tool_active {
            HistoryRoute::Tool
        } else {
            HistoryRoute::Canvas
        },
{
    if tool_active {
        HistoryRoute::Tool
    } else {
        HistoryRoute::Canvas
    }
}

/// The result of an undo, a redo or an action: what it changed is seen on
/// screen.
pub fn changed_result<D>(changed: bool) -> (r: ToolUpdateResult<D>)
    ensures
        r == if changed {
            ToolUpdateResult::<D>::Redraw
        } else {
            ToolUpdateResult::<D>::Unmodified
        },
{
    if changed {
        ToolUpdateResult::Redraw
    } else {
        ToolUpdateResult::Unmodified
    }
}

/// The result of a reset: both the work that it ended and the drawables that
/// it took away are seen on screen.
pub fn reset_result<D>(ended: bool, reset: bool) -> (r: ToolUpdateResult<D>)
    ensures
        r == if ended || reset {
            ToolUpdateResult::<D>::Redraw
        } else {
            ToolUpdateResult::<D>::Unmodified
        },
{
    changed_result(ended || reset)
}

/// The drawables that a result touches, apart from a new one.
pub open spec fn touched<D>(r: ToolUpdateResult<D>) -> Seq<DrawableId> {
    match r {
        ToolUpdateResult::ModifyDrawable(id, _) => seq![id],
        ToolUpdateResult::ModifyDrawableCoalesce(id, _) => seq![id],
        ToolUpdateResult::DeleteDrawable(id) => seq![id],
        ToolUpdateResult::DeleteDrawables(ids) => ids@,
        ToolUpdateResult::ModifyDrawables(v) => Seq::new(v@.len(), |i: int| v@[i].0),
        ToolUpdateResult::ModifyDrawablesCoalesce(v) => Seq::new(v@.len(), |i: int| v@[i].0),
        _ => Seq::empty(),
    }
}

fn ids_of<D>(v: &Vec<(DrawableId, D)>) -> (r: Vec<DrawableId>)
    ensures
        r@ == Seq::new(v@.len(), |i: int| v@[i].0),
{
    let mut ids: Vec<DrawableId> = Vec::new();
    let mut i: usize = 0;
    while i < v.len()
        invariant
            i <= v@.len(),
            ids@.len() == i,
            forall|k: int| 0 <= k < i ==> #[trigger] ids@[k] == v@[k].0,
        decreases v.len() - i,
    {
        ids.push(v[i].0);
        i = i + 1;
    }
    assert(ids@ =~= Seq::new(v@.len(), |i: int| v@[i].0));
    ids
}

/// The drawables that a result touches, for which the canvas may have to
/// grow.
pub fn touched_ids<D>(r: &ToolUpdateResult<D>) -> (ids: Vec<DrawableId>)
    ensures
        ids@ == touched(*r),
{
    match r {
        ToolUpdateResult::ModifyDrawable(id, _) => vec![*id],
        ToolUpdateResult::ModifyDrawableCoalesce(id, _) => vec![*id],
        ToolUpdateResult::DeleteDrawable(id) => vec![*id],
        ToolUpdateResult::DeleteDrawables(ids) => {
            let mut all: Vec<DrawableId> = Vec::new();
            let mut i: usize = 0;
            while i < ids.len()
                invariant
                    i <= ids@.len(),
                    all@ == ids@.take(i as int),
                decreases ids.len() - i,
            {
                all.push(ids[i]);
                assert(ids@.take(i + 1) =~= ids@.take(i as int).push(ids@[i as int]));
                i = i + 1;
            }
            assert(ids@.take(ids@.len() as int) =~= ids@);
            all
        },
        ToolUpdateResult::ModifyDrawables(v) => ids_of(v),
        ToolUpdateResult::ModifyDrawablesCoalesce(v) => ids_of(v),
        _ => Vec::new(),
    }
}

/// What follows a result once it is on the stack: an automatic copy, and a
/// redraw.
pub fn after_result(kind: ResultKind, config: &BoardConfig, out: &mut Vec<Effect>)
    ensures
        final(out)@ == old(out)@ + after_result_effects(kind, *config),
{
    if kind.stores() && config.auto_copy {
        out.push(Effect::Render(Some(Action::SaveToClipboard)));
    }
    if kind.redraws() {
        out.push(Effect::Refresh);
    }
    assert(out@ =~= old(out)@ + after_result_effects(kind, *config));
}

/// The effects that follow a result once it is on the stack.
pub open spec fn after_result_effects(kind: ResultKind, config: BoardConfig) -> Seq<Effect> {
    (if kind.stores_spec() && config.auto_copy {
        seq![Effect::Render(Some(Action::SaveToClipboard))]
    } else {
        Seq::empty()
    }) + (if kind.redraws_spec() {
        seq![Effect::Refresh]
    } else {
        Seq::empty()
    })
}

} // verus!
