//! What scrolling over the canvas does.
use vstd::prelude::*;
use crate::board::layers::{collect_edits, edits, find_layer, layer_of, Change, Layer};
use crate::board::messages::{SketchBoardOutput, Toast};
use crate::board::scroll::{
    apply_size_steps, arrow_order, arrow_place, blur_order, blur_place, carried,
    drain_scroll_resize_steps, slid_darkness, slid_factor, slid_opacity, slid_smooth,
    slide_darkness, slide_factor, slide_opacity, slide_smooth, step_arrow, step_blur, step_text,
    stepped_rung, text_order, text_place, wrapped,
};
use crate::board::{emit_edits, modify_effects, BoardConfig, Effect, SketchBoard};
use crate::input::Modifiers;
use crate::state::{save_annotation_size_factor, PersistedState};
use crate::style::{Size, Style};
use crate::tools::arrow::ArrowStyle;
use crate::tools::blur::BlurStyle;
use crate::tools::{DrawableId, TextBackground, Tools};
use crate::units::{trunc_px_spec, UNIT};

verus! {

/// A scroll that the board takes: within what a wheel can do.
pub open spec fn scroll_ok(dy: int) -> bool {
    -0x3fff_ffff_0000 <= dy <= 0x3fff_ffff_0000
}

/// What smoothing is shared by all selected drawables.
pub open spec fn agreed_smooth(sel: Seq<DrawableId>, layers: Seq<Layer>) -> Option<usize> {
    if sel.len() == 0 {
        None
    } else {
        match layer_of(layers, sel[0]) {
            Some(Layer { smooth_level: Some(n), .. }) => if forall|i: int|
                0 <= i < sel.len() ==> smoothed_by(layers, #[trigger] sel[i], n) {
                Some(n)
            } else {
                None
            },
            _ => None,
        }
    }
}

/// The drawable exists and has this smoothing level.
pub open spec fn smoothed_by(layers: Seq<Layer>, id: DrawableId, level: usize) -> bool {
    layer_of(layers, id) matches Some(d) && d.smooth_level == Some(level)
}

fn find_agreed_smooth(sel: &Vec<DrawableId>, layers: &Vec<Layer>) -> (r: Option<usize>)
    ensures
        r == agreed_smooth(sel@, layers@),
{
    if sel.len() == 0 {
        return None;
    }
    let Some(d) = find_layer(layers, sel[0]) else {
        return None;
    };
    let Some(n) = d.smooth_level else {
        return None;
    };
    let mut i: usize = 0;
    while i < sel.len()
        invariant
            0 < sel@.len(),
            layer_of(layers@, sel@[0]) == Some(d),
            d.smooth_level == Some(n),
            i <= sel@.len(),
            forall|k: int| 0 <= k < i ==> smoothed_by(layers@, #[trigger] sel@[k], n),
        ensures
            i == sel@.len(),
        decreases sel.len() - i,
    {
        match find_layer(layers, sel[i]) {
            Some(l) if l.smooth_level == Some(n) => {},
            _ => {
                assert(!smoothed_by(layers@, sel@[i as int], n));
                return None;
            },
        }
        i = i + 1;
    }
    Some(n)
}

/// The tool that made a drawable, if there is one.
pub open spec fn maker(layers: Seq<Layer>, id: DrawableId) -> Option<Tools> {
    match layer_of(layers, id) {
        Some(d) => d.tool_type,
        None => None,
    }
}

fn find_maker(layers: &Vec<Layer>, id: DrawableId) -> (r: Option<Tools>)
    ensures
        r == maker(layers@, id),
{
    match find_layer(layers, id) {
        Some(d) => d.tool_type,
        None => None,
    }
}

impl SketchBoard {
    /// How many whole steps a scroll by `dy` comes to, with what was left of
    /// earlier ones.
    pub open spec fn steps_of(&self, dy: int) -> int {
        trunc_px_spec(carried(self.scroll_resize_accum as int, dy) - dy)
    }

    /// What is left of a scroll by `dy`.
    pub open spec fn rest_of(&self, dy: int) -> int {
        carried(self.scroll_resize_accum as int, dy) - dy - self.steps_of(dy) * UNIT
    }

    /// The board once the whole steps of a scroll are taken out.
    pub open spec fn drained(self, dy: int) -> SketchBoard {
        SketchBoard { scroll_resize_accum: self.rest_of(dy) as i64, ..self }
    }

    fn drain(&mut self, dy: i64) -> (steps: i32)
        requires
            old(self).wf(),
            scroll_ok(dy as int),
        ensures
            final(self).wf(),
            steps == old(self).steps_of(dy as int),
            steps > i32::MIN,
            *final(self) == old(self).drained(dy as int),
    {
        let mut accum: i64 = self.scroll_resize_accum;
        let steps: i32 = drain_scroll_resize_steps(&mut accum, dy);
        self.scroll_resize_accum = accum;
        steps
    }

    /// The tool whose slider scrolling moves: that of the selection, where
    /// all of it was made by one tool; the active tool, where nothing is
    /// selected or the selection is mixed. Drawables that no tool makes have
    /// no slider.
    pub open spec fn alt_target(&self, layers: Seq<Layer>) -> Option<Tools> {
        let sel = self.selection@;
        if sel.len() > 0 && forall|i: int|
            0 <= i < sel.len() ==> maker(layers, #[trigger] sel[i]) == maker(layers, sel[0]) {
            maker(layers, sel[0])
        } else {
            Some(self.active_tool)
        }
    }

    /// The tool whose slider scrolling moves.
    pub fn alt_slider_target_tool(&self, layers: &Vec<Layer>) -> (r: Option<Tools>)
        ensures
            r == self.alt_target(layers@),
    {
        if self.selection.len() == 0 {
            return Some(self.active_tool);
        }
        let first: Option<Tools> = find_maker(layers, self.selection[0]);
        let mut i: usize = 1;
        while i < self.selection.len()
            invariant
                0 < i <= self.selection@.len(),
                first == maker(layers@, self.selection@[0]),
                forall|k: int|
                    0 <= k < i ==> maker(layers@, #[trigger] self.selection@[k]) == first,
            decreases self.selection.len() - i,
        {
            if find_maker(layers, self.selection[i]) != first {
                assert(maker(layers@, self.selection@[i as int]) != first);
                return Some(self.active_tool);
            }
            i = i + 1;
        }
        first
    }

    /// What resizing the selection by some steps asks for.
    pub open spec fn resize_effects(&self, layers: Seq<Layer>, steps: int) -> Seq<Effect> {
        let updates = edits(self.selection@, layers, Change::SizeSteps(steps as i32));
        modify_effects(updates) + (if updates.len() == 0 {
            Seq::empty()
        } else {
            seq![Effect::Refresh]
        }) + seq![Effect::SyncToolbar]
    }

    /// Scrolling over a selection: its drawables grow and shrink.
    pub fn scroll_resize_selection(&mut self, dy: i64, layers: &Vec<Layer>, out: &mut Vec<Effect>)
        requires
            old(self).wf(),
            scroll_ok(dy as int),
        ensures
            final(self).wf(),
            *final(self) == old(self).drained(dy as int),
            final(out)@ == if old(self).steps_of(dy as int) == 0 {
                old(out)@
            } else {
                old(out)@ + old(self).resize_effects(layers@, old(self).steps_of(dy as int))
            },
    {
        let steps: i32 = self.drain(dy);
        if steps == 0 {
            return ;
        }
        let updates = collect_edits(&self.selection, layers, Change::SizeSteps(steps));
        emit_edits(&updates, out);
        if updates.len() > 0 {
            out.push(Effect::Refresh);
        }
        out.push(Effect::SyncToolbar);
        assert(out@ =~= old(out)@ + old(self).resize_effects(layers@, steps as int));
    }

    /// What telling the tools of the style asks for.
    pub open spec fn dispatch_effects(&self) -> Seq<Effect> {
        (if self.active_tool != Tools::Pointer {
            seq![Effect::ToolStyle(Tools::Pointer, self.style)]
        } else {
            Seq::empty()
        }) + seq![Effect::ToolStyle(self.active_tool, self.style)] + (if self.active_tool
            == Tools::Brush || self.active_tool == Tools::Highlighter {
            seq![Effect::IdleCursor]
        } else {
            Seq::empty()
        })
    }

    /// Tells the pointer tool and the active tool of the style.
    pub fn dispatch_style_change(&self, out: &mut Vec<Effect>)
        ensures
            final(out)@ == old(out)@ + self.dispatch_effects(),
    {
        if self.active_tool != Tools::Pointer {
            out.push(Effect::ToolStyle(Tools::Pointer, self.style));
        }
        out.push(Effect::ToolStyle(self.active_tool, self.style));
        if self.active_tool == Tools::Brush || self.active_tool == Tools::Highlighter {
            out.push(Effect::IdleCursor);
        }
        assert(out@ =~= old(out)@ + self.dispatch_effects());
    }

    /// Scrolling with Alt: the size that the tools draw with.
    pub fn scroll_resize_tool_size(&mut self, dy: i64, out: &mut Vec<Effect>)
        requires
            old(self).wf(),
            scroll_ok(dy as int),
        ensures
            final(self).wf(),
            tool_size_slid(
                old(self).drained(dy as int),
                old(self).steps_of(dy as int),
                old(out)@,
                *final(self),
                final(out)@,
            ),
    {
        let steps: i32 = self.drain(dy);
        if steps == 0 {
            return ;
        }
        let size: Size = apply_size_steps(self.style.size, steps);
        if size == self.style.size {
            return ;
        }
        self.style.size = size;
        self.dispatch_style_change(out);
        out.push(Effect::Output(SketchBoardOutput::ToolSizeChanged(size)));
        assert(out@ =~= old(out)@ + self.dispatch_effects().push(
            Effect::Output(SketchBoardOutput::ToolSizeChanged(size)),
        ));
    }

    /// What another size factor asks for.
    pub open spec fn factor_effects(&self, layers: Seq<Layer>, value: i64) -> Seq<Effect> {
        modify_effects(edits(self.selection@, layers, Change::Factor(value))) + seq![
            Effect::ToolStyle(
                self.active_tool,
                Style { annotation_size_factor: value, ..self.style },
            ),
            Effect::Output(
                SketchBoardOutput::ShowCycleToast(Toast::AnnotationSize((value / 100_000) as i64)),
            ),
            Effect::Refresh,
        ]
    }

    /// Scrolling with Alt and Shift: the size factor of annotations, for the
    /// selection and for what is drawn next. It is kept.
    pub fn scroll_annotation_multiplier(
        &mut self,
        dy: i64,
        layers: &Vec<Layer>,
        state: &mut PersistedState,
        config: &mut BoardConfig,
        out: &mut Vec<Effect>,
    )
        requires
            old(self).wf(),
            scroll_ok(dy as int),
        ensures
            final(self).wf(),
            factor_slid(
                old(self).drained(dy as int),
                old(self).steps_of(dy as int),
                layers@,
                *old(state),
                *old(config),
                old(out)@,
                *final(self),
                *final(state),
                *final(config),
                final(out)@,
            ),
    {
        let steps: i32 = self.drain(dy);
        if steps == 0 {
            return ;
        }
        let value: i64 = slide_factor(self.style.annotation_size_factor, steps);
        if value == self.style.annotation_size_factor {
            return ;
        }
        let ghost a = *self;
        self.style.annotation_size_factor = value;
        let updates = collect_edits(&self.selection, layers, Change::Factor(value));
        emit_edits(&updates, out);
        out.push(Effect::ToolStyle(self.active_tool, self.style));
        save_annotation_size_factor(state, value);
        config.annotation_size_factor = value;
        out.push(
            Effect::Output(
                SketchBoardOutput::ShowCycleToast(Toast::AnnotationSize(value / 100_000)),
            ),
        );
        out.push(Effect::Refresh);
        assert(out@ =~= old(out)@ + a.factor_effects(layers@, value));
    }

    /// The smoothing that scrolling starts from: that of the selection, where
    /// all of it agrees; that of the brush, where nothing is selected.
    pub open spec fn smooth_now(&self, layers: Seq<Layer>, config: BoardConfig) -> Option<usize> {
        if self.selection@.len() == 0 {
            Some(config.brush_post_smooth_iterations)
        } else {
            agreed_smooth(self.selection@, layers)
        }
    }

    fn slide_brush(
        &mut self,
        steps: i32,
        layers: &Vec<Layer>,
        config: &mut BoardConfig,
        out: &mut Vec<Effect>,
    )
        requires
            old(self).wf(),
        ensures
            final(self).wf(),
            brush_slid(
                *old(self),
                steps as int,
                layers@,
                *old(config),
                old(out)@,
                *final(self),
                *final(config),
                final(out)@,
            ),
    {
        let cur: usize = if self.selection.len() == 0 {
            config.brush_post_smooth_iterations
        } else {
            match find_agreed_smooth(&self.selection, layers) {
                Some(n) => n,
                None => {
                    return ;
                },
            }
        };
        let value: usize = slide_smooth(cur, steps);
        if value == cur {
            return ;
        }
        let updates = collect_edits(&self.selection, layers, Change::Smooth(value));
        if updates.len() == 0 {
            config.brush_post_smooth_iterations = value;
            self.session_brush_smooth = Some(value);
        }
        emit_edits(&updates, out);
        out.push(Effect::Output(SketchBoardOutput::BrushPostSmoothReset(value)));
        out.push(Effect::Refresh);
        assert(out@ =~= old(out)@ + modify_effects(updates@) + seq![
            Effect::Output(SketchBoardOutput::BrushPostSmoothReset(value)),
            Effect::Refresh,
        ]);
    }

    fn slide_spotlight(&mut self, steps: i32, out: &mut Vec<Effect>)
        requires
            old(self).wf(),
        ensures
            final(self).wf(),
            spotlight_slid(*old(self), steps as int, old(out)@, *final(self), final(out)@),
    {
        let cur: i64 = self.style.spotlight_darkness;
        let value: i64 = slide_darkness(cur, steps);
        if value == cur {
            return ;
        }
        self.style.spotlight_darkness = value;
        out.push(Effect::SpotlightDarkness(value));
        out.push(Effect::Output(SketchBoardOutput::SpotlightDarknessReset(value)));
        out.push(Effect::Refresh);
        assert(out@ =~= old(out)@ + seq![
            Effect::SpotlightDarkness(value),
            Effect::Output(SketchBoardOutput::SpotlightDarknessReset(value)),
            Effect::Refresh,
        ]);
    }

    fn slide_highlighter(&mut self, steps: i32, layers: &Vec<Layer>, out: &mut Vec<Effect>)
        requires
            old(self).wf(),
        ensures
            final(self).wf(),
            highlighter_slid(
                *old(self),
                steps as int,
                layers@,
                old(out)@,
                *final(self),
                final(out)@,
            ),
    {
        let cur: i64 = self.style.highlighter_opacity;
        let value: i64 = slide_opacity(cur, steps);
        if value == cur {
            return ;
        }
        self.style.highlighter_opacity = value;
        self.session_highlighter_opacity = Some(value);
        out.push(Effect::Output(SketchBoardOutput::HighlighterOpacityReset(value)));
        let updates = collect_edits(&self.selection, layers, Change::Opacity(value));
        emit_edits(&updates, out);
        out.push(Effect::ToolStyle(self.active_tool, self.style));
        out.push(Effect::Refresh);
        assert(out@ =~= old(out)@ + (seq![
            Effect::Output(SketchBoardOutput::HighlighterOpacityReset(value)),
        ] + modify_effects(updates@) + seq![
            Effect::ToolStyle(self.active_tool, self.style),
            Effect::Refresh,
        ]));
    }

    /// Scrolling with Control and Shift, or over a spotlight: the slider, or
    /// the choice, of the tool at hand.
    pub fn scroll_alt_slider(
        &mut self,
        dy: i64,
        layers: &Vec<Layer>,
        state: &PersistedState,
        config: &mut BoardConfig,
        out: &mut Vec<Effect>,
    )
        requires
            old(self).wf(),
            scroll_ok(dy as int),
        ensures
            final(self).wf(),
            alt_slid(
                old(self).drained(dy as int),
                old(self).steps_of(dy as int),
                layers@,
                *state,
                *old(config),
                old(out)@,
                *final(self),
                *final(config),
                final(out)@,
            ),
    {
        let steps: i32 = self.drain(dy);
        if steps == 0 {
            return ;
        }
        match self.alt_slider_target_tool(layers) {
            Some(Tools::Brush) => self.slide_brush(steps, layers, config, out),
            Some(Tools::Spotlight) => self.slide_spotlight(steps, out),
            Some(Tools::Highlighter) => self.slide_highlighter(steps, layers, out),
            Some(Tools::Arrow) => {
                let current: ArrowStyle = self.cycle_seed_arrow(layers, state);
                let next: ArrowStyle = step_arrow(current, steps);
                if next != current {
                    out.push(Effect::Output(SketchBoardOutput::ArrowStyleCycled(next)));
                }
            },
            Some(Tools::Blur) => {
                let current: BlurStyle = self.cycle_seed_blur(layers, state);
                let next: BlurStyle = step_blur(current, steps);
                if next != current {
                    out.push(Effect::Output(SketchBoardOutput::BlurStyleCycled(next)));
                }
            },
            Some(Tools::Text) => {
                let current: TextBackground = self.cycle_seed_text(layers, state);
                let next: TextBackground = step_text(current, steps);
                if next != current {
                    out.push(Effect::Output(SketchBoardOutput::TextBackgroundCycled(next)));
                }
            },
            Some(Tools::Rectangle) | Some(Tools::Ellipse) => {
                if (steps > 0) != self.style.fill {
                    let _ = self.toggle_fill(layers, out);
                }
            },
            _ => {},
        }
    }
}

/// What a scroll is for.
#[derive(Clone, Copy, Debug, PartialEq, Eq, Structural)]
pub enum ScrollRoute {
    /// The slider of the tool at hand.
    AltSlider,
    /// The size factor of annotations.
    Factor,
    /// The size that the tools draw with.
    ToolSize,
    /// The crop that is being edited grows or shrinks.
    ScaleCrop,
    /// The view zooms around the cursor.
    Zoom,
    /// The selection grows or shrinks.
    Selection,
    /// The canvas pans, or a tool takes it.
    Pass,
}

impl SketchBoard {
    /// What a vertical scroll is for.
    pub open spec fn route_spec(&self, modifier: Modifiers) -> ScrollRoute {
        let (ctrl, shift, alt) = (modifier.control, modifier.shift, modifier.alt);
        if self.active_tool == Tools::Spotlight && !ctrl && !shift && !alt {
            ScrollRoute::AltSlider
        } else if ctrl && shift {
            ScrollRoute::AltSlider
        } else if alt && shift {
            ScrollRoute::Factor
        } else if alt {
            ScrollRoute::ToolSize
        } else if ctrl && self.active_tool == Tools::Crop {
            if self.crop_tool.active_edit_spec() {
                ScrollRoute::ScaleCrop
            } else {
                ScrollRoute::Pass
            }
        } else if ctrl {
            ScrollRoute::Zoom
        } else if self.selection@.len() > 0 {
            ScrollRoute::Selection
        } else {
            ScrollRoute::Pass
        }
    }

    /// What a vertical scroll is for.
    pub fn scroll_route(&self, modifier: Modifiers) -> (r: ScrollRoute)
        ensures
            r == self.route_spec(modifier),
    {
        let (ctrl, shift, alt): (bool, bool, bool) = (
            modifier.control,
            modifier.shift,
            modifier.alt,
        );
        if self.active_tool == Tools::Spotlight && !ctrl && !shift && !alt {
            ScrollRoute::AltSlider
        } else if ctrl && shift {
            ScrollRoute::AltSlider
        } else if alt && shift {
            ScrollRoute::Factor
        } else if alt {
            ScrollRoute::ToolSize
        } else if ctrl && self.active_tool == Tools::Crop {
            if self.crop_tool.is_active_edit() {
                ScrollRoute::ScaleCrop
            } else {
                ScrollRoute::Pass
            }
        } else if ctrl {
            ScrollRoute::Zoom
        } else if self.selection.len() > 0 {
            ScrollRoute::Selection
        } else {
            ScrollRoute::Pass
        }
    }

    /// Takes a scroll by `dy`, where it is vertical, and says what it was
    /// for. The caller does what is left: scaling the crop, zooming, or
    /// handing the scroll on.
    pub fn handle_scroll(
        &mut self,
        dy: i64,
        modifier: Modifiers,
        layers: &Vec<Layer>,
        state: &mut PersistedState,
        config: &mut BoardConfig,
        out: &mut Vec<Effect>,
    ) -> (r: ScrollRoute)
        requires
            old(self).wf(),
            scroll_ok(dy as int),
        ensures
            final(self).wf(),
            r == if dy == 0 {
                ScrollRoute::Pass
            } else {
                old(self).route_spec(modifier)
            },
            r != ScrollRoute::Factor ==> *final(state) == *old(state),
            r != ScrollRoute::Factor && r != ScrollRoute::AltSlider ==> *final(config) == *old(
                config,
            ),
            match r {
                ScrollRoute::AltSlider => alt_slid(
                    old(self).drained(dy as int),
                    old(self).steps_of(dy as int),
                    layers@,
                    *old(state),
                    *old(config),
                    old(out)@,
                    *final(self),
                    *final(config),
                    final(out)@,
                ),
                ScrollRoute::Factor => factor_slid(
                    old(self).drained(dy as int),
                    old(self).steps_of(dy as int),
                    layers@,
                    *old(state),
                    *old(config),
                    old(out)@,
                    *final(self),
                    *final(state),
                    *final(config),
                    final(out)@,
                ),
                ScrollRoute::ToolSize => tool_size_slid(
                    old(self).drained(dy as int),
                    old(self).steps_of(dy as int),
                    old(out)@,
                    *final(self),
                    final(out)@,
                ),
                ScrollRoute::Selection => {
                    &&& *final(self) == old(self).drained(dy as int)
                    &&& final(out)@ == if old(self).steps_of(dy as int) == 0 {
                        old(out)@
                    } else {
                        old(out)@ + old(self).resize_effects(
                            layers@,
                            old(self).steps_of(dy as int),
                        )
                    }
                },
                ScrollRoute::ScaleCrop | ScrollRoute::Zoom => *final(self) == *old(self)
                    && final(out)@ == old(out)@,
                ScrollRoute::Pass => {
                    &&& final(out)@ == old(out)@
                    &&& *final(self) == if dy == 0 || modifier.control {
                        *old(self)
                    } else {
                        SketchBoard { scroll_resize_accum: 0, ..*old(self) }
                    }
                },
            },
    {
        if dy == 0 {
            return ScrollRoute::Pass;
        }
        let route: ScrollRoute = self.scroll_route(modifier);
        match route {
            ScrollRoute::AltSlider => self.scroll_alt_slider(dy, layers, state, config, out),
            ScrollRoute::Factor => self.scroll_annotation_multiplier(
                dy,
                layers,
                state,
                config,
                out,
            ),
            ScrollRoute::ToolSize => self.scroll_resize_tool_size(dy, out),
            ScrollRoute::Selection => self.scroll_resize_selection(dy, layers, out),
            ScrollRoute::Pass => {
                if !modifier.control {
                    self.scroll_resize_accum = 0;
                }
            },
            ScrollRoute::ScaleCrop | ScrollRoute::Zoom => {},
        }
        route
    }
}

/// What `steps` steps of the size factor do.
pub open spec fn factor_slid(
    a: SketchBoard,
    steps: int,
    layers: Seq<Layer>,
    state: PersistedState,
    config: BoardConfig,
    before: Seq<Effect>,
    b: SketchBoard,
    state_after: PersistedState,
    config_after: BoardConfig,
    after: Seq<Effect>,
) -> bool {
    let value = slid_factor(a.style.annotation_size_factor as int, steps) as i64;
    if steps == 0 || value == a.style.annotation_size_factor {
        b == a && state_after == state && config_after == config && after == before
    } else {
        &&& b == (SketchBoard { style: Style { annotation_size_factor: value, ..a.style }, ..a })
        &&& state_after == (PersistedState { annotation_size_factor: Some(value), ..state })
        &&& config_after == (BoardConfig { annotation_size_factor: value, ..config })
        &&& after == before + a.factor_effects(layers, value)
    }
}

/// What `steps` steps of the size that the tools draw with do.
pub open spec fn tool_size_slid(
    a: SketchBoard,
    steps: int,
    before: Seq<Effect>,
    b: SketchBoard,
    after: Seq<Effect>,
) -> bool {
    let size = b.style.size;
    &&& b == (SketchBoard { style: Style { size, ..a.style }, ..a })
    &&& size.rung() == stepped_rung(a.style.size.rung(), steps)
    &&& after == if size == a.style.size {
        before
    } else {
        before + b.dispatch_effects().push(
            Effect::Output(SketchBoardOutput::ToolSizeChanged(size)),
        )
    }
}

/// What moving the slider of the brush does: the selection gets the level, or
/// else the brush does.
pub open spec fn brush_slid(
    a: SketchBoard,
    steps: int,
    layers: Seq<Layer>,
    config: BoardConfig,
    before: Seq<Effect>,
    b: SketchBoard,
    config_after: BoardConfig,
    after: Seq<Effect>,
) -> bool {
    let still = b == a && config_after == config && after == before;
    match a.smooth_now(layers, config) {
        None => still,
        Some(cur) => {
            let value = slid_smooth(cur as int, steps) as usize;
            let updates = edits(a.selection@, layers, Change::Smooth(value));
            if value == cur {
                still
            } else {
                &&& after == before + modify_effects(updates) + seq![
                    Effect::Output(SketchBoardOutput::BrushPostSmoothReset(value)),
                    Effect::Refresh,
                ]
                &&& if updates.len() == 0 {
                    &&& b == (SketchBoard { session_brush_smooth: Some(value), ..a })
                    &&& config_after == (BoardConfig {
                        brush_post_smooth_iterations: value,
                        ..config
                    })
                } else {
                    b == a && config_after == config
                }
            }
        },
    }
}

/// What moving the slider of the spotlight does.
pub open spec fn spotlight_slid(
    a: SketchBoard,
    steps: int,
    before: Seq<Effect>,
    b: SketchBoard,
    after: Seq<Effect>,
) -> bool {
    let value = slid_darkness(a.style.spotlight_darkness as int, steps) as i64;
    if value == a.style.spotlight_darkness {
        b == a && after == before
    } else {
        &&& b == (SketchBoard { style: Style { spotlight_darkness: value, ..a.style }, ..a })
        &&& after == before + seq![
            Effect::SpotlightDarkness(value),
            Effect::Output(SketchBoardOutput::SpotlightDarknessReset(value)),
            Effect::Refresh,
        ]
    }
}

/// What moving the slider of the highlighter does.
pub open spec fn highlighter_slid(
    a: SketchBoard,
    steps: int,
    layers: Seq<Layer>,
    before: Seq<Effect>,
    b: SketchBoard,
    after: Seq<Effect>,
) -> bool {
    let value = slid_opacity(a.style.highlighter_opacity as int, steps) as i64;
    let style = Style { highlighter_opacity: value, ..a.style };
    if value == a.style.highlighter_opacity {
        b == a && after == before
    } else {
        &&& b == (SketchBoard { style, session_highlighter_opacity: Some(value), ..a })
        &&& after == before + (seq![
            Effect::Output(SketchBoardOutput::HighlighterOpacityReset(value)),
        ] + modify_effects(edits(a.selection@, layers, Change::Opacity(value))) + seq![
            Effect::ToolStyle(a.active_tool, style),
            Effect::Refresh,
        ])
    }
}

/// Tells of a choice, unless it is the one already made.
pub open spec fn told(before: Seq<Effect>, same: bool, output: SketchBoardOutput) -> Seq<Effect> {
    if same {
        before
    } else {
        before.push(Effect::Output(output))
    }
}

/// What `steps` steps of the slider at hand do.
pub open spec fn alt_slid(
    a: SketchBoard,
    steps: int,
    layers: Seq<Layer>,
    state: PersistedState,
    config: BoardConfig,
    before: Seq<Effect>,
    b: SketchBoard,
    config_after: BoardConfig,
    after: Seq<Effect>,
) -> bool {
    if steps == 0 {
        b == a && config_after == config && after == before
    } else {
        &&& a.alt_target(layers) != Some(Tools::Brush) ==> config_after == config
        &&& match a.alt_target(layers) {
            Some(Tools::Brush) => brush_slid(
                a,
                steps,
                layers,
                config,
                before,
                b,
                config_after,
                after,
            ),
            Some(Tools::Spotlight) => spotlight_slid(a, steps, before, b, after),
            Some(Tools::Highlighter) => highlighter_slid(a, steps, layers, before, b, after),
            Some(Tools::Arrow) => {
                let current = a.arrow_seed(layers, state);
                let next = arrow_order()[wrapped(4, arrow_place(current), steps)];
                &&& b == a
                &&& after == told(
                    before,
                    next == current,
                    SketchBoardOutput::ArrowStyleCycled(next),
                )
            },
            Some(Tools::Blur) => {
                let current = a.blur_seed(layers, state);
                let next = blur_order()[wrapped(4, blur_place(current), steps)];
                &&& b == a
                &&& after == told(
                    before,
                    next == current,
                    SketchBoardOutput::BlurStyleCycled(next),
                )
            },
            Some(Tools::Text) => {
                let current = a.text_seed(layers, state);
                let next = text_order()[wrapped(2, text_place(current), steps)];
                &&& b == a
                &&& after == told(
                    before,
                    next == current,
                    SketchBoardOutput::TextBackgroundCycled(next),
                )
            },
            Some(Tools::Rectangle) | Some(Tools::Ellipse) => if (steps > 0) != a.style.fill
                && a.can_fill(layers) {
                let fill = a.toggled_fill(layers);
                &&& b == (SketchBoard {
                    style: Style { fill, ..a.style },
                    ..a
                }).with_session_fill(a.active_tool, fill)
                &&& after == before + a.fill_effects(layers)
            } else {
                b == a && after == before
            },
            _ => b == a && after == before,
        }
    }
}

} // verus!
