//! Changing the active tool, and cycling the style of a tool.
use vstd::prelude::*;
use crate::board::layers::Layer;
use crate::board::messages::SketchBoardOutput;
use crate::board::{BoardConfig, Effect, SketchBoard};
use crate::state::{
    load_fill_for_tool, save_arrow_style, save_blur_style, save_highlighter_style,
    save_text_background, PersistedState,
};
use crate::style::Style;
use crate::tools::arrow::ArrowStyle;
use crate::tools::blur::BlurStyle;
use crate::tools::highlight::HighlighterStyle;
use crate::tools::{TextBackground, Tools};

verus! {

/// Opacity of highlights where none was ever saved, in millionths.
pub const DEFAULT_HIGHLIGHTER_OPACITY: i64 = 400_000;

impl SketchBoard {
    /// Opacity that the highlighter starts with.
    pub open spec fn entry_opacity(&self, state: PersistedState, config: BoardConfig) -> i64 {
        match (self.session_highlighter_opacity, state.highlighter_opacity) {
            (Some(v), _) if config.sticky_session_defaults => v,
            (_, Some(v)) => v,
            _ => DEFAULT_HIGHLIGHTER_OPACITY,
        }
    }

    /// Smoothing of the only selected drawable.
    pub open spec fn selected_smooth(&self, layers: Seq<Layer>) -> Option<usize> {
        match self.single(layers) {
            Some(d) => d.smooth_level,
            None => None,
        }
    }

    /// Smoothing that the brush starts with.
    pub open spec fn entry_smooth(
        &self,
        layers: Seq<Layer>,
        state: PersistedState,
        config: BoardConfig,
    ) -> usize {
        match (self.selected_smooth(layers), self.session_brush_smooth, state.brush_post_smooth_iterations) {
            (Some(v), _, _) => v,
            (None, Some(v), _) if config.sticky_session_defaults => v,
            (None, _, Some(v)) => v,
            _ => config.brush_post_smooth_iterations,
        }
    }

    /// The fill that a shape tool starts with, if one is remembered.
    pub open spec fn entry_fill(&self, tool: Tools, state: PersistedState, config: BoardConfig) -> Option<bool> {
        match self.session_fill(tool) {
            Some(v) if config.sticky_session_defaults => Some(v),
            _ => if state.fill_per_tool@.dom().contains(tool) {
                Some(state.fill_per_tool@[tool])
            } else {
                None
            },
        }
    }

    /// The style once `tool` is entered.
    pub open spec fn entry_style(&self, tool: Tools, state: PersistedState, config: BoardConfig) -> Style {
        if tool == self.active_tool {
            self.style
        } else {
            match tool {
                Tools::Highlighter => Style {
                    highlighter_opacity: self.entry_opacity(state, config),
                    ..self.style
                },
                Tools::Rectangle | Tools::Ellipse => match self.entry_fill(tool, state, config) {
                    Some(fill) => Style { fill, ..self.style },
                    None => self.style,
                },
                _ => self.style,
            }
        }
    }

    /// What the toolbar is told when `tool` is entered.
    pub open spec fn entry_outputs(
        &self,
        tool: Tools,
        layers: Seq<Layer>,
        state: PersistedState,
        config: BoardConfig,
    ) -> Seq<Effect> {
        if tool == self.active_tool {
            Seq::empty()
        } else {
            match tool {
                Tools::Highlighter => seq![
                    Effect::Output(
                        SketchBoardOutput::HighlighterOpacityReset(
                            self.entry_opacity(state, config),
                        ),
                    ),
                ],
                Tools::Brush => seq![
                    Effect::Output(
                        SketchBoardOutput::BrushPostSmoothReset(
                            self.entry_smooth(layers, state, config),
                        ),
                    ),
                ],
                Tools::Rectangle | Tools::Ellipse => match self.entry_fill(tool, state, config) {
                    Some(fill) if fill != self.style.fill => seq![
                        Effect::Output(SketchBoardOutput::FillShapesChanged(fill)),
                    ],
                    _ => Seq::empty(),
                },
                _ => Seq::empty(),
            }
        }
    }

    /// Loads what is remembered of `tool` before it is entered.
    fn load_entry_defaults(
        &mut self,
        tool: Tools,
        layers: &Vec<Layer>,
        state: &PersistedState,
        config: &mut BoardConfig,
        out: &mut Vec<Effect>,
    )
        requires
            state.wf(),
            tool != old(self).active_tool,
        ensures
            *final(self) == (SketchBoard {
                style: old(self).entry_style(tool, *state, *old(config)),
                ..*old(self)
            }),
            *final(config) == if tool == Tools::Brush && old(self).selected_smooth(layers@) is None {
                BoardConfig {
                    brush_post_smooth_iterations: old(self).entry_smooth(
                        layers@,
                        *state,
                        *old(config),
                    ),
                    ..*old(config)
                }
            } else {
                *old(config)
            },
            final(out)@ == old(out)@ + old(self).entry_outputs(
                tool,
                layers@,
                *state,
                *old(config),
            ),
    {
        let sticky: bool = config.sticky_session_defaults;
        match tool {
            Tools::Highlighter => {
                let saved: i64 = match (self.session_highlighter_opacity, state.highlighter_opacity) {
                    (Some(v), _) if sticky => v,
                    (_, Some(v)) => v,
                    _ => DEFAULT_HIGHLIGHTER_OPACITY,
                };
                self.style.highlighter_opacity = saved;
                out.push(Effect::Output(SketchBoardOutput::HighlighterOpacityReset(saved)));
            },
            Tools::Brush => {
                let selected: Option<usize> = match self.single_layer(layers) {
                    Some(d) => d.smooth_level,
                    None => None,
                };
                let saved: usize = match (
                    selected,
                    self.session_brush_smooth,
                    state.brush_post_smooth_iterations,
                ) {
                    (Some(v), _, _) => v,
                    (None, Some(v), _) if sticky => v,
                    (None, _, Some(v)) => v,
                    _ => config.brush_post_smooth_iterations,
                };
                if selected.is_none() {
                    config.brush_post_smooth_iterations = saved;
                }
                out.push(Effect::Output(SketchBoardOutput::BrushPostSmoothReset(saved)));
            },
            Tools::Rectangle | Tools::Ellipse => {
                let session: Option<bool> = match tool {
                    Tools::Rectangle => self.session_fill_rectangle,
                    _ => self.session_fill_ellipse,
                };
                let saved: Option<bool> = match session {
                    Some(v) if sticky => Some(v),
                    _ => load_fill_for_tool(state, tool),
                };
                if let Some(fill) = saved {
                    if fill != self.style.fill {
                        self.style.fill = fill;
                        out.push(Effect::Output(SketchBoardOutput::FillShapesChanged(fill)));
                    }
                }
            },
            _ => {},
        }
        assert(out@ =~= old(out)@ + old(self).entry_outputs(tool, layers@, *state, *old(config)));
    }

    /// The first half of entering a tool: what is remembered of it is loaded
    /// and the toolbar told, then the tool in use has to end its work.
    pub fn begin_switch(
        &mut self,
        tool: Tools,
        layers: &Vec<Layer>,
        state: &PersistedState,
        config: &mut BoardConfig,
        out: &mut Vec<Effect>,
    )
        requires
            state.wf(),
        ensures
            *final(self) == (SketchBoard {
                tool_before_crop: if tool == Tools::Crop && old(self).active_tool != Tools::Crop {
                    Some(old(self).active_tool)
                } else {
                    old(self).tool_before_crop
                },
                style: old(self).entry_style(tool, *state, *old(config)),
                ..*old(self)
            }),
            *final(config) == if tool == Tools::Brush && old(self).active_tool != Tools::Brush
                && old(self).selected_smooth(layers@) is None {
                BoardConfig {
                    brush_post_smooth_iterations: old(self).entry_smooth(
                        layers@,
                        *state,
                        *old(config),
                    ),
                    ..*old(config)
                }
            } else {
                *old(config)
            },
            final(out)@ == old(out)@ + old(self).entry_outputs(
                tool,
                layers@,
                *state,
                *old(config),
            ) + seq![
                Effect::Output(SketchBoardOutput::ToolSwitchShortcut(tool)),
                Effect::Deactivate(old(self).active_tool),
            ],
    {
        if tool == Tools::Crop && self.active_tool != Tools::Crop {
            self.tool_before_crop = Some(self.active_tool);
        }
        if tool != self.active_tool {
            let ghost mid = *self;
            assert(mid.entry_style(tool, *state, *config) == old(self).entry_style(
                tool,
                *state,
                *old(config),
            ));
            assert(mid.entry_outputs(tool, layers@, *state, *config) == old(self).entry_outputs(
                tool,
                layers@,
                *state,
                *old(config),
            ));
            self.load_entry_defaults(tool, layers, state, config, out);
        }
        out.push(Effect::Output(SketchBoardOutput::ToolSwitchShortcut(tool)));
        out.push(Effect::Deactivate(self.active_tool));
        assert(out@ =~= old(out)@ + old(self).entry_outputs(tool, layers@, *state, *old(config))
            + seq![
            Effect::Output(SketchBoardOutput::ToolSwitchShortcut(tool)),
            Effect::Deactivate(old(self).active_tool),
        ]);
    }

    /// The second half: the tool in use has ended its work, `stored` tells
    /// whether something of it went to the stack. The new tool takes over.
    pub fn finish_switch(&mut self, tool: Tools, stored: bool, config: &BoardConfig, out: &mut Vec<Effect>)
        ensures
            *final(self) == (SketchBoard { active_tool: tool, ..*old(self) }),
            final(out)@ == old(out)@ + (if stored && config.auto_copy {
                seq![Effect::Render(Some(crate::board::messages::Action::SaveToClipboard))]
            } else {
                Seq::empty()
            }) + seq![
                Effect::SetActiveTool(tool),
                Effect::ToolStyle(tool, old(self).style),
                Effect::Activate(tool),
                Effect::IdleCursor,
            ] + (if tool == Tools::Crop {
                seq![Effect::SyncRenderScale]
            } else {
                Seq::empty()
            }),
    {
        if stored && config.auto_copy {
            out.push(Effect::Render(Some(crate::board::messages::Action::SaveToClipboard)));
        }
        self.active_tool = tool;
        out.push(Effect::SetActiveTool(tool));
        out.push(Effect::ToolStyle(tool, self.style));
        out.push(Effect::Activate(tool));
        out.push(Effect::IdleCursor);
        if tool == Tools::Crop {
            out.push(Effect::SyncRenderScale);
        }
        assert(out@ =~= old(out)@ + (if stored && config.auto_copy {
            seq![Effect::Render(Some(crate::board::messages::Action::SaveToClipboard))]
        } else {
            Seq::empty()
        }) + seq![
            Effect::SetActiveTool(tool),
            Effect::ToolStyle(tool, old(self).style),
            Effect::Activate(tool),
            Effect::IdleCursor,
        ] + (if tool == Tools::Crop {
            seq![Effect::SyncRenderScale]
        } else {
            Seq::empty()
        }));
    }

    /// The tool to go back to from cropping.
    pub fn tool_after_crop(&self) -> (r: Tools)
        ensures
            r == match self.tool_before_crop {
                Some(t) => t,
                None => Tools::Pointer,
            },
    {
        match self.tool_before_crop {
            Some(t) => t,
            None => Tools::Pointer,
        }
    }

    /// The style of the only selected drawable, else the one last chosen, else
    /// the default.
    pub open spec fn arrow_seed(&self, layers: Seq<Layer>, state: PersistedState) -> ArrowStyle {
        match (self.single(layers), state.arrow_style) {
            (Some(Layer { arrow_style: Some(s), .. }), _) => s,
            (_, Some(s)) => s,
            _ => ArrowStyle::Standard,
        }
    }

    pub open spec fn blur_seed(&self, layers: Seq<Layer>, state: PersistedState) -> BlurStyle {
        match (self.single(layers), state.blur_style) {
            (Some(Layer { blur_style: Some(s), .. }), _) => s,
            (_, Some(s)) => s,
            _ => BlurStyle::Gaussian,
        }
    }

    pub open spec fn text_seed(&self, layers: Seq<Layer>, state: PersistedState) -> TextBackground {
        match (self.single(layers), state.text_background) {
            (Some(Layer { text_background: Some(s), .. }), _) => s,
            (_, Some(s)) => s,
            _ => TextBackground::Plain,
        }
    }

    pub fn cycle_seed_arrow(&self, layers: &Vec<Layer>, state: &PersistedState) -> (r: ArrowStyle)
        ensures
            r == self.arrow_seed(layers@, *state),
    {
        if let Some(d) = self.single_layer(layers) {
            if let Some(s) = d.arrow_style {
                return s;
            }
        }
        match state.arrow_style {
            Some(s) => s,
            None => ArrowStyle::Standard,
        }
    }

    pub fn cycle_seed_blur(&self, layers: &Vec<Layer>, state: &PersistedState) -> (r: BlurStyle)
        ensures
            r == self.blur_seed(layers@, *state),
    {
        if let Some(d) = self.single_layer(layers) {
            if let Some(s) = d.blur_style {
                return s;
            }
        }
        match state.blur_style {
            Some(s) => s,
            None => BlurStyle::Gaussian,
        }
    }

    pub fn cycle_seed_text(&self, layers: &Vec<Layer>, state: &PersistedState) -> (r: TextBackground)
        ensures
            r == self.text_seed(layers@, *state),
    {
        if let Some(d) = self.single_layer(layers) {
            if let Some(s) = d.text_background {
                return s;
            }
        }
        match state.text_background {
            Some(s) => s,
            None => TextBackground::Plain,
        }
    }

    /// What going on to the next style of a tool does.
    pub open spec fn cycled(
        &self,
        tool: Tools,
        layers: Seq<Layer>,
        state: PersistedState,
        before: Seq<Effect>,
        b: SketchBoard,
        state_after: PersistedState,
        after: Seq<Effect>,
    ) -> bool {
        match tool {
            Tools::Arrow => {
                let next = self.arrow_seed(layers, state).next_spec();
                &&& b == *self
                &&& state_after == (PersistedState { arrow_style: Some(next), ..state })
                &&& after == before + seq![
                    Effect::ToolArrowStyle(next),
                    Effect::Output(SketchBoardOutput::ArrowStyleCycled(next)),
                ]
            },
            Tools::Blur => {
                let next = next_blur(self.blur_seed(layers, state));
                &&& b == *self
                &&& state_after == (PersistedState { blur_style: Some(next), ..state })
                &&& after == before + seq![
                    Effect::ToolBlurStyle(next),
                    Effect::Output(SketchBoardOutput::BlurStyleCycled(next)),
                ]
            },
            Tools::Text => {
                let next = next_text(self.text_seed(layers, state));
                &&& b == *self
                &&& state_after == (PersistedState {
                    text_background: Some(next),
                    ..state
                })
                &&& after == before + seq![
                    Effect::ToolTextBackground(next),
                    Effect::Output(SketchBoardOutput::TextBackgroundCycled(next)),
                ]
            },
            Tools::Highlighter => {
                let next = self.highlighter_style.next_spec();
                &&& b == (SketchBoard { highlighter_style: next, ..*self })
                &&& state_after == (PersistedState {
                    highlighter_style: Some(next),
                    ..state
                })
                &&& after == before + seq![
                    Effect::ToolHighlighterStyle(next),
                    Effect::Output(SketchBoardOutput::HighlighterStyleCycled(next)),
                ]
            },
            _ => b == *self && state_after == state && after
                == before,
        }
    }

    /// Goes on to the next style of a tool that has several: the tool gets it,
    /// it is remembered, and the toolbar is told.
    pub fn cycle_tool_style(
        &mut self,
        tool: Tools,
        layers: &Vec<Layer>,
        state: &mut PersistedState,
        out: &mut Vec<Effect>,
    )
        ensures
            old(self).cycled(
                tool,
                layers@,
                *old(state),
                old(out)@,
                *final(self),
                *final(state),
                final(out)@,
            ),
    {
        match tool {
            Tools::Arrow => {
                let next: ArrowStyle = self.cycle_seed_arrow(layers, state).next();
                save_arrow_style(state, next);
                out.push(Effect::ToolArrowStyle(next));
                out.push(Effect::Output(SketchBoardOutput::ArrowStyleCycled(next)));
                assert(out@ =~= old(out)@ + seq![
                    Effect::ToolArrowStyle(next),
                    Effect::Output(SketchBoardOutput::ArrowStyleCycled(next)),
                ]);
            },
            Tools::Blur => {
                let next: BlurStyle = match self.cycle_seed_blur(layers, state) {
                    BlurStyle::Pixelate => BlurStyle::SecureBlur,
                    BlurStyle::SecureBlur => BlurStyle::Gaussian,
                    BlurStyle::Gaussian => BlurStyle::BlackOut,
                    BlurStyle::BlackOut => BlurStyle::Pixelate,
                };
                save_blur_style(state, next);
                out.push(Effect::ToolBlurStyle(next));
                out.push(Effect::Output(SketchBoardOutput::BlurStyleCycled(next)));
                assert(out@ =~= old(out)@ + seq![
                    Effect::ToolBlurStyle(next),
                    Effect::Output(SketchBoardOutput::BlurStyleCycled(next)),
                ]);
            },
            Tools::Text => {
                let next: TextBackground = match self.cycle_seed_text(layers, state) {
                    TextBackground::Plain => TextBackground::Rounded,
                    TextBackground::Rounded => TextBackground::Plain,
                };
                save_text_background(state, next);
                out.push(Effect::ToolTextBackground(next));
                out.push(Effect::Output(SketchBoardOutput::TextBackgroundCycled(next)));
                assert(out@ =~= old(out)@ + seq![
                    Effect::ToolTextBackground(next),
                    Effect::Output(SketchBoardOutput::TextBackgroundCycled(next)),
                ]);
            },
            Tools::Highlighter => {
                let next: HighlighterStyle = self.highlighter_style.next();
                self.highlighter_style = next;
                save_highlighter_style(state, next);
                out.push(Effect::ToolHighlighterStyle(next));
                out.push(Effect::Output(SketchBoardOutput::HighlighterStyleCycled(next)));
                assert(out@ =~= old(out)@ + seq![
                    Effect::ToolHighlighterStyle(next),
                    Effect::Output(SketchBoardOutput::HighlighterStyleCycled(next)),
                ]);
            },
            _ => {},
        }
    }
}

/// The blur algorithm after this one.
pub open spec fn next_blur(s: BlurStyle) -> BlurStyle {
    match s {
        BlurStyle::Pixelate => BlurStyle::SecureBlur,
        BlurStyle::SecureBlur => BlurStyle::Gaussian,
        BlurStyle::Gaussian => BlurStyle::BlackOut,
        BlurStyle::BlackOut => BlurStyle::Pixelate,
    }
}

/// The other text background.
pub open spec fn next_text(s: TextBackground) -> TextBackground {
    match s {
        TextBackground::Plain => TextBackground::Rounded,
        TextBackground::Rounded => TextBackground::Plain,
    }
}

/// Cycling with the tool's key goes through the styles in the order that one
/// scroll step takes, and through all of them.
pub proof fn lemma_cycle_is_one_scroll_step(a: ArrowStyle, b: BlurStyle, t: TextBackground)
    ensures
        a.next_spec() == crate::board::scroll::arrow_order()[crate::board::scroll::wrapped(
            4,
            crate::board::scroll::arrow_place(a),
            1,
        )],
        next_blur(b) == crate::board::scroll::blur_order()[crate::board::scroll::wrapped(
            4,
            crate::board::scroll::blur_place(b),
            1,
        )],
        next_text(t) == crate::board::scroll::text_order()[crate::board::scroll::wrapped(
            2,
            crate::board::scroll::text_place(t),
            1,
        )],
        next_blur(next_blur(next_blur(next_blur(b)))) == b,
        next_text(next_text(t)) == t,
{
}

/// A tool that is entered from another starts with what is remembered of it:
/// with sticky defaults that of this session, else what was saved.
pub proof fn lemma_entry_style(b: SketchBoard, state: PersistedState, config: BoardConfig)
    ensures
        b.active_tool != Tools::Highlighter && config.sticky_session_defaults
            && b.session_highlighter_opacity is Some ==> b.entry_style(
            Tools::Highlighter,
            state,
            config,
        ).highlighter_opacity == b.session_highlighter_opacity->0,
        b.active_tool != Tools::Highlighter && !config.sticky_session_defaults
            && state.highlighter_opacity is Some ==> b.entry_style(
            Tools::Highlighter,
            state,
            config,
        ).highlighter_opacity == state.highlighter_opacity->0,
        forall|t: Tools| #[trigger]
            b.entry_style(t, state, config).color == b.style.color && b.entry_style(
                t,
                state,
                config,
            ).size == b.style.size,
{
}

} // verus!
