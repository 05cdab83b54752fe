//! Shortcuts, and the text that the keyboard commits.
use vstd::prelude::*;
use crate::board::layers::Layer;
use crate::board::messages::{Action, SketchBoardOutput, TextEventMsg, ToolbarEvent, ZoomCommand};
use crate::board::{BoardConfig, Effect, Shortcut, SketchBoard, ToolPress};
use crate::input::{
    Key, KeyEventMsg, Modifiers, PhysicalKey, KEY_0, KEY_1, KEY_2, KEY_3, KEY_4, KEY_5, KEY_9,
    KEY_C, KEY_COMMA, KEY_D, KEY_DELETE, KEY_DOWN, KEY_DOWNARROW, KEY_EQUAL, KEY_ESCAPE, KEY_I,
    KEY_ISO_LEFT_TAB, KEY_KP_ENTER, KEY_LEFT, KEY_LEFTARROW, KEY_MINUS, KEY_PLUS, KEY_RETURN,
    KEY_RIGHT, KEY_RIGHTARROW, KEY_S, KEY_T, KEY_TAB, KEY_UP, KEY_UPARROW, KEY_V, KEY_Y, KEY_Z,
};
use crate::math::Vec2D;
use crate::state::PersistedState;
use crate::tools::crop::CropMessage;
use crate::tools::Tools;
use crate::units::MICRO;

verus! {

/// Pressing a tool's key once more within this many milliseconds goes on to
/// its next style.
pub const TOOL_CYCLE_MS: u64 = 500;

/// What a key press asks for, where no tool took it.
#[derive(Clone, Copy, Debug, PartialEq, Eq, Structural)]
pub enum KeyCommand {
    FocusTopBar,
    FocusBottomBar,
    ToggleLayerPanel,
    Undo,
    Redo,
    Paste,
    Duplicate,
    DeleteSelection,
    ToggleToolbars,
    OpenPreferences,
    Render(Action),
    Zoom(ZoomCommand),
    /// Open the inspector.
    Inspect,
    /// Pan the view.
    Pan,
    Reset,
    Escape,
    Enter,
    /// Nothing.
    Other,
}

/// Zooming by a key with Control.
pub open spec fn zoom_key(ke: KeyEventMsg) -> Option<ZoomCommand> {
    if ke.is_one_of_spec(KEY_EQUAL, PhysicalKey::Equal) || ke.is_one_of_spec(
        KEY_PLUS,
        PhysicalKey::Equal,
    ) {
        Some(ZoomCommand::In)
    } else if ke.is_one_of_spec(KEY_MINUS, PhysicalKey::Minus) {
        Some(ZoomCommand::Out)
    } else if ke.is_one_of_spec(KEY_0, PhysicalKey::Digit0) {
        Some(ZoomCommand::Abs(MICRO))
    } else if ke.is_one_of_spec(KEY_1, PhysicalKey::Digit1) {
        Some(ZoomCommand::FitCanvas)
    } else if ke.is_one_of_spec(KEY_2, PhysicalKey::Digit2) {
        Some(ZoomCommand::Abs(2_000_000))
    } else if ke.is_one_of_spec(KEY_3, PhysicalKey::Digit3) {
        Some(ZoomCommand::Abs(3_000_000))
    } else if ke.is_one_of_spec(KEY_4, PhysicalKey::Digit4) {
        Some(ZoomCommand::Abs(4_000_000))
    } else if ke.is_one_of_spec(KEY_5, PhysicalKey::Digit5) {
        Some(ZoomCommand::Abs(5_000_000))
    } else if ke.is_one_of_spec(KEY_9, PhysicalKey::Digit9) {
        Some(ZoomCommand::Abs(500_000))
    } else {
        None
    }
}

fn find_zoom_key(ke: &KeyEventMsg) -> (r: Option<ZoomCommand>)
    requires
        ke.code_ok(),
    ensures
        r == zoom_key(*ke),
{
    if ke.is_one_of(KEY_EQUAL, PhysicalKey::Equal) || ke.is_one_of(KEY_PLUS, PhysicalKey::Equal) {
        Some(ZoomCommand::In)
    } else if ke.is_one_of(KEY_MINUS, PhysicalKey::Minus) {
        Some(ZoomCommand::Out)
    } else if ke.is_one_of(KEY_0, PhysicalKey::Digit0) {
        Some(ZoomCommand::Abs(MICRO))
    } else if ke.is_one_of(KEY_1, PhysicalKey::Digit1) {
        Some(ZoomCommand::FitCanvas)
    } else if ke.is_one_of(KEY_2, PhysicalKey::Digit2) {
        Some(ZoomCommand::Abs(2_000_000))
    } else if ke.is_one_of(KEY_3, PhysicalKey::Digit3) {
        Some(ZoomCommand::Abs(3_000_000))
    } else if ke.is_one_of(KEY_4, PhysicalKey::Digit4) {
        Some(ZoomCommand::Abs(4_000_000))
    } else if ke.is_one_of(KEY_5, PhysicalKey::Digit5) {
        Some(ZoomCommand::Abs(5_000_000))
    } else if ke.is_one_of(KEY_9, PhysicalKey::Digit9) {
        Some(ZoomCommand::Abs(500_000))
    } else {
        None
    }
}

/// What a key with Control alone asks for.
pub open spec fn control_key(ke: KeyEventMsg) -> KeyCommand {
    if ke.is_one_of_spec(KEY_Z, PhysicalKey::UsZ) {
        KeyCommand::Undo
    } else if ke.is_one_of_spec(KEY_Y, PhysicalKey::UsY) {
        KeyCommand::Redo
    } else if ke.is_one_of_spec(KEY_V, PhysicalKey::UsV) {
        KeyCommand::Paste
    } else if ke.is_one_of_spec(KEY_D, PhysicalKey::UsD) {
        KeyCommand::DeleteSelection
    } else if ke.is_one_of_spec(KEY_T, PhysicalKey::UsT) {
        KeyCommand::ToggleToolbars
    } else if ke.key == Key(KEY_COMMA) {
        KeyCommand::OpenPreferences
    } else if ke.is_one_of_spec(KEY_S, PhysicalKey::UsS) {
        KeyCommand::Render(Action::SaveToFile)
    } else if ke.is_one_of_spec(KEY_C, PhysicalKey::UsC) {
        KeyCommand::Render(Action::SaveToClipboard)
    } else {
        match zoom_key(ke) {
            Some(cmd) => KeyCommand::Zoom(cmd),
            None => KeyCommand::Other,
        }
    }
}

fn find_control_key(ke: &KeyEventMsg) -> (r: KeyCommand)
    requires
        ke.code_ok(),
    ensures
        r == control_key(*ke),
{
    if ke.is_one_of(KEY_Z, PhysicalKey::UsZ) {
        KeyCommand::Undo
    } else if ke.is_one_of(KEY_Y, PhysicalKey::UsY) {
        KeyCommand::Redo
    } else if ke.is_one_of(KEY_V, PhysicalKey::UsV) {
        KeyCommand::Paste
    } else if ke.is_one_of(KEY_D, PhysicalKey::UsD) {
        KeyCommand::DeleteSelection
    } else if ke.is_one_of(KEY_T, PhysicalKey::UsT) {
        KeyCommand::ToggleToolbars
    } else if ke.key == Key(KEY_COMMA) {
        KeyCommand::OpenPreferences
    } else if ke.is_one_of(KEY_S, PhysicalKey::UsS) {
        KeyCommand::Render(Action::SaveToFile)
    } else if ke.is_one_of(KEY_C, PhysicalKey::UsC) {
        KeyCommand::Render(Action::SaveToClipboard)
    } else {
        match find_zoom_key(ke) {
            Some(cmd) => KeyCommand::Zoom(cmd),
            None => KeyCommand::Other,
        }
    }
}

/// An arrow key.
pub open spec fn arrow_key(ke: KeyEventMsg) -> bool {
    ke.is_one_of_spec(KEY_LEFTARROW, PhysicalKey::ArrowLeft) || ke.is_one_of_spec(
        KEY_RIGHTARROW,
        PhysicalKey::ArrowRight,
    ) || ke.is_one_of_spec(KEY_UPARROW, PhysicalKey::ArrowUp) || ke.is_one_of_spec(
        KEY_DOWNARROW,
        PhysicalKey::ArrowDown,
    )
}

/// What a key press asks for, where no tool took it.
pub open spec fn command_spec(ke: KeyEventMsg, panel: Option<Shortcut>) -> KeyCommand {
    let m = ke.modifier;
    if ke.key == Key(KEY_TAB) && m == Modifiers::none_spec() {
        KeyCommand::FocusTopBar
    } else if ke.key == Key(KEY_ISO_LEFT_TAB) || (ke.key == Key(KEY_TAB) && m.only_spec(
        false,
        true,
        false,
    )) {
        KeyCommand::FocusBottomBar
    } else if panel == Some(Shortcut { key: ke.key, modifier: m }) {
        KeyCommand::ToggleLayerPanel
    } else if m.only_spec(true, false, false) {
        control_key(ke)
    } else if m.only_spec(false, false, true) {
        if ke.is_one_of_spec(KEY_D, PhysicalKey::UsD) {
            KeyCommand::Duplicate
        } else if arrow_key(ke) {
            KeyCommand::Pan
        } else {
            KeyCommand::Other
        }
    } else if m.only_spec(true, true, false) {
        if ke.is_one_of_spec(KEY_S, PhysicalKey::UsS) {
            KeyCommand::Render(Action::SaveToFileAs)
        } else if ke.is_one_of_spec(KEY_D, PhysicalKey::UsD) || ke.is_one_of_spec(
            KEY_I,
            PhysicalKey::UsI,
        ) {
            KeyCommand::Inspect
        } else {
            KeyCommand::Other
        }
    } else if m.only_spec(true, false, true) {
        if ke.is_one_of_spec(KEY_C, PhysicalKey::UsC) {
            KeyCommand::Render(Action::CopyFilepathToClipboard)
        } else {
            KeyCommand::Other
        }
    } else if m == Modifiers::none_spec() {
        if ke.key == Key(KEY_DELETE) {
            KeyCommand::Reset
        } else if ke.key == Key(KEY_ESCAPE) {
            KeyCommand::Escape
        } else if ke.key == Key(KEY_RETURN) || ke.key == Key(KEY_KP_ENTER) {
            KeyCommand::Enter
        } else {
            KeyCommand::Other
        }
    } else {
        KeyCommand::Other
    }
}

/// Finds out what a key press asks for.
pub fn key_command(ke: &KeyEventMsg, panel: Option<Shortcut>) -> (r: KeyCommand)
    requires
        ke.code_ok(),
    ensures
        r == command_spec(*ke, panel),
{
    let m: Modifiers = ke.modifier;
    if ke.key == Key(KEY_TAB) && m.is_empty() {
        return KeyCommand::FocusTopBar;
    }
    if ke.key == Key(KEY_ISO_LEFT_TAB) || (ke.key == Key(KEY_TAB) && m.only(false, true, false)) {
        return KeyCommand::FocusBottomBar;
    }
    if let Some(s) = panel {
        if ke.key == s.key && m == s.modifier {
            return KeyCommand::ToggleLayerPanel;
        }
    }
    if m.only(true, false, false) {
        return find_control_key(ke);
    }
    if m.only(false, false, true) {
        return if ke.is_one_of(KEY_D, PhysicalKey::UsD) {
            KeyCommand::Duplicate
        } else if ke.is_one_of(KEY_LEFTARROW, PhysicalKey::ArrowLeft) || ke.is_one_of(
            KEY_RIGHTARROW,
            PhysicalKey::ArrowRight,
        ) || ke.is_one_of(KEY_UPARROW, PhysicalKey::ArrowUp) || ke.is_one_of(
            KEY_DOWNARROW,
            PhysicalKey::ArrowDown,
        ) {
            KeyCommand::Pan
        } else {
            KeyCommand::Other
        };
    }
    if m.only(true, true, false) {
        return if ke.is_one_of(KEY_S, PhysicalKey::UsS) {
            KeyCommand::Render(Action::SaveToFileAs)
        } else if ke.is_one_of(KEY_D, PhysicalKey::UsD) || ke.is_one_of(KEY_I, PhysicalKey::UsI) {
            KeyCommand::Inspect
        } else {
            KeyCommand::Other
        };
    }
    if m.only(true, false, true) {
        return if ke.is_one_of(KEY_C, PhysicalKey::UsC) {
            KeyCommand::Render(Action::CopyFilepathToClipboard)
        } else {
            KeyCommand::Other
        };
    }
    if !m.is_empty() {
        return KeyCommand::Other;
    }
    if ke.key == Key(KEY_DELETE) {
        KeyCommand::Reset
    } else if ke.key == Key(KEY_ESCAPE) {
        KeyCommand::Escape
    } else if ke.key == Key(KEY_RETURN) || ke.key == Key(KEY_KP_ENTER) {
        KeyCommand::Enter
    } else {
        KeyCommand::Other
    }
}

/// A key that is typed, with nothing or only Shift held, is no command,
/// unless it is one of a few named keys or the user chose it for the layer
/// list. So text can be typed.
pub proof fn lemma_typing_is_no_command(ke: KeyEventMsg, panel: Option<Shortcut>)
    requires
        !ke.modifier.control && !ke.modifier.alt && !ke.modifier.super_key && ke.modifier.other
            == 0,
        panel != Some(Shortcut { key: ke.key, modifier: ke.modifier }),
        ke.key != Key(KEY_TAB) && ke.key != Key(KEY_ISO_LEFT_TAB) && ke.key != Key(KEY_DELETE),
        ke.key != Key(KEY_ESCAPE) && ke.key != Key(KEY_RETURN) && ke.key != Key(KEY_KP_ENTER),
    ensures
        command_spec(ke, panel) == KeyCommand::Other,
{
}

/// What is left for the caller to do after a key.
#[derive(Clone, Copy, Debug, PartialEq, Eq, Structural)]
pub enum KeyStep {
    Undo,
    Redo,
    Paste,
    Duplicate,
    DeleteSelection,
    Reset,
    Inspect,
    /// Nothing.
    Done,
    /// What the active tool made of the key stands.
    Pass,
}

/// How far a key pans the view.
pub open spec fn pan_of(key: Key, step: i64) -> Option<Vec2D> {
    if key == Key(KEY_LEFT) {
        Some(Vec2D { x: -step as i64, y: 0 })
    } else if key == Key(KEY_RIGHT) {
        Some(Vec2D { x: step, y: 0 })
    } else if key == Key(KEY_UP) {
        Some(Vec2D { x: 0, y: -step as i64 })
    } else if key == Key(KEY_DOWN) {
        Some(Vec2D { x: 0, y: step })
    } else {
        None
    }
}

/// What a key command asks for at once.
pub open spec fn key_effects(
    b: SketchBoard,
    cmd: KeyCommand,
    key: Key,
    tool_idle: bool,
    pan_step: i64,
    config: BoardConfig,
) -> Seq<Effect> {
    match cmd {
        KeyCommand::FocusTopBar => seq![Effect::Output(SketchBoardOutput::FocusTopBarStart)],
        KeyCommand::FocusBottomBar => seq![Effect::Output(SketchBoardOutput::FocusBottomBarEnd)],
        KeyCommand::ToggleLayerPanel => seq![Effect::ToggleLayerPanel],
        KeyCommand::ToggleToolbars => seq![
            Effect::Output(SketchBoardOutput::ToggleToolbarsDisplay),
        ],
        KeyCommand::OpenPreferences => seq![Effect::Output(SketchBoardOutput::OpenPreferences)],
        KeyCommand::Render(action) => seq![Effect::Render(Some(action))],
        KeyCommand::Zoom(cmd) => crate::board::canvas::zoom_effects(b, cmd),
        KeyCommand::Pan => (match pan_of(key, pan_step) {
            Some(d) => seq![Effect::PanBy(d)],
            None => Seq::empty(),
        }) + seq![Effect::StorePan, Effect::Render(None)],
        KeyCommand::Escape => if tool_idle {
            seq![Effect::RenderOnEscape { exit: config.close_on_esc }]
        } else {
            Seq::empty()
        },
        KeyCommand::Enter => if tool_idle {
            seq![Effect::RenderOnEnter]
        } else {
            Seq::empty()
        },
        _ => Seq::empty(),
    }
}

/// What is left to do after a key command.
pub open spec fn key_step(cmd: KeyCommand) -> KeyStep {
    match cmd {
        KeyCommand::Undo => KeyStep::Undo,
        KeyCommand::Redo => KeyStep::Redo,
        KeyCommand::Paste => KeyStep::Paste,
        KeyCommand::Duplicate => KeyStep::Duplicate,
        KeyCommand::DeleteSelection => KeyStep::DeleteSelection,
        KeyCommand::Reset => KeyStep::Reset,
        KeyCommand::Inspect => KeyStep::Inspect,
        KeyCommand::Escape | KeyCommand::Enter | KeyCommand::Other => KeyStep::Pass,
        _ => KeyStep::Done,
    }
}

impl SketchBoard {
    /// A key that no tool took. `tool_idle` tells that the active tool did
    /// nothing with it at all.
    pub fn handle_key(
        &self,
        ke: &KeyEventMsg,
        tool_idle: bool,
        pan_step: i64,
        config: &BoardConfig,
        out: &mut Vec<Effect>,
    ) -> (step: KeyStep)
        requires
            ke.code_ok(),
            pan_step > i64::MIN,
        ensures
            ({
                let cmd = command_spec(*ke, self.layer_panel_shortcut);
                &&& step == key_step(cmd)
                &&& final(out)@ == old(out)@ + key_effects(
                    *self,
                    cmd,
                    ke.key,
                    tool_idle,
                    pan_step,
                    *config,
                )
            }),
    {
        let cmd: KeyCommand = key_command(ke, self.layer_panel_shortcut);
        let step: KeyStep = match cmd {
            KeyCommand::FocusTopBar => {
                out.push(Effect::Output(SketchBoardOutput::FocusTopBarStart));
                KeyStep::Done
            },
            KeyCommand::FocusBottomBar => {
                out.push(Effect::Output(SketchBoardOutput::FocusBottomBarEnd));
                KeyStep::Done
            },
            KeyCommand::ToggleLayerPanel => {
                out.push(Effect::ToggleLayerPanel);
                KeyStep::Done
            },
            KeyCommand::ToggleToolbars => {
                out.push(Effect::Output(SketchBoardOutput::ToggleToolbarsDisplay));
                KeyStep::Done
            },
            KeyCommand::OpenPreferences => {
                out.push(Effect::Output(SketchBoardOutput::OpenPreferences));
                KeyStep::Done
            },
            KeyCommand::Render(action) => {
                out.push(Effect::Render(Some(action)));
                KeyStep::Done
            },
            KeyCommand::Zoom(zoom) => {
                self.handle_zoom_command(zoom, out);
                KeyStep::Done
            },
            KeyCommand::Pan => {
                push_pan(ke.key, pan_step, out);
                KeyStep::Done
            },
            KeyCommand::Escape => {
                if tool_idle {
                    out.push(Effect::RenderOnEscape { exit: config.close_on_esc });
                }
                KeyStep::Pass
            },
            KeyCommand::Enter => {
                if tool_idle {
                    out.push(Effect::RenderOnEnter);
                }
                KeyStep::Pass
            },
            KeyCommand::Undo => KeyStep::Undo,
            KeyCommand::Redo => KeyStep::Redo,
            KeyCommand::Paste => KeyStep::Paste,
            KeyCommand::Duplicate => KeyStep::Duplicate,
            KeyCommand::DeleteSelection => KeyStep::DeleteSelection,
            KeyCommand::Reset => KeyStep::Reset,
            KeyCommand::Inspect => KeyStep::Inspect,
            KeyCommand::Other => KeyStep::Pass,
        };
        assert(out@ =~= old(out)@ + key_effects(*self, cmd, ke.key, tool_idle, pan_step, *config));
        step
    }
}

fn push_pan(key: Key, step: i64, out: &mut Vec<Effect>)
    requires
        step > i64::MIN,
    ensures
        final(out)@ == old(out)@ + ((match pan_of(key, step) {
            Some(d) => seq![Effect::PanBy(d)],
            None => Seq::empty(),
        }) + seq![Effect::StorePan, Effect::Render(None)]),
{
    let back: i64 = -step;
    if key == Key(KEY_LEFT) {
        out.push(Effect::PanBy(Vec2D::new(back, 0)));
    } else if key == Key(KEY_RIGHT) {
        out.push(Effect::PanBy(Vec2D::new(step, 0)));
    } else if key == Key(KEY_UP) {
        out.push(Effect::PanBy(Vec2D::new(0, back)));
    } else if key == Key(KEY_DOWN) {
        out.push(Effect::PanBy(Vec2D::new(0, step)));
    }
    out.push(Effect::StorePan);
    out.push(Effect::Render(None));
    assert(out@ =~= old(out)@ + ((match pan_of(key, step) {
        Some(d) => seq![Effect::PanBy(d)],
        None => Seq::empty(),
    }) + seq![Effect::StorePan, Effect::Render(None)]));
}

/// The actions on Escape, with leaving among them where that is wanted.
pub fn escape_actions(actions: Vec<Action>, exit: bool) -> (r: Vec<Action>)
    ensures
        r@ == if exit && !actions@.contains(Action::Exit) {
            actions@.push(Action::Exit)
        } else {
            actions@
        },
{
    let mut i: usize = 0;
    let mut found: bool = false;
    while i < actions.len()
        invariant
            i <= actions@.len(),
            found == (exists|k: int| 0 <= k < i && #[trigger] actions@[k] == Action::Exit),
        decreases actions.len() - i,
    {
        if actions[i] == Action::Exit {
            found = true;
        }
        i = i + 1;
    }
    let mut all: Vec<Action> = actions;
    if exit && !found {
        all.push(Action::Exit);
    }
    all
}

/// What committed text asks for.
#[derive(Clone, Copy, Debug, PartialEq, Eq, Structural)]
pub enum CommitCommand {
    /// It goes to the text tool.
    Forward,
    ToggleFill,
    ApplyCrop,
    /// The next style of the tool.
    Cycle(Tools),
    Choose(Tools, char),
    Digit(u32),
    Nothing,
}

impl SketchBoard {
    /// The key of a tool, pressed again soon while the tool is active, asks
    /// for its next style.
    pub open spec fn cycles(&self, tool: Tools, ch: char, now_ms: u64) -> bool {
        &&& self.last_tool_press matches Some(p)
        &&& p.ch == ch
        &&& now_ms - p.at_ms <= TOOL_CYCLE_MS
        &&& self.active_tool == tool
    }

    /// What committed text asks for. `bound` is the tool that its first
    /// character is the key of.
    pub open spec fn commit_command_spec(
        &self,
        text: Seq<char>,
        text_enabled: bool,
        bound: Option<Tools>,
        now_ms: u64,
    ) -> CommitCommand {
        if self.active_tool == Tools::Text && text_enabled {
            CommitCommand::Forward
        } else if text == seq!['f'] || text == seq!['F'] {
            CommitCommand::ToggleFill
        } else if text.len() == 0 {
            CommitCommand::Nothing
        } else {
            match bound {
                Some(tool) => if tool == Tools::Crop && self.active_tool == Tools::Crop {
                    CommitCommand::ApplyCrop
                } else if self.cycles(tool, text[0], now_ms) {
                    CommitCommand::Cycle(tool)
                } else {
                    CommitCommand::Choose(tool, text[0])
                },
                None => if '0' <= text[0] && text[0] <= '9' {
                    CommitCommand::Digit((text[0] as u32 - '0' as u32) as u32)
                } else {
                    CommitCommand::Nothing
                },
            }
        }
    }

    /// What committed text asks for.
    pub fn commit_command(
        &self,
        text: &str,
        text_enabled: bool,
        bound: Option<Tools>,
        now_ms: u64,
    ) -> (r: CommitCommand)
        ensures
            r == self.commit_command_spec(text@, text_enabled, bound, now_ms),
            r matches CommitCommand::Digit(d) ==> d <= 9,
    {
        if self.active_tool == Tools::Text && text_enabled {
            return CommitCommand::Forward;
        }
        let n: usize = text.unicode_len();
        if n == 0 {
            assert(seq!['f'].len() == 1 && seq!['F'].len() == 1);
            return CommitCommand::Nothing;
        }
        let ch: char = text.get_char(0);
        if n == 1 && (ch == 'f' || ch == 'F') {
            assert(text@ =~= seq![ch]);
            return CommitCommand::ToggleFill;
        }
        proof {
            if text@ == seq!['f'] || text@ == seq!['F'] {
                assert(text@.len() == 1);
                assert(text@[0] == 'f' || text@[0] == 'F');
            }
        }
        match bound {
            Some(tool) => {
                if tool == Tools::Crop && self.active_tool == Tools::Crop {
                    return CommitCommand::ApplyCrop;
                }
                if let Some(p) = self.last_tool_press {
                    if p.ch == ch && (now_ms <= p.at_ms || now_ms - p.at_ms <= TOOL_CYCLE_MS)
                        && self.active_tool == tool {
                        return CommitCommand::Cycle(tool);
                    }
                }
                CommitCommand::Choose(tool, ch)
            },
            None => {
                if '0' <= ch && ch <= '9' {
                    CommitCommand::Digit(ch as u32 - 48)
                } else {
                    CommitCommand::Nothing
                }
            },
        }
    }

    /// What a digit key does: a preset of the crop that is being edited, or
    /// else a color of the palette.
    pub open spec fn digit_done(
        &self,
        digit: u32,
        palette_len: usize,
        msgs: Seq<CropMessage>,
        before: Seq<Effect>,
        b: SketchBoard,
        msgs_after: Seq<CropMessage>,
        after: Seq<Effect>,
    ) -> bool {
        let index = if digit == 0 {
            9int
        } else {
            digit - 1
        };
        let preset = self.active_tool == Tools::Crop && 1 <= digit <= 5
            && self.crop_tool.resizable();
        &&& b == (SketchBoard { crop_tool: b.crop_tool, ..*self })
        &&& if preset {
            &&& self.crop_tool.preset_step(digit, true, b.crop_tool, msgs, msgs_after)
            &&& after == before.push(Effect::Render(None))
        } else {
            &&& b.crop_tool == self.crop_tool
            &&& msgs_after == msgs
            &&& after == if palette_len > index {
                before.push(Effect::Output(SketchBoardOutput::ColorSwitchShortcut(index as u64)))
            } else {
                before
            }
        }
    }

    fn handle_digit(
        &mut self,
        digit: u32,
        config: &BoardConfig,
        crop_out: &mut Vec<CropMessage>,
        out: &mut Vec<Effect>,
    )
        requires
            old(self).wf(),
            digit <= 9,
        ensures
            final(self).wf(),
            old(self).digit_done(
                digit,
                config.palette_len,
                old(crop_out)@,
                old(out)@,
                *final(self),
                final(crop_out)@,
                final(out)@,
            ),
    {
        if self.active_tool == Tools::Crop && 1 <= digit && digit <= 5 {
            if self.crop_tool.apply_quadrant_preset(digit, crop_out) {
                out.push(Effect::Render(None));
                return ;
            }
        }
        let index: u32 = if digit == 0 {
            9
        } else {
            digit - 1
        };
        if config.palette_len >= (index + 1) as usize {
            out.push(Effect::Output(SketchBoardOutput::ColorSwitchShortcut(index as u64)));
        }
    }

    /// What committed text does.
    pub open spec fn committed(
        &self,
        cmd: CommitCommand,
        now_ms: u64,
        layers: Seq<Layer>,
        state: PersistedState,
        config: BoardConfig,
        msgs: Seq<CropMessage>,
        before: Seq<Effect>,
        b: SketchBoard,
        state_after: PersistedState,
        msgs_after: Seq<CropMessage>,
        after: Seq<Effect>,
    ) -> bool {
        &&& !(cmd is Cycle) ==> state_after == state
        &&& !(cmd is Digit) ==> msgs_after == msgs
        &&& match cmd {
            CommitCommand::Forward => b == *self && after == before.push(Effect::ForwardText),
            CommitCommand::ToggleFill => b == *self && after =~= before + seq![
                Effect::Toolbar(ToolbarEvent::ToggleFill),
                Effect::SyncFillToToolbar,
            ],
            CommitCommand::ApplyCrop => {
                &&& b == (SketchBoard { last_tool_press: None, ..*self })
                &&& after == before.push(Effect::Toolbar(ToolbarEvent::ApplyCrop))
            },
            CommitCommand::Cycle(tool) => (SketchBoard {
                last_tool_press: None,
                ..*self
            }).cycled(tool, layers, state, before, b, state_after, after),
            CommitCommand::Choose(tool, ch) => {
                &&& b == (SketchBoard {
                    last_tool_press: Some(ToolPress { ch, at_ms: now_ms }),
                    ..*self
                })
                &&& after =~= before + seq![
                    Effect::Toolbar(ToolbarEvent::ToolSelected(tool)),
                    Effect::Output(SketchBoardOutput::ToolSwitchShortcut(tool)),
                ]
            },
            CommitCommand::Digit(digit) => self.digit_done(
                digit,
                config.palette_len,
                msgs,
                before,
                b,
                msgs_after,
                after,
            ),
            CommitCommand::Nothing => b == *self && after == before,
        }
    }

    /// Text that the keyboard or an input method committed. `bound` is the
    /// tool that its first character is the key of, and `text_enabled` tells
    /// whether the text tool takes input.
    pub fn handle_text_commit(
        &mut self,
        event: &TextEventMsg,
        text_enabled: bool,
        bound: Option<Tools>,
        now_ms: u64,
        layers: &Vec<Layer>,
        state: &mut PersistedState,
        config: &BoardConfig,
        crop_out: &mut Vec<CropMessage>,
        out: &mut Vec<Effect>,
    )
        requires
            old(self).wf(),
        ensures
            final(self).wf(),
            old(self).committed(
                match *event {
                    TextEventMsg::Commit(text) => old(self).commit_command_spec(
                        text@,
                        text_enabled,
                        bound,
                        now_ms,
                    ),
                    _ => if old(self).active_tool == Tools::Text && text_enabled {
                        CommitCommand::Forward
                    } else {
                        CommitCommand::Nothing
                    },
                },
                now_ms,
                layers@,
                *old(state),
                *config,
                old(crop_out)@,
                old(out)@,
                *final(self),
                *final(state),
                final(crop_out)@,
                final(out)@,
            ),
    {
        let cmd: CommitCommand = match event {
            TextEventMsg::Commit(text) => self.commit_command(
                text.as_str(),
                text_enabled,
                bound,
                now_ms,
            ),
            _ => {
                if self.active_tool == Tools::Text && text_enabled {
                    CommitCommand::Forward
                } else {
                    CommitCommand::Nothing
                }
            },
        };
        match cmd {
            CommitCommand::Forward => out.push(Effect::ForwardText),
            CommitCommand::ToggleFill => {
                out.push(Effect::Toolbar(ToolbarEvent::ToggleFill));
                out.push(Effect::SyncFillToToolbar);
            },
            CommitCommand::ApplyCrop => {
                self.last_tool_press = None;
                out.push(Effect::Toolbar(ToolbarEvent::ApplyCrop));
            },
            CommitCommand::Cycle(tool) => {
                self.last_tool_press = None;
                self.cycle_tool_style(tool, layers, state, out);
            },
            CommitCommand::Choose(tool, ch) => {
                self.last_tool_press = Some(ToolPress { ch, at_ms: now_ms });
                out.push(Effect::Toolbar(ToolbarEvent::ToolSelected(tool)));
                out.push(Effect::Output(SketchBoardOutput::ToolSwitchShortcut(tool)));
            },
            CommitCommand::Digit(digit) => self.handle_digit(digit, config, crop_out, out),
            CommitCommand::Nothing => {},
        }
    }
}

/// A tool's key, pressed twice within half a second, chooses the tool and
/// then goes on to its next style; a third press starts over.
pub proof fn lemma_double_press_cycles(
    a: SketchBoard,
    b: SketchBoard,
    c: SketchBoard,
    tool: Tools,
    ch: char,
    t0: u64,
    t1: u64,
    t2: u64,
)
    requires
        tool != Tools::Crop,
        ch != 'f' && ch != 'F',
        t0 <= t1 <= t0 + TOOL_CYCLE_MS,
        b == (SketchBoard {
            last_tool_press: Some(ToolPress { ch, at_ms: t0 }),
            active_tool: tool,
            ..a
        }),
        c.active_tool == tool,
        c.last_tool_press is None,
    ensures
        b.commit_command_spec(seq![ch], false, Some(tool), t1) == CommitCommand::Cycle(tool),
        c.commit_command_spec(seq![ch], false, Some(tool), t2) == CommitCommand::Choose(tool, ch),
{
    assert(seq![ch][0] == ch);
    assert(seq!['f'][0] == 'f' && seq!['F'][0] == 'F');
}

} // verus!
