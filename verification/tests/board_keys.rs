//! Shortcuts and committed text.
use tensaku::board::canvas::Dims;
use tensaku::board::keys::{escape_actions, key_command, CommitCommand, KeyCommand, KeyStep};
use tensaku::board::messages::{Action, SketchBoardOutput, TextEventMsg, ToolbarEvent, ZoomCommand};
use tensaku::board::shortcut::{parse_shortcut, resolve_shortcut};
use tensaku::board::{BoardConfig, Effect, Shortcut, SketchBoard};
use tensaku::input::{
    Key, KeyEventMsg, Modifiers, KEY_C, KEY_D, KEY_ESCAPE, KEY_I, KEY_ISO_LEFT_TAB, KEY_LEFT,
    KEY_RETURN, KEY_S, KEY_TAB, KEY_UP, KEY_Z,
};
use tensaku::math::Vec2D;
use tensaku::state::PersistedState;
use tensaku::style::{Color, Size, Style};
use tensaku::tools::arrow::ArrowStyle;
use tensaku::tools::Tools;
use tensaku::units::{MICRO, UNIT};

fn style() -> Style {
    Style {
        color: Color::red(),
        size: Size::Medium,
        fill: false,
        annotation_size_factor: MICRO,
        spotlight_darkness: 600_000,
        highlighter_opacity: 400_000,
    }
}

fn config() -> BoardConfig {
    BoardConfig {
        auto_copy: false,
        close_on_copy: false,
        close_on_save: false,
        close_on_esc: true,
        early_exit_save_as: false,
        sticky_session_defaults: false,
        select_any_annotation: false,
        save_after_copy: false,
        brush_post_smooth_iterations: 2,
        annotation_size_factor: MICRO,
        palette_len: 8,
    }
}

fn board(tool: Tools) -> SketchBoard {
    let mut out = Vec::new();
    SketchBoard::init(
        Dims { w: 800, h: 600 },
        tool,
        style(),
        None,
        &PersistedState::default(),
        &mut out,
    )
}

fn held(control: bool, shift: bool, alt: bool) -> Modifiers {
    Modifiers {
        shift,
        control,
        alt,
        super_key: false,
        other: 0,
    }
}

/// A key whose place on the keyboard means nothing here.
fn key(symbol: u32, modifier: Modifiers) -> KeyEventMsg {
    KeyEventMsg::new(Key(symbol), 700, modifier)
}

#[test]
fn control_keys_are_commands() {
    let c = held(true, false, false);
    assert_eq!(key_command(&key(KEY_Z, c), None), KeyCommand::Undo);
    assert_eq!(
        key_command(&key(KEY_S, c), None),
        KeyCommand::Render(Action::SaveToFile)
    );
    assert_eq!(
        key_command(&key(KEY_S, held(true, true, false)), None),
        KeyCommand::Render(Action::SaveToFileAs)
    );
    assert_eq!(
        key_command(&key(KEY_C, held(true, false, true)), None),
        KeyCommand::Render(Action::CopyFilepathToClipboard)
    );
    assert_eq!(key_command(&key(KEY_D, c), None), KeyCommand::DeleteSelection);
    assert_eq!(
        key_command(&key(KEY_D, held(false, false, true)), None),
        KeyCommand::Duplicate
    );
    assert_eq!(
        key_command(&key(KEY_I, held(true, true, false)), None),
        KeyCommand::Inspect
    );
    assert_eq!(
        key_command(&key(0x32, c), None),
        KeyCommand::Zoom(ZoomCommand::Abs(2 * MICRO))
    );
    assert_eq!(
        key_command(&key(0x31, c), None),
        KeyCommand::Zoom(ZoomCommand::FitCanvas)
    );
    assert_eq!(
        key_command(&key(0x39, c), None),
        KeyCommand::Zoom(ZoomCommand::Abs(MICRO / 2))
    );
}

#[test]
fn a_physical_key_counts_on_any_layout() {
    // The key that types a Z on an American keyboard, with some other symbol.
    let ke = KeyEventMsg::new(Key(0x6c6), 0x2c + 8, held(true, false, false));
    assert_eq!(key_command(&ke, None), KeyCommand::Undo);
    let other = KeyEventMsg::new(Key(0x6c6), 0x2c, held(true, false, false));
    assert_eq!(key_command(&other, None), KeyCommand::Other);
}

#[test]
fn typing_is_no_command() {
    for symbol in [KEY_S, KEY_Z, KEY_D, 0x31] {
        assert_eq!(
            key_command(&key(symbol, held(false, false, false)), None),
            KeyCommand::Other
        );
        assert_eq!(
            key_command(&key(symbol, held(false, true, false)), None),
            KeyCommand::Other
        );
    }
}

#[test]
fn tab_goes_to_the_bars() {
    assert_eq!(
        key_command(&key(KEY_TAB, held(false, false, false)), None),
        KeyCommand::FocusTopBar
    );
    assert_eq!(
        key_command(&key(KEY_TAB, held(false, true, false)), None),
        KeyCommand::FocusBottomBar
    );
    assert_eq!(
        key_command(&key(KEY_ISO_LEFT_TAB, held(true, true, false)), None),
        KeyCommand::FocusBottomBar
    );
}

#[test]
fn the_panel_shortcut_wins() {
    let panel = Some(Shortcut {
        key: Key(KEY_Z),
        modifier: held(true, false, false),
    });
    assert_eq!(
        key_command(&key(KEY_Z, held(true, false, false)), panel),
        KeyCommand::ToggleLayerPanel
    );
    assert_eq!(
        key_command(&key(KEY_Z, held(true, true, false)), panel),
        KeyCommand::Other
    );
}

#[test]
fn keys_do_what_they_say() {
    let b = board(Tools::Line);
    let mut out = Vec::new();
    let step = b.handle_key(&key(KEY_ESCAPE, held(false, false, false)), true, 10, &config(), &mut out);
    assert_eq!(step, KeyStep::Pass);
    assert_eq!(out, vec![Effect::RenderOnEscape { exit: true }]);
    out.clear();
    b.handle_key(&key(KEY_RETURN, held(false, false, false)), false, 10, &config(), &mut out);
    assert!(out.is_empty());
    let arrow = KeyEventMsg::new(Key(KEY_UP), 0x67 + 8, held(false, false, true));
    assert_eq!(b.handle_key(&arrow, true, 10, &config(), &mut out), KeyStep::Done);
    assert_eq!(
        out,
        vec![
            Effect::PanBy(Vec2D::new(0, -10)),
            Effect::StorePan,
            Effect::Render(None)
        ]
    );
    out.clear();
    let left = KeyEventMsg::new(Key(KEY_LEFT), 0x69 + 8, held(false, false, true));
    b.handle_key(&left, true, 10, &config(), &mut out);
    assert_eq!(out[0], Effect::PanBy(Vec2D::new(-10, 0)));
    assert_eq!(
        b.handle_key(&key(KEY_Z, held(true, false, false)), true, 10, &config(), &mut out),
        KeyStep::Undo
    );
}

#[test]
fn leaving_is_added_once() {
    assert_eq!(
        escape_actions(vec![Action::SaveToFile], true),
        vec![Action::SaveToFile, Action::Exit]
    );
    assert_eq!(escape_actions(vec![Action::Exit], true), vec![Action::Exit]);
    assert!(escape_actions(Vec::new(), false).is_empty());
}

fn commit(b: &mut SketchBoard, text: &str, bound: Option<Tools>, now: u64) -> (Vec<Effect>, PersistedState) {
    let mut state = PersistedState::default();
    let (mut crop, mut out) = (Vec::new(), Vec::new());
    b.handle_text_commit(
        &TextEventMsg::Commit(text.to_string()),
        true,
        bound,
        now,
        &Vec::new(),
        &mut state,
        &config(),
        &mut crop,
        &mut out,
    );
    (out, state)
}

#[test]
fn text_goes_to_the_text_tool() {
    let mut b = board(Tools::Text);
    assert_eq!(commit(&mut b, "f", None, 0).0, vec![Effect::ForwardText]);
}

#[test]
fn f_toggles_the_fill() {
    let mut b = board(Tools::Line);
    assert_eq!(
        commit(&mut b, "F", None, 0).0,
        vec![
            Effect::Toolbar(ToolbarEvent::ToggleFill),
            Effect::SyncFillToToolbar
        ]
    );
    assert!(commit(&mut b, "ff", None, 0).0.is_empty());
}

#[test]
fn a_double_press_cycles_the_style() {
    let mut b = board(Tools::Line);
    assert_eq!(
        commit(&mut b, "a", Some(Tools::Arrow), 1000).0,
        vec![
            Effect::Toolbar(ToolbarEvent::ToolSelected(Tools::Arrow)),
            Effect::Output(SketchBoardOutput::ToolSwitchShortcut(Tools::Arrow))
        ]
    );
    b.active_tool = Tools::Arrow;
    let (out, state) = commit(&mut b, "a", Some(Tools::Arrow), 1500);
    assert_eq!(
        out,
        vec![
            Effect::ToolArrowStyle(ArrowStyle::Pointy),
            Effect::Output(SketchBoardOutput::ArrowStyleCycled(ArrowStyle::Pointy))
        ]
    );
    assert_eq!(state.arrow_style, Some(ArrowStyle::Pointy));
    assert_eq!(b.last_tool_press, None);
    assert_eq!(
        b.commit_command("a", true, Some(Tools::Arrow), 1600),
        CommitCommand::Choose(Tools::Arrow, 'a')
    );
    commit(&mut b, "a", Some(Tools::Arrow), 1600);
    assert_eq!(
        b.commit_command("a", true, Some(Tools::Arrow), 2101),
        CommitCommand::Choose(Tools::Arrow, 'a')
    );
}

#[test]
fn the_crop_key_applies_the_crop() {
    let mut b = board(Tools::Crop);
    assert_eq!(
        commit(&mut b, "c", Some(Tools::Crop), 5).0,
        vec![Effect::Toolbar(ToolbarEvent::ApplyCrop)]
    );
}

#[test]
fn digits_choose_colors() {
    let mut b = board(Tools::Line);
    assert_eq!(
        commit(&mut b, "1", None, 0).0,
        vec![Effect::Output(SketchBoardOutput::ColorSwitchShortcut(0))]
    );
    assert_eq!(
        commit(&mut b, "8", None, 0).0,
        vec![Effect::Output(SketchBoardOutput::ColorSwitchShortcut(7))]
    );
    assert!(commit(&mut b, "9", None, 0).0.is_empty());
    assert!(commit(&mut b, "0", None, 0).0.is_empty());
    assert!(commit(&mut b, "", None, 0).0.is_empty());
    assert!(commit(&mut b, "x", None, 0).0.is_empty());
}

#[test]
fn digits_preset_the_crop() {
    let mut b = board(Tools::Crop);
    let mut crop = Vec::new();
    b.crop_tool.revert_to_seed(false, &mut crop);
    assert_eq!(commit(&mut b, "4", None, 0).0, vec![Effect::Render(None)]);
    let c = b.crop_tool.crop.unwrap();
    assert_eq!(c.pos, Vec2D::new(400 * UNIT, 300 * UNIT));
    assert_eq!(c.size, Vec2D::new(400 * UNIT, 300 * UNIT));
}

#[test]
fn shortcuts_are_read() {
    let p = parse_shortcut(" Ctrl + SHIFT+l ").unwrap();
    assert!(p.modifier.control && p.modifier.shift && !p.modifier.alt);
    assert_eq!(p.name, "l");
    let f = parse_shortcut("Meta+f12").unwrap();
    assert!(f.modifier.super_key);
    assert_eq!(f.name, "F12");
    assert_eq!(parse_shortcut("f1").unwrap().name, "F1");
    assert_eq!(parse_shortcut("F24").unwrap().name, "F24");
    assert_eq!(parse_shortcut("f").unwrap().name, "f");
    assert_eq!(parse_shortcut("super+,").unwrap().name, ",");
    for text in ["fn", "at", "space", "f0", "f25", "f01", "f100", "mod4+l"] {
        assert!(parse_shortcut(text).is_none());
    }
    assert!(parse_shortcut("ctrl++").is_none());
    assert!(parse_shortcut("").is_none());
    assert!(parse_shortcut("bogus+l").is_none());
    assert!(parse_shortcut("a+b").is_none());
    assert!(parse_shortcut("l+ctrl").is_none());
    assert!(parse_shortcut("ctrl").is_none());
}

#[test]
fn a_shortcut_has_one_key() {
    let p = parse_shortcut("alt+x").unwrap();
    let s = resolve_shortcut(&p, Some(Key(0x78))).unwrap();
    assert_eq!(s.key, Key(0x78));
    assert!(s.modifier.alt);
    assert!(resolve_shortcut(&p, None).is_none());
}
