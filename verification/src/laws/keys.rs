//! What keys come to.
use vstd::prelude::*;
use crate::board::keys::{command_spec, key_step, pan_of, KeyCommand, KeyStep};
use crate::board::messages::{Action, ZoomCommand};
use crate::board::Shortcut;
use crate::input::{Key, KeyEventMsg, Modifiers, KEY_DOWN, KEY_LEFT, KEY_RIGHT, KEY_UP};

verus! {

/// The event is for the key that has the letter `letter` and lies where
/// `place` is on a keyboard.
pub open spec fn is_key(ke: KeyEventMsg, letter: int, place: int) -> bool {
    ke.key.0 == letter && ke.code % 65536 == place + 8
}

/// The event is for a key of another alphabet that lies where `place` is.
pub open spec fn is_foreign_key(ke: KeyEventMsg, place: int) -> bool {
    0x600 <= ke.key.0 < 0x800 && ke.code % 65536 == place + 8
}

/// The event is for the key `letter`, or in another alphabet for the one in
/// its place.
pub open spec fn is_shortcut_key(ke: KeyEventMsg, letter: int, place: int) -> bool {
    is_key(ke, letter, place) || is_foreign_key(ke, place)
}

/// These modifiers are held and no other.
pub open spec fn held(m: Modifiers, control: bool, shift: bool, alt: bool) -> bool {
    m.control == control && m.shift == shift && m.alt == alt && !m.super_key && m.other == 0
}

/// Control with a letter: undo, redo, paste, delete, hide the toolbars, save
/// and copy.
pub proof fn lemma_control_letters(ke: KeyEventMsg, panel: Option<Shortcut>)
    requires
        held(ke.modifier, true, false, false),
        panel != Some(Shortcut { key: ke.key, modifier: ke.modifier }),
    ensures
        is_shortcut_key(ke, 0x7a, 0x2c) ==> command_spec(ke, panel) == KeyCommand::Undo,
        is_shortcut_key(ke, 0x79, 0x15) ==> command_spec(ke, panel) == KeyCommand::Redo,
        is_shortcut_key(ke, 0x76, 0x2f) ==> command_spec(ke, panel) == KeyCommand::Paste,
        is_shortcut_key(ke, 0x64, 0x20) ==> command_spec(ke, panel) == KeyCommand::DeleteSelection,
        is_shortcut_key(ke, 0x74, 0x14) ==> command_spec(ke, panel) == KeyCommand::ToggleToolbars,
        is_shortcut_key(ke, 0x73, 0x1f) ==> command_spec(ke, panel) == KeyCommand::Render(
            Action::SaveToFile,
        ),
        is_shortcut_key(ke, 0x63, 0x2e) ==> command_spec(ke, panel) == KeyCommand::Render(
            Action::SaveToClipboard,
        ),
        is_key(ke, 0x2c, 0x33) ==> command_spec(ke, panel) == KeyCommand::OpenPreferences,
{
}

/// Control with a digit or a sign zooms: in, out, to full size, to the window,
/// to two, three, four or five times, to half.
pub proof fn lemma_control_digits(ke: KeyEventMsg, panel: Option<Shortcut>)
    requires
        held(ke.modifier, true, false, false),
        panel != Some(Shortcut { key: ke.key, modifier: ke.modifier }),
    ensures
        is_shortcut_key(ke, 0x3d, 0x0d) || is_key(ke, 0x2b, 0x0d) ==> command_spec(ke, panel)
            == KeyCommand::Zoom(ZoomCommand::In),
        is_shortcut_key(ke, 0x2d, 0x0c) ==> command_spec(ke, panel) == KeyCommand::Zoom(
            ZoomCommand::Out,
        ),
        is_shortcut_key(ke, 0x30, 0x0b) ==> command_spec(ke, panel) == KeyCommand::Zoom(
            ZoomCommand::Abs(1_000_000),
        ),
        is_shortcut_key(ke, 0x31, 0x02) ==> command_spec(ke, panel) == KeyCommand::Zoom(
            ZoomCommand::FitCanvas,
        ),
        is_shortcut_key(ke, 0x32, 0x03) ==> command_spec(ke, panel) == KeyCommand::Zoom(
            ZoomCommand::Abs(2_000_000),
        ),
        is_shortcut_key(ke, 0x33, 0x04) ==> command_spec(ke, panel) == KeyCommand::Zoom(
            ZoomCommand::Abs(3_000_000),
        ),
        is_shortcut_key(ke, 0x34, 0x05) ==> command_spec(ke, panel) == KeyCommand::Zoom(
            ZoomCommand::Abs(4_000_000),
        ),
        is_shortcut_key(ke, 0x35, 0x06) ==> command_spec(ke, panel) == KeyCommand::Zoom(
            ZoomCommand::Abs(5_000_000),
        ),
        is_shortcut_key(ke, 0x39, 0x0a) ==> command_spec(ke, panel) == KeyCommand::Zoom(
            ZoomCommand::Abs(500_000),
        ),
{
}

/// Other keys: Alt duplicates and pans, Control with Shift saves under a new
/// name, Control with Alt copies the path, and some keys act alone.
pub proof fn lemma_other_commands(ke: KeyEventMsg, panel: Option<Shortcut>)
    requires
        panel != Some(Shortcut { key: ke.key, modifier: ke.modifier }),
    ensures
        held(ke.modifier, false, false, true) && is_shortcut_key(ke, 0x64, 0x20) ==> command_spec(
            ke,
            panel,
        ) == KeyCommand::Duplicate,
        held(ke.modifier, false, false, true) && (is_key(ke, 0xff51, 0x69) || is_key(
            ke,
            0xff52,
            0x67,
        ) || is_key(ke, 0xff53, 0x6a) || is_key(ke, 0xff54, 0x6c)) ==> command_spec(ke, panel)
            == KeyCommand::Pan,
        held(ke.modifier, true, true, false) && is_shortcut_key(ke, 0x73, 0x1f) ==> command_spec(
            ke,
            panel,
        ) == KeyCommand::Render(Action::SaveToFileAs),
        held(ke.modifier, true, true, false) && is_shortcut_key(ke, 0x69, 0x17) ==> command_spec(
            ke,
            panel,
        ) == KeyCommand::Inspect,
        held(ke.modifier, true, false, true) && is_shortcut_key(ke, 0x63, 0x2e) ==> command_spec(
            ke,
            panel,
        ) == KeyCommand::Render(Action::CopyFilepathToClipboard),
        held(ke.modifier, false, false, false) ==> {
            &&& ke.key.0 == 0xffff ==> command_spec(ke, panel) == KeyCommand::Reset
            &&& ke.key.0 == 0xff1b ==> command_spec(ke, panel) == KeyCommand::Escape
            &&& ke.key.0 == 0xff0d || ke.key.0 == 0xff8d ==> command_spec(ke, panel)
                == KeyCommand::Enter
            &&& ke.key.0 == 0xff09 ==> command_spec(ke, panel) == KeyCommand::FocusTopBar
        },
        held(ke.modifier, false, true, false) && (ke.key.0 == 0xff09 || ke.key.0 == 0xfe20)
            ==> command_spec(ke, panel) == KeyCommand::FocusBottomBar,
{
}

/// The shortcut of the layer list shows or hides it.
pub proof fn lemma_panel_shortcut(ke: KeyEventMsg)
    requires
        ke.key.0 != 0xff09,
        ke.key.0 != 0xfe20,
    ensures
        command_spec(ke, Some(Shortcut { key: ke.key, modifier: ke.modifier }))
            == KeyCommand::ToggleLayerPanel,
{
}

/// The arrow keys pan the way they point, by one step.
pub proof fn lemma_arrows_pan_where_they_point(key: Key, step: i64)
    requires
        step > i64::MIN,
        key.0 == KEY_LEFT || key.0 == KEY_RIGHT || key.0 == KEY_UP || key.0 == KEY_DOWN,
    ensures
        pan_of(key, step) is Some,
        ({
            let d = pan_of(key, step)->0;
            &&& key.0 == 0xff51 ==> d.x + step == 0 && d.y == 0
            &&& key.0 == 0xff53 ==> d.x == step && d.y == 0
            &&& key.0 == 0xff52 ==> d.x == 0 && d.y + step == 0
            &&& key.0 == 0xff54 ==> d.x == 0 && d.y == step
        }),
{
}

/// What a command leaves to be done is what it is named for.
pub proof fn lemma_commands_are_carried_out()
    ensures
        key_step(KeyCommand::Undo) == KeyStep::Undo,
        key_step(KeyCommand::Redo) == KeyStep::Redo,
        key_step(KeyCommand::Paste) == KeyStep::Paste,
        key_step(KeyCommand::Duplicate) == KeyStep::Duplicate,
        key_step(KeyCommand::DeleteSelection) == KeyStep::DeleteSelection,
        key_step(KeyCommand::Reset) == KeyStep::Reset,
        key_step(KeyCommand::Escape) == KeyStep::Pass,
        key_step(KeyCommand::Enter) == KeyStep::Pass,
        key_step(KeyCommand::Pan) == KeyStep::Done,
{
}

} // verus!
