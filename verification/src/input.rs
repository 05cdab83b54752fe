//! Pointer and keyboard events, in plain values.
use vstd::prelude::*;
use keycode::{KeyMap, KeyMappingId};
use crate::math::Vec2D;

verus! {

/// A key symbol.
#[derive(Clone, Copy, Debug, PartialEq, Eq, Structural)]
pub struct Key(pub u32);

pub const KEY_ESCAPE: u32 = 0xff1b;

pub const KEY_SHIFT_L: u32 = 0xffe1;

pub const KEY_SHIFT_R: u32 = 0xffe2;

pub const KEY_RETURN: u32 = 0xff0d;

pub const KEY_KP_ENTER: u32 = 0xff8d;

pub const KEY_TAB: u32 = 0xff09;

pub const KEY_ISO_LEFT_TAB: u32 = 0xfe20;

pub const KEY_DELETE: u32 = 0xffff;

pub const KEY_LEFT: u32 = 0xff51;

pub const KEY_UP: u32 = 0xff52;

pub const KEY_RIGHT: u32 = 0xff53;

pub const KEY_DOWN: u32 = 0xff54;

pub const KEY_LEFTARROW: u32 = 0x8fb;

pub const KEY_UPARROW: u32 = 0x8fc;

pub const KEY_RIGHTARROW: u32 = 0x8fd;

pub const KEY_DOWNARROW: u32 = 0x8fe;

pub const KEY_PLUS: u32 = 0x2b;

pub const KEY_COMMA: u32 = 0x2c;

pub const KEY_MINUS: u32 = 0x2d;

pub const KEY_EQUAL: u32 = 0x3d;

pub const KEY_0: u32 = 0x30;

pub const KEY_1: u32 = 0x31;

pub const KEY_2: u32 = 0x32;

pub const KEY_3: u32 = 0x33;

pub const KEY_4: u32 = 0x34;

pub const KEY_5: u32 = 0x35;

pub const KEY_9: u32 = 0x39;

pub const KEY_C: u32 = 0x63;

pub const KEY_D: u32 = 0x64;

pub const KEY_I: u32 = 0x69;

pub const KEY_S: u32 = 0x73;

pub const KEY_T: u32 = 0x74;

pub const KEY_V: u32 = 0x76;

pub const KEY_Y: u32 = 0x79;

pub const KEY_Z: u32 = 0x7a;

/// Modifier keys held during an event. `other` holds every state bit that
/// none of the four named keys stands for.
#[derive(Clone, Copy, Debug, PartialEq, Eq, Structural)]
pub struct Modifiers {
    pub shift: bool,
    pub control: bool,
    pub alt: bool,
    pub super_key: bool,
    pub other: u32,
}

impl Modifiers {
    /// Nothing held.
    pub open spec fn none_spec() -> Modifiers {
        Modifiers { shift: false, control: false, alt: false, super_key: false, other: 0 }
    }

    /// Nothing held.
    pub fn none() -> (r: Modifiers)
        ensures
            r == Modifiers::none_spec(),
    {
        Modifiers { shift: false, control: false, alt: false, super_key: false, other: 0 }
    }

    /// Nothing is held.
    pub fn is_empty(&self) -> (r: bool)
        ensures
            r == (*self == Modifiers::none_spec()),
    {
        !self.shift && !self.control && !self.alt && !self.super_key && self.other == 0
    }

    /// Exactly the named keys are held, and no other state bit is set.
    pub open spec fn only_spec(&self, control: bool, shift: bool, alt: bool) -> bool {
        *self == (Modifiers { shift, control, alt, super_key: false, other: 0 })
    }

    /// Exactly the named keys are held, and no other state bit is set.
    pub fn only(&self, control: bool, shift: bool, alt: bool) -> (r: bool)
        ensures
            r == self.only_spec(control, shift, alt),
    {
        self.shift == shift && self.control == control && self.alt == alt && !self.super_key
            && self.other == 0
    }
}

/// Keys told apart by where they sit on the keyboard, whatever the layout.
#[derive(Clone, Copy, Debug, PartialEq, Eq, Structural)]
pub enum PhysicalKey {
    UsC,
    UsD,
    UsI,
    UsS,
    UsT,
    UsV,
    UsY,
    UsZ,
    Digit0,
    Digit1,
    Digit2,
    Digit3,
    Digit4,
    Digit5,
    Digit9,
    Minus,
    Equal,
    ArrowLeft,
    ArrowRight,
    ArrowUp,
    ArrowDown,
}

impl PhysicalKey {
    /// Linux input code of the key.
    pub open spec fn evdev_spec(self) -> u16 {
        match self {
            PhysicalKey::UsC => 0x2e,
            PhysicalKey::UsD => 0x20,
            PhysicalKey::UsI => 0x17,
            PhysicalKey::UsS => 0x1f,
            PhysicalKey::UsT => 0x14,
            PhysicalKey::UsV => 0x2f,
            PhysicalKey::UsY => 0x15,
            PhysicalKey::UsZ => 0x2c,
            PhysicalKey::Digit0 => 0x0b,
            PhysicalKey::Digit1 => 0x02,
            PhysicalKey::Digit2 => 0x03,
            PhysicalKey::Digit3 => 0x04,
            PhysicalKey::Digit4 => 0x05,
            PhysicalKey::Digit5 => 0x06,
            PhysicalKey::Digit9 => 0x0a,
            PhysicalKey::Minus => 0x0c,
            PhysicalKey::Equal => 0x0d,
            PhysicalKey::ArrowLeft => 0x69,
            PhysicalKey::ArrowRight => 0x6a,
            PhysicalKey::ArrowUp => 0x67,
            PhysicalKey::ArrowDown => 0x6c,
        }
    }
}

/// `KeyMap::from` of the `keycode` crate looks a key up in that crate's table
/// of key codes; the `evdev` field of what it returns is the key's Linux
/// input code. The contract repeats the table's column for the keys above.
#[verifier::external_body]
fn evdev_code(key: PhysicalKey) -> (r: u16)
    ensures
        r == key.evdev_spec(),
{
    KeyMap::from(match key {
        PhysicalKey::UsC => KeyMappingId::UsC, PhysicalKey::UsD => KeyMappingId::UsD,
        PhysicalKey::UsI => KeyMappingId::UsI, PhysicalKey::UsS => KeyMappingId::UsS,
        PhysicalKey::UsT => KeyMappingId::UsT, PhysicalKey::UsV => KeyMappingId::UsV,
        PhysicalKey::UsY => KeyMappingId::UsY, PhysicalKey::UsZ => KeyMappingId::UsZ,
        PhysicalKey::Digit0 => KeyMappingId::Digit0, PhysicalKey::Digit1 => KeyMappingId::Digit1,
        PhysicalKey::Digit2 => KeyMappingId::Digit2, PhysicalKey::Digit3 => KeyMappingId::Digit3,
        PhysicalKey::Digit4 => KeyMappingId::Digit4, PhysicalKey::Digit5 => KeyMappingId::Digit5,
        PhysicalKey::Digit9 => KeyMappingId::Digit9, PhysicalKey::Minus => KeyMappingId::Minus,
        PhysicalKey::Equal => KeyMappingId::Equal, PhysicalKey::ArrowLeft => KeyMappingId::ArrowLeft,
        PhysicalKey::ArrowRight => KeyMappingId::ArrowRight, PhysicalKey::ArrowUp => KeyMappingId::ArrowUp,
        PhysicalKey::ArrowDown => KeyMappingId::ArrowDown,
    }).evdev
}

/// A key press or release.
#[derive(Clone, Copy, Debug, PartialEq, Eq, Structural)]
pub struct KeyEventMsg {
    pub key: Key,
    pub code: u32,
    pub modifier: Modifiers,
}

impl KeyEventMsg {
    pub fn new(key: Key, code: u32, modifier: Modifiers) -> (r: KeyEventMsg)
        ensures
            r == (KeyEventMsg { key, code, modifier }),
    {
        KeyEventMsg { key, code, modifier }
    }

    /// The hardware code is in the range the windowing system reports: its
    /// codes are the input codes shifted up by 8.
    pub open spec fn code_ok(&self) -> bool {
        self.code % 65536 >= 8
    }

    /// The event is for the key symbol `key`, or for the physical key `code`
    /// on whatever layout.
    pub open spec fn is_one_of_spec(&self, key: u32, code: PhysicalKey) -> bool {
        self.key == Key(key) || self.code % 65536 - 8 == code.evdev_spec()
    }

    /// The event is for the key symbol `key`, or for the physical key `code`
    /// on whatever layout. Modifiers are not considered.
    pub fn is_one_of(&self, key: u32, code: PhysicalKey) -> (r: bool)
        requires
            self.key == Key(key) || self.code_ok(),
        ensures
            r == self.is_one_of_spec(key, code),
    {
        if self.key.0 == key {
            return true;
        }
        let low: u32 = self.code % 65536;
        low - 8 == evdev_code(code) as u32
    }
}

#[derive(Clone, Copy, Debug, PartialEq, Eq, PartialOrd, Ord, Structural)]
pub enum MouseButton {
    Primary,
    Secondary,
    Middle,
}

impl MouseButton {
    /// The button with the given number; unknown ones count as the primary.
    pub open spec fn of_number(value: u32) -> MouseButton {
        match value {
            1 => MouseButton::Primary,
            2 => MouseButton::Middle,
            3 => MouseButton::Secondary,
            _ => MouseButton::Primary,
        }
    }
}

impl From<u32> for MouseButton {
    fn from(value: u32) -> (r: MouseButton) {
        match value {
            1 => MouseButton::Primary,
            2 => MouseButton::Middle,
            3 => MouseButton::Secondary,
            _ => MouseButton::Primary,
        }
    }
}

impl vstd::std_specs::convert::FromSpecImpl<u32> for MouseButton {
    open spec fn obeys_from_spec() -> bool {
        true
    }

    open spec fn from_spec(value: u32) -> MouseButton {
        MouseButton::of_number(value)
    }
}

#[derive(Clone, Copy, Debug, PartialEq, Eq, Structural)]
pub enum MouseEventType {
    BeginDrag,
    EndDrag,
    UpdateDrag,
    Click,
    /// A scroll; the deltas are in `pos`.
    PanScroll,
    PointerPos,
    Release,
}

/// A pointer event. `pos` is an absolute image point for clicks, releases and
/// the start of a drag, and the offset from that start during a drag.
#[derive(Clone, Copy, Debug, PartialEq, Eq, Structural)]
pub struct MouseEventMsg {
    pub type_: MouseEventType,
    pub button: MouseButton,
    pub modifier: Modifiers,
    pub pos: Vec2D,
    pub n_pressed: i32,
    pub release: bool,
}

} // verus!
