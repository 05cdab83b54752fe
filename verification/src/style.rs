//! Colors, sizes and the style that new annotations are stamped with.
use vstd::prelude::*;

verus! {

/// An 8-bit RGBA color.
#[derive(Clone, Copy, Debug, PartialEq, Eq, Structural)]
pub struct Color {
    pub r: u8,
    pub g: u8,
    pub b: u8,
    pub a: u8,
}

impl Color {
    /// The startup color when none was remembered.
    pub open spec fn red_spec() -> Color {
        Color { r: 235, g: 77, b: 75, a: 255 }
    }

    /// The red of the default palette, opaque.
    pub fn red() -> (r: Color)
        ensures
            r == Color::red_spec(),
    {
        Color { r: 235, g: 77, b: 75, a: 255 }
    }
}

/// The six annotation sizes.
#[derive(Clone, Copy, Debug, PartialEq, Eq, Structural)]
pub enum Size {
    XSmall,
    Small,
    Medium,
    Large,
    XLarge,
    XXLarge,
}

impl Default for Size {
    fn default() -> (r: Size)
        ensures
            r == Size::Medium,
    {
        Size::Medium
    }
}

impl Size {
    /// Position on the size ladder, smallest first.
    pub open spec fn rung(&self) -> int {
        match self {
            Size::XSmall => 0,
            Size::Small => 1,
            Size::Medium => 2,
            Size::Large => 3,
            Size::XLarge => 4,
            Size::XXLarge => 5,
        }
    }

    /// Two sizes on the same rung are the same size.
    pub proof fn lemma_rung_injective(a: Size, b: Size)
        requires
            a.rung() == b.rung(),
        ensures
            a == b,
    {
    }

    /// The next larger size; the largest stays.
    pub fn step_up(self) -> (r: Size)
        ensures
            r.rung() == if self.rung() < 5 {
                self.rung() + 1
            } else {
                5
            },
    {
        match self {
            Size::XSmall => Size::Small,
            Size::Small => Size::Medium,
            Size::Medium => Size::Large,
            Size::Large => Size::XLarge,
            Size::XLarge => Size::XXLarge,
            Size::XXLarge => Size::XXLarge,
        }
    }

    /// The next smaller size; the smallest stays.
    pub fn step_down(self) -> (r: Size)
        ensures
            r.rung() == if self.rung() > 0 {
                self.rung() - 1
            } else {
                0
            },
    {
        match self {
            Size::XSmall => Size::XSmall,
            Size::Small => Size::XSmall,
            Size::Medium => Size::Small,
            Size::Large => Size::Medium,
            Size::XLarge => Size::Large,
            Size::XXLarge => Size::XLarge,
        }
    }
}

/// What a new annotation is stamped with. The three factors are in millionths.
#[derive(Clone, Copy, Debug, PartialEq, Eq, Structural)]
pub struct Style {
    pub color: Color,
    pub size: Size,
    pub fill: bool,
    pub annotation_size_factor: i64,
    pub spotlight_darkness: i64,
    pub highlighter_opacity: i64,
}

} // verus!
