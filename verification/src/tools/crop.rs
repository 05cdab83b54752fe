//! The crop tool: a rectangle that is shaped with handles, keys and typed
//! sizes, and committed as the visible part of the image.
use vstd::prelude::*;
use crate::input::{
    Key, KeyEventMsg, Modifiers, MouseButton, MouseEventMsg, MouseEventType, KEY_DOWN,
    KEY_DOWNARROW, KEY_ESCAPE, KEY_KP_ENTER, KEY_LEFT, KEY_LEFTARROW, KEY_RETURN, KEY_RIGHT,
    KEY_RIGHTARROW, KEY_UP, KEY_UPARROW,
};
use crate::math::{dist2, dist2_spec, rect_ensure_positive_size, Rect, Vec2D};
use crate::tools::{lemma_product_bound, CanvasTransform, ToolUpdateResult, Tools};
use crate::units::{
    abs_len, abs_spec, clamp_len, clamp_spec, coord_ok, div_round_spec, half, input_ok, max_len,
    max_spec, min_spec, mul_div, mul_div_wide, round_px, round_px_spec, INPUT_MAX, MICRO, UNIT,
};

pub mod overlay;

verus! {

/// Limit on the sides of a crop rectangle and on the distance of its center
/// from the origin.
pub const CROP_MAX: i64 = 0x4_0000_0000_0000;

/// Radius of the zone around a handle, in screen pixels.
pub const HANDLE_HIT_RADIUS: i64 = 20 * UNIT;

/// How far outside the rectangle a press still grabs the nearest handle.
pub const HANDLE_MARGIN_OUT: i64 = 40 * UNIT;

/// Distance within which an edge sticks to the image boundary.
pub const SNAP_DISTANCE: i64 = 8 * UNIT;

/// Smallest side a crop can be shrunk to with the keyboard or the wheel.
pub const MIN_SIDE: i64 = UNIT;

/// Smallest render scale that hit zones are computed for, in millionths.
pub const MIN_RENDER_SCALE: i64 = 100;

/// Color shown outside the crop rectangle. Custom components are in
/// millionths.
#[derive(Clone, Copy, Debug, PartialEq, Eq, Structural)]
pub enum CropBgColor {
    /// Semi-transparent black.
    Auto,
    /// No matte.
    Transparent,
    White,
    Gray,
    Black,
    Custom(i64, i64, i64),
}

impl Default for CropBgColor {
    fn default() -> (r: CropBgColor)
        ensures
            r == CropBgColor::Auto,
    {
        CropBgColor::Auto
    }
}

impl CropBgColor {
    /// Red, green, blue and alpha of the matte, in millionths.
    pub open spec fn paint_color_spec(self) -> (int, int, int, int) {
        match self {
            CropBgColor::Auto => (0, 0, 0, 500_000),
            CropBgColor::Transparent => (0, 0, 0, 0),
            CropBgColor::White => (1_000_000, 1_000_000, 1_000_000, 1_000_000),
            CropBgColor::Gray => (500_000, 500_000, 500_000, 1_000_000),
            CropBgColor::Black => (0, 0, 0, 1_000_000),
            CropBgColor::Custom(r, g, b) => (r as int, g as int, b as int, 1_000_000),
        }
    }

    /// Red, green, blue and alpha of the matte, in millionths. An alpha of
    /// zero means that no matte is drawn.
    pub fn paint_color(self) -> (c: (i64, i64, i64, i64))
        ensures
            (c.0 as int, c.1 as int, c.2 as int, c.3 as int) == self.paint_color_spec(),
    {
        match self {
            CropBgColor::Auto => (0, 0, 0, 500_000),
            CropBgColor::Transparent => (0, 0, 0, 0),
            CropBgColor::White => (1_000_000, 1_000_000, 1_000_000, 1_000_000),
            CropBgColor::Gray => (500_000, 500_000, 500_000, 1_000_000),
            CropBgColor::Black => (0, 0, 0, 1_000_000),
            CropBgColor::Custom(r, g, b) => (r, g, b, 1_000_000),
        }
    }

    /// Position in the dropdown; every custom color is the last entry.
    pub open spec fn index_spec(self) -> int {
        match self {
            CropBgColor::Auto => 0,
            CropBgColor::Transparent => 1,
            CropBgColor::White => 2,
            CropBgColor::Gray => 3,
            CropBgColor::Black => 4,
            CropBgColor::Custom(..) => 5,
        }
    }

    /// Label of each dropdown entry.
    pub fn label(i: usize) -> (r: Option<&'static str>)
        ensures
            i == 0 ==> r == Some("Auto"),
            i == 1 ==> r == Some("Transparent"),
            i == 2 ==> r == Some("White"),
            i == 3 ==> r == Some("Gray"),
            i == 4 ==> r == Some("Black"),
            i == 5 ==> r == Some("Custom Color…"),
            i > 5 ==> r is None,
    {
        match i {
            0 => Some("Auto"),
            1 => Some("Transparent"),
            2 => Some("White"),
            3 => Some("Gray"),
            4 => Some("Black"),
            5 => Some("Custom Color…"),
            _ => None,
        }
    }

    /// The dropdown entry at `i`. The custom entry starts as a neutral gray;
    /// positions past the end give the default.
    pub fn from_index(i: usize) -> (r: CropBgColor)
        ensures
            i < 6 ==> r.index_spec() == i,
            i == 5 ==> r == CropBgColor::Custom(500_000, 500_000, 500_000),
            i >= 6 ==> r == CropBgColor::Auto,
    {
        match i {
            0 => CropBgColor::Auto,
            1 => CropBgColor::Transparent,
            2 => CropBgColor::White,
            3 => CropBgColor::Gray,
            4 => CropBgColor::Black,
            5 => CropBgColor::Custom(500_000, 500_000, 500_000),
            _ => CropBgColor::Auto,
        }
    }

    /// Position in the dropdown; every custom color is the last entry.
    pub fn to_index(self) -> (r: usize)
        ensures
            r == self.index_spec(),
    {
        match self {
            CropBgColor::Auto => 0,
            CropBgColor::Transparent => 1,
            CropBgColor::White => 2,
            CropBgColor::Gray => 3,
            CropBgColor::Black => 4,
            CropBgColor::Custom(..) => 5,
        }
    }
}

/// Aspect-ratio constraint on crop drags.
#[derive(Clone, Copy, Debug, PartialEq, Eq, Structural)]
pub enum AspectRatio {
    Freeform,
    /// That of the image.
    Original,
    Square,
    FiveFour,
    SevenFive,
    FourThree,
    ThreeTwo,
    SixteenNine,
}

impl Default for AspectRatio {
    fn default() -> (r: AspectRatio)
        ensures
            r == AspectRatio::Freeform,
    {
        AspectRatio::Freeform
    }
}

impl AspectRatio {
    /// Width and height of the constraint, or `None` for none.
    pub open spec fn ratio_spec(self, image_bounds: Option<Vec2D>) -> Option<(int, int)> {
        match self {
            AspectRatio::Freeform => None,
            AspectRatio::Original => match image_bounds {
                Some(b) => Some((abs_spec(b.x as int), abs_spec(b.y as int))),
                None => None,
            },
            AspectRatio::Square => Some((1, 1)),
            AspectRatio::FiveFour => Some((5, 4)),
            AspectRatio::SevenFive => Some((7, 5)),
            AspectRatio::FourThree => Some((4, 3)),
            AspectRatio::ThreeTwo => Some((3, 2)),
            AspectRatio::SixteenNine => Some((16, 9)),
        }
    }

    /// Width and height of the constraint, or `None` for none.
    pub fn ratio_components(self, image_bounds: Option<Vec2D>) -> (r: Option<(i64, i64)>)
        requires
            image_bounds matches Some(b) ==> b.x > i64::MIN && b.y > i64::MIN,
        ensures
            match r {
                Some((w, h)) => self.ratio_spec(image_bounds) == Some((w as int, h as int)),
                None => self.ratio_spec(image_bounds) is None,
            },
    {
        match self {
            AspectRatio::Freeform => None,
            AspectRatio::Original => match image_bounds {
                Some(b) => Some((abs_len(b.x), abs_len(b.y))),
                None => None,
            },
            AspectRatio::Square => Some((1, 1)),
            AspectRatio::FiveFour => Some((5, 4)),
            AspectRatio::SevenFive => Some((7, 5)),
            AspectRatio::FourThree => Some((4, 3)),
            AspectRatio::ThreeTwo => Some((3, 2)),
            AspectRatio::SixteenNine => Some((16, 9)),
        }
    }

    /// Position in the dropdown.
    pub open spec fn index_spec(self) -> int {
        match self {
            AspectRatio::Freeform => 0,
            AspectRatio::Original => 1,
            AspectRatio::Square => 2,
            AspectRatio::FiveFour => 3,
            AspectRatio::SevenFive => 4,
            AspectRatio::FourThree => 5,
            AspectRatio::ThreeTwo => 6,
            AspectRatio::SixteenNine => 7,
        }
    }

    /// Label of each dropdown entry.
    pub fn label(self) -> (r: &'static str)
        ensures
            r == match self {
                AspectRatio::Freeform => "Freeform",
                AspectRatio::Original => "Original Ratio",
                AspectRatio::Square => "1 : 1 (Square)",
                AspectRatio::FiveFour => "5 : 4 (10 : 8)",
                AspectRatio::SevenFive => "7 : 5",
                AspectRatio::FourThree => "4 : 3",
                AspectRatio::ThreeTwo => "3 : 2 (6 : 4)",
                AspectRatio::SixteenNine => "16 : 9",
            },
    {
        match self {
            AspectRatio::Freeform => "Freeform",
            AspectRatio::Original => "Original Ratio",
            AspectRatio::Square => "1 : 1 (Square)",
            AspectRatio::FiveFour => "5 : 4 (10 : 8)",
            AspectRatio::SevenFive => "7 : 5",
            AspectRatio::FourThree => "4 : 3",
            AspectRatio::ThreeTwo => "3 : 2 (6 : 4)",
            AspectRatio::SixteenNine => "16 : 9",
        }
    }

    /// The dropdown entry at `i`; positions past the end give the default.
    pub fn from_index(i: usize) -> (r: AspectRatio)
        ensures
            i < 8 ==> r.index_spec() == i,
            i >= 8 ==> r == AspectRatio::Freeform,
    {
        match i {
            0 => AspectRatio::Freeform,
            1 => AspectRatio::Original,
            2 => AspectRatio::Square,
            3 => AspectRatio::FiveFour,
            4 => AspectRatio::SevenFive,
            5 => AspectRatio::FourThree,
            6 => AspectRatio::ThreeTwo,
            7 => AspectRatio::SixteenNine,
            _ => AspectRatio::Freeform,
        }
    }

    /// Position in the dropdown.
    pub fn to_index(self) -> (r: usize)
        ensures
            r == self.index_spec(),
    {
        match self {
            AspectRatio::Freeform => 0,
            AspectRatio::Original => 1,
            AspectRatio::Square => 2,
            AspectRatio::FiveFour => 3,
            AspectRatio::SevenFive => 4,
            AspectRatio::FourThree => 5,
            AspectRatio::ThreeTwo => 6,
            AspectRatio::SixteenNine => 7,
        }
    }

    /// Ratios are told apart by their dropdown position, so that going to an
    /// index and back gives the same ratio.
    pub proof fn lemma_index_injective(a: AspectRatio, b: AspectRatio)
        ensures
            0 <= a.index_spec() < 8,
            a.index_spec() == b.index_spec() ==> a == b,
    {
    }
}

/// A place on the crop rectangle that can be dragged.
#[derive(Clone, Copy, Debug, PartialEq, Eq, Structural)]
pub enum CropHandle {
    TopLeftCorner,
    TopEdge,
    TopRightCorner,
    RightEdge,
    BottomRightCorner,
    BottomEdge,
    BottomLeftCorner,
    LeftEdge,
}

/// Where on the crop overlay the pointer is.
#[derive(Clone, Copy, Debug, PartialEq, Eq, Structural)]
pub enum CropHit {
    Handle(CropHandle),
    Body,
}

impl CropHandle {
    pub open spec fn moves_left(self) -> bool {
        self == CropHandle::TopLeftCorner || self == CropHandle::BottomLeftCorner || self
            == CropHandle::LeftEdge
    }

    pub open spec fn moves_right(self) -> bool {
        self == CropHandle::TopRightCorner || self == CropHandle::BottomRightCorner || self
            == CropHandle::RightEdge
    }

    pub open spec fn moves_top(self) -> bool {
        self == CropHandle::TopLeftCorner || self == CropHandle::TopRightCorner || self
            == CropHandle::TopEdge
    }

    pub open spec fn moves_bottom(self) -> bool {
        self == CropHandle::BottomLeftCorner || self == CropHandle::BottomRightCorner || self
            == CropHandle::BottomEdge
    }

    pub open spec fn is_corner(self) -> bool {
        (self.moves_left() || self.moves_right()) && (self.moves_top() || self.moves_bottom())
    }

    /// Which of the left and right edges the handle moves.
    fn moves_x(self) -> (r: (bool, bool))
        ensures
            r.0 == self.moves_left(),
            r.1 == self.moves_right(),
    {
        match self {
            CropHandle::TopLeftCorner | CropHandle::BottomLeftCorner | CropHandle::LeftEdge => (
                true,
                false,
            ),
            CropHandle::TopRightCorner | CropHandle::BottomRightCorner | CropHandle::RightEdge => (
                false,
                true,
            ),
            _ => (false, false),
        }
    }

    /// Which of the top and bottom edges the handle moves.
    fn moves_y(self) -> (r: (bool, bool))
        ensures
            r.0 == self.moves_top(),
            r.1 == self.moves_bottom(),
    {
        match self {
            CropHandle::TopLeftCorner | CropHandle::TopRightCorner | CropHandle::TopEdge => (
                true,
                false,
            ),
            CropHandle::BottomLeftCorner
            | CropHandle::BottomRightCorner
            | CropHandle::BottomEdge => (false, true),
            _ => (false, false),
        }
    }

    /// Name of the cursor shown over the handle.
    pub fn resize_cursor(self) -> (r: &'static str)
        ensures
            self == CropHandle::TopLeftCorner || self == CropHandle::BottomRightCorner ==> r
                == "nwse-resize",
            self == CropHandle::TopRightCorner || self == CropHandle::BottomLeftCorner ==> r
                == "nesw-resize",
            self == CropHandle::TopEdge || self == CropHandle::BottomEdge ==> r == "ns-resize",
            self == CropHandle::LeftEdge || self == CropHandle::RightEdge ==> r == "ew-resize",
    {
        match self {
            CropHandle::TopLeftCorner | CropHandle::BottomRightCorner => "nwse-resize",
            CropHandle::TopRightCorner | CropHandle::BottomLeftCorner => "nesw-resize",
            CropHandle::TopEdge | CropHandle::BottomEdge => "ns-resize",
            CropHandle::LeftEdge | CropHandle::RightEdge => "ew-resize",
        }
    }

    /// All handles, clockwise from the top left.
    pub open spec fn all_spec() -> Seq<CropHandle> {
        seq![
            CropHandle::TopLeftCorner,
            CropHandle::TopEdge,
            CropHandle::TopRightCorner,
            CropHandle::RightEdge,
            CropHandle::BottomRightCorner,
            CropHandle::BottomEdge,
            CropHandle::BottomLeftCorner,
            CropHandle::LeftEdge,
        ]
    }

    /// All handles, clockwise from the top left.
    pub fn all() -> (r: [CropHandle; 8])
        ensures
            r@ == CropHandle::all_spec(),
    {
        let r: [CropHandle; 8] = [
            CropHandle::TopLeftCorner,
            CropHandle::TopEdge,
            CropHandle::TopRightCorner,
            CropHandle::RightEdge,
            CropHandle::BottomRightCorner,
            CropHandle::BottomEdge,
            CropHandle::BottomLeftCorner,
            CropHandle::LeftEdge,
        ];
        assert(r@ == CropHandle::all_spec());
        r
    }
}

/// The crop rectangle and how far it has been taken.
#[derive(Clone, Copy, Debug)]
pub struct Crop {
    pub pos: Vec2D,
    pub size: Vec2D,
    /// The rectangle is being edited: its handles are shown.
    pub active: bool,
    /// The rectangle was applied: only its inside is shown.
    pub committed: bool,
    /// The rectangle was applied at least once.
    pub ever_committed: bool,
    /// The rectangle as last applied.
    pub last_committed: Option<(Vec2D, Vec2D)>,
    pub bg_color: CropBgColor,
}

/// Left (or top) edge of the span from `p` to `p + s`.
pub open spec fn span_lo(p: int, s: int) -> int {
    min_spec(p, p + s)
}

/// Right (or bottom) edge of the span from `p` to `p + s`.
pub open spec fn span_hi(p: int, s: int) -> int {
    max_spec(p, p + s)
}

/// Middle of the span from `p` to `p + s`, rounded down.
pub open spec fn span_mid(p: int, s: int) -> int {
    span_lo(p, s) + abs_spec(s) / 2
}

/// The span from `p` to `p + s` is within the limits of crop geometry.
pub open spec fn span_fits(p: int, s: int) -> bool {
    &&& -CROP_MAX <= s <= CROP_MAX
    &&& -CROP_MAX <= span_mid(p, s) <= CROP_MAX
}

/// The rectangle is within the limits of crop geometry.
pub open spec fn rect_fits(pos: Vec2D, size: Vec2D) -> bool {
    span_fits(pos.x as int, size.x as int) && span_fits(pos.y as int, size.y as int)
}

impl Crop {
    /// The rectangle and the one last applied are within the limits of crop
    /// geometry.
    pub open spec fn fits(&self) -> bool {
        &&& rect_fits(self.pos, self.size)
        &&& self.last_committed matches Some((p, s)) ==> rect_fits(p, s)
    }

    pub open spec fn left(&self) -> int {
        span_lo(self.pos.x as int, self.size.x as int)
    }

    pub open spec fn right(&self) -> int {
        span_hi(self.pos.x as int, self.size.x as int)
    }

    pub open spec fn top(&self) -> int {
        span_lo(self.pos.y as int, self.size.y as int)
    }

    pub open spec fn bottom(&self) -> int {
        span_hi(self.pos.y as int, self.size.y as int)
    }

    /// An empty rectangle at `pos`, ready to be dragged open.
    pub fn new(pos: Vec2D, bg_color: CropBgColor) -> (r: Crop)
        ensures
            r == (Crop {
                pos,
                size: Vec2D { x: 0, y: 0 },
                active: true,
                committed: false,
                ever_committed: false,
                last_committed: None,
                bg_color,
            }),
    {
        Crop {
            pos,
            size: Vec2D::zero(),
            active: true,
            committed: false,
            ever_committed: false,
            last_committed: None,
            bg_color,
        }
    }

    pub fn is_committed(&self) -> (r: bool)
        ensures
            r == self.committed,
    {
        self.committed
    }

    /// The rectangle as corner and non-negative size.
    pub fn get_rectangle(&self) -> (r: (Vec2D, Vec2D))
        requires
            rect_fits(self.pos, self.size),
        ensures
            r.0.x == self.left(),
            r.0.y == self.top(),
            r.1.x == self.right() - self.left(),
            r.1.y == self.bottom() - self.top(),
            r.1.x == abs_spec(self.size.x as int),
            r.1.y == abs_spec(self.size.y as int),
    {
        rect_ensure_positive_size(self.pos, self.size)
    }

    /// Where a handle sits on the rectangle `(pos, size)`.
    pub open spec fn handle_at(pos: Vec2D, size: Vec2D, h: CropHandle, p: Vec2D) -> bool {
        &&& p.x == if h.moves_left() {
            pos.x as int
        } else if h.moves_right() {
            pos.x + size.x
        } else {
            pos.x + size.x as int / 2
        }
        &&& p.y == if h.moves_top() {
            pos.y as int
        } else if h.moves_bottom() {
            pos.y + size.y
        } else {
            pos.y + size.y as int / 2
        }
    }

    pub fn get_handle_pos(crop_pos: Vec2D, crop_size: Vec2D, handle: CropHandle) -> (r: Vec2D)
        requires
            rect_fits(crop_pos, crop_size),
        ensures
            Crop::handle_at(crop_pos, crop_size, handle, r),
    {
        match handle {
            CropHandle::TopLeftCorner => crop_pos,
            CropHandle::TopEdge => crop_pos.plus(Vec2D::new(half(crop_size.x), 0)),
            CropHandle::TopRightCorner => crop_pos.plus(Vec2D::new(crop_size.x, 0)),
            CropHandle::RightEdge => crop_pos.plus(Vec2D::new(crop_size.x, half(crop_size.y))),
            CropHandle::BottomRightCorner => crop_pos.plus(Vec2D::new(crop_size.x, crop_size.y)),
            CropHandle::BottomEdge => crop_pos.plus(Vec2D::new(half(crop_size.x), crop_size.y)),
            CropHandle::BottomLeftCorner => crop_pos.plus(Vec2D::new(0, crop_size.y)),
            CropHandle::LeftEdge => crop_pos.plus(Vec2D::new(0, half(crop_size.y))),
        }
    }

    /// `d` is the squared distance from `mouse` to the handle `h`.
    pub open spec fn handle_dist2(&self, h: CropHandle, mouse: Vec2D, d: int) -> bool {
        exists|p: Vec2D| #[trigger] Crop::handle_at(self.pos, self.size, h, p) && d == dist2_spec(
            p,
            mouse,
        )
    }

    /// `h` is the handle nearest to `mouse`, at the squared distance `best`;
    /// of two equally near ones, the earlier in the list of all handles.
    pub open spec fn is_closest(&self, h: CropHandle, mouse: Vec2D, best: int) -> bool {
        exists|i: int|
            {
                &&& 0 <= i < 8
                &&& h == #[trigger] CropHandle::all_spec()[i]
                &&& self.handle_dist2(h, mouse, best)
                &&& forall|j: int, d: int|
                    0 <= j < 8 && #[trigger] self.handle_dist2(
                        CropHandle::all_spec()[j],
                        mouse,
                        d,
                    ) ==> best <= d && (j < i ==> best < d)
            }
    }

    /// The handle nearest to `mouse_pos`, the earlier one where two are
    /// equally near, with its squared distance.
    pub fn get_closest_handle(&self, mouse_pos: Vec2D) -> (r: (CropHandle, i128))
        requires
            rect_fits(self.pos, self.size),
            mouse_pos.ok(),
        ensures
            self.is_closest(r.0, mouse_pos, r.1 as int),
    {
        let all: [CropHandle; 8] = CropHandle::all();
        let first: Vec2D = Crop::get_handle_pos(self.pos, self.size, all[0]);
        let mut best: i128 = dist2(first, mouse_pos);
        let mut closest: CropHandle = all[0];
        let ghost mut at: int = 0;
        assert(self.handle_dist2(all[0], mouse_pos, best as int));
        let mut k: usize = 1;
        while k < 8
            invariant
                rect_fits(self.pos, self.size),
                mouse_pos.ok(),
                1 <= k <= 8,
                all@ == CropHandle::all_spec(),
                0 <= at < k,
                closest == CropHandle::all_spec()[at],
                self.handle_dist2(closest, mouse_pos, best as int),
                forall|j: int, d: int|
                    0 <= j < k && #[trigger] self.handle_dist2(
                        CropHandle::all_spec()[j],
                        mouse_pos,
                        d,
                    ) ==> best <= d && (j < at ==> best < d),
            decreases 8 - k,
        {
            let h: CropHandle = all[k];
            let p: Vec2D = Crop::get_handle_pos(self.pos, self.size, h);
            let d: i128 = dist2(p, mouse_pos);
            assert(self.handle_dist2(h, mouse_pos, d as int));
            assert forall|d2: int| #[trigger]
                self.handle_dist2(CropHandle::all_spec()[k as int], mouse_pos, d2) implies d2
                == d by {
                let q = choose|q: Vec2D| #[trigger]
                    Crop::handle_at(self.pos, self.size, h, q) && d2 == dist2_spec(q, mouse_pos);
                assert(q == p);
            }
            if d < best {
                best = d;
                closest = h;
                proof {
                    at = k as int;
                }
            }
            k = k + 1;
        }
        (closest, best)
    }

    /// The corner handle within `tol` of the point, the first in the order
    /// top left, top right, bottom right, bottom left.
    pub open spec fn corner_near(&self, p: Vec2D, tol: int) -> Option<CropHandle> {
        let near = |x: int, y: int| (x - p.x) * (x - p.x) + (y - p.y) * (y - p.y) <= tol * tol;
        if near(self.left(), self.top()) {
            Some(CropHandle::TopLeftCorner)
        } else if near(self.right(), self.top()) {
            Some(CropHandle::TopRightCorner)
        } else if near(self.right(), self.bottom()) {
            Some(CropHandle::BottomRightCorner)
        } else if near(self.left(), self.bottom()) {
            Some(CropHandle::BottomLeftCorner)
        } else {
            None
        }
    }

    /// The edge within `tol` of the point, measured across it.
    pub open spec fn edge_near(&self, p: Vec2D, tol: int) -> Option<CropHandle> {
        let in_x = self.left() <= p.x <= self.right();
        let in_y = self.top() <= p.y <= self.bottom();
        if in_x && abs_spec(p.y - self.top()) <= tol {
            Some(CropHandle::TopEdge)
        } else if in_x && abs_spec(p.y - self.bottom()) <= tol {
            Some(CropHandle::BottomEdge)
        } else if in_y && abs_spec(p.x - self.left()) <= tol {
            Some(CropHandle::LeftEdge)
        } else if in_y && abs_spec(p.x - self.right()) <= tol {
            Some(CropHandle::RightEdge)
        } else {
            None
        }
    }

    /// The handle under the point: corners before edges; none while the
    /// rectangle has no area.
    pub open spec fn hit_handle_spec(&self, p: Vec2D, tol: int) -> Option<CropHandle> {
        if self.size.x == 0 || self.size.y == 0 {
            None
        } else if self.corner_near(p, tol) is Some {
            self.corner_near(p, tol)
        } else {
            self.edge_near(p, tol)
        }
    }

    pub fn hit_handle(&self, point: Vec2D, tolerance: i64) -> (r: Option<CropHandle>)
        requires
            rect_fits(self.pos, self.size),
            point.ok(),
            -0x100_0000_0000_0000 <= tolerance <= 0x100_0000_0000_0000,
        ensures
            r == self.hit_handle_spec(point, tolerance as int),
    {
        let (pos, size): (Vec2D, Vec2D) = self.get_rectangle();
        if size.x <= 0 || size.y <= 0 {
            return None;
        }
        let right: i64 = pos.x + size.x;
        let bottom: i64 = pos.y + size.y;
        proof {
            lemma_product_bound(tolerance as int, tolerance as int);
        }
        let tol2: i128 = tolerance as i128 * tolerance as i128;
        if dist2(Vec2D::new(pos.x, pos.y), point) <= tol2 {
            return Some(CropHandle::TopLeftCorner);
        }
        if dist2(Vec2D::new(right, pos.y), point) <= tol2 {
            return Some(CropHandle::TopRightCorner);
        }
        if dist2(Vec2D::new(right, bottom), point) <= tol2 {
            return Some(CropHandle::BottomRightCorner);
        }
        if dist2(Vec2D::new(pos.x, bottom), point) <= tol2 {
            return Some(CropHandle::BottomLeftCorner);
        }
        let in_horizontal_span: bool = point.x >= pos.x && point.x <= right;
        let in_vertical_span: bool = point.y >= pos.y && point.y <= bottom;
        if in_horizontal_span && abs_len(point.y - pos.y) <= tolerance {
            return Some(CropHandle::TopEdge);
        }
        if in_horizontal_span && abs_len(point.y - bottom) <= tolerance {
            return Some(CropHandle::BottomEdge);
        }
        if in_vertical_span && abs_len(point.x - pos.x) <= tolerance {
            return Some(CropHandle::LeftEdge);
        }
        if in_vertical_span && abs_len(point.x - right) <= tolerance {
            return Some(CropHandle::RightEdge);
        }
        None
    }

    /// Radius of the handle zones, in image units, at the given render scale:
    /// constant on screen.
    pub open spec fn tolerance_spec(scale: int) -> int {
        div_round_spec(HANDLE_HIT_RADIUS * MICRO, max_spec(scale, MIN_RENDER_SCALE as int))
    }

    /// What is under the pointer: a handle, the inside of the rectangle, or
    /// nothing. Rectangles narrower than one pixel are not hit.
    pub open spec fn hit_kind_spec(&self, p: Vec2D, scale: int) -> Option<CropHit> {
        if abs_spec(self.size.x as int) < UNIT || abs_spec(self.size.y as int) < UNIT {
            None
        } else {
            match self.hit_handle_spec(p, Crop::tolerance_spec(scale)) {
                Some(h) => Some(CropHit::Handle(h)),
                None => if self.left() <= p.x <= self.right() && self.top() <= p.y
                    <= self.bottom() {
                    Some(CropHit::Body)
                } else {
                    None
                },
            }
        }
    }

    /// What is under the pointer. `image_to_canvas_scale` is the render scale
    /// in millionths.
    pub fn hit_kind(&self, point: Vec2D, image_to_canvas_scale: i64) -> (r: Option<CropHit>)
        requires
            rect_fits(self.pos, self.size),
            point.ok(),
        ensures
            r == self.hit_kind_spec(point, image_to_canvas_scale as int),
    {
        if abs_len(self.size.x) < UNIT || abs_len(self.size.y) < UNIT {
            return None;
        }
        let scale: i64 = max_len(image_to_canvas_scale, MIN_RENDER_SCALE);
        proof {
            lemma_tolerance_bound(scale as int);
        }
        let tolerance: i64 = mul_div(HANDLE_HIT_RADIUS, MICRO, scale);
        if let Some(handle) = self.hit_handle(point, tolerance) {
            return Some(CropHit::Handle(handle));
        }
        let (pos, size): (Vec2D, Vec2D) = self.get_rectangle();
        if point.x >= pos.x && point.x <= pos.x + size.x && point.y >= pos.y && point.y <= pos.y
            + size.y {
            return Some(CropHit::Body);
        }
        None
    }
}

proof fn lemma_tolerance_bound(scale: int)
    requires
        scale >= MIN_RENDER_SCALE,
    ensures
        0 <= div_round_spec(HANDLE_HIT_RADIUS * MICRO, scale) <= 0x100_0000_0000_0000,
{
    let a = HANDLE_HIT_RADIUS * MICRO;
    crate::units::lemma_div_round_near(a, scale);
    crate::tools::lemma_div_round_nonneg(a, scale);
    let q = div_round_spec(a, scale);
    assert(q <= 0x100_0000_0000_0000) by (nonlinear_arith)
        requires
            scale >= 1,
            a <= 0x80_0000_0000_0000,
            2 * (q * scale - a) <= scale,
    ;
}

/// What the crop tool reports to the rest of the application. Lengths of the
/// content size are in sub-units, the other sizes in whole pixels.
#[derive(Clone, Copy, Debug, PartialEq, Eq)]
#[allow(inconsistent_fields)]
pub enum CropMessage {
    /// A crop exists, or no longer does.
    CropPresenceChanged(bool),
    /// Size of the output; `None` is the full image.
    DimensionsUpdate(Option<(i32, i32)>),
    /// Size of the rectangle being edited.
    CropEditDimensions { width: i32, height: i32 },
    /// Size of what the canvas shows.
    ContentSizeChanged { width: i64, height: i64 },
    /// Leave the crop tool for the tool used before.
    ExitCropToPreviousTool,
    /// Switch to a tool.
    ToolSelected(Tools),
    /// Give the keyboard focus back to the canvas.
    FocusCanvas,
}

/// A handle being dragged: the rectangle's corners when the drag began.
#[derive(Clone, Copy, Debug)]
pub struct DragHandleState {
    pub handle: CropHandle,
    pub top_left_start: Vec2D,
    pub bottom_right_start: Vec2D,
}

/// The rectangle being moved: its corner when the drag began.
#[derive(Clone, Copy, Debug)]
pub struct MoveState {
    pub start: Vec2D,
}

/// What the current drag does.
#[derive(Clone, Copy, Debug)]
pub enum CropToolAction {
    NewCrop,
    DragHandle(DragHandleState),
    Move(MoveState),
}

/// The crop tool.
#[derive(Clone, Copy, Debug)]
pub struct CropTool {
    pub crop: Option<Crop>,
    pub action: Option<CropToolAction>,
    pub input_enabled: bool,
    /// Messages have somewhere to go; before that they are dropped.
    pub connected: bool,
    pub snap_to_edges: bool,
    pub image_bounds: Option<Vec2D>,
    pub aspect_ratio: AspectRatio,
    pub bg_color: CropBgColor,
    /// Image-to-canvas scale, in millionths.
    pub render_scale: i64,
    /// Arrow keys held down, one bit each.
    pub held_arrows: u8,
}

pub const ARROW_UP: u8 = 1;

pub const ARROW_DOWN: u8 = 2;

pub const ARROW_LEFT: u8 = 4;

pub const ARROW_RIGHT: u8 = 8;

/// The bit of an arrow key.
pub open spec fn arrow_bit_spec(key: Key) -> Option<u8> {
    if key.0 == KEY_UP || key.0 == KEY_UPARROW {
        Some(ARROW_UP)
    } else if key.0 == KEY_DOWN || key.0 == KEY_DOWNARROW {
        Some(ARROW_DOWN)
    } else if key.0 == KEY_LEFT || key.0 == KEY_LEFTARROW {
        Some(ARROW_LEFT)
    } else if key.0 == KEY_RIGHT || key.0 == KEY_RIGHTARROW {
        Some(ARROW_RIGHT)
    } else {
        None
    }
}

/// The bit of an arrow key.
pub fn arrow_bit(key: Key) -> (r: Option<u8>)
    ensures
        r == arrow_bit_spec(key),
{
    if key.0 == KEY_UP || key.0 == KEY_UPARROW {
        Some(ARROW_UP)
    } else if key.0 == KEY_DOWN || key.0 == KEY_DOWNARROW {
        Some(ARROW_DOWN)
    } else if key.0 == KEY_LEFT || key.0 == KEY_LEFTARROW {
        Some(ARROW_LEFT)
    } else if key.0 == KEY_RIGHT || key.0 == KEY_RIGHTARROW {
        Some(ARROW_RIGHT)
    } else {
        None
    }
}

/// `v` as a 32-bit number, cut off at its limits.
pub open spec fn sat_i32_spec(v: int) -> i32 {
    clamp_spec(v, i32::MIN as int, i32::MAX as int) as i32
}

fn sat_i32(v: i64) -> (r: i32)
    ensures
        r == sat_i32_spec(v as int),
{
    clamp_len(v, i32::MIN as i64, i32::MAX as i64) as i32
}

/// The message about the size of `c`, in whole pixels.
pub open spec fn edit_dimensions(c: Crop) -> CropMessage {
    CropMessage::CropEditDimensions {
        width: sat_i32_spec(round_px_spec(abs_spec(c.size.x as int))),
        height: sat_i32_spec(round_px_spec(abs_spec(c.size.y as int))),
    }
}

/// The message about the content size.
pub open spec fn content_size(w: int, h: int) -> CropMessage {
    CropMessage::ContentSizeChanged { width: w as i64, height: h as i64 }
}

/// `v` stuck to an image edge within the snap distance (the left or top one
/// first), and kept inside the image. Without a known image nothing happens.
pub open spec fn snap_spec(v: int, active: bool, bound: Option<int>) -> int {
    match bound {
        None => v,
        Some(b) => clamp_spec(
            if active && abs_spec(v) <= SNAP_DISTANCE {
                0
            } else if active && abs_spec(v - b) <= SNAP_DISTANCE {
                b
            } else {
                v
            },
            0,
            b,
        ),
    }
}

fn snap_axis(v: i64, active: bool, bound: Option<i64>) -> (r: i64)
    requires
        coord_ok(v as int),
        bound matches Some(b) ==> 0 <= b <= INPUT_MAX,
    ensures
        r == snap_spec(
            v as int,
            active,
            match bound {
                Some(b) => Some(b as int),
                None => None,
            },
        ),
{
    match bound {
        None => v,
        Some(b) => {
            let mut u: i64 = v;
            if active {
                if abs_len(v) <= SNAP_DISTANCE {
                    u = 0;
                } else if abs_len(v - b) <= SNAP_DISTANCE {
                    u = b;
                }
            }
            clamp_len(u, 0, b)
        },
    }
}

/// Four edges of a rectangle.
pub ghost struct Edges {
    pub l: int,
    pub t: int,
    pub r: int,
    pub b: int,
}

/// Horizontal bound of the image.
pub open spec fn bound_x(bounds: Option<Vec2D>) -> Option<int> {
    match bounds {
        Some(b) => Some(b.x as int),
        None => None,
    }
}

/// Vertical bound of the image.
pub open spec fn bound_y(bounds: Option<Vec2D>) -> Option<int> {
    match bounds {
        Some(b) => Some(b.y as int),
        None => None,
    }
}

impl DragHandleState {
    /// The edges when the drag began.
    pub open spec fn start_edges(&self) -> Edges {
        Edges {
            l: self.top_left_start.x as int,
            t: self.top_left_start.y as int,
            r: self.bottom_right_start.x as int,
            b: self.bottom_right_start.y as int,
        }
    }

    pub open spec fn fits(&self) -> bool {
        &&& -4 * CROP_MAX <= self.top_left_start.x <= 4 * CROP_MAX
        &&& -4 * CROP_MAX <= self.top_left_start.y <= 4 * CROP_MAX
        &&& -4 * CROP_MAX <= self.bottom_right_start.x <= 4 * CROP_MAX
        &&& -4 * CROP_MAX <= self.bottom_right_start.y <= 4 * CROP_MAX
    }
}

/// The edges after the handle `h` was dragged by `(dx, dy)`: the edges that
/// the handle moves follow the pointer and snap, the others stay.
pub open spec fn dragged_edges(
    h: CropHandle,
    s: Edges,
    dx: int,
    dy: int,
    active: bool,
    bounds: Option<Vec2D>,
) -> Edges {
    Edges {
        l: if h.moves_left() {
            snap_spec(s.l + dx, active, bound_x(bounds))
        } else {
            s.l
        },
        t: if h.moves_top() {
            snap_spec(s.t + dy, active, bound_y(bounds))
        } else {
            s.t
        },
        r: if h.moves_right() {
            snap_spec(s.r + dx, active, bound_x(bounds))
        } else {
            s.r
        },
        b: if h.moves_bottom() {
            snap_spec(s.b + dy, active, bound_y(bounds))
        } else {
            s.b
        },
    }
}

/// Width and height at the ratio `rw : rh` of a box that was dragged to
/// `w` by `h`. A corner takes the side that gives the larger box; an edge
/// keeps its own direction and the other side follows.
pub open spec fn ratio_size(h: CropHandle, w: int, ht: int, rw: int, rh: int) -> (int, int) {
    let keep_width = if h.is_corner() {
        w * rh >= ht * rw
    } else {
        h.moves_left() || h.moves_right()
    };
    if keep_width {
        (w, div_round_spec(w * rh, rw))
    } else {
        (div_round_spec(ht * rw, rh), ht)
    }
}

/// The edges `e`, dragged from `s`, at the ratio `rw : rh`: anchored at the
/// edge or corner opposite the handle, and centered where the handle moves
/// neither side.
pub open spec fn ratio_edges(h: CropHandle, s: Edges, e: Edges, rw: int, rh: int) -> Edges {
    let (fw, fh) = ratio_size(h, abs_spec(e.r - e.l), abs_spec(e.b - e.t), rw, rh);
    let l = if h.moves_right() {
        s.l
    } else if h.moves_left() {
        s.r - fw
    } else {
        (s.l + s.r) / 2 - fw / 2
    };
    let t = if h.moves_bottom() {
        s.t
    } else if h.moves_top() {
        s.b - fh
    } else {
        (s.t + s.b) / 2 - fh / 2
    };
    Edges { l, t, r: l + fw, b: t + fh }
}

/// The edges kept inside the image, each on its own.
pub open spec fn clamped_edges(e: Edges, bounds: Option<Vec2D>) -> Edges {
    match bounds {
        None => e,
        Some(b) => Edges {
            l: clamp_spec(e.l, 0, b.x as int),
            t: clamp_spec(e.t, 0, b.y as int),
            r: clamp_spec(e.r, 0, b.x as int),
            b: clamp_spec(e.b, 0, b.y as int),
        },
    }
}

/// The edges of the rectangle while a handle is dragged.
pub open spec fn handle_drag_edges(
    state: DragHandleState,
    dx: int,
    dy: int,
    aspect: Option<(int, int)>,
    active: bool,
    bounds: Option<Vec2D>,
) -> Edges {
    clamped_edges(
        free_edges_spec(state.handle, state.start_edges(), dx, dy, aspect, active, bounds),
        bounds,
    )
}

/// `c` covers the edges `e`.
pub open spec fn has_edges(c: Crop, e: Edges) -> bool {
    &&& c.pos.x == e.l
    &&& c.pos.y == e.t
    &&& c.pos.x + c.size.x == e.r
    &&& c.pos.y + c.size.y == e.b
}

/// The known image is between one pixel and the input limit on each side.
pub open spec fn bounds_ok(bounds: Option<Vec2D>) -> bool {
    bounds matches Some(b) ==> UNIT <= b.x <= INPUT_MAX && UNIT <= b.y <= INPUT_MAX
}

/// An aspect ratio in use: positive, and no more than two to one unless the
/// image gave it.
pub open spec fn aspect_ok(aspect: Option<(i64, i64)>, bounds: Option<Vec2D>) -> bool {
    aspect matches Some((rw, rh)) ==> {
        &&& 0 < rw <= INPUT_MAX
        &&& 0 < rh <= INPUT_MAX
        &&& bounds is None ==> rw <= 2 * rh && rh <= 2 * rw
    }
}

/// A ratio as mathematical integers.
pub open spec fn ratio_int(aspect: Option<(i64, i64)>) -> Option<(int, int)> {
    match aspect {
        Some((rw, rh)) => Some((rw as int, rh as int)),
        None => None,
    }
}

/// Width and height at a ratio, see [`ratio_size`].
fn ratio_size_of(h: CropHandle, w: i64, ht: i64, rw: i64, rh: i64) -> (r: (i128, i128))
    requires
        0 <= w <= 0x80_0000_0000_0000,
        0 <= ht <= 0x80_0000_0000_0000,
        0 < rw <= INPUT_MAX,
        0 < rh <= INPUT_MAX,
    ensures
        (r.0 as int, r.1 as int) == ratio_size(h, w as int, ht as int, rw as int, rh as int),
        0 <= r.0 <= 0x4000_0000_0000_0000_0000_0000_0000_0001,
        0 <= r.1 <= 0x4000_0000_0000_0000_0000_0000_0000_0001,
        rw <= 2 * rh && rh <= 2 * rw ==> r.0 <= 2 * max_spec(w as int, ht as int) + 1 && r.1
            <= 2 * max_spec(w as int, ht as int) + 1,
{
    proof {
        lemma_product_bound(w as int, rh as int);
        lemma_product_bound(ht as int, rw as int);
        crate::tools::lemma_div_round_nonneg(w * rh, rw as int);
        crate::tools::lemma_div_round_nonneg(ht * rw, rh as int);
        if rw <= 2 * rh && rh <= 2 * rw {
            lemma_small_ratio(w as int, rh as int, rw as int);
            lemma_small_ratio(ht as int, rw as int, rh as int);
        }
    }
    let (ml, mr): (bool, bool) = h.moves_x();
    let (mt, mb): (bool, bool) = h.moves_y();
    let keep_width: bool = if (ml || mr) && (mt || mb) {
        w as i128 * rh as i128 >= ht as i128 * rw as i128
    } else {
        ml || mr
    };
    if keep_width {
        (w as i128, mul_div_wide(w, rh, rw))
    } else {
        (mul_div_wide(ht, rw, rh), ht as i128)
    }
}

proof fn lemma_small_ratio(v: int, num: int, den: int)
    requires
        0 <= v,
        0 < num <= 2 * den,
    ensures
        div_round_spec(v * num, den) <= 2 * v + 1,
{
    crate::units::lemma_div_round_near(v * num, den);
    let q = div_round_spec(v * num, den);
    let a = v * num;
    assert(a <= 2 * v * den) by (nonlinear_arith)
        requires
            a == v * num,
            0 <= v,
            0 < num <= 2 * den,
    ;
    assert(q <= 2 * v + 1) by (nonlinear_arith)
        requires
            den >= 1,
            a <= 2 * v * den,
            2 * (q * den - a) <= den,
    ;
}

/// One axis of [`dragged_edges`].
fn drag_axis(
    start: (i64, i64),
    moves: (bool, bool),
    d: i64,
    active: bool,
    bound: Option<i64>,
) -> (r: (i64, i64))
    requires
        -4 * CROP_MAX <= start.0 <= 4 * CROP_MAX,
        -4 * CROP_MAX <= start.1 <= 4 * CROP_MAX,
        input_ok(d as int),
        bound matches Some(b) ==> 0 <= b <= INPUT_MAX,
    ensures
        ({
            let bd = match bound {
                Some(b) => Some(b as int),
                None => None,
            };
            &&& r.0 == if moves.0 {
                snap_spec(start.0 + d, active, bd)
            } else {
                start.0 as int
            }
            &&& r.1 == if moves.1 {
                snap_spec(start.1 + d, active, bd)
            } else {
                start.1 as int
            }
        }),
        -5 * CROP_MAX <= r.0 <= 5 * CROP_MAX,
        -5 * CROP_MAX <= r.1 <= 5 * CROP_MAX,
{
    let lo: i64 = if moves.0 {
        snap_axis(start.0 + d, active, bound)
    } else {
        start.0
    };
    let hi: i64 = if moves.1 {
        snap_axis(start.1 + d, active, bound)
    } else {
        start.1
    };
    (lo, hi)
}

/// One axis of [`ratio_edges`]: a span of length `f` placed opposite the
/// edge that moves.
fn ratio_axis(start: (i64, i64), moves: (bool, bool), f: i128) -> (r: (i128, i128))
    requires
        -4 * CROP_MAX <= start.0 <= 4 * CROP_MAX,
        -4 * CROP_MAX <= start.1 <= 4 * CROP_MAX,
        0 <= f <= 0x4000_0000_0000_0000_0000_0000_0000_0001,
    ensures
        r.0 == if moves.1 {
            start.0 as int
        } else if moves.0 {
            start.1 - f
        } else {
            (start.0 + start.1) / 2 - f as int / 2
        },
        r.1 == r.0 + f,
{
    let lo: i128 = if moves.1 {
        start.0 as i128
    } else if moves.0 {
        start.1 as i128 - f
    } else {
        half(start.0 + start.1) as i128 - f / 2
    };
    (lo, lo + f)
}

/// The dragged edges at the aspect ratio, before they are kept inside the
/// image.
pub open spec fn free_edges_spec(
    h: CropHandle,
    s: Edges,
    dx: int,
    dy: int,
    aspect: Option<(int, int)>,
    active: bool,
    bounds: Option<Vec2D>,
) -> Edges {
    let e = dragged_edges(h, s, dx, dy, active, bounds);
    match aspect {
        Some((rw, rh)) => ratio_edges(h, s, e, rw, rh),
        None => e,
    }
}

fn free_edges(
    h: CropHandle,
    tl0: Vec2D,
    br0: Vec2D,
    direction: Vec2D,
    aspect: Option<(i64, i64)>,
    bounds: Option<Vec2D>,
    active: bool,
) -> (r: ((i128, i128), (i128, i128)))
    requires
        -4 * CROP_MAX <= tl0.x <= 4 * CROP_MAX,
        -4 * CROP_MAX <= tl0.y <= 4 * CROP_MAX,
        -4 * CROP_MAX <= br0.x <= 4 * CROP_MAX,
        -4 * CROP_MAX <= br0.y <= 4 * CROP_MAX,
        input_ok(direction.x as int),
        input_ok(direction.y as int),
        bounds_ok(bounds),
        aspect_ok(aspect, bounds),
    ensures
        free_edges_spec(
            h,
            Edges { l: tl0.x as int, t: tl0.y as int, r: br0.x as int, b: br0.y as int },
            direction.x as int,
            direction.y as int,
            ratio_int(aspect),
            active,
            bounds,
        ) == (Edges { l: r.0.0 as int, t: r.1.0 as int, r: r.0.1 as int, b: r.1.1 as int }),
        bounds is None ==> {
            &&& -0x80_0000_0000_0000 <= r.0.0 <= 0x80_0000_0000_0000
            &&& -0x80_0000_0000_0000 <= r.0.1 <= 0x80_0000_0000_0000
            &&& -0x80_0000_0000_0000 <= r.1.0 <= 0x80_0000_0000_0000
            &&& -0x80_0000_0000_0000 <= r.1.1 <= 0x80_0000_0000_0000
        },
{
    let bx: Option<i64> = match bounds {
        Some(b) => Some(b.x),
        None => None,
    };
    let by: Option<i64> = match bounds {
        Some(b) => Some(b.y),
        None => None,
    };
    let mx: (bool, bool) = h.moves_x();
    let my: (bool, bool) = h.moves_y();
    let (dl, dr): (i64, i64) = drag_axis((tl0.x, br0.x), mx, direction.x, active, bx);
    let (dt, db): (i64, i64) = drag_axis((tl0.y, br0.y), my, direction.y, active, by);
    match aspect {
        Some((rw, rh)) => {
            let (fw, fh): (i128, i128) = ratio_size_of(
                h,
                abs_len(dr - dl),
                abs_len(db - dt),
                rw,
                rh,
            );
            (ratio_axis((tl0.x, br0.x), mx, fw), ratio_axis((tl0.y, br0.y), my, fh))
        },
        None => ((dl as i128, dr as i128), (dt as i128, db as i128)),
    }
}

/// `v` in `0..=b` where the image is known, else unchanged.
fn clamp_wide(v: i128, bound: Option<i64>) -> (r: i64)
    requires
        bound matches Some(b) ==> b >= 0,
        bound is None ==> i64::MIN <= v <= i64::MAX,
    ensures
        r == match bound {
            Some(b) => clamp_spec(v as int, 0, b as int),
            None => v as int,
        },
{
    match bound {
        Some(b) => if v <= 0 {
            0
        } else if v >= b as i128 {
            b
        } else {
            v as i64
        },
        None => v as i64,
    }
}

impl CropTool {
    /// Everything the tool holds is within the limits of crop geometry.
    pub open spec fn fits(&self) -> bool {
        &&& self.crop matches Some(c) ==> c.fits()
        &&& bounds_ok(self.image_bounds)
        &&& self.action matches Some(CropToolAction::DragHandle(d)) ==> d.fits()
        &&& self.action matches Some(CropToolAction::Move(m)) ==> m.start.x <= 4 * CROP_MAX
            && m.start.x >= -4 * CROP_MAX && m.start.y <= 4 * CROP_MAX && m.start.y >= -4
            * CROP_MAX
    }

    /// The messages that get through.
    pub open spec fn sent(&self, msgs: Seq<CropMessage>) -> Seq<CropMessage> {
        if self.connected {
            msgs
        } else {
            Seq::empty()
        }
    }

    /// The ratio that drags are held to.
    pub open spec fn aspect_spec(&self) -> Option<(int, int)> {
        self.aspect_ratio.ratio_spec(self.image_bounds)
    }

    /// Sends `msg` where there is somewhere to send it to.
    fn emit(&self, out: &mut Vec<CropMessage>, msg: CropMessage)
        ensures
            final(out)@ == old(out)@ + self.sent(seq![msg]),
    {
        if self.connected {
            out.push(msg);
        }
        assert(out@ == old(out)@ + self.sent(seq![msg]));
    }

    /// Reports the size of the rectangle being edited.
    fn emit_crop_edit_dimensions(&self, out: &mut Vec<CropMessage>)
        requires
            self.crop matches Some(c) ==> {
                &&& -0x1000_0000_0000_0000 <= c.size.x <= 0x1000_0000_0000_0000
                &&& -0x1000_0000_0000_0000 <= c.size.y <= 0x1000_0000_0000_0000
            },
        ensures
            final(out)@ == old(out)@ + match self.crop {
                Some(c) => self.sent(seq![edit_dimensions(c)]),
                None => Seq::empty(),
            },
    {
        if let Some(crop) = &self.crop {
            let width: i32 = sat_i32(round_px(abs_len(crop.size.x)));
            let height: i32 = sat_i32(round_px(abs_len(crop.size.y)));
            self.emit(out, CropMessage::CropEditDimensions { width, height });
        }
        assert(self.crop is None ==> old(out)@ + Seq::<CropMessage>::empty() == out@);
    }

    /// Snapping is on and not bypassed by holding Alt.
    pub open spec fn snap_active_spec(&self, modifier: Modifiers) -> bool {
        self.snap_to_edges && !modifier.alt
    }

    pub fn snap_active(&self, modifier: Modifiers) -> (r: bool)
        ensures
            r == self.snap_active_spec(modifier),
    {
        self.snap_to_edges && !modifier.alt
    }

    /// Drags a handle: moves and snaps its edges, restores the aspect ratio
    /// around the opposite side, and keeps every edge inside the image.
    fn apply_drag_handle_transformation(
        crop: &mut Crop,
        state: &DragHandleState,
        direction: Vec2D,
        aspect: Option<(i64, i64)>,
        bounds: Option<Vec2D>,
        active: bool,
    )
        requires
            state.fits(),
            input_ok(direction.x as int),
            input_ok(direction.y as int),
            bounds_ok(bounds),
            aspect_ok(aspect, bounds),
        ensures
            has_edges(
                *final(crop),
                handle_drag_edges(
                    *state,
                    direction.x as int,
                    direction.y as int,
                    ratio_int(aspect),
                    active,
                    bounds,
                ),
            ),
            *final(crop) == (Crop {
                pos: final(crop).pos,
                size: final(crop).size,
                ..*old(crop)
            }),
            final(crop).size.ok(),
            bounds is Some ==> {
                &&& input_ok(final(crop).pos.x as int)
                &&& input_ok(final(crop).pos.y as int)
                &&& input_ok(final(crop).pos.x + final(crop).size.x)
                &&& input_ok(final(crop).pos.y + final(crop).size.y)
            },
    {
        let bx: Option<i64> = match bounds {
            Some(b) => Some(b.x),
            None => None,
        };
        let by: Option<i64> = match bounds {
            Some(b) => Some(b.y),
            None => None,
        };
        let tl0: Vec2D = state.top_left_start;
        let br0: Vec2D = state.bottom_right_start;
        let h: CropHandle = state.handle;
        let ((l, r), (t, b)): ((i128, i128), (i128, i128)) = free_edges(
            h,
            tl0,
            br0,
            direction,
            aspect,
            bounds,
            active,
        );
        let fl: i64 = clamp_wide(l, bx);
        let ft: i64 = clamp_wide(t, by);
        let fr: i64 = clamp_wide(r, bx);
        let fb: i64 = clamp_wide(b, by);
        crop.pos = Vec2D::new(fl, ft);
        crop.size = Vec2D::new(fr - fl, fb - ft);
    }
}

/// The length `m` in the direction of `v`: negative where `v` is.
pub open spec fn toward(v: int, m: int) -> int {
    if v < 0 {
        -m
    } else {
        m
    }
}

/// Size of a rectangle opened from `pos` by a drag of `(dx, dy)`: the far
/// corner follows the pointer and snaps, the side that gives the larger box
/// sets the other one at the aspect ratio, and the far corner is kept inside
/// the image.
pub open spec fn new_crop_size(
    pos: Vec2D,
    dx: int,
    dy: int,
    aspect: Option<(int, int)>,
    active: bool,
    bounds: Option<Vec2D>,
) -> (int, int) {
    let sx = snap_spec(pos.x + dx, active, bound_x(bounds)) - pos.x;
    let sy = snap_spec(pos.y + dy, active, bound_y(bounds)) - pos.y;
    let (rx, ry) = match aspect {
        None => (sx, sy),
        Some((rw, rh)) => if abs_spec(sx) * rh >= abs_spec(sy) * rw {
            (sx, toward(sy, div_round_spec(abs_spec(sx) * rh, rw)))
        } else {
            (toward(sx, div_round_spec(abs_spec(sy) * rw, rh)), sy)
        },
    };
    match bounds {
        None => (rx, ry),
        Some(b) => (
            clamp_spec(pos.x + rx, 0, b.x as int) - pos.x,
            clamp_spec(pos.y + ry, 0, b.y as int) - pos.y,
        ),
    }
}

/// One axis of a move: the leading edge snaps, else the trailing edge does,
/// and the whole span is kept inside the image.
pub open spec fn move_axis_spec(
    start: int,
    d: int,
    size: int,
    active: bool,
    bound: Option<int>,
) -> int {
    let n = start + d;
    let lead = snap_spec(n, active, bound);
    let trail = snap_spec(n + size, active, bound);
    let candidate = if lead != n {
        lead
    } else if trail != n + size {
        trail - size
    } else {
        n
    };
    match bound {
        Some(b) => clamp_spec(candidate, 0, max_spec(b - size, 0)),
        None => candidate,
    }
}

fn move_axis(start: i64, d: i64, size: i64, active: bool, bound: Option<i64>) -> (r: i64)
    requires
        -4 * CROP_MAX <= start <= 4 * CROP_MAX,
        -CROP_MAX <= size <= CROP_MAX,
        input_ok(d as int),
        bound matches Some(b) ==> 0 <= b <= INPUT_MAX,
    ensures
        r == move_axis_spec(
            start as int,
            d as int,
            size as int,
            active,
            match bound {
                Some(b) => Some(b as int),
                None => None,
            },
        ),
{
    let n: i64 = start + d;
    let lead: i64 = snap_axis(n, active, bound);
    let candidate: i64 = if lead != n {
        lead
    } else {
        let trail: i64 = snap_axis(n + size, active, bound);
        if trail != n + size {
            trail - size
        } else {
            n
        }
    };
    match bound {
        Some(b) => clamp_len(candidate, 0, max_len(b - size, 0)),
        None => candidate,
    }
}

/// See [`new_crop_size`].
#[verifier::rlimit(60)]
fn new_crop_size_of(
    pos: Vec2D,
    direction: Vec2D,
    aspect: Option<(i64, i64)>,
    active: bool,
    bounds: Option<Vec2D>,
) -> (r: Vec2D)
    requires
        -2 * CROP_MAX <= pos.x <= 2 * CROP_MAX,
        -2 * CROP_MAX <= pos.y <= 2 * CROP_MAX,
        input_ok(direction.x as int),
        input_ok(direction.y as int),
        bounds_ok(bounds),
        aspect_ok(aspect, bounds),
    ensures
        (r.x as int, r.y as int) == new_crop_size(
            pos,
            direction.x as int,
            direction.y as int,
            ratio_int(aspect),
            active,
            bounds,
        ),
        r.ok(),
        bounds is Some ==> input_ok(pos.x + r.x) && input_ok(pos.y + r.y),
{
    let bx: Option<i64> = match bounds {
        Some(b) => Some(b.x),
        None => None,
    };
    let by: Option<i64> = match bounds {
        Some(b) => Some(b.y),
        None => None,
    };
    let sx: i64 = snap_axis(pos.x + direction.x, active, bx) - pos.x;
    let sy: i64 = snap_axis(pos.y + direction.y, active, by) - pos.y;
    let (rx, ry): (i128, i128) = match aspect {
        None => (sx as i128, sy as i128),
        Some((rw, rh)) => {
            let w: i64 = abs_len(sx);
            let h: i64 = abs_len(sy);
            let (fw, fh): (i128, i128) = ratio_size_of(
                CropHandle::BottomRightCorner,
                w,
                h,
                rw,
                rh,
            );
            (
                if sx < 0 {
                    -fw
                } else {
                    fw
                },
                if sy < 0 {
                    -fh
                } else {
                    fh
                },
            )
        },
    };
    let end_x: i64 = clamp_wide(pos.x as i128 + rx, bx);
    let end_y: i64 = clamp_wide(pos.y as i128 + ry, by);
    Vec2D::new(end_x - pos.x, end_y - pos.y)
}

/// A span whose ends may both come from outside is within the limits of crop
/// geometry.
proof fn lemma_span_inside(p: int, s: int)
    requires
        input_ok(p),
        input_ok(p + s),
    ensures
        span_fits(p, s),
{
}

impl CropTool {
    /// The crop after a drag step of `(dx, dy)`.
    pub open spec fn is_dragged(&self, d: Vec2D, modifier: Modifiers, c: Crop) -> bool {
        let active = self.snap_active_spec(modifier);
        let old_crop = self.crop->0;
        match self.action->0 {
            CropToolAction::NewCrop => {
                let (w, h) = new_crop_size(
                    old_crop.pos,
                    d.x as int,
                    d.y as int,
                    self.aspect_spec(),
                    active,
                    self.image_bounds,
                );
                c.pos == old_crop.pos && c.size.x == w && c.size.y == h
            },
            CropToolAction::DragHandle(state) => has_edges(
                c,
                handle_drag_edges(
                    state,
                    d.x as int,
                    d.y as int,
                    self.aspect_spec(),
                    active,
                    self.image_bounds,
                ),
            ),
            CropToolAction::Move(state) => {
                &&& c.size == old_crop.size
                &&& c.pos.x == move_axis_spec(
                    state.start.x as int,
                    d.x as int,
                    old_crop.size.x as int,
                    active,
                    bound_x(self.image_bounds),
                )
                &&& c.pos.y == move_axis_spec(
                    state.start.y as int,
                    d.y as int,
                    old_crop.size.y as int,
                    active,
                    bound_y(self.image_bounds),
                )
            },
        }
    }

    /// A drag step has something to work on.
    pub open spec fn is_dragging(&self) -> bool {
        self.crop is Some && self.action is Some
    }

    /// A drag step turns the tool into `post`; `redraw` tells whether it had
    /// any effect.
    pub open spec fn drag_step(
        &self,
        d: Vec2D,
        modifier: Modifiers,
        post: CropTool,
        redraw: bool,
    ) -> bool {
        if self.is_dragging() {
            &&& redraw
            &&& post.crop matches Some(c)
            &&& self.is_dragged(d, modifier, c)
            &&& c == (Crop { pos: c.pos, size: c.size, ..self.crop->0 })
            &&& post == (CropTool { crop: Some(c), ..*self })
        } else {
            !redraw && post == *self
        }
    }

    /// What a drag step reports: a new size, unless the crop only moved.
    pub open spec fn drag_msgs(&self, post: CropTool) -> Seq<CropMessage> {
        if self.is_dragging() && !(self.action->0 is Move) {
            self.sent(seq![edit_dimensions(post.crop->0)])
        } else {
            Seq::empty()
        }
    }

    /// The start of a rectangle being opened came from a pointer event.
    pub open spec fn opening_ok(&self) -> bool {
        self.is_dragging() && self.action == Some(CropToolAction::NewCrop) ==> input_ok(
            self.crop->0.pos.x as int,
        ) && input_ok(self.crop->0.pos.y as int)
    }

    /// The ratio that drags are held to.
    fn aspect(&self) -> (r: Option<(i64, i64)>)
        requires
            bounds_ok(self.image_bounds),
        ensures
            self.aspect_spec() == ratio_int(r),
            aspect_ok(r, self.image_bounds),
    {
        self.aspect_ratio.ratio_components(self.image_bounds)
    }

    /// Opens the rectangle.
    fn drag_new(&self, crop: Crop, direction: Vec2D, modifier: Modifiers) -> (c: Crop)
        requires
            self.fits(),
            self.crop == Some(crop),
            self.action == Some(CropToolAction::NewCrop),
            input_ok(crop.pos.x as int),
            input_ok(crop.pos.y as int),
            input_ok(direction.x as int),
            input_ok(direction.y as int),
        ensures
            self.is_dragged(direction, modifier, c),
            c == (Crop { pos: c.pos, size: c.size, ..crop }),
            c.size.ok(),
            self.image_bounds is Some ==> c.fits(),
    {
        let mut c: Crop = crop;
        let aspect: Option<(i64, i64)> = self.aspect();
        c.size = new_crop_size_of(
            crop.pos,
            direction,
            aspect,
            self.snap_active(modifier),
            self.image_bounds,
        );
        proof {
            if self.image_bounds is Some {
                lemma_span_inside(c.pos.x as int, c.size.x as int);
                lemma_span_inside(c.pos.y as int, c.size.y as int);
            }
        }
        c
    }

    /// Reshapes the rectangle by a handle.
    fn drag_handle(
        &self,
        crop: Crop,
        state: DragHandleState,
        direction: Vec2D,
        modifier: Modifiers,
    ) -> (c: Crop)
        requires
            self.fits(),
            self.crop == Some(crop),
            self.action == Some(CropToolAction::DragHandle(state)),
            input_ok(direction.x as int),
            input_ok(direction.y as int),
        ensures
            self.is_dragged(direction, modifier, c),
            c == (Crop { pos: c.pos, size: c.size, ..crop }),
            c.size.ok(),
            self.image_bounds is Some ==> c.fits(),
    {
        let mut c: Crop = crop;
        let aspect: Option<(i64, i64)> = self.aspect();
        CropTool::apply_drag_handle_transformation(
            &mut c,
            &state,
            direction,
            aspect,
            self.image_bounds,
            self.snap_active(modifier),
        );
        proof {
            if self.image_bounds is Some {
                lemma_span_inside(c.pos.x as int, c.size.x as int);
                lemma_span_inside(c.pos.y as int, c.size.y as int);
            }
        }
        c
    }

    /// Moves the rectangle.
    fn drag_move(
        &self,
        crop: Crop,
        state: MoveState,
        direction: Vec2D,
        modifier: Modifiers,
    ) -> (c: Crop)
        requires
            self.fits(),
            self.crop == Some(crop),
            self.action == Some(CropToolAction::Move(state)),
            input_ok(direction.x as int),
            input_ok(direction.y as int),
        ensures
            self.is_dragged(direction, modifier, c),
            c == (Crop { pos: c.pos, size: c.size, ..crop }),
            c.size.ok(),
            self.image_bounds is Some ==> c.fits(),
    {
        let active: bool = self.snap_active(modifier);
        let bx: Option<i64> = match self.image_bounds {
            Some(b) => Some(b.x),
            None => None,
        };
        let by: Option<i64> = match self.image_bounds {
            Some(b) => Some(b.y),
            None => None,
        };
        let mut c: Crop = crop;
        let x: i64 = move_axis(state.start.x, direction.x, crop.size.x, active, bx);
        let y: i64 = move_axis(state.start.y, direction.y, crop.size.y, active, by);
        c.pos = Vec2D::new(x, y);
        c
    }

    /// A drag step: opens, reshapes or moves the rectangle. Only the first
    /// two report a new size.
    #[verifier::rlimit(60)]
    pub fn update_drag(
        &mut self,
        direction: Vec2D,
        modifier: Modifiers,
        out: &mut Vec<CropMessage>,
    ) -> (r: ToolUpdateResult<Crop>)
        requires
            old(self).fits(),
            input_ok(direction.x as int),
            input_ok(direction.y as int),
            old(self).opening_ok(),
        ensures
            r is Redraw || r is Unmodified,
            old(self).drag_step(direction, modifier, *final(self), r is Redraw),
            final(out)@ == old(out)@ + old(self).drag_msgs(*final(self)),
            old(self).image_bounds is Some ==> final(self).fits(),
            final(self).opening_ok(),
    {
        let crop: Crop = match self.crop {
            Some(c) => c,
            None => {
                assert(out@ == old(out)@ + Seq::<CropMessage>::empty());
                return ToolUpdateResult::Unmodified;
            },
        };
        let action: CropToolAction = match self.action {
            Some(a) => a,
            None => {
                assert(out@ == old(out)@ + Seq::<CropMessage>::empty());
                return ToolUpdateResult::Unmodified;
            },
        };
        let dragged: Crop = match action {
            CropToolAction::NewCrop => self.drag_new(crop, direction, modifier),
            CropToolAction::DragHandle(state) => self.drag_handle(
                crop,
                state,
                direction,
                modifier,
            ),
            CropToolAction::Move(state) => self.drag_move(crop, state, direction, modifier),
        };
        self.crop = Some(dragged);
        match action {
            CropToolAction::Move(_) => {
                assert(out@ == old(out)@ + Seq::<CropMessage>::empty());
            },
            _ => self.emit_crop_edit_dimensions(out),
        }
        ToolUpdateResult::Redraw
    }
}

impl Crop {
    /// The point is strictly inside the rectangle grown by `margin`.
    pub open spec fn inside(&self, p: Vec2D, margin: int) -> bool {
        &&& self.left() - margin < p.x < self.right() + margin
        &&& self.top() - margin < p.y < self.bottom() + margin
    }
}

impl CropTool {
    /// The point is strictly inside the crop grown by `margin`.
    pub fn test_inside_crop(&self, mouse_pos: Vec2D, margin: i64) -> (r: bool)
        requires
            self.crop matches Some(c) ==> rect_fits(c.pos, c.size),
            input_ok(margin as int),
        ensures
            r == (self.crop matches Some(c) && c.inside(mouse_pos, margin as int)),
    {
        match &self.crop {
            Some(c) => {
                let (pos, size): (Vec2D, Vec2D) = c.get_rectangle();
                pos.x - margin < mouse_pos.x && mouse_pos.x < pos.x + size.x + margin && pos.y
                    - margin < mouse_pos.y && mouse_pos.y < pos.y + size.y + margin
            },
            None => false,
        }
    }

    /// The point is outside the known image.
    pub open spec fn off_image(&self, p: Vec2D) -> bool {
        self.image_bounds matches Some(b) && (p.x < 0 || p.y < 0 || p.x > b.x || p.y > b.y)
    }

    /// The handle of the crop under the point.
    pub open spec fn handle_under(&self, p: Vec2D) -> Option<CropHandle> {
        match self.crop {
            Some(c) => match c.hit_kind_spec(p, self.render_scale as int) {
                Some(CropHit::Handle(h)) => Some(h),
                _ => None,
            },
            None => None,
        }
    }

    /// A drag that grabs the handle `h` of `c`.
    pub open spec fn grabs(c: Crop, h: CropHandle) -> CropToolAction {
        CropToolAction::DragHandle(
            DragHandleState {
                handle: h,
                top_left_start: c.pos,
                bottom_right_start: Vec2D {
                    x: (c.pos.x + c.size.x) as i64,
                    y: (c.pos.y + c.size.y) as i64,
                },
            },
        )
    }

    /// `a` is the drag that a press at `p` begins; `None` where the press is
    /// ignored. A handle is grabbed first, then the inside is moved, then the
    /// nearest handle is grabbed from a little outside. Presses off the image
    /// count only on a handle.
    pub open spec fn begins(&self, p: Vec2D, a: Option<CropToolAction>) -> bool {
        if self.off_image(p) && self.handle_under(p) is None {
            a is None
        } else {
            match self.crop {
                None => a == Some(CropToolAction::NewCrop),
                Some(c) => match self.handle_under(p) {
                    Some(h) => a == Some(CropTool::grabs(c, h)),
                    None => if c.inside(p, 0) {
                        a == Some(CropToolAction::Move(MoveState { start: c.pos }))
                    } else if c.inside(p, HANDLE_MARGIN_OUT as int) {
                        exists|h: CropHandle, d: int| #[trigger]
                            c.is_closest(h, p, d) && a == Some(CropTool::grabs(c, h))
                    } else {
                        a is None
                    },
                },
            }
        }
    }

    /// A press at `pos` turns the tool into `post`; `redraw` tells whether it
    /// had any effect. A crop that was not there is created where the press
    /// was.
    pub open spec fn begin_step(&self, pos: Vec2D, post: CropTool, redraw: bool) -> bool {
        if self.begins(pos, None) {
            !redraw && post == *self
        } else {
            &&& redraw
            &&& self.begins(pos, post.action)
            &&& post == (CropTool {
                action: post.action,
                crop: Some(
                    match self.crop {
                        Some(c) => Crop { active: true, ..c },
                        None => Crop {
                            pos,
                            size: Vec2D { x: 0, y: 0 },
                            active: true,
                            committed: false,
                            ever_committed: false,
                            last_committed: None,
                            bg_color: self.bg_color,
                        },
                    },
                ),
                ..*self
            })
        }
    }

    /// What a press reports: a crop that it created.
    pub open spec fn begin_msgs(&self, redraw: bool) -> Seq<CropMessage> {
        if redraw && self.crop is None {
            self.sent(seq![CropMessage::CropPresenceChanged(true)])
        } else {
            Seq::empty()
        }
    }

    /// A press of the primary button: begins a drag.
    pub fn begin_drag(&mut self, pos: Vec2D, out: &mut Vec<CropMessage>) -> (r: ToolUpdateResult<
        Crop,
    >)
        requires
            old(self).fits(),
            input_ok(pos.x as int),
            input_ok(pos.y as int),
        ensures
            final(self).fits(),
            r is Redraw || r is Unmodified,
            old(self).begin_step(pos, *final(self), r is Redraw),
            final(out)@ == old(out)@ + old(self).begin_msgs(r is Redraw),
            old(self).opening_ok() ==> final(self).opening_ok(),
    {
        let under: Option<CropHandle> = match &self.crop {
            Some(c) => match c.hit_kind(pos, self.render_scale) {
                Some(CropHit::Handle(h)) => Some(h),
                _ => None,
            },
            None => None,
        };
        if let Some(b) = self.image_bounds {
            let outside: bool = pos.x < 0 || pos.y < 0 || pos.x > b.x || pos.y > b.y;
            if outside && under.is_none() {
                assert(out@ == old(out)@ + Seq::<CropMessage>::empty());
                return ToolUpdateResult::Unmodified;
            }
        }
        match self.crop {
            None => {
                self.crop = Some(Crop::new(pos, self.bg_color));
                self.action = Some(CropToolAction::NewCrop);
                self.emit(out, CropMessage::CropPresenceChanged(true));
            },
            Some(c) => {
                let br: Vec2D = c.pos.plus(c.size);
                if let Some(handle) = under {
                    self.action = Some(
                        CropToolAction::DragHandle(
                            DragHandleState {
                                handle,
                                top_left_start: c.pos,
                                bottom_right_start: br,
                            },
                        ),
                    );
                } else if self.test_inside_crop(pos, 0) {
                    self.action = Some(CropToolAction::Move(MoveState { start: c.pos }));
                } else if self.test_inside_crop(pos, HANDLE_MARGIN_OUT) {
                    let (handle, d): (CropHandle, i128) = c.get_closest_handle(pos);
                    assert(c.is_closest(handle, pos, d as int));
                    self.action = Some(
                        CropToolAction::DragHandle(
                            DragHandleState {
                                handle,
                                top_left_start: c.pos,
                                bottom_right_start: br,
                            },
                        ),
                    );
                } else {
                    assert(out@ == old(out)@ + Seq::<CropMessage>::empty());
                    return ToolUpdateResult::Unmodified;
                }
                self.crop = Some(Crop { active: true, ..c });
                assert(out@ == old(out)@ + Seq::<CropMessage>::empty());
            },
        }
        ToolUpdateResult::Redraw
    }

    /// The end of a drag: one last step, after which nothing is dragged.
    pub open spec fn end_step(
        &self,
        d: Vec2D,
        modifier: Modifiers,
        post: CropTool,
        redraw: bool,
    ) -> bool {
        &&& post.action is None
        &&& self.drag_step(d, modifier, CropTool { action: self.action, ..post }, redraw)
    }

    /// The release that ends a drag: one last step, and the drag is over.
    pub fn end_drag(
        &mut self,
        direction: Vec2D,
        modifier: Modifiers,
        out: &mut Vec<CropMessage>,
    ) -> (r: ToolUpdateResult<Crop>)
        requires
            old(self).fits(),
            input_ok(direction.x as int),
            input_ok(direction.y as int),
            old(self).opening_ok(),
        ensures
            r is Redraw || r is Unmodified,
            old(self).end_step(direction, modifier, *final(self), r is Redraw),
            final(out)@ == old(out)@ + old(self).drag_msgs(*final(self)),
            old(self).image_bounds is Some ==> final(self).fits(),
            final(self).opening_ok(),
    {
        let result: ToolUpdateResult<Crop> = self.update_drag(direction, modifier, out);
        let ghost mid = *self;
        self.action = None;
        assert(CropTool { action: old(self).action, ..*self } == mid);
        match result {
            ToolUpdateResult::Unmodified => ToolUpdateResult::Unmodified,
            _ => ToolUpdateResult::Redraw,
        }
    }
}

impl Default for CropTool {
    fn default() -> (r: CropTool)
        ensures
            r == (CropTool {
                crop: None,
                action: None,
                input_enabled: false,
                connected: false,
                snap_to_edges: true,
                image_bounds: None,
                aspect_ratio: AspectRatio::Freeform,
                bg_color: CropBgColor::Auto,
                render_scale: MICRO,
                held_arrows: 0,
            }),
            r.fits(),
    {
        CropTool {
            crop: None,
            action: None,
            input_enabled: false,
            connected: false,
            snap_to_edges: true,
            image_bounds: None,
            aspect_ratio: AspectRatio::Freeform,
            bg_color: CropBgColor::Auto,
            render_scale: MICRO,
            held_arrows: 0,
        }
    }
}

/// The crop that covers the whole image, ready to be edited.
pub open spec fn seed(bounds: Vec2D, bg_color: CropBgColor) -> Crop {
    Crop {
        pos: Vec2D { x: 0, y: 0 },
        size: bounds,
        active: true,
        committed: false,
        ever_committed: false,
        last_committed: None,
        bg_color,
    }
}

/// One axis of the rectangle that is committed: the part inside the image.
pub open spec fn commit_lo(lo: int, bound: Option<int>) -> int {
    match bound {
        Some(b) => clamp_spec(lo, 0, b),
        None => lo,
    }
}

impl CropTool {
    pub fn get_crop(&self) -> (r: Option<&Crop>)
        ensures
            match r {
                Some(c) => self.crop == Some(*c),
                None => self.crop is None,
            },
    {
        match &self.crop {
            Some(c) => Some(c),
            None => None,
        }
    }

    /// The committed rectangle, where there is one with an area.
    pub open spec fn committed_rect_spec(&self) -> Option<(Vec2D, Vec2D)> {
        match self.crop {
            Some(c) => if c.committed && c.size.x != 0 && c.size.y != 0 {
                Some(
                    (
                        Vec2D { x: c.left() as i64, y: c.top() as i64 },
                        Vec2D {
                            x: abs_spec(c.size.x as int) as i64,
                            y: abs_spec(c.size.y as int) as i64,
                        },
                    ),
                )
            } else {
                None
            },
            None => None,
        }
    }

    /// The committed rectangle, where there is one with an area.
    pub fn get_committed_rect(&self) -> (r: Option<(Vec2D, Vec2D)>)
        requires
            self.fits(),
        ensures
            r == self.committed_rect_spec(),
    {
        match &self.crop {
            Some(c) => {
                if !c.committed {
                    return None;
                }
                let (pos, size): (Vec2D, Vec2D) = c.get_rectangle();
                if size.x <= 0 || size.y <= 0 {
                    return None;
                }
                Some((pos, size))
            },
            None => None,
        }
    }

    /// Replaces the rectangle of a committed crop, and the one that leaving
    /// an edit falls back to. Without a committed crop nothing happens.
    pub fn set_committed_rect(&mut self, pos: Vec2D, size: Vec2D)
        ensures
            *final(self) == match old(self).crop {
                Some(c) if c.committed => CropTool {
                    crop: Some(Crop { pos, size, last_committed: Some((pos, size)), ..c }),
                    ..*old(self)
                },
                _ => *old(self),
            },
            old(self).fits() && rect_fits(pos, size) ==> final(self).fits(),
    {
        if let Some(c) = self.crop {
            if c.committed {
                self.crop = Some(Crop { pos, size, last_committed: Some((pos, size)), ..c });
            }
        }
    }

    /// The crop covers the whole image, to within half a pixel; also where
    /// there is no crop or no image.
    pub open spec fn full_image_spec(&self) -> bool {
        match (self.crop, self.image_bounds) {
            (Some(c), Some(b)) => {
                &&& 2 * abs_spec(c.left()) < UNIT
                &&& 2 * abs_spec(c.top()) < UNIT
                &&& 2 * abs_spec(abs_spec(c.size.x as int) - b.x) < UNIT
                &&& 2 * abs_spec(abs_spec(c.size.y as int) - b.y) < UNIT
            },
            _ => true,
        }
    }

    /// The crop covers the whole image, to within half a pixel; also where
    /// there is no crop or no image.
    pub fn is_full_image_crop(&self) -> (r: bool)
        requires
            self.fits(),
        ensures
            r == self.full_image_spec(),
    {
        match (&self.crop, self.image_bounds) {
            (Some(c), Some(b)) => {
                let (pos, size): (Vec2D, Vec2D) = c.get_rectangle();
                2 * abs_len(pos.x) < UNIT && 2 * abs_len(pos.y) < UNIT && 2 * abs_len(
                    size.x - b.x,
                ) < UNIT && 2 * abs_len(size.y - b.y) < UNIT
            },
            _ => true,
        }
    }

    /// `t` maps the rectangle to coordinates.
    pub open spec fn maps_to_coords(t: CanvasTransform, pos: Vec2D, size: Vec2D) -> bool {
        t.fits(pos.x as int, pos.y as int) && t.fits(pos.x + size.x, pos.y + size.y)
    }

    /// `(pos, size)` is the image of `(p, s)` under `t`.
    pub open spec fn is_mapped(
        t: CanvasTransform,
        w: i64,
        h: i64,
        p: Vec2D,
        s: Vec2D,
        pos: Vec2D,
        size: Vec2D,
    ) -> bool {
        t.is_mapped_rect(
            Rect { pos: p, size: s },
            w as int,
            h as int,
            Rect { pos, size },
        )
    }

    /// Both corners of the rectangle are mapped well within the limits of
    /// crop geometry.
    pub open spec fn rect_survives(t: CanvasTransform, w: int, h: int, p: Vec2D, s: Vec2D) -> bool {
        let m = 2 * INPUT_MAX;
        &&& CropTool::maps_to_coords(t, p, s)
        &&& -m <= t.map_x(p.x as int, p.y as int, w, h) <= m
        &&& -m <= t.map_y(p.x as int, p.y as int, w, h) <= m
        &&& -m <= t.map_x(p.x + s.x, p.y + s.y, w, h) <= m
        &&& -m <= t.map_y(p.x + s.x, p.y + s.y, w, h) <= m
    }

    /// A transform leaves the crop, and the one last committed, within the
    /// limits of crop geometry.
    pub open spec fn survives(&self, t: CanvasTransform, w: int, h: int) -> bool {
        self.crop matches Some(c) ==> {
            &&& CropTool::rect_survives(t, w, h, c.pos, c.size)
            &&& c.last_committed matches Some((p, s)) ==> CropTool::rect_survives(t, w, h, p, s)
        }
    }

    fn rect_can_survive(t: CanvasTransform, w: i64, h: i64, p: Vec2D, s: Vec2D) -> (r: bool)
        requires
            t.wf(),
            rect_fits(p, s),
            input_ok(w as int),
            input_ok(h as int),
        ensures
            r == CropTool::rect_survives(t, w as int, h as int, p, s),
    {
        let q: Vec2D = Vec2D::new(p.x + s.x, p.y + s.y);
        if !t.can_map(p) || !t.can_map(q) {
            return false;
        }
        let a: Vec2D = t.map_point(p, w, h);
        let b: Vec2D = t.map_point(q, w, h);
        let m: i64 = 2 * INPUT_MAX;
        -m <= a.x && a.x <= m && -m <= a.y && a.y <= m && -m <= b.x && b.x <= m && -m <= b.y
            && b.y <= m
    }

    /// Whether a transform leaves the crop, and the one last committed, within
    /// the limits of crop geometry.
    pub fn can_survive(&self, t: CanvasTransform, w: i64, h: i64) -> (r: bool)
        requires
            self.fits(),
            t.wf(),
            input_ok(w as int),
            input_ok(h as int),
        ensures
            r == self.survives(t, w as int, h as int),
    {
        match self.crop {
            Some(c) => CropTool::rect_can_survive(t, w, h, c.pos, c.size) && match c.last_committed {
                Some((p, s)) => CropTool::rect_can_survive(t, w, h, p, s),
                None => true,
            },
            None => true,
        }
    }

    /// What a whole-canvas transform makes of the tool, and what it says.
    pub open spec fn transform_step(
        &self,
        t: CanvasTransform,
        old_w: i64,
        old_h: i64,
        post: CropTool,
        before: Seq<CropMessage>,
        after: Seq<CropMessage>,
    ) -> bool {
        &&& self.crop is None ==> post == *self && after =~= before
        &&& self.crop matches Some(c0) ==> {
                &&& post.crop matches Some(c)
                &&& post == (CropTool { crop: Some(c), ..*self })
                &&& c == (Crop {
                    pos: c.pos,
                    size: c.size,
                    last_committed: c.last_committed,
                    ..c0
                })
                &&& CropTool::is_mapped(t, old_w, old_h, c0.pos, c0.size, c.pos, c.size)
                &&& match (c0.last_committed, c.last_committed) {
                    (Some((p0, s0)), Some((p, s))) => CropTool::is_mapped(
                        t,
                        old_w,
                        old_h,
                        p0,
                        s0,
                        p,
                        s,
                    ),
                    (None, None) => true,
                    _ => false,
                }
                &&& after =~= before + self.sent(seq![edit_dimensions(c)])
            }
    }

    /// Carries the crop, and the one last committed, through a whole-canvas
    /// transform of an image of size `old_w` by `old_h`.
    #[verifier::spinoff_prover]
    #[verifier::rlimit(60)]
    pub fn apply_canvas_transform(
        &mut self,
        t: CanvasTransform,
        old_w: i64,
        old_h: i64,
        out: &mut Vec<CropMessage>,
    )
        requires
            old(self).fits(),
            t.wf(),
            input_ok(old_w as int),
            input_ok(old_h as int),
            old(self).crop matches Some(c) ==> {
                &&& CropTool::maps_to_coords(t, c.pos, c.size)
                &&& c.last_committed matches Some((p, s)) ==> CropTool::maps_to_coords(t, p, s)
            },
        ensures
            old(self).transform_step(t, old_w, old_h, *final(self), old(out)@, final(out)@),
            old(self).survives(t, old_w as int, old_h as int) ==> final(self).fits(),
    {
        if let Some(c) = self.crop {
            let r: Rect = t.map_rect(Rect::new(c.pos, c.size), old_w, old_h);
            let last: Option<(Vec2D, Vec2D)> = match c.last_committed {
                Some((lp, ls)) => {
                    let lr: Rect = t.map_rect(Rect::new(lp, ls), old_w, old_h);
                    Some((lr.pos, lr.size))
                },
                None => None,
            };
            self.crop = Some(Crop { pos: r.pos, size: r.size, last_committed: last, ..c });
            self.emit_crop_edit_dimensions(out);
        }
    }

    /// What dropping the crop makes of the tool, and what it says.
    pub open spec fn revert_step(
        &self,
        post: CropTool,
        before: Seq<CropMessage>,
        after: Seq<CropMessage>,
    ) -> bool {
        &&& post == (CropTool { crop: None, action: None, ..*self })
        &&& after =~= before + self.sent(
                seq![
                    CropMessage::DimensionsUpdate(None),
                    CropMessage::CropPresenceChanged(false),
                ] + match self.image_bounds {
                    Some(b) => seq![content_size(b.x as int, b.y as int)],
                    None => Seq::empty(),
                },
            )
    }

    /// Drops the crop: the full image is shown again.
    pub fn revert(&mut self, out: &mut Vec<CropMessage>)
        ensures
            old(self).revert_step(*final(self), old(out)@, final(out)@),
    {
        self.crop = None;
        self.action = None;
        self.emit(out, CropMessage::DimensionsUpdate(None));
        self.emit(out, CropMessage::CropPresenceChanged(false));
        if let Some(b) = self.image_bounds {
            self.emit(out, CropMessage::ContentSizeChanged { width: b.x, height: b.y });
        }
        assert(out@ == old(out)@ + old(self).sent(
            seq![CropMessage::DimensionsUpdate(None), CropMessage::CropPresenceChanged(false)]
                + match old(self).image_bounds {
                Some(b) => seq![content_size(b.x as int, b.y as int)],
                None => Seq::empty(),
            },
        ));
    }

    /// What starting over makes of the tool, and what it says.
    pub open spec fn seed_step(
        &self,
        emit_resize: bool,
        post: CropTool,
        before: Seq<CropMessage>,
        after: Seq<CropMessage>,
    ) -> bool {
        &&& self.image_bounds matches Some(b) ==> {
                &&& post == (CropTool {
                    crop: Some(seed(b, self.bg_color)),
                    action: None,
                    ..*self
                })
                &&& after =~= before + self.sent(
                    seq![
                        CropMessage::DimensionsUpdate(None),
                        CropMessage::CropPresenceChanged(true),
                    ] + if emit_resize {
                        seq![content_size(b.x as int, b.y as int)]
                    } else {
                        Seq::empty()
                    },
                )
            }
        &&& self.image_bounds is None ==> {
                &&& post == (CropTool { crop: None, action: None, ..*self })
                &&& after =~= before + self.sent(
                    seq![
                        CropMessage::DimensionsUpdate(None),
                        CropMessage::CropPresenceChanged(false),
                    ],
                )
            }
    }

    /// Starts the edit over from the whole image; without a known image the
    /// crop is dropped.
    pub fn revert_to_seed(&mut self, emit_resize: bool, out: &mut Vec<CropMessage>)
        ensures
            old(self).seed_step(emit_resize, *final(self), old(out)@, final(out)@),
            old(self).fits() ==> final(self).fits(),
    {
        let bounds: Vec2D = match self.image_bounds {
            Some(b) => b,
            None => {
                self.revert(out);
                assert(seq![
                    CropMessage::DimensionsUpdate(None),
                    CropMessage::CropPresenceChanged(false),
                ] + Seq::<CropMessage>::empty() == seq![
                    CropMessage::DimensionsUpdate(None),
                    CropMessage::CropPresenceChanged(false),
                ]);
                return;
            },
        };
        self.crop = Some(
            Crop {
                pos: Vec2D::zero(),
                size: bounds,
                active: true,
                committed: false,
                ever_committed: false,
                last_committed: None,
                bg_color: self.bg_color,
            },
        );
        self.action = None;
        self.emit(out, CropMessage::DimensionsUpdate(None));
        self.emit(out, CropMessage::CropPresenceChanged(true));
        if emit_resize {
            self.emit(out, CropMessage::ContentSizeChanged { width: bounds.x, height: bounds.y });
        }
        assert(out@ == old(out)@ + old(self).sent(
            seq![CropMessage::DimensionsUpdate(None), CropMessage::CropPresenceChanged(true)]
                + if emit_resize {
                seq![content_size(bounds.x as int, bounds.y as int)]
            } else {
                Seq::empty()
            },
        ));
    }

    /// The tool after a cancel: a crop that was never applied is dropped.
    pub open spec fn cancelled(&self) -> CropTool {
        CropTool {
            crop: match self.crop {
                Some(c) => if c.ever_committed {
                    Some(c)
                } else {
                    None
                },
                None => None,
            },
            action: None,
            ..*self
        }
    }

    /// What a cancel reports.
    pub open spec fn cancel_msgs(&self) -> Seq<CropMessage> {
        self.sent(
            if self.crop matches Some(c) && !c.ever_committed {
                seq![
                    CropMessage::CropPresenceChanged(false),
                    CropMessage::ExitCropToPreviousTool,
                ]
            } else {
                seq![CropMessage::ExitCropToPreviousTool]
            },
        )
    }

    /// Leaves the tool without applying anything. A crop that was never
    /// applied is dropped.
    pub fn cancel(&mut self, out: &mut Vec<CropMessage>) -> (r: ToolUpdateResult<Crop>)
        ensures
            r is Redraw,
            *final(self) == old(self).cancelled(),
            final(out)@ == old(out)@ + old(self).cancel_msgs(),
            old(self).fits() ==> final(self).fits(),
    {
        let cleared: bool = match &self.crop {
            Some(c) => !c.ever_committed,
            None => false,
        };
        if cleared {
            self.crop = None;
        }
        self.action = None;
        if cleared {
            self.emit(out, CropMessage::CropPresenceChanged(false));
        }
        self.emit(out, CropMessage::ExitCropToPreviousTool);
        assert(out@ == old(out)@ + old(self).sent(
            if cleared {
                seq![
                    CropMessage::CropPresenceChanged(false),
                    CropMessage::ExitCropToPreviousTool,
                ]
            } else {
                seq![CropMessage::ExitCropToPreviousTool]
            },
        ));
        ToolUpdateResult::Redraw
    }

    /// An edit is there to be applied.
    pub open spec fn can_commit(&self) -> bool {
        self.crop matches Some(c) && c.active
    }

    /// `c` is the applied form of the crop: the part of its rectangle inside
    /// the image, remembered as last committed.
    pub open spec fn is_committed_form(&self, c: Crop) -> bool {
        let c0 = self.crop->0;
        let bx = bound_x(self.image_bounds);
        let by = bound_y(self.image_bounds);
        &&& c.pos.x == commit_lo(c0.left(), bx)
        &&& c.pos.y == commit_lo(c0.top(), by)
        &&& c.pos.x + c.size.x == commit_lo(c0.right(), bx)
        &&& c.pos.y + c.size.y == commit_lo(c0.bottom(), by)
        &&& c == (Crop {
            pos: c.pos,
            size: c.size,
            active: false,
            committed: true,
            ever_committed: true,
            last_committed: Some((c.pos, c.size)),
            bg_color: c0.bg_color,
        })
    }

    /// Applying turns the tool into `post`; `redraw` tells whether there was
    /// anything to apply.
    pub open spec fn commit_step(&self, post: CropTool, redraw: bool) -> bool {
        if self.can_commit() {
            &&& redraw
            &&& post.crop matches Some(c)
            &&& self.is_committed_form(c)
            &&& post == (CropTool { crop: Some(c), action: None, ..*self })
        } else {
            !redraw && post == *self
        }
    }

    /// What applying reports: the size now shown, the size of the output, and
    /// the way back to the pointer tool and the canvas.
    pub open spec fn commit_msgs(&self, post: CropTool) -> Seq<CropMessage> {
        if self.can_commit() {
            let size = post.crop->0.size;
            self.sent(
                seq![
                    content_size(size.x as int, size.y as int),
                    CropMessage::DimensionsUpdate(
                        Some(
                            (
                                sat_i32_spec(round_px_spec(size.x as int)),
                                sat_i32_spec(round_px_spec(size.y as int)),
                            ),
                        ),
                    ),
                    CropMessage::ToolSelected(Tools::Pointer),
                    CropMessage::FocusCanvas,
                ],
            )
        } else {
            Seq::empty()
        }
    }

    /// Applies the edit and leaves the tool.
    pub fn commit(&mut self, out: &mut Vec<CropMessage>) -> (r: ToolUpdateResult<Crop>)
        requires
            old(self).fits(),
        ensures
            r is Redraw || r is Unmodified,
            old(self).commit_step(*final(self), r is Redraw),
            final(out)@ == old(out)@ + old(self).commit_msgs(*final(self)),
            final(self).fits(),
    {
        let crop: Crop = match self.crop {
            Some(c) => c,
            None => {
                assert(out@ == old(out)@ + Seq::<CropMessage>::empty());
                return ToolUpdateResult::Unmodified;
            },
        };
        if !crop.active {
            assert(out@ == old(out)@ + Seq::<CropMessage>::empty());
            return ToolUpdateResult::Unmodified;
        }
        let (mut pos, mut size): (Vec2D, Vec2D) = crop.get_rectangle();
        if let Some(b) = self.image_bounds {
            let left: i64 = clamp_len(pos.x, 0, b.x);
            let top: i64 = clamp_len(pos.y, 0, b.y);
            let right: i64 = clamp_len(pos.x + size.x, 0, b.x);
            let bottom: i64 = clamp_len(pos.y + size.y, 0, b.y);
            pos = Vec2D::new(left, top);
            size = Vec2D::new(max_len(right - left, 0), max_len(bottom - top, 0));
        }
        let done: Crop = Crop {
            pos,
            size,
            active: false,
            committed: true,
            ever_committed: true,
            last_committed: Some((pos, size)),
            bg_color: crop.bg_color,
        };
        assert(old(self).is_committed_form(done));
        self.crop = Some(done);
        self.action = None;
        self.emit(out, CropMessage::ContentSizeChanged { width: size.x, height: size.y });
        self.emit(
            out,
            CropMessage::DimensionsUpdate(
                Some((sat_i32(round_px(size.x)), sat_i32(round_px(size.y)))),
            ),
        );
        self.emit(out, CropMessage::ToolSelected(Tools::Pointer));
        self.emit(out, CropMessage::FocusCanvas);
        assert(out@ == old(out)@ + old(self).sent(
            seq![
                content_size(size.x as int, size.y as int),
                CropMessage::DimensionsUpdate(
                    Some(
                        (
                            sat_i32_spec(round_px_spec(size.x as int)),
                            sat_i32_spec(round_px_spec(size.y as int)),
                        ),
                    ),
                ),
                CropMessage::ToolSelected(Tools::Pointer),
                CropMessage::FocusCanvas,
            ],
        ));
        ToolUpdateResult::Redraw
    }

    /// A crop is being edited and not applied.
    pub open spec fn active_edit_spec(&self) -> bool {
        self.crop matches Some(c) && c.active && !c.committed
    }

    pub fn is_active_edit(&self) -> (r: bool)
        ensures
            r == self.active_edit_spec(),
    {
        match &self.crop {
            Some(c) => c.active && !c.committed,
            None => false,
        }
    }

    pub fn set_render_scale(&mut self, scale: i64)
        ensures
            *final(self) == (CropTool { render_scale: scale, ..*old(self) }),
    {
        self.render_scale = scale;
    }

    pub fn set_snap_to_edges(&mut self, value: bool)
        ensures
            *final(self) == (CropTool { snap_to_edges: value, ..*old(self) }),
    {
        self.snap_to_edges = value;
    }

    pub fn snap_to_edges(&self) -> (r: bool)
        ensures
            r == self.snap_to_edges,
    {
        self.snap_to_edges
    }

    pub fn set_image_bounds(&mut self, bounds: Vec2D)
        ensures
            *final(self) == (CropTool { image_bounds: Some(bounds), ..*old(self) }),
    {
        self.image_bounds = Some(bounds);
    }

    pub fn aspect_ratio(&self) -> (r: AspectRatio)
        ensures
            r == self.aspect_ratio,
    {
        self.aspect_ratio
    }

    /// Sets the matte color, also of the crop being shown.
    pub fn set_bg_color(&mut self, bg: CropBgColor)
        ensures
            *final(self) == (CropTool {
                bg_color: bg,
                crop: match old(self).crop {
                    Some(c) => Some(Crop { bg_color: bg, ..c }),
                    None => None,
                },
                ..*old(self)
            }),
    {
        self.bg_color = bg;
        if let Some(c) = self.crop {
            self.crop = Some(Crop { bg_color: bg, ..c });
        }
    }

    pub fn bg_color(&self) -> (r: CropBgColor)
        ensures
            r == self.bg_color,
    {
        self.bg_color
    }

    pub fn input_enabled(&self) -> (r: bool)
        ensures
            r == self.input_enabled,
    {
        self.input_enabled
    }

    pub fn set_input_enabled(&mut self, value: bool)
        ensures
            *final(self) == (CropTool { input_enabled: value, ..*old(self) }),
    {
        self.input_enabled = value;
    }

    pub fn get_tool_type(&self) -> (r: Tools)
        ensures
            r == Tools::Crop,
    {
        Tools::Crop
    }

    /// From now on messages have somewhere to go.
    pub fn set_sender(&mut self)
        ensures
            *final(self) == (CropTool { connected: true, ..*old(self) }),
    {
        self.connected = true;
    }

    /// A right click on an edit: drops the crop.
    fn handle_deactivate_and_reset(&mut self, out: &mut Vec<CropMessage>) -> (r: ToolUpdateResult<
        Crop,
    >)
        ensures
            r is RedrawAndStopPropagation,
            *final(self) == (CropTool { crop: None, action: None, ..*old(self) }),
            final(out)@ == old(out)@ + old(self).sent(
                seq![
                    CropMessage::CropPresenceChanged(false),
                    CropMessage::DimensionsUpdate(None),
                ],
            ),
    {
        self.crop = None;
        self.action = None;
        self.emit(out, CropMessage::CropPresenceChanged(false));
        self.emit(out, CropMessage::DimensionsUpdate(None));
        assert(out@ == old(out)@ + old(self).sent(
            seq![CropMessage::CropPresenceChanged(false), CropMessage::DimensionsUpdate(None)],
        ));
        ToolUpdateResult::RedrawAndStopPropagation
    }
}

/// `v` in `lo..=hi`.
fn clamp_range_wide(v: i128, lo: i64, hi: i64) -> (r: i64)
    requires
        lo <= hi,
    ensures
        r == clamp_spec(v as int, lo as int, hi as int),
{
    if v <= lo as i128 {
        lo
    } else if v >= hi as i128 {
        hi
    } else {
        v as i64
    }
}

/// New length of a span that grows by `d` within an image of length `bound`.
pub open spec fn grown_size(size: int, d: int, bound: int) -> int {
    if d == 0 {
        size
    } else {
        clamp_spec(size + d, MIN_SIDE as int, bound)
    }
}

/// New start of a span that keeps its center as its length goes from `size`
/// to `n`, and is pushed back inside the image.
pub open spec fn grown_pos(pos: int, size: int, n: int, bound: int) -> int {
    if n == size {
        pos
    } else {
        clamp_spec(pos + (size - n) / 2, 0, max_spec(bound - n, 0))
    }
}

/// One axis of a symmetric resize: the new start and length.
fn grow_axis(pos: i64, size: i64, d: i64, bound: i64) -> (r: (i64, i64))
    requires
        span_fits(pos as int, size as int),
        -4 * CROP_MAX <= d <= 4 * CROP_MAX,
        UNIT <= bound <= INPUT_MAX,
    ensures
        r.1 == grown_size(size as int, d as int, bound as int),
        r.0 == grown_pos(pos as int, size as int, r.1 as int, bound as int),
        span_fits(r.0 as int, r.1 as int),
{
    let n: i64 = if d == 0 {
        size
    } else {
        clamp_len(size + d, MIN_SIDE, bound)
    };
    if n == size {
        return (pos, size);
    }
    (clamp_len(pos + half(size - n), 0, max_len(bound - n, 0)), n)
}

/// The arrow keys in `held` as a step: right and down count up.
pub open spec fn held_dx(held: u8, step: int) -> int {
    (if held & ARROW_RIGHT != 0 {
        step
    } else {
        0
    }) - (if held & ARROW_LEFT != 0 {
        step
    } else {
        0
    })
}

/// The arrow keys in `held` as a step: right and down count up.
pub open spec fn held_dy(held: u8, step: int) -> int {
    (if held & ARROW_DOWN != 0 {
        step
    } else {
        0
    }) - (if held & ARROW_UP != 0 {
        step
    } else {
        0
    })
}

/// How far the arrow keys in `held` move a corner.
fn held_step(held: u8, step: i64) -> (r: (i64, i64))
    requires
        input_ok(step as int),
    ensures
        r.0 == held_dx(held, step as int),
        r.1 == held_dy(held, step as int),
{
    let right: i64 = if held & ARROW_RIGHT != 0 {
        step
    } else {
        0
    };
    let left: i64 = if held & ARROW_LEFT != 0 {
        step
    } else {
        0
    };
    let down: i64 = if held & ARROW_DOWN != 0 {
        step
    } else {
        0
    };
    let up: i64 = if held & ARROW_UP != 0 {
        step
    } else {
        0
    };
    (right - left, down - up)
}

/// The edges after the arrow keys moved the bottom right corner, or with
/// shift the top left one, freely: each moved edge stays inside the image and
/// a pixel away from the opposite edge.
pub open spec fn arrow_edges(e: Edges, dx: int, dy: int, shift: bool, b: Vec2D) -> Edges {
    if shift {
        Edges {
            l: clamp_spec(e.l + dx, 0, e.r - MIN_SIDE),
            t: clamp_spec(e.t + dy, 0, e.b - MIN_SIDE),
            ..e
        }
    } else {
        Edges {
            r: clamp_spec(e.r + dx, e.l + MIN_SIDE, b.x as int),
            b: clamp_spec(e.b + dy, e.t + MIN_SIDE, b.y as int),
            ..e
        }
    }
}

/// There is room for the moved edges of [`arrow_edges`].
pub open spec fn arrow_room(e: Edges, shift: bool, b: Vec2D) -> bool {
    if shift {
        e.r >= MIN_SIDE && e.b >= MIN_SIDE
    } else {
        e.l + MIN_SIDE <= b.x && e.t + MIN_SIDE <= b.y
    }
}

/// Size after the arrow keys drove one corner at the ratio `rw : rh`. The
/// side with the larger step leads and the other follows; both shrink
/// together to fit the room `max_w` by `max_h`, and neither falls below the
/// smallest side.
pub open spec fn arrow_ratio_size(
    w: int,
    h: int,
    sdx: int,
    sdy: int,
    max_w: int,
    max_h: int,
    rw: int,
    rh: int,
) -> (int, int) {
    let (w0, h0) = if abs_spec(sdx) >= abs_spec(sdy) {
        let lead = max_spec(w + sdx, MIN_SIDE as int);
        (lead, div_round_spec(lead * rh, rw))
    } else {
        let lead = max_spec(h + sdy, MIN_SIDE as int);
        (div_round_spec(lead * rw, rh), lead)
    };
    (
        max_spec(min_spec(min_spec(w0, max_w), div_round_spec(max_h * rw, rh)), MIN_SIDE as int),
        max_spec(min_spec(min_spec(h0, max_h), div_round_spec(max_w * rh, rw)), MIN_SIDE as int),
    )
}

/// See [`arrow_ratio_size`].
fn arrow_ratio_size_of(
    size: Vec2D,
    sdx: i64,
    sdy: i64,
    max_w: i64,
    max_h: i64,
    rw: i64,
    rh: i64,
) -> (r: (i64, i64))
    requires
        -CROP_MAX <= size.x <= CROP_MAX,
        -CROP_MAX <= size.y <= CROP_MAX,
        -2 * INPUT_MAX <= sdx <= 2 * INPUT_MAX,
        -2 * INPUT_MAX <= sdy <= 2 * INPUT_MAX,
        -4 * CROP_MAX <= max_w <= 4 * CROP_MAX,
        -4 * CROP_MAX <= max_h <= 4 * CROP_MAX,
        0 < rw,
        0 < rh,
    ensures
        (r.0 as int, r.1 as int) == arrow_ratio_size(
            size.x as int,
            size.y as int,
            sdx as int,
            sdy as int,
            max_w as int,
            max_h as int,
            rw as int,
            rh as int,
        ),
        UNIT <= r.0 <= 4 * CROP_MAX,
        UNIT <= r.1 <= 4 * CROP_MAX,
{
    let (w0, h0): (i128, i128) = if abs_len(sdx) >= abs_len(sdy) {
        let lead: i64 = max_len(size.x + sdx, MIN_SIDE);
        (lead as i128, mul_div_wide(lead, rh, rw))
    } else {
        let lead: i64 = max_len(size.y + sdy, MIN_SIDE);
        (mul_div_wide(lead, rw, rh), lead as i128)
    };
    let wm: i128 = mul_div_wide(max_h, rw, rh);
    let hm: i128 = mul_div_wide(max_w, rh, rw);
    let w1: i128 = if w0 <= max_w as i128 {
        w0
    } else {
        max_w as i128
    };
    let w2: i128 = if w1 <= wm {
        w1
    } else {
        wm
    };
    let h1: i128 = if h0 <= max_h as i128 {
        h0
    } else {
        max_h as i128
    };
    let h2: i128 = if h1 <= hm {
        h1
    } else {
        hm
    };
    (
        if w2 >= MIN_SIDE as i128 {
            w2 as i64
        } else {
            MIN_SIDE
        },
        if h2 >= MIN_SIDE as i128 {
            h2 as i64
        } else {
            MIN_SIDE
        },
    )
}

impl Crop {
    /// The rectangle's edges as they were drawn, in no particular order.
    pub open spec fn raw_edges(&self) -> Edges {
        Edges {
            l: self.pos.x as int,
            t: self.pos.y as int,
            r: self.pos.x + self.size.x,
            b: self.pos.y + self.size.y,
        }
    }

    /// `c` is this crop after the arrow keys moved it by `(dx, dy)`.
    pub open spec fn is_arrow_resized(
        &self,
        dx: int,
        dy: int,
        shift: bool,
        aspect: Option<(int, int)>,
        b: Vec2D,
        c: Crop,
    ) -> bool {
        let e = self.raw_edges();
        match aspect {
            Some((rw, rh)) => {
                let (fw, fh) = if shift {
                    arrow_ratio_size(
                        self.size.x as int,
                        self.size.y as int,
                        -dx,
                        -dy,
                        e.r,
                        e.b,
                        rw,
                        rh,
                    )
                } else {
                    arrow_ratio_size(
                        self.size.x as int,
                        self.size.y as int,
                        dx,
                        dy,
                        b.x - e.l,
                        b.y - e.t,
                        rw,
                        rh,
                    )
                };
                &&& c.size.x == fw
                &&& c.size.y == fh
                &&& c.pos.x == if shift {
                    e.r - fw
                } else {
                    e.l
                }
                &&& c.pos.y == if shift {
                    e.b - fh
                } else {
                    e.t
                }
            },
            None => has_edges(c, arrow_edges(e, dx, dy, shift, b)),
        }
    }

    /// The edges are not much further out than what reaches the geometry from
    /// outside.
    pub open spec fn near_image(&self) -> bool {
        let e = self.raw_edges();
        let m = 2 * INPUT_MAX;
        -m <= e.l <= m && -m <= e.r <= m && -m <= e.t <= m && -m <= e.b <= m
    }

    /// See [`Crop::is_arrow_resized`].
    fn arrow_resized(
        &self,
        dx: i64,
        dy: i64,
        shift: bool,
        aspect: Option<(i64, i64)>,
        bounds: Vec2D,
    ) -> (r: (Vec2D, Vec2D))
        requires
            rect_fits(self.pos, self.size),
            -2 * INPUT_MAX <= dx <= 2 * INPUT_MAX,
            -2 * INPUT_MAX <= dy <= 2 * INPUT_MAX,
            bounds_ok(Some(bounds)),
            aspect_ok(aspect, Some(bounds)),
            aspect is None ==> arrow_room(self.raw_edges(), shift, bounds),
        ensures
            self.is_arrow_resized(
                dx as int,
                dy as int,
                shift,
                ratio_int(aspect),
                bounds,
                (Crop { pos: r.0, size: r.1, ..*self }),
            ),
            r.1.ok(),
            self.near_image() ==> rect_fits(r.0, r.1),
    {
        match aspect {
            Some((rw, rh)) => {
                let br: Vec2D = self.pos.plus(self.size);
                if shift {
                    let (fw, fh): (i64, i64) = arrow_ratio_size_of(
                        self.size,
                        -dx,
                        -dy,
                        br.x,
                        br.y,
                        rw,
                        rh,
                    );
                    (Vec2D::new(br.x - fw, br.y - fh), Vec2D::new(fw, fh))
                } else {
                    let (fw, fh): (i64, i64) = arrow_ratio_size_of(
                        self.size,
                        dx,
                        dy,
                        bounds.x - self.pos.x,
                        bounds.y - self.pos.y,
                        rw,
                        rh,
                    );
                    (self.pos, Vec2D::new(fw, fh))
                }
            },
            None => {
                let l: i64 = self.pos.x;
                let t: i64 = self.pos.y;
                let r: i64 = self.pos.x + self.size.x;
                let b: i64 = self.pos.y + self.size.y;
                if shift {
                    let nl: i64 = clamp_len(l + dx, 0, r - MIN_SIDE);
                    let nt: i64 = clamp_len(t + dy, 0, b - MIN_SIDE);
                    (Vec2D::new(nl, nt), Vec2D::new(r - nl, b - nt))
                } else {
                    let nr: i64 = clamp_len(r + dx, l + MIN_SIDE, bounds.x);
                    let nb: i64 = clamp_len(b + dy, t + MIN_SIDE, bounds.y);
                    (self.pos, Vec2D::new(nr - l, nb - t))
                }
            },
        }
    }
}

impl CropTool {
    /// The tool has a crop and knows the image.
    pub open spec fn resizable(&self) -> bool {
        self.crop is Some && self.image_bounds is Some
    }

    /// `c` is the crop resized by `(dw, dh)` around its center.
    pub open spec fn is_grown(&self, dw: int, dh: int, c: Crop) -> bool {
        let c0 = self.crop->0;
        let b = self.image_bounds->0;
        &&& c.size.x == grown_size(c0.size.x as int, dw, b.x as int)
        &&& c.size.y == grown_size(c0.size.y as int, dh, b.y as int)
        &&& c.pos.x == grown_pos(c0.pos.x as int, c0.size.x as int, c.size.x as int, b.x as int)
        &&& c.pos.y == grown_pos(c0.pos.y as int, c0.size.y as int, c.size.y as int, b.y as int)
        &&& c == (Crop { pos: c.pos, size: c.size, ..c0 })
    }

    /// Resizes the crop by `(dw, dh)`, half on each side; a side that would
    /// leave the image rests on its edge. Returns whether the size changed.
    pub fn resize_symmetric(&mut self, dw: i64, dh: i64, out: &mut Vec<CropMessage>) -> (r: bool)
        requires
            old(self).fits(),
            -4 * CROP_MAX <= dw <= 4 * CROP_MAX,
            -4 * CROP_MAX <= dh <= 4 * CROP_MAX,
        ensures
            final(self).fits(),
            !old(self).resizable() ==> !r && *final(self) == *old(self) && final(out)@ == old(out)@,
            old(self).resizable() ==> {
                &&& final(self).crop matches Some(c)
                &&& old(self).is_grown(dw as int, dh as int, c)
                &&& *final(self) == (CropTool { crop: Some(c), ..*old(self) })
                &&& r == (c.size != old(self).crop->0.size)
                &&& final(out)@ == old(out)@ + if r {
                    old(self).sent(seq![edit_dimensions(c)])
                } else {
                    Seq::empty()
                }
            },
    {
        let bounds: Vec2D = match self.image_bounds {
            Some(b) => b,
            None => {
                return false;
            },
        };
        let c: Crop = match self.crop {
            Some(c) => c,
            None => {
                return false;
            },
        };
        let (x, w): (i64, i64) = grow_axis(c.pos.x, c.size.x, dw, bounds.x);
        let (y, h): (i64, i64) = grow_axis(c.pos.y, c.size.y, dh, bounds.y);
        let changed: bool = w != c.size.x || h != c.size.y;
        self.crop = Some(Crop { pos: Vec2D::new(x, y), size: Vec2D::new(w, h), ..c });
        if changed {
            self.emit_crop_edit_dimensions(out);
        }
        assert(!changed ==> out@ == old(out)@ + Seq::<CropMessage>::empty());
        changed
    }

    /// Length of a side scaled by a factor in millionths, within the image.
    pub open spec fn scaled_side(size: int, factor: int, bound: int) -> int {
        clamp_spec(div_round_spec(size * factor, MICRO as int), MIN_SIDE as int, bound)
    }

    /// A factor (in millionths) that asks for a change.
    pub open spec fn scales(&self, factor: int) -> bool {
        factor > 0 && factor != MICRO && self.resizable()
    }

    /// What a factor makes of the tool, and what it says. `r` tells whether the
    /// size changed.
    pub open spec fn scale_step(
        &self,
        factor: i64,
        r: bool,
        post: CropTool,
        before: Seq<CropMessage>,
        after: Seq<CropMessage>,
    ) -> bool {
        &&& !self.scales(factor as int) ==> !r && post == *self && after =~= before
        &&& self.scales(factor as int) ==> {
                let c0 = self.crop->0;
                let b = self.image_bounds->0;
                &&& post.crop matches Some(c)
                &&& c.size.x == CropTool::scaled_side(c0.size.x as int, factor as int, b.x as int)
                &&& c.size.y == CropTool::scaled_side(c0.size.y as int, factor as int, b.y as int)
                &&& self.is_grown(c.size.x - c0.size.x, c.size.y - c0.size.y, c)
                &&& post == (CropTool { crop: Some(c), ..*self })
                &&& r == (c.size != c0.size)
                &&& after =~= before + if r {
                    self.sent(seq![edit_dimensions(c)])
                } else {
                    Seq::empty()
                }
            }
    }

    /// Scales the crop by `factor` (in millionths) around its center. Returns
    /// whether the size changed.
    pub fn resize_proportional(&mut self, factor: i64, out: &mut Vec<CropMessage>) -> (r: bool)
        requires
            old(self).fits(),
        ensures
            old(self).scale_step(factor, r, *final(self), old(out)@, final(out)@),
            final(self).fits(),
    {
        if factor <= 0 || factor == MICRO {
            return false;
        }
        let (c, bounds): (Crop, Vec2D) = match (self.crop, self.image_bounds) {
            (Some(c), Some(b)) => (c, b),
            _ => {
                return false;
            },
        };
        let new_w: i64 = clamp_range_wide(mul_div_wide(c.size.x, factor, MICRO), MIN_SIDE, bounds.x);
        let new_h: i64 = clamp_range_wide(mul_div_wide(c.size.y, factor, MICRO), MIN_SIDE, bounds.y);
        let dw: i64 = new_w - c.size.x;
        let dh: i64 = new_h - c.size.y;
        if dw == 0 && dh == 0 {
            assert(out@ == old(out)@ + Seq::<CropMessage>::empty());
            return false;
        }
        self.resize_symmetric(dw, dh, out)
    }

    /// The arrow keys in `held` ask for a step, and there is something to
    /// resize.
    pub open spec fn arrows_apply(&self, held: u8, step: int) -> bool {
        self.resizable() && (held_dx(held, step) != 0 || held_dy(held, step) != 0)
    }

    /// A free resize with the arrow keys finds room for the moved edges.
    pub open spec fn arrows_ok(&self, held: u8, step: int, shift: bool) -> bool {
        self.arrows_apply(held, step) && self.aspect_spec() is None ==> arrow_room(
            self.crop->0.raw_edges(),
            shift,
            self.image_bounds->0,
        )
    }

    /// The crop is not much further out than what reaches the geometry from
    /// outside.
    pub open spec fn near_image(&self) -> bool {
        self.crop matches Some(c) ==> c.near_image()
    }

    /// The arrow keys turn the tool into `post`; `changed` tells whether the
    /// rectangle is another one.
    pub open spec fn arrow_step(
        &self,
        held: u8,
        step: int,
        shift: bool,
        post: CropTool,
        changed: bool,
    ) -> bool {
        if self.arrows_apply(held, step) {
            let c0 = self.crop->0;
            &&& post.crop matches Some(c)
            &&& c0.is_arrow_resized(
                held_dx(held, step),
                held_dy(held, step),
                shift,
                self.aspect_spec(),
                self.image_bounds->0,
                c,
            )
            &&& c == (Crop { pos: c.pos, size: c.size, ..c0 })
            &&& post == (CropTool { crop: Some(c), ..*self })
            &&& changed == (c != c0)
        } else {
            !changed && post == *self
        }
    }

    /// What a resize with the arrow keys reports: a rectangle that changed.
    pub open spec fn arrow_msgs(&self, post: CropTool, changed: bool) -> Seq<CropMessage> {
        if changed {
            self.sent(seq![edit_dimensions(post.crop->0)])
        } else {
            Seq::empty()
        }
    }

    /// Resizes the crop with the arrow keys: plain arrows drive the bottom
    /// right corner, with shift the top left one. Returns whether anything
    /// changed.
    pub fn resize_directional(
        &mut self,
        held: u8,
        step: i64,
        shift: bool,
        out: &mut Vec<CropMessage>,
    ) -> (r: bool)
        requires
            old(self).fits(),
            input_ok(step as int),
            old(self).arrows_ok(held, step as int, shift),
        ensures
            old(self).arrow_step(held, step as int, shift, *final(self), r),
            final(out)@ == old(out)@ + old(self).arrow_msgs(*final(self), r),
            old(self).near_image() ==> final(self).fits(),
    {
        let bounds: Vec2D = match self.image_bounds {
            Some(b) => b,
            None => {
                assert(out@ == old(out)@ + Seq::<CropMessage>::empty());
                return false;
            },
        };
        let aspect: Option<(i64, i64)> = self.aspect();
        let c: Crop = match self.crop {
            Some(c) => c,
            None => {
                assert(out@ == old(out)@ + Seq::<CropMessage>::empty());
                return false;
            },
        };
        let (dx, dy): (i64, i64) = held_step(held, step);
        if dx == 0 && dy == 0 {
            assert(out@ == old(out)@ + Seq::<CropMessage>::empty());
            return false;
        }
        let (pos, size): (Vec2D, Vec2D) = c.arrow_resized(dx, dy, shift, aspect, bounds);
        let changed: bool = pos != c.pos || size != c.size;
        self.crop = Some(Crop { pos, size, ..c });
        if changed {
            self.emit_crop_edit_dimensions(out);
        }
        assert(!changed ==> out@ == old(out)@ + Seq::<CropMessage>::empty());
        changed
    }

    /// Left or top edge, and length, of the quadrant preset on one axis.
    /// `far` picks the second half, `mid` the middle.
    pub open spec fn preset_lo(bound: int, far: bool, mid: bool) -> int {
        if mid {
            bound / 4
        } else if far {
            bound / 2
        } else {
            0
        }
    }

    /// What a preset makes of the tool, and what it says. `r` tells whether it
    /// was applied.
    pub open spec fn preset_step(
        &self,
        preset: u32,
        r: bool,
        post: CropTool,
        before: Seq<CropMessage>,
        after: Seq<CropMessage>,
    ) -> bool {
        &&& r == (self.resizable() && 1 <= preset <= 5)
        &&& !r ==> post == *self && after =~= before
        &&& r ==> {
                let b = self.image_bounds->0;
                &&& post.crop matches Some(c)
                &&& c.size.x == b.x as int / 2
                &&& c.size.y == b.y as int / 2
                &&& c.pos.x == CropTool::preset_lo(
                    b.x as int,
                    preset == 2 || preset == 4,
                    preset == 5,
                )
                &&& c.pos.y == CropTool::preset_lo(
                    b.y as int,
                    preset == 3 || preset == 4,
                    preset == 5,
                )
                &&& c == (Crop { pos: c.pos, size: c.size, ..self.crop->0 })
                &&& post == (CropTool { crop: Some(c), ..*self })
                &&& after =~= before + self.sent(seq![edit_dimensions(c)])
            }
    }

    /// Snaps the crop to a quarter of the image: 1 to 4 are the quadrants,
    /// 5 is the middle. Returns whether a preset was applied.
    pub fn apply_quadrant_preset(&mut self, preset: u32, out: &mut Vec<CropMessage>) -> (r: bool)
        requires
            old(self).fits(),
        ensures
            old(self).preset_step(preset, r, *final(self), old(out)@, final(out)@),
            final(self).fits(),
    {
        let bounds: Vec2D = match self.image_bounds {
            Some(b) => b,
            None => {
                return false;
            },
        };
        let c: Crop = match self.crop {
            Some(c) => c,
            None => {
                return false;
            },
        };
        let half_w: i64 = half(bounds.x);
        let half_h: i64 = half(bounds.y);
        let pos: Vec2D = match preset {
            1 => Vec2D::zero(),
            2 => Vec2D::new(half_w, 0),
            3 => Vec2D::new(0, half_h),
            4 => Vec2D::new(half_w, half_h),
            5 => Vec2D::new(bounds.x / 4, bounds.y / 4),
            _ => {
                return false;
            },
        };
        self.crop = Some(Crop { pos, size: Vec2D::new(half_w, half_h), ..c });
        self.emit_crop_edit_dimensions(out);
        true
    }

    /// Size of the largest box at the ratio `rw : rh` inside a `w` by `h` one.
    pub open spec fn inscribed(w: int, h: int, rw: int, rh: int) -> (int, int) {
        if w * rh > h * rw {
            (div_round_spec(h * rw, rh), h)
        } else {
            (w, div_round_spec(w * rh, rw))
        }
    }

    /// `c` is `c0` shrunk to the ratio around its center.
    pub open spec fn is_inscribed(c0: Crop, rw: int, rh: int, c: Crop) -> bool {
        let (w, h) = CropTool::inscribed(
            abs_spec(c0.size.x as int),
            abs_spec(c0.size.y as int),
            rw,
            rh,
        );
        &&& c.size.x == w
        &&& c.size.y == h
        &&& c.pos.x == span_mid(c0.pos.x as int, c0.size.x as int) - w / 2
        &&& c.pos.y == span_mid(c0.pos.y as int, c0.size.y as int) - h / 2
        &&& c == (Crop { pos: c.pos, size: c.size, ..c0 })
    }

    /// Setting `ratio` reshapes the crop that is there.
    pub open spec fn ratio_reshapes(&self, ratio: AspectRatio) -> bool {
        &&& self.crop matches Some(c)
        &&& c.size.x != 0
        &&& c.size.y != 0
        &&& ratio.ratio_spec(self.image_bounds) is Some
    }

    /// What another ratio makes of the tool, and what it says.
    pub open spec fn ratio_step(
        &self,
        ratio: AspectRatio,
        post: CropTool,
        before: Seq<CropMessage>,
        after: Seq<CropMessage>,
    ) -> bool {
        &&& !self.ratio_reshapes(ratio) ==> post == (CropTool {
                aspect_ratio: ratio,
                ..*self
            }) && after =~= before
        &&& self.ratio_reshapes(ratio) ==> {
                let q = ratio.ratio_spec(self.image_bounds)->0;
                &&& post.crop matches Some(c)
                &&& CropTool::is_inscribed(self.crop->0, q.0, q.1, c)
                &&& post == (CropTool {
                    aspect_ratio: ratio,
                    crop: Some(c),
                    ..*self
                })
                &&& after =~= before + self.sent(seq![edit_dimensions(c)])
            }
    }

    /// Sets the ratio that drags are held to, and fits the crop to it:
    /// inscribed in its rectangle, around the same center.
    pub fn set_aspect_ratio(&mut self, ratio: AspectRatio, out: &mut Vec<CropMessage>)
        requires
            old(self).fits(),
        ensures
            old(self).ratio_step(ratio, *final(self), old(out)@, final(out)@),
            final(self).fits(),
    {
        self.aspect_ratio = ratio;
        let c: Crop = match self.crop {
            Some(c) => c,
            None => {
                return;
            },
        };
        let (rw, rh): (i64, i64) = match self.aspect() {
            Some(q) => q,
            None => {
                return;
            },
        };
        let (cur_pos, cur_size): (Vec2D, Vec2D) = c.get_rectangle();
        if cur_size.x <= 0 || cur_size.y <= 0 {
            return;
        }
        let center_x: i64 = cur_pos.x + half(cur_size.x);
        let center_y: i64 = cur_pos.y + half(cur_size.y);
        proof {
            lemma_product_bound(cur_size.x as int, rh as int);
            lemma_product_bound(cur_size.y as int, rw as int);
            lemma_inscribed_bound(cur_size.x as int, cur_size.y as int, rw as int, rh as int);
        }
        let (new_w, new_h): (i64, i64) = if cur_size.x as i128 * rh as i128 > cur_size.y as i128
            * rw as i128 {
            (mul_div(cur_size.y, rw, rh), cur_size.y)
        } else {
            (cur_size.x, mul_div(cur_size.x, rh, rw))
        };
        let pos: Vec2D = Vec2D::new(center_x - half(new_w), center_y - half(new_h));
        self.crop = Some(Crop { pos, size: Vec2D::new(new_w, new_h), ..c });
        self.emit_crop_edit_dimensions(out);
    }

    /// A typed size asks for a change.
    pub open spec fn dimensions_apply(&self, width: int, height: int) -> bool {
        width > 0 && height > 0 && self.image_bounds is Some
    }

    /// What a typed size makes of the tool, and what it says.
    pub open spec fn dimensions_step(
        &self,
        width: i64,
        height: i64,
        post: CropTool,
        before: Seq<CropMessage>,
        after: Seq<CropMessage>,
    ) -> bool {
        &&& !self.dimensions_apply(width as int, height as int) ==> post == *self
                && after =~= before
        &&& self.dimensions_apply(width as int, height as int) ==> {
                let b = self.image_bounds->0;
                let mid = match self.crop {
                    Some(c) => (
                        span_mid(c.pos.x as int, c.size.x as int),
                        span_mid(c.pos.y as int, c.size.y as int),
                    ),
                    None => (b.x as int / 2, b.y as int / 2),
                };
                &&& post.crop matches Some(c)
                &&& c.size.x == width
                &&& c.size.y == height
                &&& c.pos.x == mid.0 - width as int / 2
                &&& c.pos.y == mid.1 - height as int / 2
                &&& c == match self.crop {
                    Some(c0) => Crop { pos: c.pos, size: c.size, active: true, ..c0 },
                    None => Crop { pos: c.pos, size: c.size, ..seed(b, self.bg_color) },
                }
                &&& post == (CropTool { crop: Some(c), ..*self })
                &&& after =~= before + self.sent(
                    if self.crop is None {
                        seq![CropMessage::CropPresenceChanged(true), edit_dimensions(c)]
                    } else {
                        seq![edit_dimensions(c)]
                    },
                )
            }
    }

    /// Gives the crop an explicit size around its center; without a crop, a
    /// new one around the center of the image.
    pub fn set_dimensions(&mut self, width: i64, height: i64, out: &mut Vec<CropMessage>)
        requires
            old(self).fits(),
            width <= INPUT_MAX,
            height <= INPUT_MAX,
        ensures
            old(self).dimensions_step(width, height, *final(self), old(out)@, final(out)@),
            final(self).fits(),
    {
        if width <= 0 || height <= 0 {
            return;
        }
        let bounds: Vec2D = match self.image_bounds {
            Some(b) => b,
            None => {
                return;
            },
        };
        let center: Vec2D = match &self.crop {
            Some(c) => {
                let (p, s): (Vec2D, Vec2D) = c.get_rectangle();
                Vec2D::new(p.x + half(s.x), p.y + half(s.y))
            },
            None => Vec2D::new(half(bounds.x), half(bounds.y)),
        };
        let pos: Vec2D = Vec2D::new(center.x - half(width), center.y - half(height));
        let size: Vec2D = Vec2D::new(width, height);
        match self.crop {
            Some(c) => {
                self.crop = Some(Crop { pos, size, active: true, ..c });
            },
            None => {
                self.crop = Some(
                    Crop {
                        pos,
                        size,
                        active: true,
                        committed: false,
                        ever_committed: false,
                        last_committed: None,
                        bg_color: self.bg_color,
                    },
                );
                self.emit(out, CropMessage::CropPresenceChanged(true));
            },
        }
        self.emit_crop_edit_dimensions(out);
        assert(out@ == old(out)@ + old(self).sent(
            if old(self).crop is None {
                seq![CropMessage::CropPresenceChanged(true), edit_dimensions(self.crop->0)]
            } else {
                seq![edit_dimensions(self.crop->0)]
            },
        ));
    }
}

/// An inscribed box is no larger than the box around it.
proof fn lemma_inscribed_bound(w: int, h: int, rw: int, rh: int)
    requires
        w >= 0,
        h >= 0,
        rw > 0,
        rh > 0,
    ensures
        w * rh > h * rw ==> 0 <= div_round_spec(h * rw, rh) <= w,
        w * rh <= h * rw ==> 0 <= div_round_spec(w * rh, rw) <= h,
{
    if w * rh > h * rw {
        assert(h * rw >= 0) by (nonlinear_arith)
            requires
                h >= 0,
                rw > 0,
        ;
        lemma_round_bound(h * rw, rh, w);
    } else {
        assert(w * rh >= 0) by (nonlinear_arith)
            requires
                w >= 0,
                rh > 0,
        ;
        lemma_round_bound(w * rh, rw, h);
    }
}

proof fn lemma_round_bound(a: int, d: int, m: int)
    requires
        a >= 0,
        d > 0,
        a <= m * d,
    ensures
        0 <= div_round_spec(a, d) <= m,
{
    crate::units::lemma_div_round_near(a, d);
    crate::tools::lemma_div_round_nonneg(a, d);
    let q = div_round_spec(a, d);
    if q > m {
        assert(false) by (nonlinear_arith)
            requires
                q >= m + 1,
                d > 0,
                a <= m * d,
                2 * (q * d - a) <= d,
        ;
    }
}

/// A way to edit a crop without applying it.
pub ghost enum CropEdit {
    BeginDrag { pos: Vec2D },
    UpdateDrag { d: Vec2D, modifier: Modifiers },
    EndDrag { d: Vec2D, modifier: Modifiers },
    Symmetric { dw: i64, dh: i64 },
    Proportional { factor: i64 },
    Directional { held: u8, step: i64, shift: bool },
    Preset { preset: u32 },
    Ratio { ratio: AspectRatio },
    Dimensions { width: i64, height: i64 },
}

impl CropTool {
    /// No other modifier than shift and control is held.
    pub open spec fn arrow_mods(m: Modifiers) -> bool {
        !m.alt && !m.super_key && m.other == 0
    }

    /// The key event is an arrow key that resizes the crop.
    pub open spec fn is_arrow_event(event: KeyEventMsg) -> bool {
        CropTool::arrow_mods(event.modifier) && arrow_bit_spec(event.key) is Some
    }

    /// The tool with the arrow key of `event` held too.
    pub open spec fn holding(&self, event: KeyEventMsg) -> CropTool {
        CropTool {
            held_arrows: self.held_arrows | arrow_bit_spec(event.key)->0,
            ..*self
        }
    }

    /// Control makes the step fine.
    pub open spec fn arrow_step_length(event: KeyEventMsg) -> int {
        if event.modifier.control {
            UNIT as int
        } else {
            30 * UNIT
        }
    }

    /// The key event applies the crop.
    pub open spec fn is_commit_key(&self, event: KeyEventMsg) -> bool {
        (event.key.0 == KEY_RETURN || event.key.0 == KEY_KP_ENTER) && self.crop is Some
    }

    /// A key can be handled: where it is an arrow key that resizes the crop
    /// freely, there is room for the edges that it moves.
    pub open spec fn finds_room(&self, event: KeyEventMsg) -> bool {
        CropTool::is_arrow_event(event) ==> self.holding(event).arrows_ok(
            self.holding(event).held_arrows,
            CropTool::arrow_step_length(event),
            event.modifier.shift,
        )
    }

    /// Whether a key can be handled.
    pub fn can_take_key(&self, event: &KeyEventMsg) -> (r: bool)
        requires
            self.fits(),
        ensures
            r == self.finds_room(*event),
    {
        let m: Modifiers = event.modifier;
        if m.alt || m.super_key || m.other != 0 {
            return true;
        }
        let Some(bit) = arrow_bit(event.key) else {
            return true;
        };
        let (c, b): (Crop, Vec2D) = match (self.crop, self.image_bounds) {
            (Some(c), Some(b)) => (c, b),
            _ => {
                return true;
            },
        };
        let step: i64 = if m.control {
            UNIT
        } else {
            30 * UNIT
        };
        let (dx, dy): (i64, i64) = held_step(self.held_arrows | bit, step);
        if (dx == 0 && dy == 0) || self.aspect().is_some() {
            return true;
        }
        let br: Vec2D = c.pos.plus(c.size);
        if m.shift {
            br.x >= MIN_SIDE && br.y >= MIN_SIDE
        } else {
            c.pos.x + MIN_SIDE <= b.x && c.pos.y + MIN_SIDE <= b.y
        }
    }

    /// Whether the crop is near the image, so that it fits after the next
    /// key too.
    pub fn is_near_image(&self) -> (r: bool)
        requires
            self.fits(),
        ensures
            r == self.near_image(),
    {
        let Some(c) = self.crop else {
            return true;
        };
        let br: Vec2D = c.pos.plus(c.size);
        let m: i64 = 2 * INPUT_MAX;
        -m <= c.pos.x && c.pos.x <= m && -m <= br.x && br.x <= m && -m <= c.pos.y && c.pos.y <= m
            && -m <= br.y && br.y <= m
    }

    /// Arrow keys resize, Escape cancels, Enter applies. An arrow key is
    /// consumed even where it changes nothing.
    pub fn handle_key_event(&mut self, event: KeyEventMsg, out: &mut Vec<CropMessage>) -> (r:
        ToolUpdateResult<Crop>)
        requires
            old(self).fits(),
            old(self).finds_room(event),
        ensures
            CropTool::is_arrow_event(event) ==> {
                &&& r is RedrawAndStopPropagation || r is StopPropagation
                &&& old(self).holding(event).arrow_step(
                    old(self).holding(event).held_arrows,
                    CropTool::arrow_step_length(event),
                    event.modifier.shift,
                    *final(self),
                    r is RedrawAndStopPropagation,
                )
                &&& final(out)@ == old(out)@ + old(self).arrow_msgs(
                    *final(self),
                    r is RedrawAndStopPropagation,
                )
            },
            !CropTool::is_arrow_event(event) && event.key.0 == KEY_ESCAPE ==> {
                &&& r is Redraw
                &&& *final(self) == old(self).cancelled()
                &&& final(out)@ == old(out)@ + old(self).cancel_msgs()
            },
            !CropTool::is_arrow_event(event) && event.key.0 != KEY_ESCAPE && old(self).is_commit_key(event) ==> {
                &&& r is Redraw || r is Unmodified
                &&& old(self).commit_step(*final(self), r is Redraw)
                &&& final(out)@ == old(out)@ + old(self).commit_msgs(*final(self))
            },
            !CropTool::is_arrow_event(event) && event.key.0 != KEY_ESCAPE && !old(self).is_commit_key(event) ==> r is Unmodified && *final(self) == *old(self) && final(out)@ == old(out)@,
            old(self).near_image() ==> final(self).fits(),
    {
        let m: Modifiers = event.modifier;
        if !m.alt && !m.super_key && m.other == 0 {
            if let Some(bit) = arrow_bit(event.key) {
                self.held_arrows = self.held_arrows | bit;
                let step: i64 = if m.control {
                    UNIT
                } else {
                    30 * UNIT
                };
                let held: u8 = self.held_arrows;
                let changed: bool = self.resize_directional(held, step, m.shift, out);
                return if changed {
                    ToolUpdateResult::RedrawAndStopPropagation
                } else {
                    ToolUpdateResult::StopPropagation
                };
            }
        }
        if event.key.0 == KEY_ESCAPE {
            self.cancel(out)
        } else if (event.key.0 == KEY_RETURN || event.key.0 == KEY_KP_ENTER)
            && self.crop.is_some() {
            self.commit(out)
        } else {
            ToolUpdateResult::Unmodified
        }
    }

    /// A released arrow key is no longer held.
    pub fn handle_key_release_event(&mut self, event: KeyEventMsg) -> (r: ToolUpdateResult<Crop>)
        ensures
            r is Unmodified,
            *final(self) == (CropTool {
                held_arrows: match arrow_bit_spec(event.key) {
                    Some(bit) => old(self).held_arrows & !bit,
                    None => old(self).held_arrows,
                },
                ..*old(self)
            }),
    {
        if let Some(bit) = arrow_bit(event.key) {
            self.held_arrows = self.held_arrows & !bit;
        }
        ToolUpdateResult::Unmodified
    }

    /// The crop is applied, and the event is for the primary button: the
    /// applied rectangle cannot be dragged.
    pub open spec fn locked_out(&self, event: MouseEventMsg) -> bool {
        self.crop matches Some(c) && c.committed && event.button == MouseButton::Primary
    }

    /// A right click on a crop being edited.
    pub open spec fn is_reset_click(&self, event: MouseEventMsg) -> bool {
        &&& event.type_ == MouseEventType::Click
        &&& event.button == MouseButton::Secondary
        &&& self.crop matches Some(c)
        &&& c.active
    }

    /// What a mouse event does: `post` is the tool afterwards, and the result
    /// is the last argument's.
    pub open spec fn mouse_step(
        &self,
        event: MouseEventMsg,
        post: CropTool,
        r: ToolUpdateResult<Crop>,
    ) -> bool {
        let primary = event.button == MouseButton::Primary && !self.locked_out(event);
        if self.is_reset_click(event) {
            &&& r is RedrawAndStopPropagation
            &&& post == (CropTool { crop: None, action: None, ..*self })
        } else if primary && event.type_ == MouseEventType::BeginDrag {
            &&& r is Redraw || r is Unmodified
            &&& self.begin_step(event.pos, post, r is Redraw)
        } else if primary && event.type_ == MouseEventType::EndDrag {
            &&& r is Redraw || r is Unmodified
            &&& self.end_step(event.pos, event.modifier, post, r is Redraw)
        } else if primary && event.type_ == MouseEventType::UpdateDrag {
            &&& r is Redraw || r is Unmodified
            &&& self.drag_step(event.pos, event.modifier, post, r is Redraw)
        } else {
            &&& r is Unmodified
            &&& post == *self
        }
    }

    /// What a mouse event reports.
    pub open spec fn mouse_msgs(
        &self,
        event: MouseEventMsg,
        post: CropTool,
        r: ToolUpdateResult<Crop>,
    ) -> Seq<CropMessage> {
        let primary = event.button == MouseButton::Primary && !self.locked_out(event);
        if self.is_reset_click(event) {
            self.sent(
                seq![CropMessage::CropPresenceChanged(false), CropMessage::DimensionsUpdate(None)],
            )
        } else if primary && event.type_ == MouseEventType::BeginDrag {
            self.begin_msgs(r is Redraw)
        } else if primary && (event.type_ == MouseEventType::EndDrag || event.type_
            == MouseEventType::UpdateDrag) {
            self.drag_msgs(post)
        } else {
            Seq::empty()
        }
    }

    /// Drags with the primary button shape the crop, a right click drops it.
    /// Once applied, the crop ignores the primary button.
    pub fn handle_mouse_event(&mut self, event: MouseEventMsg, out: &mut Vec<CropMessage>) -> (r:
        ToolUpdateResult<Crop>)
        requires
            old(self).fits(),
            old(self).opening_ok(),
            input_ok(event.pos.x as int),
            input_ok(event.pos.y as int),
        ensures
            old(self).mouse_step(event, *final(self), r),
            final(out)@ == old(out)@ + old(self).mouse_msgs(event, *final(self), r),
            old(self).image_bounds is Some ==> final(self).fits(),
            final(self).opening_ok(),
    {
        if let Some(crop) = &self.crop {
            if crop.is_committed() && event.button == MouseButton::Primary {
                assert(out@ == old(out)@ + Seq::<CropMessage>::empty());
                return ToolUpdateResult::Unmodified;
            }
        }
        let active: bool = match &self.crop {
            Some(c) => c.active,
            None => false,
        };
        if event.type_ == MouseEventType::Click && event.button == MouseButton::Secondary
            && active {
            self.handle_deactivate_and_reset(out)
        } else if event.type_ == MouseEventType::BeginDrag && event.button == MouseButton::Primary {
            self.begin_drag(event.pos, out)
        } else if event.type_ == MouseEventType::EndDrag && event.button == MouseButton::Primary {
            self.end_drag(event.pos, event.modifier, out)
        } else if event.type_ == MouseEventType::UpdateDrag && event.button
            == MouseButton::Primary {
            self.update_drag(event.pos, event.modifier, out)
        } else {
            assert(out@ == old(out)@ + Seq::<CropMessage>::empty());
            ToolUpdateResult::Unmodified
        }
    }

    /// The crop on entering the tool: the one there is, opened for editing
    /// again, else the whole image.
    pub open spec fn activated_crop(&self) -> Option<Crop> {
        match self.crop {
            Some(c) => Some(Crop { active: true, committed: false, ..c }),
            None => match self.image_bounds {
                Some(b) => Some(seed(b, self.bg_color)),
                None => None,
            },
        }
    }

    /// What entering the tool reports. Where an applied crop was shown, the
    /// canvas is back at the full image.
    pub open spec fn activated_msgs(&self) -> Seq<CropMessage> {
        match self.activated_crop() {
            None => Seq::empty(),
            Some(c) => {
                let back = if self.crop matches Some(c0) && c0.committed {
                    match self.image_bounds {
                        Some(b) => seq![
                            content_size(b.x as int, b.y as int),
                            CropMessage::DimensionsUpdate(None),
                        ],
                        None => seq![CropMessage::DimensionsUpdate(None)],
                    }
                } else {
                    Seq::empty()
                };
                self.sent(back + seq![CropMessage::CropPresenceChanged(true), edit_dimensions(c)])
            },
        }
    }

    /// Enters the tool.
    pub fn handle_activated(&mut self, out: &mut Vec<CropMessage>) -> (r: ToolUpdateResult<Crop>)
        requires
            old(self).fits(),
        ensures
            final(self).fits(),
            *final(self) == (CropTool { crop: old(self).activated_crop(), ..*old(self) }),
            final(out)@ == old(out)@ + old(self).activated_msgs(),
            old(self).activated_crop() is Some ==> r is Redraw,
            old(self).activated_crop() is None ==> r is Unmodified,
    {
        let ghost before = out@;
        match self.crop {
            Some(c) => {
                self.crop = Some(Crop { active: true, committed: false, ..c });
                if c.committed {
                    if let Some(b) = self.image_bounds {
                        self.emit(
                            out,
                            CropMessage::ContentSizeChanged { width: b.x, height: b.y },
                        );
                    }
                    self.emit(out, CropMessage::DimensionsUpdate(None));
                }
                self.emit(out, CropMessage::CropPresenceChanged(true));
                self.emit_crop_edit_dimensions(out);
                assert(out@ == before + old(self).activated_msgs());
                ToolUpdateResult::Redraw
            },
            None => match self.image_bounds {
                Some(b) => {
                    self.crop = Some(
                        Crop {
                            pos: Vec2D::zero(),
                            size: b,
                            active: true,
                            committed: false,
                            ever_committed: false,
                            last_committed: None,
                            bg_color: self.bg_color,
                        },
                    );
                    self.emit(out, CropMessage::CropPresenceChanged(true));
                    self.emit_crop_edit_dimensions(out);
                    assert(out@ == before + old(self).activated_msgs());
                    ToolUpdateResult::Redraw
                },
                None => {
                    assert(out@ == before + Seq::<CropMessage>::empty());
                    ToolUpdateResult::Unmodified
                },
            },
        }
    }

    /// Leaving the tool takes this crop back to the one last applied.
    pub open spec fn rolls_back(c: Crop) -> bool {
        c.ever_committed && !c.committed && c.last_committed is Some
    }

    /// The crop on leaving the tool: an edit of an applied crop is discarded,
    /// a first draft stays as it is.
    pub open spec fn deactivated_crop(c: Crop) -> Crop {
        if CropTool::rolls_back(c) {
            let (p, s) = c.last_committed->0;
            Crop { pos: p, size: s, active: false, committed: true, ..c }
        } else {
            Crop { active: false, ..c }
        }
    }

    /// Leaves the tool.
    pub fn handle_deactivated(&mut self, out: &mut Vec<CropMessage>) -> (r: ToolUpdateResult<Crop>)
        ensures
            r is Redraw,
            *final(self) == (CropTool {
                crop: match old(self).crop {
                    Some(c) => Some(CropTool::deactivated_crop(c)),
                    None => None,
                },
                action: None,
                held_arrows: 0,
                ..*old(self)
            }),
            final(out)@ == old(out)@ + match old(self).crop {
                Some(c) => if CropTool::rolls_back(c) {
                    let (p, s) = c.last_committed->0;
                    old(self).sent(seq![content_size(s.x as int, s.y as int)])
                } else {
                    Seq::empty()
                },
                None => Seq::empty(),
            },
            old(self).fits() ==> final(self).fits(),
    {
        self.held_arrows = 0;
        if let Some(c) = self.crop {
            let mut n: Crop = Crop { active: false, ..c };
            if c.ever_committed && !c.committed {
                if let Some((p, s)) = c.last_committed {
                    n.pos = p;
                    n.size = s;
                    n.committed = true;
                    self.emit(out, CropMessage::ContentSizeChanged { width: s.x, height: s.y });
                }
            }
            self.crop = Some(n);
        }
        self.action = None;
        assert(!(old(self).crop matches Some(c) && CropTool::rolls_back(c)) ==> out@ == old(out)@
            + Seq::<CropMessage>::empty());
        ToolUpdateResult::Redraw
    }

    /// What is applied lies inside the image.
    pub proof fn lemma_commit_inside_image(&self, c: Crop)
        requires
            bounds_ok(self.image_bounds),
            self.image_bounds is Some,
            self.crop is Some,
            self.is_committed_form(c),
        ensures
            0 <= c.pos.x,
            0 <= c.pos.y,
            c.size.x >= 0,
            c.size.y >= 0,
            c.pos.x + c.size.x <= self.image_bounds->0.x,
            c.pos.y + c.size.y <= self.image_bounds->0.y,
    {
    }

    /// Applying a crop that already lies inside the image keeps its
    /// rectangle.
    pub proof fn lemma_commit_keeps_inner_rect(&self, c: Crop)
        requires
            self.image_bounds is Some,
            self.crop is Some,
            self.crop->0.left() >= 0,
            self.crop->0.top() >= 0,
            self.crop->0.right() <= self.image_bounds->0.x,
            self.crop->0.bottom() <= self.image_bounds->0.y,
            self.is_committed_form(c),
        ensures
            c.pos.x == self.crop->0.left(),
            c.pos.y == self.crop->0.top(),
            c.size.x == abs_spec(self.crop->0.size.x as int),
            c.size.y == abs_spec(self.crop->0.size.y as int),
    {
    }

    /// Re-entering the tool on an applied crop, editing it in any way, and
    /// leaving without applying gives back exactly the applied crop.
    pub proof fn lemma_unapplied_edit_is_discarded(applied: Crop, edited: Crop)
        requires
            applied.committed,
            applied.ever_committed,
            !applied.active,
            applied.last_committed == Some((applied.pos, applied.size)),
            edited == (Crop {
                pos: edited.pos,
                size: edited.size,
                active: edited.active,
                committed: false,
                ..applied
            }),
        ensures
            CropTool::deactivated_crop(edited) == applied,
    {
    }

    /// What is applied has the shape that the previous law speaks of.
    pub proof fn lemma_committed_form_is_applied(&self, c: Crop)
        requires
            self.is_committed_form(c),
        ensures
            c.committed,
            c.ever_committed,
            !c.active,
            c.last_committed == Some((c.pos, c.size)),
    {
    }

    /// A crop that was last applied as `r` is being edited, and not applied.
    pub open spec fn edits_applied(&self, r: (Vec2D, Vec2D)) -> bool {
        &&& self.crop matches Some(c)
        &&& c.ever_committed
        &&& !c.committed
        &&& c.last_committed == Some(r)
    }

    /// `post` is the tool after an edit.
    pub open spec fn is_edited(&self, edit: CropEdit, post: CropTool) -> bool {
        match edit {
            CropEdit::BeginDrag { pos } => exists|redraw: bool| #[trigger]
                self.begin_step(pos, post, redraw),
            CropEdit::UpdateDrag { d, modifier } => exists|redraw: bool| #[trigger]
                self.drag_step(d, modifier, post, redraw),
            CropEdit::EndDrag { d, modifier } => exists|redraw: bool| #[trigger]
                self.end_step(d, modifier, post, redraw),
            CropEdit::Symmetric { dw, dh } => if self.resizable() {
                &&& post.crop matches Some(c)
                &&& self.is_grown(dw as int, dh as int, c)
                &&& post == (CropTool { crop: Some(c), ..*self })
            } else {
                post == *self
            },
            CropEdit::Proportional { factor } => exists|
                r: bool,
                said: Seq<CropMessage>,
                says: Seq<CropMessage>,
            | #[trigger]
                self.scale_step(factor, r, post, said, says),
            CropEdit::Directional { held, step, shift } => exists|changed: bool| #[trigger]
                self.arrow_step(held, step as int, shift, post, changed),
            CropEdit::Preset { preset } => exists|
                r: bool,
                said: Seq<CropMessage>,
                says: Seq<CropMessage>,
            | #[trigger]
                self.preset_step(preset, r, post, said, says),
            CropEdit::Ratio { ratio } => exists|said: Seq<CropMessage>, says: Seq<CropMessage>|
                #[trigger]
                self.ratio_step(ratio, post, said, says),
            CropEdit::Dimensions { width, height } => exists|
                said: Seq<CropMessage>,
                says: Seq<CropMessage>,
            | #[trigger]
                self.dimensions_step(width, height, post, said, says),
        }
    }

    /// No edit applies the crop, or touches what was applied last.
    pub proof fn lemma_edit_keeps_applied(&self, edit: CropEdit, post: CropTool, r: (Vec2D, Vec2D))
        requires
            self.edits_applied(r),
            self.is_edited(edit, post),
        ensures
            post.edits_applied(r),
    {
        match edit {
            CropEdit::EndDrag { d, modifier } => {
                let redraw = choose|redraw: bool| #[trigger]
                    self.end_step(d, modifier, post, redraw);
                assert(self.drag_step(d, modifier, CropTool { action: self.action, ..post }, redraw));
            },
            _ => {},
        }
    }

    proof fn lemma_edits_keep_applied(
        tools: Seq<CropTool>,
        edits: Seq<CropEdit>,
        r: (Vec2D, Vec2D),
        n: int,
    )
        requires
            tools.len() == edits.len() + 1,
            tools[0].edits_applied(r),
            forall|i: int|
                0 <= i < edits.len() ==> (#[trigger] tools[i]).is_edited(edits[i], tools[i + 1]),
            0 <= n < tools.len(),
        ensures
            tools[n].edits_applied(r),
        decreases n,
    {
        if n > 0 {
            CropTool::lemma_edits_keep_applied(tools, edits, r, n - 1);
            assert(tools[n - 1].is_edited(edits[n - 1], tools[n - 1 + 1]));
            tools[n - 1].lemma_edit_keeps_applied(edits[n - 1], tools[n], r);
        }
    }

    /// A crop is applied; the tool is entered again, the crop is edited any
    /// number of times in any way, and the tool is left without applying it.
    /// Then the applied rectangle is in force again, and nothing is edited.
    pub proof fn lemma_unapplied_edits_are_rolled_back(
        drawn: CropTool,
        applied: CropTool,
        tools: Seq<CropTool>,
        edits: Seq<CropEdit>,
        left: CropTool,
    )
        requires
            drawn.commit_step(applied, true),
            tools.len() == edits.len() + 1,
            tools[0].crop == applied.activated_crop(),
            forall|i: int|
                0 <= i < edits.len() ==> (#[trigger] tools[i]).is_edited(edits[i], tools[i + 1]),
            left.crop == match tools.last().crop {
                Some(c) => Some(CropTool::deactivated_crop(c)),
                None => None,
            },
        ensures
            left.committed_rect_spec() == applied.committed_rect_spec(),
            !left.active_edit_spec(),
    {
        let c = applied.crop->0;
        CropTool::lemma_edits_keep_applied(tools, edits, (c.pos, c.size), tools.len() - 1);
    }

    /// A draft that was never applied keeps its rectangle when the tool is
    /// left, and stays unapplied.
    pub proof fn lemma_first_draft_is_kept(c: Crop)
        requires
            !c.ever_committed,
            !c.committed,
        ensures
            CropTool::deactivated_crop(c) == (Crop { active: false, ..c }),
    {
    }

    /// Leaving the tool twice is the same as leaving it once.
    pub proof fn lemma_deactivate_idempotent(c: Crop)
        ensures
            CropTool::deactivated_crop(CropTool::deactivated_crop(c))
                == CropTool::deactivated_crop(c),
    {
    }

    /// Dragging a handle never leaves the image.
    pub proof fn lemma_handle_drag_stays_inside(
        &self,
        state: DragHandleState,
        d: Vec2D,
        modifier: Modifiers,
        c: Crop,
    )
        requires
            bounds_ok(self.image_bounds),
            self.image_bounds is Some,
            self.crop is Some,
            self.action == Some(CropToolAction::DragHandle(state)),
            self.is_dragged(d, modifier, c),
        ensures
            0 <= c.left() <= c.right() <= self.image_bounds->0.x,
            0 <= c.top() <= c.bottom() <= self.image_bounds->0.y,
    {
    }

    /// Moving keeps the size, and keeps a crop that fits the image inside it.
    pub proof fn lemma_move_stays_inside(
        &self,
        state: MoveState,
        d: Vec2D,
        modifier: Modifiers,
        c: Crop,
    )
        requires
            bounds_ok(self.image_bounds),
            self.image_bounds is Some,
            self.crop is Some,
            self.action == Some(CropToolAction::Move(state)),
            self.is_dragged(d, modifier, c),
            0 <= self.crop->0.size.x <= self.image_bounds->0.x,
            0 <= self.crop->0.size.y <= self.image_bounds->0.y,
        ensures
            c.size == self.crop->0.size,
            0 <= c.left() <= c.right() <= self.image_bounds->0.x,
            0 <= c.top() <= c.bottom() <= self.image_bounds->0.y,
    {
    }

    /// A symmetric resize keeps the crop inside an image it fits, and keeps
    /// its center (to the sub-unit) where no image edge is in the way.
    pub proof fn lemma_grow_stays_inside(&self, dw: int, dh: int, c: Crop)
        requires
            bounds_ok(self.image_bounds),
            self.resizable(),
            self.is_grown(dw, dh, c),
            0 <= self.crop->0.left(),
            0 <= self.crop->0.top(),
            self.crop->0.size.x >= 0,
            self.crop->0.size.y >= 0,
            self.crop->0.right() <= self.image_bounds->0.x,
            self.crop->0.bottom() <= self.image_bounds->0.y,
        ensures
            0 <= c.left() <= c.right() <= self.image_bounds->0.x,
            0 <= c.top() <= c.bottom() <= self.image_bounds->0.y,
            ({
                let c0 = self.crop->0;
                let free = c0.pos.x + (c0.size.x - c.size.x) / 2;
                &&& 0 <= free && free + c.size.x <= self.image_bounds->0.x ==> -1 <= (2 * c.pos.x
                    + c.size.x) - (2 * c0.pos.x + c0.size.x) <= 1
            }),
    {
    }

    /// The four quadrant presets split an image of even size into four parts
    /// of equal size that meet in the middle.
    pub proof fn lemma_quadrants_tile(b: int)
        requires
            b >= 0,
            b % 2 == 0,
        ensures
            CropTool::preset_lo(b, false, false) == 0,
            CropTool::preset_lo(b, false, false) + b / 2 == CropTool::preset_lo(b, true, false),
            CropTool::preset_lo(b, true, false) + b / 2 == b,
    {
    }

    /// Fitting a crop to a ratio never leaves its old rectangle.
    pub proof fn lemma_inscribed_stays_inside(c0: Crop, rw: int, rh: int, c: Crop)
        requires
            rw > 0,
            rh > 0,
            CropTool::is_inscribed(c0, rw, rh, c),
        ensures
            c0.left() <= c.left() <= c.right() <= c0.right() + 1,
            c0.top() <= c.top() <= c.bottom() <= c0.bottom() + 1,
    {
        lemma_inscribed_bound(
            abs_spec(c0.size.x as int),
            abs_spec(c0.size.y as int),
            rw,
            rh,
        );
    }

    /// Starting over gives a crop of the whole image.
    pub proof fn lemma_seed_is_full_image(&self, b: Vec2D)
        requires
            self.image_bounds == Some(b),
            b.x >= 0,
            b.y >= 0,
            self.crop == Some(seed(b, self.bg_color)),
        ensures
            self.full_image_spec(),
    {
    }
}

} // verus!
