//! What is drawn over the image while a crop is being edited.
use vstd::prelude::*;
use crate::math::{Rect, Vec2D};
use crate::tools::crop::{rect_fits, Crop, CropBgColor};
use crate::units::{div_round_spec, half, mul_div, MICRO, UNIT};

verus! {

/// Length of the arms of a corner bracket, in screen lengths.
pub const BRACKET_LENGTH: i64 = 28 * UNIT;

/// Length of the bar in the middle of an edge, in screen lengths.
pub const EDGE_HANDLE_LENGTH: i64 = 36 * UNIT;

/// Width of brackets and bars, in screen lengths.
pub const HANDLE_STROKE_WIDTH: i64 = 5 * UNIT;

/// Width of the lines of the grid, in screen lengths.
pub const GRID_STROKE_WIDTH: i64 = UNIT;

/// A screen length on an image that is shown at `scale` millionths.
pub open spec fn on_image(len: int, scale: int) -> int {
    div_round_spec(len * MICRO, scale)
}

fn to_image(len: i64, scale: i64) -> (r: i64)
    requires
        0 <= len <= 36 * UNIT,
        scale > 0,
    ensures
        r == on_image(len as int, scale as int),
        0 <= r <= 36 * UNIT * MICRO,
{
    proof {
        let q = div_round_spec(len * MICRO, scale as int);
        let m = 2 * (len * MICRO) + scale;
        vstd::arithmetic::div_mod::lemma_fundamental_div_mod(m, 2 * scale as int);
        vstd::arithmetic::div_mod::lemma_div_pos_is_pos(m, 2 * scale as int);
        assert(q * (2 * scale) <= 2 * (len * MICRO) + scale);
        assert(q <= 36 * 65536 * 1_000_000) by (nonlinear_arith)
            requires
                q * (2 * scale) <= 2 * (len * MICRO) + scale,
                0 <= len <= 36 * 65536,
                MICRO == 1_000_000,
                scale >= 1,
        ;
    }
    mul_div(len, MICRO, scale)
}

/// A line.
#[derive(Clone, Copy, Debug, PartialEq, Eq, Structural)]
pub struct Segment {
    pub a: Vec2D,
    pub b: Vec2D,
}

/// An L around a corner.
#[derive(Clone, Copy, Debug, PartialEq, Eq, Structural)]
pub struct Bracket {
    pub side: Vec2D,
    pub corner: Vec2D,
    pub down: Vec2D,
}

/// What is drawn over the image while a crop is being edited, in image
/// lengths.
#[derive(Debug)]
pub struct CropOverlay {
    /// The color around the crop, unless that is left clear.
    pub matte: Option<CropBgColor>,
    pub border: Rect,
    /// The lines at the thirds: two down, two across.
    pub grid: Vec<Segment>,
    pub grid_width: i64,
    pub brackets: Vec<Bracket>,
    pub bars: Vec<Segment>,
    pub handle_width: i64,
}

/// The point `(x, y)`.
pub open spec fn at(x: int, y: int) -> Vec2D {
    Vec2D { x: x as i64, y: y as i64 }
}

impl Crop {
    /// The crop is drawn only while it is being edited.
    pub open spec fn shown(&self) -> bool {
        !self.committed && self.active
    }

    /// The lines at the thirds of the rectangle.
    pub open spec fn grid_spec(&self) -> Seq<Segment> {
        let (x, y) = (self.pos.x as int, self.pos.y as int);
        let (w, h) = (self.size.x as int, self.size.y as int);
        let (x1, x2) = (x + div_round_spec(w, 3), x + div_round_spec(2 * w, 3));
        let (y1, y2) = (y + div_round_spec(h, 3), y + div_round_spec(2 * h, 3));
        seq![
            Segment { a: at(x1, y), b: at(x1, y + h) },
            Segment { a: at(x2, y), b: at(x2, y + h) },
            Segment { a: at(x, y1), b: at(x + w, y1) },
            Segment { a: at(x, y2), b: at(x + w, y2) },
        ]
    }

    /// The brackets around the corners, with arms of this length.
    pub open spec fn brackets_spec(&self, len: int) -> Seq<Bracket> {
        let (l, t) = (self.pos.x as int, self.pos.y as int);
        let (r, b) = (l + self.size.x, t + self.size.y);
        seq![
            Bracket { side: at(l + len, t), corner: at(l, t), down: at(l, t + len) },
            Bracket { side: at(r - len, t), corner: at(r, t), down: at(r, t + len) },
            Bracket { side: at(l + len, b), corner: at(l, b), down: at(l, b - len) },
            Bracket { side: at(r - len, b), corner: at(r, b), down: at(r, b - len) },
        ]
    }

    /// The bars in the middle of the edges: top, bottom, left, right.
    pub open spec fn bars_spec(&self, arm: int) -> Seq<Segment> {
        let (l, t) = (self.pos.x as int, self.pos.y as int);
        let (r, b) = (l + self.size.x, t + self.size.y);
        let (mx, my) = (l + self.size.x as int / 2, t + self.size.y as int / 2);
        seq![
            Segment { a: at(mx - arm, t), b: at(mx + arm, t) },
            Segment { a: at(mx - arm, b), b: at(mx + arm, b) },
            Segment { a: at(l, my - arm), b: at(l, my + arm) },
            Segment { a: at(r, my - arm), b: at(r, my + arm) },
        ]
    }

    fn grid(&self) -> (r: Vec<Segment>)
        requires
            rect_fits(self.pos, self.size),
        ensures
            r@ == self.grid_spec(),
    {
        let (x, y): (i64, i64) = (self.pos.x, self.pos.y);
        let (w, h): (i64, i64) = (self.size.x, self.size.y);
        let x1: i64 = x + mul_div(w, 1, 3);
        let x2: i64 = x + mul_div(2 * w, 1, 3);
        let y1: i64 = y + mul_div(h, 1, 3);
        let y2: i64 = y + mul_div(2 * h, 1, 3);
        let lines: Vec<Segment> = vec![
            Segment { a: Vec2D::new(x1, y), b: Vec2D::new(x1, y + h) },
            Segment { a: Vec2D::new(x2, y), b: Vec2D::new(x2, y + h) },
            Segment { a: Vec2D::new(x, y1), b: Vec2D::new(x + w, y1) },
            Segment { a: Vec2D::new(x, y2), b: Vec2D::new(x + w, y2) },
        ];
        assert(lines@ =~= self.grid_spec());
        lines
    }

    fn brackets(&self, len: i64) -> (r: Vec<Bracket>)
        requires
            rect_fits(self.pos, self.size),
            0 <= len <= 36 * UNIT * MICRO,
        ensures
            r@ == self.brackets_spec(len as int),
    {
        let (l, t): (i64, i64) = (self.pos.x, self.pos.y);
        let (r, b): (i64, i64) = (l + self.size.x, t + self.size.y);
        let (li, ri): (i64, i64) = (l + len, r - len);
        let (ti, bi): (i64, i64) = (t + len, b - len);
        let all: Vec<Bracket> = vec![
            Bracket { side: Vec2D::new(li, t), corner: Vec2D::new(l, t), down: Vec2D::new(l, ti) },
            Bracket { side: Vec2D::new(ri, t), corner: Vec2D::new(r, t), down: Vec2D::new(r, ti) },
            Bracket { side: Vec2D::new(li, b), corner: Vec2D::new(l, b), down: Vec2D::new(l, bi) },
            Bracket { side: Vec2D::new(ri, b), corner: Vec2D::new(r, b), down: Vec2D::new(r, bi) },
        ];
        assert(all@ =~= self.brackets_spec(len as int));
        all
    }

    fn bars(&self, arm: i64) -> (r: Vec<Segment>)
        requires
            rect_fits(self.pos, self.size),
            0 <= arm <= 36 * UNIT * MICRO,
        ensures
            r@ == self.bars_spec(arm as int),
    {
        let (l, t): (i64, i64) = (self.pos.x, self.pos.y);
        let (r, b): (i64, i64) = (l + self.size.x, t + self.size.y);
        let mx: i64 = l + half(self.size.x);
        let my: i64 = t + half(self.size.y);
        let (x0, x1): (i64, i64) = (mx - arm, mx + arm);
        let (y0, y1): (i64, i64) = (my - arm, my + arm);
        let all: Vec<Segment> = vec![
            Segment { a: Vec2D::new(x0, t), b: Vec2D::new(x1, t) },
            Segment { a: Vec2D::new(x0, b), b: Vec2D::new(x1, b) },
            Segment { a: Vec2D::new(l, y0), b: Vec2D::new(l, y1) },
            Segment { a: Vec2D::new(r, y0), b: Vec2D::new(r, y1) },
        ];
        assert(all@ =~= self.bars_spec(arm as int));
        all
    }

    /// What is drawn over the image while the crop is being edited, when the
    /// image is shown at `scale` millionths.
    pub fn overlay(&self, scale: i64) -> (r: Option<CropOverlay>)
        requires
            rect_fits(self.pos, self.size),
            scale > 0,
        ensures
            r is Some == self.shown(),
            r matches Some(o) ==> {
                &&& o.matte == if self.bg_color.paint_color_spec().3 > 0 {
                    Some(self.bg_color)
                } else {
                    None
                }
                &&& o.border == (Rect { pos: self.pos, size: self.size })
                &&& o.grid@ == self.grid_spec()
                &&& o.grid_width == on_image(GRID_STROKE_WIDTH as int, scale as int)
                &&& o.brackets@ == self.brackets_spec(on_image(BRACKET_LENGTH as int, scale as int))
                &&& o.bars@ == self.bars_spec(
                    on_image((EDGE_HANDLE_LENGTH / 2) as int, scale as int),
                )
                &&& o.handle_width == on_image(HANDLE_STROKE_WIDTH as int, scale as int)
            },
    {
        if self.committed || !self.active {
            return None;
        }
        let matte: Option<CropBgColor> = if self.bg_color.paint_color().3 > 0 {
            Some(self.bg_color)
        } else {
            None
        };
        let len: i64 = to_image(BRACKET_LENGTH, scale);
        let arm: i64 = to_image(EDGE_HANDLE_LENGTH / 2, scale);
        Some(
            CropOverlay {
                matte,
                border: Rect::new(self.pos, self.size),
                grid: self.grid(),
                grid_width: to_image(GRID_STROKE_WIDTH, scale),
                brackets: self.brackets(len),
                bars: self.bars(arm),
                handle_width: to_image(HANDLE_STROKE_WIDTH, scale),
            },
        )
    }
}

} // verus!
