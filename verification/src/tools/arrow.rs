//! Arrows: straight ones with a solid head, and curved ones.
use vstd::prelude::*;
use crate::input::{KeyEventMsg, MouseButton, MouseEventMsg, MouseEventType, KEY_ESCAPE};
use crate::math::{dist2, dist2_spec, near_segment, near_segment_spec, Rect, Vec2D};
use crate::style::Style;
use crate::tools::{
    CanvasTransform, Handle, HandleId, HandleKind, PanelPreview, ToolUpdateResult, Tools,
};
use crate::units::{
    coord_ok, div_round_spec, floor_div, half, input_ok, max_len, max_spec, min_len, min_spec,
    mul_div, COORD_MAX, MICRO, UNIT, UNIT_SQUARED,
};

verus! {

/// Arrow geometry variants.
#[derive(Clone, Copy, Debug, PartialEq, Eq, Structural)]
pub enum ArrowStyle {
    /// Solid, with a tail that widens toward the head.
    Standard,
    /// Solid, with a swept-back head and a flat back.
    Pointy,
    /// A curve with a head at its end.
    Curved,
    /// A curve with a head at both ends.
    Double,
}

impl Default for ArrowStyle {
    fn default() -> (r: ArrowStyle)
        ensures
            r == ArrowStyle::Standard,
    {
        ArrowStyle::Standard
    }
}

impl ArrowStyle {
    /// The style after this one, around the cycle.
    pub open spec fn next_spec(self) -> ArrowStyle {
        match self {
            ArrowStyle::Standard => ArrowStyle::Pointy,
            ArrowStyle::Pointy => ArrowStyle::Curved,
            ArrowStyle::Curved => ArrowStyle::Double,
            ArrowStyle::Double => ArrowStyle::Standard,
        }
    }

    /// The style before this one, around the cycle.
    pub open spec fn prev_spec(self) -> ArrowStyle {
        match self {
            ArrowStyle::Standard => ArrowStyle::Double,
            ArrowStyle::Pointy => ArrowStyle::Standard,
            ArrowStyle::Curved => ArrowStyle::Pointy,
            ArrowStyle::Double => ArrowStyle::Curved,
        }
    }

    /// Name shown when the style is cycled.
    pub open spec fn display_name_spec(self) -> &'static str {
        match self {
            ArrowStyle::Standard => "Standard",
            ArrowStyle::Pointy => "Pointy",
            ArrowStyle::Curved => "Curved",
            ArrowStyle::Double => "Double",
        }
    }

    /// The arrow bends.
    pub open spec fn is_curved(self) -> bool {
        self == ArrowStyle::Curved || self == ArrowStyle::Double
    }

    pub fn next(self) -> (r: ArrowStyle)
        ensures
            r == self.next_spec(),
    {
        match self {
            ArrowStyle::Standard => ArrowStyle::Pointy,
            ArrowStyle::Pointy => ArrowStyle::Curved,
            ArrowStyle::Curved => ArrowStyle::Double,
            ArrowStyle::Double => ArrowStyle::Standard,
        }
    }

    pub fn prev(self) -> (r: ArrowStyle)
        ensures
            r == self.prev_spec(),
    {
        match self {
            ArrowStyle::Standard => ArrowStyle::Double,
            ArrowStyle::Pointy => ArrowStyle::Standard,
            ArrowStyle::Curved => ArrowStyle::Pointy,
            ArrowStyle::Double => ArrowStyle::Curved,
        }
    }

    pub fn display_name(self) -> (r: &'static str)
        ensures
            r == self.display_name_spec(),
    {
        match self {
            ArrowStyle::Standard => "Standard",
            ArrowStyle::Pointy => "Pointy",
            ArrowStyle::Curved => "Curved",
            ArrowStyle::Double => "Double",
        }
    }

    /// Stepping forward and back again ends where it began, and four steps
    /// forward visit every style once.
    pub proof fn lemma_cycle(self, other: ArrowStyle)
        ensures
            self.next_spec().prev_spec() == self,
            self.prev_spec().next_spec() == self,
            self.next_spec().next_spec().next_spec().next_spec() == self,
            other == self || other == self.next_spec() || other == self.next_spec().next_spec()
                || other == self.next_spec().next_spec().next_spec(),
    {
    }
}

/// Forward slant of the back of the head of a standard arrow, in millionths
/// of the length of the head.
pub const STANDARD_SHOULDER_RATIO: i64 = 50_000;

/// The same for a pointy arrow.
pub const FANCY_SHOULDER_RATIO: i64 = 0;

/// How far the wings of a pointy arrow reach behind its head, in millionths
/// of the length of the head.
pub const FANCY_WING_BACK_RATIO: i64 = 220_000;

/// How far the wings of a pointy arrow stick out, in millionths of half the
/// height of the head.
pub const FANCY_WING_HEIGHT_RATIO: i64 = 220_000;

/// The dimensions that the size tables give for an arrow of one size.
#[derive(Clone, Copy, Debug, PartialEq, Eq, Structural)]
pub struct ArrowMetrics {
    pub head_length: i64,
    pub pointy_head_length: i64,
    pub head_full_height: i64,
    pub pointy_head_full_height: i64,
    /// Half the height of a head with the standard apex angle.
    pub curved_head_half_height: i64,
    pub tail_width: i64,
    pub pointy_tail_width: i64,
    pub tail_back_width: i64,
    pub pointy_tail_back_width: i64,
    pub line_width: i64,
    pub curved_shaft_width: i64,
}

impl ArrowMetrics {
    /// No dimension is negative or out of range.
    pub open spec fn ok(&self) -> bool {
        &&& 0 <= self.head_length && input_ok(self.head_length as int)
        &&& 0 <= self.pointy_head_length && input_ok(self.pointy_head_length as int)
        &&& 0 <= self.head_full_height && input_ok(self.head_full_height as int)
        &&& 0 <= self.pointy_head_full_height && input_ok(self.pointy_head_full_height as int)
        &&& 0 <= self.curved_head_half_height && input_ok(self.curved_head_half_height as int)
        &&& 0 <= self.tail_width && input_ok(self.tail_width as int)
        &&& 0 <= self.pointy_tail_width && input_ok(self.pointy_tail_width as int)
        &&& 0 <= self.tail_back_width && input_ok(self.tail_back_width as int)
        &&& 0 <= self.pointy_tail_back_width && input_ok(self.pointy_tail_back_width as int)
        &&& 0 <= self.line_width && input_ok(self.line_width as int)
        &&& 0 <= self.curved_shaft_width && input_ok(self.curved_shaft_width as int)
    }
}

/// Coordinate `i` of `n` along a quadratic curve from `s` over `c` to `e`.
pub open spec fn bezier_axis_spec(s: int, c: int, e: int, i: int, n: int) -> int {
    div_round_spec((n - i) * (n - i) * s + 2 * (n - i) * i * c + i * i * e, n * n)
}

/// Point `i` of `n` along a quadratic curve.
pub open spec fn bezier_point(s: Vec2D, c: Vec2D, e: Vec2D, i: int, n: int) -> Vec2D {
    Vec2D {
        x: bezier_axis_spec(s.x as int, c.x as int, e.x as int, i, n) as i64,
        y: bezier_axis_spec(s.y as int, c.y as int, e.y as int, i, n) as i64,
    }
}

/// `n + 1` points along a quadratic curve, both ends included.
pub open spec fn bezier_points(s: Vec2D, c: Vec2D, e: Vec2D, n: int) -> Seq<Vec2D> {
    Seq::new((n + 1) as nat, |i: int| bezier_point(s, c, e, i, n))
}

/// A point of a curve lies no further out than the points that span it.
proof fn lemma_bezier_axis_bound(s: int, c: int, e: int, i: int, n: int, m: int)
    requires
        0 <= i <= n,
        0 < n <= 1000,
        -m <= s <= m,
        -m <= c <= m,
        -m <= e <= m,
    ensures
        -m <= bezier_axis_spec(s, c, e, i, n) <= m,
        -(n * n) * m <= (n - i) * (n - i) * s + 2 * (n - i) * i * c + i * i * e <= (n * n) * m,
        0 <= (n - i) * (n - i) <= n * n,
        0 <= 2 * (n - i) * i <= 2 * (n * n),
        0 <= i * i <= n * n,
        n * n <= 1_000_000,
{
    let j = n - i;
    let wa = j * j;
    let wb = 2 * j * i;
    let wc = i * i;
    let nn = n * n;
    assert(wa + wb + wc == nn && 0 <= wa && 0 <= wb && 0 <= wc && 0 < nn <= 1_000_000)
        by (nonlinear_arith)
        requires
            wa == j * j,
            wb == 2 * j * i,
            wc == i * i,
            nn == n * n,
            j == n - i,
            0 <= i <= n,
            0 < n <= 1000,
    ;
    let a = wa * s + wb * c + wc * e;
    assert(-nn * m <= a <= nn * m) by (nonlinear_arith)
        requires
            a == wa * s + wb * c + wc * e,
            wa + wb + wc == nn,
            0 <= wa,
            0 <= wb,
            0 <= wc,
            -m <= s <= m,
            -m <= c <= m,
            -m <= e <= m,
    ;
    let q = div_round_spec(a, nn);
    crate::units::lemma_div_round_near(a, nn);
    assert(-m <= q <= m) by (nonlinear_arith)
        requires
            -nn <= 2 * (q * nn - a) <= nn,
            -nn * m <= a <= nn * m,
            nn > 0,
    ;
}

/// A coordinate along a quadratic curve.
fn bezier_axis(s: i64, c: i64, e: i64, i: i64, n: i64) -> (r: i64)
    requires
        0 <= i <= n,
        0 < n <= 1000,
        coord_ok(s as int),
        coord_ok(c as int),
        coord_ok(e as int),
    ensures
        r == bezier_axis_spec(s as int, c as int, e as int, i as int, n as int),
        coord_ok(r as int),
{
    proof {
        lemma_bezier_axis_bound(s as int, c as int, e as int, i as int, n as int, COORD_MAX as int);
        let j = n - i;
        let m = COORD_MAX as int;
        assert(-1_000_000 * m <= (j * j) * s <= 1_000_000 * m) by (nonlinear_arith)
            requires
                0 <= j * j <= 1_000_000,
                -m <= s <= m,
                m == 0x100_0000_0000_0000,
        ;
        assert(-2_000_000 * m <= (2 * j * i) * c <= 2_000_000 * m) by (nonlinear_arith)
            requires
                0 <= 2 * j * i <= 2_000_000,
                -m <= c <= m,
                m == 0x100_0000_0000_0000,
        ;
        assert(-1_000_000 * m <= (i * i) * e <= 1_000_000 * m) by (nonlinear_arith)
            requires
                0 <= i * i <= 1_000_000,
                -m <= e <= m,
                m == 0x100_0000_0000_0000,
        ;
        assert(0 <= j * i) by (nonlinear_arith)
            requires
                0 <= j,
                0 <= i,
        ;
        assert(2 * j * i == 2 * (j * i)) by (nonlinear_arith);
        assert(n * n > 0) by (nonlinear_arith)
            requires
                n > 0,
        ;
    }
    let j: i128 = (n - i) as i128;
    let k: i128 = i as i128;
    let a: i128 = (j * j) * s as i128 + (2 * (j * k)) * c as i128 + (k * k) * e as i128;
    let d: i128 = n as i128 * n as i128;
    floor_div(2 * a + d, 2 * d) as i64
}

/// `r` is the smallest box around `pts`, grown by `pad` on every side.
pub open spec fn is_hull(pts: Seq<Vec2D>, pad: int, r: Rect) -> bool {
    &&& forall|i: int|
        0 <= i < pts.len() ==> {
            &&& r.pos.x + pad <= (#[trigger] pts[i]).x <= r.right() - pad
            &&& r.pos.y + pad <= pts[i].y <= r.bottom() - pad
        }
    &&& exists|i: int| 0 <= i < pts.len() && (#[trigger] pts[i]).x == r.pos.x + pad
    &&& exists|i: int| 0 <= i < pts.len() && (#[trigger] pts[i]).y == r.pos.y + pad
    &&& exists|i: int| 0 <= i < pts.len() && (#[trigger] pts[i]).x == r.right() - pad
    &&& exists|i: int| 0 <= i < pts.len() && (#[trigger] pts[i]).y == r.bottom() - pad
}

/// The smallest box around some points, grown by `pad`.
pub fn hull(pts: &Vec<Vec2D>, pad: i64) -> (r: Rect)
    requires
        pts@.len() > 0,
        forall|i: int| 0 <= i < pts@.len() ==> (#[trigger] pts@[i]).ok(),
        coord_ok(pad as int),
    ensures
        is_hull(pts@, pad as int, r),
{
    let mut min: Vec2D = pts[0];
    let mut max: Vec2D = pts[0];
    let mut i: usize = 1;
    while i < pts.len()
        invariant
            1 <= i <= pts@.len(),
            forall|k: int| 0 <= k < pts@.len() ==> (#[trigger] pts@[k]).ok(),
            min.ok(),
            max.ok(),
            forall|k: int|
                0 <= k < i ==> min.x <= (#[trigger] pts@[k]).x <= max.x && min.y <= pts@[k].y
                    <= max.y,
            exists|k: int| 0 <= k < i && (#[trigger] pts@[k]).x == min.x,
            exists|k: int| 0 <= k < i && (#[trigger] pts@[k]).y == min.y,
            exists|k: int| 0 <= k < i && (#[trigger] pts@[k]).x == max.x,
            exists|k: int| 0 <= k < i && (#[trigger] pts@[k]).y == max.y,
        decreases pts.len() - i,
    {
        let p: Vec2D = pts[i];
        assert(pts@[i as int].ok());
        min.x = min_len(min.x, p.x);
        min.y = min_len(min.y, p.y);
        max.x = max_len(max.x, p.x);
        max.y = max_len(max.y, p.y);
        i = i + 1;
    }
    Rect {
        pos: Vec2D { x: min.x - pad, y: min.y - pad },
        size: Vec2D { x: max.x - min.x + 2 * pad, y: max.y - min.y + 2 * pad },
    }
}

/// An open head of an arrow: where its tip is, and where it comes from.
#[derive(Clone, Copy, Debug, PartialEq, Eq, Structural)]
pub struct ArrowHead {
    pub tip: Vec2D,
    pub from: Vec2D,
}

/// An arrow; without an end it is not there yet.
#[derive(Clone, Copy, Debug, PartialEq, Eq, Structural)]
pub struct Arrow {
    pub start: Vec2D,
    pub end: Option<Vec2D>,
    pub style: Style,
    pub arrow_style: ArrowStyle,
    /// Where the user bent the curve to.
    pub curve_control: Option<Vec2D>,
}

/// Both coordinates came from outside.
pub open spec fn point_in(p: Vec2D) -> bool {
    input_ok(p.x as int) && input_ok(p.y as int)
}

/// `v * ratio`, with the ratio in millionths.
pub open spec fn times_micro(v: int, ratio: int) -> int {
    div_round_spec(v * ratio, MICRO as int)
}

impl Arrow {
    /// All points are coordinates that came from outside.
    pub open spec fn ok(&self) -> bool {
        &&& point_in(self.start)
        &&& self.end matches Some(p) ==> point_in(p)
        &&& self.curve_control matches Some(p) ==> point_in(p)
    }

    /// Length of the head along the shaft.
    pub open spec fn head_length_spec(&self, m: ArrowMetrics) -> i64 {
        if self.arrow_style == ArrowStyle::Pointy {
            m.pointy_head_length
        } else {
            m.head_length
        }
    }

    /// Half the height of the head at its base.
    pub open spec fn head_half_height_spec(&self, m: ArrowMetrics) -> int {
        match self.arrow_style {
            ArrowStyle::Pointy => m.pointy_head_full_height as int / 2,
            ArrowStyle::Standard => m.head_full_height as int / 2,
            _ => m.curved_head_half_height as int,
        }
    }

    /// Width of the body where it meets the head.
    pub open spec fn body_max_width_spec(&self, m: ArrowMetrics) -> i64 {
        if self.arrow_style == ArrowStyle::Pointy {
            m.pointy_tail_width
        } else {
            m.tail_width
        }
    }

    /// Thickness of the back of the tail.
    pub open spec fn body_back_width_spec(&self, m: ArrowMetrics) -> i64 {
        if self.arrow_style == ArrowStyle::Pointy {
            m.pointy_tail_back_width
        } else {
            m.tail_back_width
        }
    }

    /// Width of the shaft.
    pub open spec fn shaft_width_spec(&self, m: ArrowMetrics) -> i64 {
        if self.arrow_style.is_curved() {
            m.curved_shaft_width
        } else {
            m.line_width
        }
    }

    pub fn head_length(&self, m: &ArrowMetrics) -> (r: i64)
        ensures
            r == self.head_length_spec(*m),
    {
        match self.arrow_style {
            ArrowStyle::Pointy => m.pointy_head_length,
            _ => m.head_length,
        }
    }

    pub fn head_half_height(&self, m: &ArrowMetrics) -> (r: i64)
        ensures
            r == self.head_half_height_spec(*m),
    {
        match self.arrow_style {
            ArrowStyle::Pointy => half(m.pointy_head_full_height),
            ArrowStyle::Standard => half(m.head_full_height),
            _ => m.curved_head_half_height,
        }
    }

    pub fn body_max_width(&self, m: &ArrowMetrics) -> (r: i64)
        ensures
            r == self.body_max_width_spec(*m),
    {
        match self.arrow_style {
            ArrowStyle::Pointy => m.pointy_tail_width,
            _ => m.tail_width,
        }
    }

    pub fn body_back_width(&self, m: &ArrowMetrics) -> (r: i64)
        ensures
            r == self.body_back_width_spec(*m),
    {
        match self.arrow_style {
            ArrowStyle::Pointy => m.pointy_tail_back_width,
            _ => m.tail_back_width,
        }
    }

    pub fn shaft_width(&self, m: &ArrowMetrics) -> (r: i64)
        ensures
            r == self.shaft_width_spec(*m),
    {
        match self.arrow_style {
            ArrowStyle::Curved | ArrowStyle::Double => m.curved_shaft_width,
            _ => m.line_width,
        }
    }

    /// The control point of the curve to `end`: where the user put it, else a
    /// quarter of the chord to the side of its middle. A chord shorter than a
    /// pixel has none.
    pub open spec fn control_spec(&self, end: Vec2D) -> Option<Vec2D> {
        match self.curve_control {
            Some(c) => Some(c),
            None => if dist2_spec(end, self.start) < UNIT_SQUARED {
                None
            } else {
                Some(
                    Vec2D {
                        x: div_round_spec(2 * (self.start.x + end.x) - (end.y - self.start.y), 4) as i64,
                        y: div_round_spec(2 * (self.start.y + end.y) + (end.x - self.start.x), 4) as i64,
                    },
                )
            },
        }
    }

    pub fn bezier_control(&self, end: Vec2D) -> (r: Option<Vec2D>)
        requires
            self.ok(),
            point_in(end),
        ensures
            r == self.control_spec(end),
            r matches Some(c) ==> c.ok(),
    {
        if self.curve_control.is_some() {
            return self.curve_control;
        }
        if dist2(end, self.start) < UNIT_SQUARED {
            return None;
        }
        let x: i64 = mul_div(2 * (self.start.x + end.x) - (end.y - self.start.y), 1, 4);
        let y: i64 = mul_div(2 * (self.start.y + end.y) + (end.x - self.start.x), 1, 4);
        Some(Vec2D { x, y })
    }

    /// `n + 1` points along the curve from the start over `control` to `end`.
    pub fn bezier_sample(&self, end: Vec2D, control: Vec2D, n: usize) -> (r: Vec<Vec2D>)
        requires
            0 < n <= 1000,
            self.start.ok(),
            end.ok(),
            control.ok(),
        ensures
            r@ == bezier_points(self.start, control, end, n as int),
            forall|i: int| 0 <= i < r@.len() ==> (#[trigger] r@[i]).ok(),
    {
        let mut pts: Vec<Vec2D> = Vec::new();
        let mut i: usize = 0;
        while i <= n
            invariant
                0 < n <= 1000,
                i <= n + 1,
                pts@.len() == i,
                self.start.ok(),
                end.ok(),
                control.ok(),
                forall|k: int|
                    0 <= k < i ==> (#[trigger] pts@[k]).ok() && pts@[k] == bezier_point(
                        self.start,
                        control,
                        end,
                        k,
                        n as int,
                    ),
            decreases n + 1 - i,
        {
            let x: i64 = bezier_axis(self.start.x, control.x, end.x, i as i64, n as i64);
            let y: i64 = bezier_axis(self.start.y, control.y, end.y, i as i64, n as i64);
            pts.push(Vec2D { x, y });
            i = i + 1;
        }
        proof {
            assert(pts@ =~= bezier_points(self.start, control, end, n as int));
        }
        pts
    }

    /// The outline of a solid arrow of the given length, in coordinates with
    /// the tail at the origin and the tip on the positive x axis. `stroke` is
    /// the width of a stroke drawn over the outline, which the body makes
    /// room for; the ratios are in millionths.
    pub open spec fn solid_outline_spec(
        &self,
        m: ArrowMetrics,
        length: int,
        shoulder: int,
        wing_back: int,
        wing_height: int,
        stroke: int,
        back_half: int,
    ) -> Seq<(int, int)> {
        let body_half = max_spec(self.body_max_width_spec(m) - stroke, 0) / 2;
        let head = min_spec(self.head_length_spec(m) as int, times_micro(length, 950_000));
        let outer_x = length - head;
        let inner_x = outer_x + times_micro(head, shoulder);
        let wing_x = outer_x - times_micro(head, wing_back);
        let wing_half = times_micro(self.head_half_height_spec(m), MICRO + wing_height);
        seq![
            (0, back_half),
            (inner_x, body_half),
            (wing_x, wing_half),
            (length, 0),
            (wing_x, -wing_half),
            (inner_x, -body_half),
            (0, -back_half),
        ]
    }

    pub fn solid_filled_path(
        &self,
        m: &ArrowMetrics,
        arrow_length: i64,
        shoulder_ratio: i64,
        wing_back_ratio: i64,
        wing_height_ratio: i64,
        stroke_compensation: i64,
        back_half_width: i64,
    ) -> (r: Vec<Vec2D>)
        requires
            m.ok(),
            0 <= arrow_length <= 0x4_0000_0000_0000,
            0 <= shoulder_ratio <= MICRO,
            0 <= wing_back_ratio <= MICRO,
            0 <= wing_height_ratio <= MICRO,
            0 <= stroke_compensation,
            input_ok(stroke_compensation as int),
            0 <= back_half_width,
            input_ok(back_half_width as int),
        ensures
            r@.len() == 7,
            forall|i: int|
                0 <= i < 7 ==> ((#[trigger] r@[i]).x as int, r@[i].y as int)
                    == self.solid_outline_spec(
                    *m,
                    arrow_length as int,
                    shoulder_ratio as int,
                    wing_back_ratio as int,
                    wing_height_ratio as int,
                    stroke_compensation as int,
                    back_half_width as int,
                )[i],
    {
        let body_max_half: i64 = half(max_len(self.body_max_width(m) - stroke_compensation, 0));
        proof {
            lemma_times_micro_bound(arrow_length as int, 950_000);
        }
        let head_length: i64 = min_len(
            self.head_length(m),
            mul_div(arrow_length, 950_000, MICRO),
        );
        let head_half_height: i64 = self.head_half_height(m);
        proof {
            lemma_times_micro_bound(head_length as int, shoulder_ratio as int);
            lemma_times_micro_bound(head_length as int, wing_back_ratio as int);
            lemma_times_micro_bound(head_half_height as int, MICRO + wing_height_ratio);
        }
        let head_outer_x: i64 = arrow_length - head_length;
        let head_inner_x: i64 = head_outer_x + mul_div(head_length, shoulder_ratio, MICRO);
        let wing_x: i64 = head_outer_x - mul_div(head_length, wing_back_ratio, MICRO);
        let wing_half_height: i64 = mul_div(head_half_height, MICRO + wing_height_ratio, MICRO);
        let wing_low: i64 = -wing_half_height;
        let body_low: i64 = -body_max_half;
        let back_low: i64 = -back_half_width;
        let path: Vec<Vec2D> = vec![
            Vec2D::new(0, back_half_width),
            Vec2D::new(head_inner_x, body_max_half),
            Vec2D::new(wing_x, wing_half_height),
            Vec2D::new(arrow_length, 0),
            Vec2D::new(wing_x, wing_low),
            Vec2D::new(head_inner_x, body_low),
            Vec2D::new(0, back_low),
        ];
        path
    }

    /// Width of the stroke that rounds the corners of a standard arrow.
    pub fn rounded_outline_stroke(&self, m: &ArrowMetrics) -> (r: i64)
        ensures
            r == self.body_back_width_spec(*m),
    {
        self.body_back_width(m)
    }

    /// The outline of a standard or pointy arrow `length` long: the first is
    /// drawn with rounded corners, so that its back ends in a point that the
    /// stroke widens; the second has a flat back. Nothing under one pixel.
    pub open spec fn solid_shape_spec(&self, m: ArrowMetrics, length: int) -> Seq<(int, int)> {
        if self.arrow_style == ArrowStyle::Pointy {
            self.solid_outline_spec(
                m,
                length,
                FANCY_SHOULDER_RATIO as int,
                FANCY_WING_BACK_RATIO as int,
                FANCY_WING_HEIGHT_RATIO as int,
                0,
                self.body_back_width_spec(m) as int / 2,
            )
        } else {
            self.solid_outline_spec(
                m,
                length,
                STANDARD_SHOULDER_RATIO as int,
                0,
                0,
                self.body_back_width_spec(m) as int,
                0,
            )
        }
    }

    /// The outline to fill for a straight arrow `length` long, and whether
    /// its corners are rounded by a stroke on top.
    pub fn solid_shape(&self, m: &ArrowMetrics, length: i64) -> (r: Option<(Vec<Vec2D>, bool)>)
        requires
            m.ok(),
            length <= 0x4_0000_0000_0000,
        ensures
            r is Some == (!self.arrow_style.is_curved() && length >= UNIT),
            r matches Some((path, round)) ==> {
                &&& round == (self.arrow_style == ArrowStyle::Standard)
                &&& path@.len() == 7
                &&& forall|i: int|
                    0 <= i < 7 ==> ((#[trigger] path@[i]).x as int, path@[i].y as int)
                        == self.solid_shape_spec(*m, length as int)[i]
            },
    {
        if length < UNIT {
            return None;
        }
        match self.arrow_style {
            ArrowStyle::Standard => {
                let stroke: i64 = self.rounded_outline_stroke(m);
                let path = self.solid_filled_path(
                    m,
                    length,
                    STANDARD_SHOULDER_RATIO,
                    0,
                    0,
                    stroke,
                    0,
                );
                Some((path, true))
            },
            ArrowStyle::Pointy => {
                let back: i64 = half(self.body_back_width(m));
                let path = self.solid_filled_path(
                    m,
                    length,
                    FANCY_SHOULDER_RATIO,
                    FANCY_WING_BACK_RATIO,
                    FANCY_WING_HEIGHT_RATIO,
                    0,
                    back,
                );
                Some((path, false))
            },
            _ => None,
        }
    }

    /// Width of the brush that paints the glow, which has to reach `halo`
    /// beyond what is drawn.
    pub fn glow_width(&self, m: &ArrowMetrics, halo: i64) -> (r: i64)
        requires
            m.ok(),
            input_ok(halo as int),
        ensures
            r == match self.arrow_style {
                ArrowStyle::Standard => 2 * (self.body_back_width_spec(*m) as int / 2 + halo),
                ArrowStyle::Pointy => 2 * halo,
                _ => self.shaft_width_spec(*m) + 2 * halo,
            },
    {
        match self.arrow_style {
            ArrowStyle::Standard => 2 * (half(self.rounded_outline_stroke(m)) + halo),
            ArrowStyle::Pointy => 2 * halo,
            _ => self.shaft_width(m) + 2 * halo,
        }
    }

    /// The heads of a curved arrow: one at the end and, for a double arrow,
    /// one at the start. Each points away from the control point, so there is
    /// none where the two coincide.
    pub open spec fn heads_spec(&self, control: Vec2D, end: Vec2D) -> Seq<ArrowHead> {
        (if end != control {
            seq![ArrowHead { tip: end, from: control }]
        } else {
            Seq::empty()
        }) + (if self.arrow_style == ArrowStyle::Double && self.start != control {
            seq![ArrowHead { tip: self.start, from: control }]
        } else {
            Seq::empty()
        })
    }

    /// What is drawn of a curved arrow: the control point of its shaft, and
    /// its heads.
    pub fn curved_shape(&self) -> (r: Option<(Vec2D, Vec<ArrowHead>)>)
        requires
            self.ok(),
        ensures
            match (self.end, r) {
                (Some(end), Some((control, heads))) => {
                    &&& self.arrow_style.is_curved()
                    &&& self.control_spec(end) == Some(control)
                    &&& heads@ == self.heads_spec(control, end)
                },
                (Some(end), None) => !self.arrow_style.is_curved() || self.control_spec(end) is None,
                (None, _) => r is None,
            },
    {
        let Some(end) = self.end else {
            return None;
        };
        match self.arrow_style {
            ArrowStyle::Curved | ArrowStyle::Double => {},
            _ => {
                return None;
            },
        }
        let Some(control) = self.bezier_control(end) else {
            return None;
        };
        let mut heads: Vec<ArrowHead> = Vec::new();
        if end != control {
            heads.push(ArrowHead { tip: end, from: control });
        }
        if self.arrow_style == ArrowStyle::Double && self.start != control {
            heads.push(ArrowHead { tip: self.start, from: control });
        }
        assert(heads@ =~= self.heads_spec(control, end));
        Some((control, heads))
    }

    /// Room around the ends that the arrow may cover.
    pub open spec fn bounds_pad(&self, m: ArrowMetrics) -> int {
        max_spec(self.head_length_spec(m) as int, self.body_max_width_spec(m) as int) / 2 + 2 * UNIT
    }

    /// The points that the box of the arrow is built around.
    pub open spec fn spine(&self, n: int) -> Seq<Vec2D> {
        let end = self.end->0;
        match self.control_spec(end) {
            Some(c) if self.arrow_style.is_curved() => bezier_points(self.start, c, end, n),
            _ => seq![self.start, end],
        }
    }

    pub fn bounds(&self, m: &ArrowMetrics) -> (r: Option<Rect>)
        requires
            self.ok(),
            m.ok(),
        ensures
            r is Some == self.end is Some,
            r matches Some(b) ==> is_hull(self.spine(16), self.bounds_pad(*m), b),
    {
        let Some(end) = self.end else {
            return None;
        };
        let head: i64 = self.head_length(m);
        let body: i64 = self.body_max_width(m);
        let pad: i64 = half(max_len(head, body)) + 2 * UNIT;
        match self.arrow_style {
            ArrowStyle::Standard | ArrowStyle::Pointy => Some(self.straight_bounds(end, pad)),
            ArrowStyle::Curved | ArrowStyle::Double => {
                match self.bezier_control(end) {
                    None => Some(self.straight_bounds(end, pad)),
                    Some(control) => {
                        let pts = self.bezier_sample(end, control, 16);
                        Some(hull(&pts, pad))
                    },
                }
            },
        }
    }

    /// The box around the chord.
    fn straight_bounds(&self, end: Vec2D, pad: i64) -> (r: Rect)
        requires
            point_in(self.start),
            point_in(end),
            coord_ok(pad as int),
        ensures
            is_hull(seq![self.start, end], pad as int, r),
    {
        let r: Rect = Rect::from_corners(self.start, end).inflated(pad);
        proof {
            let pts = seq![self.start, end];
            assert(pts[0] == self.start && pts[1] == end);
        }
        r
    }

    /// How far from its spine the arrow is still hit.
    pub open spec fn pick_spec(&self, m: ArrowMetrics, tolerance: int) -> int {
        if self.arrow_style.is_curved() {
            max_spec(self.shaft_width_spec(m) as int, self.head_length_spec(m) as int) / 2 + tolerance
        } else {
            max_spec(self.body_max_width_spec(m) as int, self.head_length_spec(m) as int) / 2
                + tolerance
        }
    }

    /// Whether `point` is on the arrow, give or take `tolerance`.
    pub fn hit_test(&self, point: Vec2D, tolerance: i64, m: &ArrowMetrics) -> (r: bool)
        requires
            self.ok(),
            m.ok(),
            point.ok(),
            input_ok(tolerance as int),
        ensures
            r == (self.end is Some && near_polyline(
                point,
                self.spine(24),
                self.pick_spec(*m, tolerance as int),
            )),
    {
        let Some(end) = self.end else {
            return false;
        };
        let head: i64 = self.head_length(m);
        let body: i64 = self.body_max_width(m);
        let shaft: i64 = self.shaft_width(m);
        let control: Option<Vec2D> = self.bezier_control(end);
        match self.arrow_style {
            ArrowStyle::Standard | ArrowStyle::Pointy => {
                let pick: i64 = half(max_len(body, head)) + tolerance;
                self.chord_hit(point, end, pick)
            },
            ArrowStyle::Curved | ArrowStyle::Double => {
                let pick: i64 = half(max_len(shaft, head)) + tolerance;
                match control {
                    None => self.chord_hit(point, end, pick),
                    Some(c) => {
                        let pts = self.bezier_sample(end, c, 24);
                        polyline_hit(point, &pts, pick)
                    },
                }
            },
        }
    }

    /// Whether `point` is within `pick` of the chord.
    fn chord_hit(&self, point: Vec2D, end: Vec2D, pick: i64) -> (r: bool)
        requires
            point_in(self.start),
            point_in(end),
            point.ok(),
            coord_ok(pick as int),
        ensures
            r == near_polyline(point, seq![self.start, end], pick as int),
    {
        let r: bool = near_segment(point, self.start, end, pick);
        proof {
            let pts = seq![self.start, end];
            assert(pts[0] == self.start && pts[1] == end);
            if r {
                assert(near_segment_spec(point, pts[0], pts[0int + 1], pick as int));
            }
        }
        r
    }

    /// Moves the arrow, the bend included.
    pub fn translate(&mut self, delta: Vec2D)
        requires
            old(self).ok(),
            point_in(delta),
        ensures
            final(self).start.x == old(self).start.x + delta.x,
            final(self).start.y == old(self).start.y + delta.y,
            moved_by(old(self).end, delta, final(self).end),
            moved_by(old(self).curve_control, delta, final(self).curve_control),
            final(self).style == old(self).style,
            final(self).arrow_style == old(self).arrow_style,
    {
        self.start = self.start.plus(delta);
        if let Some(end) = self.end {
            self.end = Some(end.plus(delta));
        }
        if let Some(c) = self.curve_control {
            self.curve_control = Some(c.plus(delta));
        }
    }

    /// Moves the arrow along with a transform of the whole canvas.
    pub fn apply_canvas_transform(&mut self, t: CanvasTransform, w: i64, h: i64)
        requires
            old(self).ok(),
            t.wf(),
            coord_ok(w as int),
            coord_ok(h as int),
            t.fits(old(self).start.x as int, old(self).start.y as int),
            old(self).end matches Some(p) ==> t.fits(p.x as int, p.y as int),
            old(self).curve_control matches Some(p) ==> t.fits(p.x as int, p.y as int),
        ensures
            is_mapped_point(t, old(self).start, w as int, h as int, final(self).start),
            is_mapped_option(t, old(self).end, w as int, h as int, final(self).end),
            is_mapped_option(
                t,
                old(self).curve_control,
                w as int,
                h as int,
                final(self).curve_control,
            ),
            final(self).style == old(self).style,
            final(self).arrow_style == old(self).arrow_style,
    {
        self.start = t.map_point(self.start, w, h);
        if let Some(end) = self.end {
            self.end = Some(t.map_point(end, w, h));
        }
        if let Some(c) = self.curve_control {
            self.curve_control = Some(t.map_point(c, w, h));
        }
    }

    /// A handle at each end; curved arrows have a third one in the middle of
    /// the curve. Those of curved arrows are twice as easy to grab.
    pub fn handles(&self, hit_radius: i64) -> (r: Vec<Handle>)
        requires
            self.ok(),
            input_ok(hit_radius as int),
        ensures
            self.end is None ==> r@.len() == 0,
            self.end matches Some(end) ==> {
                let radius = if self.arrow_style.is_curved() {
                    (2 * hit_radius) as i64
                } else {
                    hit_radius
                };
                let bend = self.control_spec(end);
                &&& r@.len() == if self.arrow_style.is_curved() && bend is Some {
                    3int
                } else {
                    2int
                }
                &&& r@[0] == (Handle {
                    id: HandleId::Start,
                    pos: self.start,
                    hit_radius: radius,
                    kind: HandleKind::Round,
                })
                &&& r@[1] == (Handle {
                    id: HandleId::End,
                    pos: end,
                    hit_radius: radius,
                    kind: HandleKind::Round,
                })
                &&& r@.len() == 3 ==> r@[2] == (Handle {
                    id: HandleId::Control,
                    pos: curve_middle(self.start, bend->0, end),
                    hit_radius: radius,
                    kind: HandleKind::Round,
                })
            },
    {
        let Some(end) = self.end else {
            return Vec::new();
        };
        let curved: bool = match self.arrow_style {
            ArrowStyle::Curved | ArrowStyle::Double => true,
            _ => false,
        };
        let radius: i64 = if curved {
            2 * hit_radius
        } else {
            hit_radius
        };
        let mut handles: Vec<Handle> = vec![
            Handle::new(HandleId::Start, self.start, radius),
            Handle::new(HandleId::End, end, radius),
        ];
        if curved {
            if let Some(c) = self.bezier_control(end) {
                let x: i64 = mul_div(self.start.x + 2 * c.x + end.x, 1, 4);
                let y: i64 = mul_div(self.start.y + 2 * c.y + end.y, 1, 4);
                handles.push(Handle::new(HandleId::Control, Vec2D { x, y }, radius));
            }
        }
        handles
    }

    /// Moves a handle: an end, or the middle of the curve, which bends it.
    pub fn move_handle(&mut self, handle: HandleId, to: Vec2D)
        requires
            old(self).ok(),
            point_in(to),
        ensures
            match handle {
                HandleId::Start => *final(self) == (Arrow { start: to, ..*old(self) }),
                HandleId::End => *final(self) == (Arrow { end: Some(to), ..*old(self) }),
                HandleId::Control => match old(self).end {
                    Some(end) => *final(self) == (Arrow {
                        curve_control: Some(bend_through(old(self).start, to, end)),
                        ..*old(self)
                    }),
                    None => *final(self) == *old(self),
                },
                _ => *final(self) == *old(self),
            },
    {
        match handle {
            HandleId::Start => {
                self.start = to;
            },
            HandleId::End => {
                self.end = Some(to);
            },
            HandleId::Control => {
                let Some(end) = self.end else {
                    return ;
                };
                let x: i64 = 2 * to.x - half(self.start.x + end.x);
                let y: i64 = 2 * to.y - half(self.start.y + end.y);
                self.curve_control = Some(Vec2D { x, y });
            },
            _ => {},
        }
    }

    pub fn set_style(&mut self, style: Style)
        ensures
            *final(self) == (Arrow { style, ..*old(self) }),
    {
        self.style = style;
    }

    pub fn style(&self) -> (r: Option<Style>)
        ensures
            r == Some(self.style),
    {
        Some(self.style)
    }

    pub fn arrow_style(&self) -> (r: Option<ArrowStyle>)
        ensures
            r == Some(self.arrow_style),
    {
        Some(self.arrow_style)
    }

    pub fn set_arrow_style_on_drawable(&mut self, style: ArrowStyle)
        ensures
            *final(self) == (Arrow { arrow_style: style, ..*old(self) }),
    {
        self.arrow_style = style;
    }

    pub fn tool_type(&self) -> (r: Option<Tools>)
        ensures
            r == Some(Tools::Arrow),
    {
        Some(Tools::Arrow)
    }

    pub fn kind_label(&self) -> (r: &'static str)
        ensures
            r == "Arrow",
    {
        "Arrow"
    }

    pub fn icon_name(&self) -> (r: &'static str)
        ensures
            r == "arrow-up-right-filled",
    {
        "arrow-up-right-filled"
    }

    /// Name of its kind in the layer list.
    pub fn panel_label_kind(&self) -> (r: String)
        ensures
            r@ == self.arrow_style.display_name_spec()@ + " Arrow"@,
    {
        self.arrow_style.display_name().to_owned().concat(" Arrow")
    }

    pub fn panel_preview(&self) -> (r: PanelPreview)
        ensures
            r == PanelPreview::Arrow(self.arrow_style),
    {
        PanelPreview::Arrow(self.arrow_style)
    }

    /// Moving an arrow moves its curve with it: the control point of the
    /// moved arrow is the moved control point.
    pub proof fn lemma_translate_moves_curve(before: Arrow, after: Arrow, delta: Vec2D, end: Vec2D, end2: Vec2D)
        requires
            before.ok(),
            point_in(end),
            point_in(delta),
            after.start.x == before.start.x + delta.x,
            after.start.y == before.start.y + delta.y,
            end2.x == end.x + delta.x,
            end2.y == end.y + delta.y,
            moved_by(before.curve_control, delta, after.curve_control),
        ensures
            moved_by(before.control_spec(end), delta, after.control_spec(end2)),
    {
        assert(dist2_spec(end2, after.start) == dist2_spec(end, before.start)) by {
            assert(end2.x - after.start.x == end.x - before.start.x);
            assert(end2.y - after.start.y == end.y - before.start.y);
        }
        let a = 2 * (before.start.x + end.x) - (end.y - before.start.y);
        let b = 2 * (after.start.x + end2.x) - (end2.y - after.start.y);
        assert(b == a + 4 * delta.x);
        let c = 2 * (before.start.y + end.y) + (end.x - before.start.x);
        let d = 2 * (after.start.y + end2.y) + (end2.x - after.start.x);
        assert(d == c + 4 * delta.y);
        lemma_quarter_shift(a, delta.x as int);
        lemma_quarter_shift(c, delta.y as int);
    }

    /// Bending the curve by its middle puts the middle exactly where it was
    /// dropped.
    pub proof fn lemma_bend_reaches_target(start: Vec2D, to: Vec2D, end: Vec2D)
        requires
            point_in(start),
            point_in(to),
            point_in(end),
        ensures
            curve_middle(start, bend_through(start, to, end), end) == to,
    {
        let c = bend_through(start, to, end);
        lemma_quarter_shift((start.x + end.x) % 2, to.x as int);
        lemma_quarter_shift((start.y + end.y) % 2, to.y as int);
        assert(start.x + 2 * c.x + end.x == (start.x + end.x) % 2 + 4 * to.x);
        assert(start.y + 2 * c.y + end.y == (start.y + end.y) % 2 + 4 * to.y);
        assert(div_round_spec((start.x + end.x) % 2, 4) == (2 * ((start.x + end.x) % 2) + 4) / 8);
        assert(div_round_spec((start.y + end.y) % 2, 4) == (2 * ((start.y + end.y) % 2) + 4) / 8);
    }
}

/// The point halfway along a quadratic curve.
pub open spec fn curve_middle(start: Vec2D, control: Vec2D, end: Vec2D) -> Vec2D {
    Vec2D {
        x: div_round_spec(start.x + 2 * control.x + end.x, 4) as i64,
        y: div_round_spec(start.y + 2 * control.y + end.y, 4) as i64,
    }
}

/// The control point for which the middle of the curve is `to`.
pub open spec fn bend_through(start: Vec2D, to: Vec2D, end: Vec2D) -> Vec2D {
    Vec2D {
        x: (2 * to.x - (start.x + end.x) / 2) as i64,
        y: (2 * to.y - (start.y + end.y) / 2) as i64,
    }
}

/// `b` is `a` moved by `delta`, where there is one.
pub open spec fn moved_by(a: Option<Vec2D>, delta: Vec2D, b: Option<Vec2D>) -> bool {
    match (a, b) {
        (Some(p), Some(q)) => q.x == p.x + delta.x && q.y == p.y + delta.y,
        (None, None) => true,
        _ => false,
    }
}

/// `q` is where the transform puts `p`.
pub open spec fn is_mapped_point(t: CanvasTransform, p: Vec2D, w: int, h: int, q: Vec2D) -> bool {
    &&& q.x == t.map_x(p.x as int, p.y as int, w, h)
    &&& q.y == t.map_y(p.x as int, p.y as int, w, h)
}

/// `b` is where the transform puts `a`, where there is one.
pub open spec fn is_mapped_option(
    t: CanvasTransform,
    a: Option<Vec2D>,
    w: int,
    h: int,
    b: Option<Vec2D>,
) -> bool {
    match (a, b) {
        (Some(p), Some(q)) => is_mapped_point(t, p, w, h, q),
        (None, None) => true,
        _ => false,
    }
}

/// Scaling by a factor of at most two does not leave the range.
proof fn lemma_times_micro_bound(v: int, ratio: int)
    requires
        0 <= v <= 0x4_0000_0000_0000,
        0 <= ratio <= 2 * MICRO,
    ensures
        0 <= times_micro(v, ratio) <= 2 * v + 1,
{
    let q = times_micro(v, ratio);
    assert(0 <= v * ratio <= 2 * MICRO * v) by (nonlinear_arith)
        requires
            0 <= v,
            0 <= ratio <= 2 * MICRO,
    ;
    crate::tools::lemma_div_round_nonneg(v * ratio, MICRO as int);
    crate::units::lemma_div_round_near(v * ratio, MICRO as int);
    assert(q <= 2 * v + 1) by (nonlinear_arith)
        requires
            2 * (q * MICRO - v * ratio) <= MICRO,
            v * ratio <= 2 * MICRO * v,
            MICRO == 1_000_000,
    ;
}

/// Adding whole quarters adds them to the rounded quotient.
proof fn lemma_quarter_shift(a: int, k: int)
    ensures
        div_round_spec(a + 4 * k, 4) == div_round_spec(a, 4) + k,
        -0x4000_0000_0000_0000 <= a <= 0x4000_0000_0000_0000 ==> -0x4000_0000_0000_0000
            <= div_round_spec(a, 4) <= 0x4000_0000_0000_0000,
{
    assert(div_round_spec(a, 4) == (2 * a + 4) / 8);
    assert(div_round_spec(a + 4 * k, 4) == (2 * (a + 4 * k) + 4) / 8);
}

/// `point` is at most `pick` away from a polyline.
pub open spec fn near_polyline(point: Vec2D, pts: Seq<Vec2D>, pick: int) -> bool {
    exists|i: int|
        0 <= i < pts.len() - 1 && near_segment_spec(point, #[trigger] pts[i], pts[i + 1], pick)
}

/// Whether `point` is within `pick` of a polyline.
pub fn polyline_hit(point: Vec2D, pts: &Vec<Vec2D>, pick: i64) -> (r: bool)
    requires
        pts@.len() > 0,
        forall|i: int| 0 <= i < pts@.len() ==> (#[trigger] pts@[i]).ok(),
        point.ok(),
        coord_ok(pick as int),
    ensures
        r == near_polyline(point, pts@, pick as int),
{
    let last: usize = pts.len() - 1;
    let mut i: usize = 0;
    while i < last
        invariant
            i <= last == pts@.len() - 1,
            forall|k: int| 0 <= k < pts@.len() ==> (#[trigger] pts@[k]).ok(),
            point.ok(),
            coord_ok(pick as int),
            forall|k: int|
                0 <= k < i ==> !near_segment_spec(
                    point,
                    #[trigger] pts@[k],
                    pts@[k + 1],
                    pick as int,
                ),
        decreases last - i,
    {
        assert(pts@[i as int].ok() && pts@[i + 1].ok());
        if near_segment(point, pts[i], pts[i + 1], pick) {
            return true;
        }
        i = i + 1;
    }
    false
}

/// Draws arrows.
#[derive(Clone, Copy, Debug, PartialEq, Eq, Structural)]
pub struct ArrowTool {
    pub arrow: Option<Arrow>,
    pub style: Style,
    pub arrow_style: ArrowStyle,
    pub input_enabled: bool,
}

impl ArrowTool {
    /// The arrow being drawn started at a point that came from outside.
    pub open spec fn ok(&self) -> bool {
        self.arrow matches Some(a) ==> point_in(a.start)
    }

    /// Where a drag event puts the end of `a`.
    pub open spec fn dragged_end(a: Arrow, event: MouseEventMsg, snapped: Vec2D) -> Vec2D {
        let d = if event.modifier.shift {
            snapped
        } else {
            event.pos
        };
        Vec2D { x: (a.start.x + d.x) as i64, y: (a.start.y + d.y) as i64 }
    }

    /// What a pointer event makes of the tool, and what it asks for.
    pub open spec fn mouse_step(self, event: MouseEventMsg, snapped: Vec2D) -> (
        ArrowTool,
        ToolUpdateResult<Arrow>,
    ) {
        let still = event.pos == (Vec2D { x: 0, y: 0 });
        if event.button == MouseButton::Middle {
            (self, ToolUpdateResult::Unmodified)
        } else {
            match (event.type_, self.arrow) {
                (MouseEventType::BeginDrag, _) => (
                    ArrowTool {
                        arrow: Some(
                            Arrow {
                                start: event.pos,
                                end: None,
                                style: self.style,
                                arrow_style: self.arrow_style,
                                curve_control: None,
                            },
                        ),
                        ..self
                    },
                    ToolUpdateResult::Redraw,
                ),
                (MouseEventType::UpdateDrag, Some(a)) => if still {
                    (self, ToolUpdateResult::Unmodified)
                } else {
                    (
                        ArrowTool {
                            arrow: Some(
                                Arrow { end: Some(Self::dragged_end(a, event, snapped)), ..a },
                            ),
                            ..self
                        },
                        ToolUpdateResult::Redraw,
                    )
                },
                (MouseEventType::EndDrag, Some(a)) => (
                    ArrowTool { arrow: None, ..self },
                    if still {
                        ToolUpdateResult::Redraw
                    } else {
                        ToolUpdateResult::Commit(
                            Arrow { end: Some(Self::dragged_end(a, event, snapped)), ..a },
                        )
                    },
                ),
                _ => (self, ToolUpdateResult::Unmodified),
            }
        }
    }

    /// Handles a pointer event. `snapped` is the offset of a drag event,
    /// turned to the nearest multiple of 15 degrees.
    pub fn handle_mouse_event(&mut self, event: MouseEventMsg, snapped: Vec2D) -> (r:
        ToolUpdateResult<Arrow>)
        requires
            old(self).ok(),
            point_in(event.pos),
            point_in(snapped),
        ensures
            (*final(self), r) == old(self).mouse_step(event, snapped),
            final(self).ok(),
    {
        if event.button == MouseButton::Middle {
            return ToolUpdateResult::Unmodified;
        }
        let offset: Vec2D = if event.modifier.shift {
            snapped
        } else {
            event.pos
        };
        match event.type_ {
            MouseEventType::BeginDrag => {
                self.arrow = Some(
                    Arrow {
                        start: event.pos,
                        end: None,
                        style: self.style,
                        arrow_style: self.arrow_style,
                        curve_control: None,
                    },
                );
                ToolUpdateResult::Redraw
            },
            MouseEventType::EndDrag => {
                if let Some(a) = self.arrow {
                    self.arrow = None;
                    if event.pos == Vec2D::zero() {
                        ToolUpdateResult::Redraw
                    } else {
                        ToolUpdateResult::Commit(Arrow { end: Some(a.start.plus(offset)), ..a })
                    }
                } else {
                    ToolUpdateResult::Unmodified
                }
            },
            MouseEventType::UpdateDrag => {
                if let Some(a) = self.arrow {
                    if event.pos == Vec2D::zero() {
                        return ToolUpdateResult::Unmodified;
                    }
                    self.arrow = Some(Arrow { end: Some(a.start.plus(offset)), ..a });
                    ToolUpdateResult::Redraw
                } else {
                    ToolUpdateResult::Unmodified
                }
            },
            _ => ToolUpdateResult::Unmodified,
        }
    }

    /// Escape drops the arrow being drawn.
    pub fn handle_key_event(&mut self, event: KeyEventMsg) -> (r: ToolUpdateResult<Arrow>)
        ensures
            event.key.0 == KEY_ESCAPE && old(self).arrow is Some ==> r == ToolUpdateResult::<
                Arrow,
            >::Redraw && *final(self) == (ArrowTool { arrow: None, ..*old(self) }),
            !(event.key.0 == KEY_ESCAPE && old(self).arrow is Some) ==> r == ToolUpdateResult::<
                Arrow,
            >::Unmodified && *final(self) == *old(self),
    {
        if event.key.0 == KEY_ESCAPE && self.arrow.is_some() {
            self.arrow = None;
            return ToolUpdateResult::Redraw;
        }
        ToolUpdateResult::Unmodified
    }

    /// New arrows, and the one being drawn, get this geometry.
    pub fn set_arrow_style(&mut self, style: ArrowStyle)
        ensures
            *final(self) == (ArrowTool {
                arrow_style: style,
                arrow: match old(self).arrow {
                    Some(a) => Some(Arrow { arrow_style: style, ..a }),
                    None => None,
                },
                ..*old(self)
            }),
    {
        self.arrow_style = style;
        if let Some(a) = self.arrow {
            self.arrow = Some(Arrow { arrow_style: style, ..a });
        }
    }

    pub fn get_drawable(&self) -> (r: Option<Arrow>)
        ensures
            r == self.arrow,
    {
        self.arrow
    }

    /// New arrows get `style`.
    pub fn handle_style_event(&mut self, style: Style) -> (r: ToolUpdateResult<Arrow>)
        ensures
            *final(self) == (ArrowTool { style, ..*old(self) }),
            r == ToolUpdateResult::<Arrow>::Unmodified,
    {
        self.style = style;
        ToolUpdateResult::Unmodified
    }

    pub fn get_tool_type(&self) -> (r: Tools)
        ensures
            r == Tools::Arrow,
    {
        Tools::Arrow
    }

    pub fn input_enabled(&self) -> (r: bool)
        ensures
            r == self.input_enabled,
    {
        self.input_enabled
    }

    pub fn set_input_enabled(&mut self, value: bool)
        ensures
            *final(self) == (ArrowTool { input_enabled: value, ..*old(self) }),
    {
        self.input_enabled = value;
    }
}

} // verus!
