//! The highlighter: strokes that lock onto a line of text, or run free.
use vstd::prelude::*;
use crate::input::{
    KeyEventMsg, MouseButton, MouseEventMsg, MouseEventType, KEY_ESCAPE, KEY_SHIFT_L, KEY_SHIFT_R,
};
use crate::math::{dist2, dist2_spec, Rect, Vec2D};
use crate::style::{Color, Style};
use crate::text_bands::{
    clear_local_band_cache, detect_local_band, detectable, is_detected, BandState, TextBand,
    BAND_PAD_PER_SIDE,
};
use crate::tools::arrow::{hull, is_hull, near_polyline, point_in, polyline_hit, times_micro};
use crate::tools::{
    bbox_handle_at, bbox_handle_order, bbox_handles, bbox_resize, is_resized, CanvasTransform,
    Handle, HandleId, HandleKind, ToolUpdateResult, Tools,
};
use crate::units::{
    clamp_len, clamp_spec, coord_ok, div_round_spec, half, input_ok, mul_div, INPUT_MAX, MICRO,
    UNIT_SQUARED,
};

verus! {

/// The square of the shortest stroke that is kept: four pixels.
pub const MIN_COMMIT_LENGTH_SQUARED: i128 = 0x10_0000_0000;

/// The shapes that a spotlight can take first.
#[derive(Clone, Copy, Debug, PartialEq, Eq, PartialOrd, Ord, Hash, Structural)]
pub enum Highlighters {
    Block,
    Freehand,
}

/// How the highlighter follows the pointer.
#[derive(Clone, Copy, Debug, PartialEq, Eq, Structural)]
pub enum HighlighterStyle {
    /// Along the line of text under the pointer.
    TextLocked,
    /// Freely.
    Normal,
}

impl Default for HighlighterStyle {
    fn default() -> (r: HighlighterStyle)
        ensures
            r == HighlighterStyle::TextLocked,
    {
        HighlighterStyle::TextLocked
    }
}

impl HighlighterStyle {
    /// The other style.
    pub open spec fn next_spec(self) -> HighlighterStyle {
        match self {
            HighlighterStyle::TextLocked => HighlighterStyle::Normal,
            HighlighterStyle::Normal => HighlighterStyle::TextLocked,
        }
    }

    /// Name shown when the style is cycled.
    pub open spec fn display_name_spec(self) -> &'static str {
        match self {
            HighlighterStyle::TextLocked => "Text-locked",
            HighlighterStyle::Normal => "Normal",
        }
    }

    pub fn next(self) -> (r: HighlighterStyle)
        ensures
            r == self.next_spec(),
    {
        match self {
            HighlighterStyle::TextLocked => HighlighterStyle::Normal,
            HighlighterStyle::Normal => HighlighterStyle::TextLocked,
        }
    }

    /// There are two styles, so that the one before is the one after.
    pub fn prev(self) -> (r: HighlighterStyle)
        ensures
            r == self.next_spec(),
            r.next_spec() == self,
    {
        self.next()
    }

    pub fn display_name(self) -> (r: &'static str)
        ensures
            r == self.display_name_spec(),
    {
        match self {
            HighlighterStyle::TextLocked => "Text-locked",
            HighlighterStyle::Normal => "Normal",
        }
    }
}

/// Opacity in millionths as an alpha byte.
pub open spec fn alpha_spec(opacity: int) -> int {
    div_round_spec(clamp_spec(opacity, 0, MICRO as int) * 255, MICRO as int)
}

/// The alpha byte that a stroke is painted with.
pub fn opacity_alpha(style: &Style) -> (r: u8)
    ensures
        r == alpha_spec(style.highlighter_opacity as int),
{
    let opacity: i64 = clamp_len(style.highlighter_opacity, 0, MICRO);
    proof {
        assert(0 <= opacity * 255 <= 255 * MICRO);
        crate::units::lemma_div_round_near(opacity * 255, MICRO as int);
        crate::tools::lemma_div_round_nonneg(opacity * 255, MICRO as int);
        let q = div_round_spec(opacity * 255, MICRO as int);
        assert(q <= 255) by (nonlinear_arith)
            requires
                2 * (q * MICRO - opacity * 255) <= MICRO,
                opacity <= MICRO,
                MICRO == 1_000_000,
        ;
    }
    mul_div(opacity, 255, MICRO) as u8
}

/// A translucent stroke: a polyline given by its first point and the offsets
/// of the others from it.
#[derive(Debug)]
pub struct HighlightStroke {
    pub first: Vec2D,
    pub rest: Vec<Vec2D>,
    pub style: Style,
    /// Shift was held at the last point.
    pub shift_pressed: bool,
    /// Width of the band that the stroke is locked to.
    pub forced_width: Option<i64>,
    pub highlight_style: HighlighterStyle,
}

/// A stroke with its points as a sequence.
pub ghost struct StrokeView {
    pub first: Vec2D,
    pub rest: Seq<Vec2D>,
    pub style: Style,
    pub shift_pressed: bool,
    pub forced_width: Option<i64>,
    pub highlight_style: HighlighterStyle,
}

impl View for HighlightStroke {
    type V = StrokeView;

    open spec fn view(&self) -> StrokeView {
        StrokeView {
            first: self.first,
            rest: self.rest@,
            style: self.style,
            shift_pressed: self.shift_pressed,
            forced_width: self.forced_width,
            highlight_style: self.highlight_style,
        }
    }
}

/// The sum of two points.
pub open spec fn sum(a: Vec2D, b: Vec2D) -> Vec2D {
    Vec2D { x: (a.x + b.x) as i64, y: (a.y + b.y) as i64 }
}

/// The offset from `b` to `a`.
pub open spec fn difference(a: Vec2D, b: Vec2D) -> Vec2D {
    Vec2D { x: (a.x - b.x) as i64, y: (a.y - b.y) as i64 }
}

/// Points given by the first one and the offsets of the others from it.
pub open spec fn absolute(first: Vec2D, rest: Seq<Vec2D>) -> Seq<Vec2D> {
    Seq::new(
        rest.len() + 1,
        |i: int| if i == 0 {
            first
        } else {
            sum(first, rest[i - 1])
        },
    )
}

/// The last offset; the first point itself where there is none.
pub open spec fn last_offset(rest: Seq<Vec2D>) -> Vec2D {
    if rest.len() == 0 {
        Vec2D { x: 0, y: 0 }
    } else {
        rest.last()
    }
}

impl StrokeView {
    /// First point and offsets are coordinates that came from outside.
    pub open spec fn ok(self) -> bool {
        &&& point_in(self.first)
        &&& forall|i: int| 0 <= i < self.rest.len() ==> point_in(#[trigger] self.rest[i])
        &&& self.forced_width matches Some(w) ==> 0 <= w <= INPUT_MAX
    }

    /// All points of the stroke.
    pub open spec fn points(self) -> Seq<Vec2D> {
        absolute(self.first, self.rest)
    }

    /// The box around a stroke is in range.
    pub proof fn lemma_box_ok(self, width: int, b: Rect)
        requires
            self.ok(),
            0 <= width <= INPUT_MAX,
            is_hull(self.points(), self.width(width) / 2, b),
        ensures
            b.ok(),
            b.canonical(),
            forall|i: int| 0 <= i < self.points().len() ==> b.contains_spec(#[trigger] self.points()[i]),
    {
        let pts = self.points();
        assert forall|i: int| 0 <= i < pts.len() implies {
            &&& -2 * INPUT_MAX <= (#[trigger] pts[i]).x <= 2 * INPUT_MAX
            &&& -2 * INPUT_MAX <= pts[i].y <= 2 * INPUT_MAX
        } by {
            if i > 0 {
                assert(point_in(self.rest[i - 1]));
            }
        }
        assert(pts[0] == self.first);
    }

    /// Width that the stroke is painted with; `width` is that of its size.
    pub open spec fn width(self, width: int) -> int {
        match self.forced_width {
            Some(w) => w as int,
            None => width,
        }
    }
}

impl HighlightStroke {
    pub fn stroke_width(&self, width: i64) -> (r: i64)
        ensures
            r == self@.width(width as int),
    {
        match self.forced_width {
            Some(w) => w,
            None => width,
        }
    }

    /// The color of the stroke with its own opacity.
    pub fn fill_color(&self) -> (r: Color)
        ensures
            r.r == self.style.color.r,
            r.g == self.style.color.g,
            r.b == self.style.color.b,
            r.a == alpha_spec(self.style.highlighter_opacity as int),
    {
        Color {
            r: self.style.color.r,
            g: self.style.color.g,
            b: self.style.color.b,
            a: opacity_alpha(&self.style),
        }
    }

    /// All points of the stroke.
    pub fn absolute_points(&self) -> (r: Vec<Vec2D>)
        requires
            self@.ok(),
        ensures
            r@ == self@.points(),
            forall|i: int| 0 <= i < r@.len() ==> (#[trigger] r@[i]).ok(),
    {
        let mut points: Vec<Vec2D> = Vec::new();
        points.push(self.first);
        let mut i: usize = 0;
        while i < self.rest.len()
            invariant
                self@.ok(),
                i <= self.rest@.len(),
                points@.len() == i + 1,
                forall|k: int| 0 <= k <= i ==> #[trigger] points@[k] == self@.points()[k],
                forall|k: int| 0 <= k <= i ==> (#[trigger] points@[k]).ok(),
            decreases self.rest.len() - i,
        {
            assert(point_in(self@.rest[i as int]));
            let p: Vec2D = self.first.plus(self.rest[i]);
            points.push(p);
            i = i + 1;
        }
        assert(points@ =~= self@.points());
        points
    }

    /// The box around the stroke; `width` is that of its size.
    pub fn bounds(&self, width: i64) -> (r: Option<Rect>)
        requires
            self@.ok(),
            input_ok(width as int),
        ensures
            r is Some == (self.rest@.len() > 0),
            r matches Some(b) ==> is_hull(
                self@.points(),
                self@.width(width as int) / 2,
                b,
            ),
    {
        if self.rest.len() == 0 {
            return None;
        }
        let points = self.absolute_points();
        let stroke: i64 = self.stroke_width(width);
        Some(hull(&points, half(stroke)))
    }

    /// Whether `point` is on the stroke, give or take `tolerance`.
    pub fn hit_test(&self, point: Vec2D, tolerance: i64, width: i64) -> (r: bool)
        requires
            self@.ok(),
            point.ok(),
            input_ok(width as int),
            input_ok(tolerance as int),
        ensures
            r == near_polyline(
                point,
                self@.points(),
                self@.width(width as int) / 2 + tolerance,
            ),
    {
        let points = self.absolute_points();
        let stroke: i64 = self.stroke_width(width);
        polyline_hit(point, &points, half(stroke) + tolerance)
    }

    /// Moves the stroke: only its first point is absolute.
    pub fn translate(&mut self, delta: Vec2D)
        requires
            i64::MIN <= old(self).first.x + delta.x <= i64::MAX,
            i64::MIN <= old(self).first.y + delta.y <= i64::MAX,
        ensures
            final(self)@ == (StrokeView { first: sum(old(self).first, delta), ..old(self)@ }),
    {
        self.first = self.first.plus(delta);
    }

    /// Moves the stroke along with a transform of the whole canvas.
    pub fn apply_canvas_transform(&mut self, t: CanvasTransform, w: i64, h: i64)
        requires
            old(self)@.ok(),
            t.wf(),
            coord_ok(w as int),
            coord_ok(h as int),
            t.fits(old(self).first.x as int, old(self).first.y as int),
            forall|i: int|
                0 <= i < old(self)@.rest.len() ==> t.fits(
                    (#[trigger] old(self)@.rest[i]).x as int,
                    old(self)@.rest[i].y as int,
                ),
        ensures
            final(self).first.x == t.map_x(
                old(self).first.x as int,
                old(self).first.y as int,
                w as int,
                h as int,
            ),
            final(self).first.y == t.map_y(
                old(self).first.x as int,
                old(self).first.y as int,
                w as int,
                h as int,
            ),
            final(self)@ == (StrokeView {
                first: final(self).first,
                rest: final(self).rest@,
                ..old(self)@
            }),
            final(self).rest@.len() == old(self).rest@.len(),
            forall|i: int|
                0 <= i < old(self).rest@.len() ==> {
                    let p = old(self).rest@[i];
                    let q = #[trigger] final(self).rest@[i];
                    &&& q.x == t.map_x(p.x as int, p.y as int, 0, 0)
                    &&& q.y == t.map_y(p.x as int, p.y as int, 0, 0)
                },
    {
        let ghost before = self.rest@;
        proof {
            assert forall|k: int| 0 <= k < before.len() implies t.fits(
                (#[trigger] before[k]).x as int,
                before[k].y as int,
            ) by {
                assert(old(self)@.rest[k] == before[k]);
            }
        }
        self.first = t.map_point(self.first, w, h);
        let mut i: usize = 0;
        while i < self.rest.len()
            invariant
                t.wf(),
                i <= self.rest@.len() == before.len(),
                old(self)@.ok(),
                before == old(self)@.rest,
                forall|k: int|
                    0 <= k < before.len() ==> t.fits(
                        (#[trigger] before[k]).x as int,
                        before[k].y as int,
                    ),
                forall|k: int| i <= k < before.len() ==> #[trigger] self.rest@[k] == before[k],
                forall|k: int|
                    0 <= k < i ==> {
                        let p = before[k];
                        let q = #[trigger] self.rest@[k];
                        &&& q.x == t.map_x(p.x as int, p.y as int, 0, 0)
                        &&& q.y == t.map_y(p.x as int, p.y as int, 0, 0)
                    },
                self.first.x == t.map_x(
                    old(self).first.x as int,
                    old(self).first.y as int,
                    w as int,
                    h as int,
                ),
                self.first.y == t.map_y(
                    old(self).first.x as int,
                    old(self).first.y as int,
                    w as int,
                    h as int,
                ),
                self@ == (StrokeView { first: self.first, rest: self.rest@, ..old(self)@ }),
            decreases self.rest.len() - i,
        {
            assert(point_in(old(self)@.rest[i as int]));
            assert(self.rest@[i as int] == before[i as int]);
            let p: Vec2D = self.rest[i];
            let q: Vec2D = t.map_offset(p);
            self.rest.set(i, q);
            i = i + 1;
        }
    }

    /// The eight handles of the box.
    pub fn handles(&self, hit_radius: i64, width: i64) -> (r: Vec<Handle>)
        requires
            self@.ok(),
            input_ok(width as int),
            0 <= width,
        ensures
            self.rest@.len() == 0 ==> r@.len() == 0,
            self.rest@.len() > 0 ==> exists|b: Rect| #[trigger]
                is_hull(self@.points(), self@.width(width as int) / 2, b) && r@.len() == 8
                    && forall|i: int|
                    0 <= i < 8 ==> {
                        &&& (#[trigger] r@[i]).id == bbox_handle_order()[i]
                        &&& bbox_handle_at(b, r@[i].id, r@[i].pos)
                        &&& r@[i].hit_radius == hit_radius
                        &&& r@[i].kind == HandleKind::Round
                    },
    {
        match self.bounds(width) {
            Some(b) => {
                proof {
                    self@.lemma_box_ok(width as int, b);
                }
                bbox_handles(b, hit_radius)
            },
            None => Vec::new(),
        }
    }

    /// Resizes the stroke by a handle of its box: all points keep their place
    /// relative to the box. `width` is that of its size.
    pub fn move_handle(&mut self, handle: HandleId, to: Vec2D, width: i64)
        requires
            old(self)@.ok(),
            to.ok(),
            0 <= width,
            input_ok(width as int),
        ensures
            old(self).rest@.len() == 0 ==> final(self)@ == old(self)@,
            old(self).rest@.len() > 0 ==> exists|b: Rect, n: Rect|
                is_hull(old(self)@.points(), old(self)@.width(width as int) / 2, b) && #[trigger]
                is_box_dragged(b, handle, to, n) && is_stretched(old(self)@, b, n, final(self)@),
    {
        let Some(b) = self.bounds(width) else {
            return ;
        };
        proof {
            self@.lemma_box_ok(width as int, b);
        }
        let n: Rect = bbox_resize(b, handle, to);
        assert(is_box_dragged(b, handle, to, n));
        let ghost start = self@;
        let ghost before = self.rest@;
        proof {
            assert(start.points()[0] == start.first);
        }
        let x: i64 = stretch(self.first.x - b.pos.x, b.size.x, n.size.x);
        let y: i64 = stretch(self.first.y - b.pos.y, b.size.y, n.size.y);
        self.first = Vec2D::new(n.pos.x + x, n.pos.y + y);
        let mut i: usize = 0;
        while i < self.rest.len()
            invariant
                i <= self.rest@.len() == before.len(),
                start.ok(),
                start.rest == before,
                b.ok(),
                b.canonical(),
                n.size.x >= 0,
                n.size.y >= 0,
                n.size.x <= 0x400_0000_0000_0000,
                n.size.y <= 0x400_0000_0000_0000,
                forall|k: int|
                    0 <= k < start.points().len() ==> b.contains_spec(
                        #[trigger] start.points()[k],
                    ),
                forall|k: int| i <= k < before.len() ==> #[trigger] self.rest@[k] == before[k],
                forall|k: int|
                    0 <= k < i ==> {
                        &&& (#[trigger] self.rest@[k]).x == stretch_spec(
                            before[k].x as int,
                            b.size.x as int,
                            n.size.x as int,
                        )
                        &&& self.rest@[k].y == stretch_spec(
                            before[k].y as int,
                            b.size.y as int,
                            n.size.y as int,
                        )
                    },
                self.first.x == n.pos.x + stretch_spec(
                    start.first.x - b.pos.x,
                    b.size.x as int,
                    n.size.x as int,
                ),
                self.first.y == n.pos.y + stretch_spec(
                    start.first.y - b.pos.y,
                    b.size.y as int,
                    n.size.y as int,
                ),
                self@ == (StrokeView { first: self.first, rest: self.rest@, ..start }),
            decreases self.rest.len() - i,
        {
            proof {
                assert(point_in(start.rest[i as int]));
                assert(self.rest@[i as int] == before[i as int]);
                assert(start.points()[0] == start.first);
                assert(start.points()[i + 1] == sum(start.first, before[i as int]));
            }
            let p: Vec2D = self.rest[i];
            let q = Vec2D {
                x: stretch(p.x, b.size.x, n.size.x),
                y: stretch(p.y, b.size.y, n.size.y),
            };
            self.rest.set(i, q);
            i = i + 1;
        }
        assert(is_stretched(start, b, n, self@));
    }

    pub fn set_style(&mut self, style: Style)
        ensures
            final(self)@ == (StrokeView { style, ..old(self)@ }),
    {
        self.style = style;
    }

    pub fn style(&self) -> (r: Option<Style>)
        ensures
            r == Some(self.style),
    {
        Some(self.style)
    }

    pub fn tool_type(&self) -> (r: Option<Tools>)
        ensures
            r == Some(Tools::Highlighter),
    {
        Some(Tools::Highlighter)
    }

    pub fn highlighter_style(&self) -> (r: Option<HighlighterStyle>)
        ensures
            r == Some(self.highlight_style),
    {
        Some(self.highlight_style)
    }

    pub fn kind_label(&self) -> (r: &'static str)
        ensures
            r == "Highlight",
    {
        "Highlight"
    }

    pub fn icon_name(&self) -> (r: &'static str)
        ensures
            r == "highlight-regular",
    {
        "highlight-regular"
    }

    /// Name of its kind in the layer list.
    pub fn panel_label_kind(&self) -> (r: String)
        ensures
            r@ == self.highlight_style.display_name_spec()@ + " Highlight"@,
    {
        self.highlight_style.display_name().to_owned().concat(" Highlight")
    }
}

/// `n` is the box `b` after its handle was dragged to `to`; handles that are
/// not part of a box leave it as it is.
pub open spec fn is_box_dragged(b: Rect, handle: HandleId, to: Vec2D, n: Rect) -> bool {
    if handle.is_box_handle() {
        is_resized(b, handle, to, n)
    } else {
        n == b
    }
}

/// An offset in a box that was `from` long and is now `to` long. A box
/// without extent does not stretch.
pub open spec fn stretch_spec(v: int, from: int, to: int) -> int {
    if from > 0 {
        div_round_spec(v * to, from)
    } else {
        v
    }
}

/// `after` is `before` with every point at the same place in the box `n` that
/// it had in the box `b`.
pub open spec fn is_stretched(before: StrokeView, b: Rect, n: Rect, after: StrokeView) -> bool {
    &&& after == (StrokeView { first: after.first, rest: after.rest, ..before })
    &&& after.first.x == n.pos.x + stretch_spec(
        before.first.x - b.pos.x,
        b.size.x as int,
        n.size.x as int,
    )
    &&& after.first.y == n.pos.y + stretch_spec(
        before.first.y - b.pos.y,
        b.size.y as int,
        n.size.y as int,
    )
    &&& after.rest.len() == before.rest.len()
    &&& forall|i: int|
        0 <= i < before.rest.len() ==> {
            &&& (#[trigger] after.rest[i]).x == stretch_spec(
                before.rest[i].x as int,
                b.size.x as int,
                n.size.x as int,
            )
            &&& after.rest[i].y == stretch_spec(
                before.rest[i].y as int,
                b.size.y as int,
                n.size.y as int,
            )
        }
}

fn stretch(v: i64, from: i64, to: i64) -> (r: i64)
    requires
        -from <= v <= from,
        0 <= to <= 0x400_0000_0000_0000,
    ensures
        r == stretch_spec(v as int, from as int, to as int),
        from > 0 ==> -to <= r <= to,
{
    if from > 0 {
        proof {
            let q = div_round_spec(v * to, from as int);
            crate::units::lemma_div_round_near(v * to, from as int);
            assert(-from * to <= v * to <= from * to) by (nonlinear_arith)
                requires
                    -from <= v <= from,
                    to >= 0,
            ;
            assert(-to <= q <= to) by (nonlinear_arith)
                requires
                    -from <= 2 * (q * from - v * to) <= from,
                    -from * to <= v * to <= from * to,
                    from > 0,
            ;
        }
        mul_div(v, to, from)
    } else {
        v
    }
}

/// Draws highlights.
#[derive(Debug)]
pub struct HighlightTool {
    pub stroke: Option<HighlightStroke>,
    pub style: Style,
    pub input_enabled: bool,
    /// The band that the stroke is locked to.
    pub locked_band: Option<TextBand>,
    /// Where the drag began.
    pub drag_anchor: Option<Vec2D>,
    pub highlight_style: HighlighterStyle,
    /// The style when the drag began.
    pub drag_style: Option<HighlighterStyle>,
}

/// The tool with the points of its stroke as a sequence.
pub ghost struct HighlightToolView {
    pub stroke: Option<StrokeView>,
    pub style: Style,
    pub input_enabled: bool,
    pub locked_band: Option<TextBand>,
    pub drag_anchor: Option<Vec2D>,
    pub highlight_style: HighlighterStyle,
    pub drag_style: Option<HighlighterStyle>,
}

impl View for HighlightTool {
    type V = HighlightToolView;

    open spec fn view(&self) -> HighlightToolView {
        HighlightToolView {
            stroke: match self.stroke {
                Some(s) => Some(s@),
                None => None,
            },
            style: self.style,
            input_enabled: self.input_enabled,
            locked_band: self.locked_band,
            drag_anchor: self.drag_anchor,
            highlight_style: self.highlight_style,
            drag_style: self.drag_style,
        }
    }
}

/// How much a freehand highlight is smoothed, on the scale of the brush.
pub const HIGHLIGHT_SMOOTH_LEVEL: usize = 4;

/// What an event comes to.
#[derive(Debug)]
pub enum HighlightStep {
    Done(ToolUpdateResult<HighlightStroke>),
    /// The stroke has ended and these points of it have to be smoothed at
    /// this level before it is committed; hand the result to
    /// [`HighlightStroke::smoothed`].
    Smooth(HighlightStroke, Vec<Vec2D>, usize),
}

/// What an event comes to, with points as sequences.
pub ghost enum StepView {
    Unmodified,
    Redraw,
    Commit(StrokeView),
    Smooth(StrokeView, Seq<Vec2D>, usize),
}

impl HighlightStep {
    /// This is the step `v`.
    pub open spec fn is(self, v: StepView) -> bool {
        match (self, v) {
            (HighlightStep::Done(ToolUpdateResult::Unmodified), StepView::Unmodified) => true,
            (HighlightStep::Done(ToolUpdateResult::Redraw), StepView::Redraw) => true,
            (HighlightStep::Done(ToolUpdateResult::Commit(a)), StepView::Commit(b)) => a@ == b,
            (HighlightStep::Smooth(a, p, m), StepView::Smooth(b, q, n)) => a@ == b && p@ == q && m == n,
            _ => false,
        }
    }
}

/// Width of a highlight over a band: its height and a little on each side.
pub open spec fn band_width(b: TextBand) -> int {
    (b.y_end - b.y_start) + times_micro(2 * (b.y_end - b.y_start), BAND_PAD_PER_SIDE as int)
}

impl HighlightToolView {
    /// The stroke and the start of the drag are in range.
    pub open spec fn ok(self) -> bool {
        &&& self.stroke matches Some(s) ==> s.ok()
        &&& self.drag_anchor matches Some(a) ==> point_in(a)
    }

    /// The tool after a drag began at `pos`; `band` is the band found there.
    pub open spec fn begun(self, pos: Vec2D, shift: bool, band: Option<TextBand>) -> HighlightToolView {
        let locked = self.highlight_style == HighlighterStyle::TextLocked;
        HighlightToolView {
            drag_style: Some(self.highlight_style),
            drag_anchor: Some(pos),
            locked_band: if locked {
                band
            } else {
                None
            },
            stroke: Some(
                StrokeView {
                    first: match band {
                        Some(b) if locked => Vec2D {
                            x: pos.x,
                            y: ((b.y_start + b.y_end) / 2) as i64,
                        },
                        _ => pos,
                    },
                    rest: Seq::empty(),
                    style: self.style,
                    shift_pressed: shift,
                    forced_width: match band {
                        Some(b) if locked => Some(band_width(b) as i64),
                        _ => None,
                    },
                    highlight_style: self.highlight_style,
                },
            ),
            ..self
        }
    }

    /// The offset that a drag event asks to add to the stroke: locked
    /// strokes only follow the pointer sideways.
    pub open spec fn asked_offset(self, pos: Vec2D) -> Vec2D {
        let s = self.stroke->0;
        let a = self.drag_anchor->0;
        if self.drag_style == Some(HighlighterStyle::TextLocked) {
            Vec2D { x: (a.x + pos.x - s.first.x) as i64, y: 0 }
        } else {
            pos
        }
    }

    /// The offsets that a new one is added to: with Shift still held the last
    /// one is replaced.
    pub open spec fn kept_offsets(self, shift: bool) -> Seq<Vec2D> {
        let s = self.stroke->0;
        if shift && s.shift_pressed && s.rest.len() > 0 {
            s.rest.drop_last()
        } else {
            s.rest
        }
    }

    /// The offset that has to be turned to a multiple of 15 degrees, for a
    /// drag event with Shift held: that from the last point.
    pub open spec fn to_snap(self, pos: Vec2D) -> Vec2D {
        difference(self.asked_offset(pos), last_offset(self.kept_offsets(true)))
    }

    /// The stroke after a drag event. `snapped` is the offset of [`to_snap`]
    /// turned to a multiple of 15 degrees.
    pub open spec fn extended(self, pos: Vec2D, shift: bool, snapped: Vec2D) -> StrokeView {
        let s = self.stroke->0;
        let kept = self.kept_offsets(shift);
        let last = last_offset(kept);
        let asked = self.asked_offset(pos);
        StrokeView {
            rest: if shift {
                kept.push(sum(last, snapped))
            } else if dist2_spec(asked, last) >= UNIT_SQUARED {
                kept.push(asked)
            } else {
                kept
            },
            shift_pressed: shift,
            ..s
        }
    }

    /// No drag is in flight.
    pub open spec fn cleared(self) -> HighlightToolView {
        HighlightToolView {
            stroke: None,
            locked_band: None,
            drag_anchor: None,
            drag_style: None,
            ..self
        }
    }

    /// A drag event has a stroke to work on.
    pub open spec fn drags(self, event: MouseEventMsg) -> bool {
        &&& event.button != MouseButton::Middle
        &&& self.stroke is Some
        &&& self.drag_anchor is Some
        &&& event.pos != (Vec2D { x: 0, y: 0 })
    }

    /// What a pointer event makes of the tool, and what it comes to. The last
    /// part tells whether the remembered band is forgotten.
    pub open spec fn mouse_step(self, event: MouseEventMsg, snapped: Vec2D, band: Option<TextBand>) -> (
        HighlightToolView,
        StepView,
        bool,
    ) {
        let shift = event.modifier.shift;
        let grown = self.extended(event.pos, shift, snapped);
        if event.type_ == MouseEventType::BeginDrag && event.button != MouseButton::Middle {
            (self.begun(event.pos, shift, band), StepView::Redraw, false)
        } else if event.type_ == MouseEventType::UpdateDrag && self.drags(event) {
            (HighlightToolView { stroke: Some(grown), ..self }, StepView::Redraw, false)
        } else if event.type_ == MouseEventType::EndDrag && event.button != MouseButton::Middle {
            if !self.drags(event) {
                (
                    self.cleared(),
                    if self.stroke is Some {
                        StepView::Redraw
                    } else {
                        StepView::Unmodified
                    },
                    self.stroke is Some || self.drag_anchor is Some,
                )
            } else if last_offset(grown.rest).norm2_spec() < MIN_COMMIT_LENGTH_SQUARED {
                (self.cleared(), StepView::Redraw, true)
            } else if self.drag_style == Some(HighlighterStyle::Normal) && !shift
                && grown.rest.len() >= 2 {
                (
                    self.cleared(),
                    StepView::Smooth(grown, grown.points(), HIGHLIGHT_SMOOTH_LEVEL),
                    true,
                )
            } else {
                (self.cleared(), StepView::Commit(grown), true)
            }
        } else {
            (self, StepView::Unmodified, false)
        }
    }
}

/// The points of a smoothed stroke: its first point, and the offsets of the
/// others from it.
pub open spec fn with_points(s: StrokeView, points: Seq<Vec2D>) -> StrokeView {
    if points.len() == 0 {
        s
    } else {
        StrokeView {
            first: points[0],
            rest: Seq::new(
                (points.len() - 1) as nat,
                |i: int| difference(points[i + 1], points[0]),
            ),
            ..s
        }
    }
}

impl HighlightStroke {
    /// The stroke with its points smoothed.
    pub fn smoothed(self, points: &Vec<Vec2D>) -> (r: HighlightStroke)
        requires
            forall|i: int| 0 <= i < points@.len() ==> (#[trigger] points@[i]).ok(),
        ensures
            r@ == with_points(self@, points@),
    {
        let mut stroke: HighlightStroke = self;
        if points.len() > 0 {
            let first: Vec2D = points[0];
            assert(points@[0].ok());
            let mut rest: Vec<Vec2D> = Vec::new();
            let mut i: usize = 1;
            while i < points.len()
                invariant
                    1 <= i <= points@.len(),
                    forall|k: int| 0 <= k < points@.len() ==> (#[trigger] points@[k]).ok(),
                    first == points@[0],
                    rest@.len() == i - 1,
                    forall|k: int|
                        0 <= k < i - 1 ==> #[trigger] rest@[k] == difference(
                            points@[k + 1],
                            points@[0],
                        ),
                decreases points.len() - i,
            {
                assert(points@[0].ok());
                let p: Vec2D = points[i];
                assert(points@[i as int].ok());
                rest.push(p.minus(first));
                i = i + 1;
            }
            stroke.first = first;
            stroke.rest = rest;
            assert(stroke@.rest =~= with_points(self@, points@).rest);
        }
        stroke
    }
}

impl HighlightTool {
    /// The band that a drag beginning with this event would lock to is looked
    /// up first.
    pub open spec fn looks_up(&self, event: MouseEventMsg) -> bool {
        event.type_ == MouseEventType::BeginDrag && event.button != MouseButton::Middle
            && self.highlight_style == HighlighterStyle::TextLocked
    }

    /// Whether all points of the tool are in the range that it works on.
    pub fn in_range(&self) -> (r: bool)
        ensures
            r == self@.ok(),
    {
        if let Some(a) = self.drag_anchor {
            if !(within(a.x) && within(a.y)) {
                return false;
            }
        }
        match &self.stroke {
            Some(s) => stroke_in_range(s),
            None => true,
        }
    }

    /// The offset that has to be turned to a multiple of 15 degrees before
    /// this event is handled; `None` where none is needed.
    pub fn snap_input(&self, event: &MouseEventMsg) -> (r: Option<Vec2D>)
        requires
            self@.ok(),
            point_in(event.pos),
        ensures
            r is Some == (event.modifier.shift && (event.type_ == MouseEventType::UpdateDrag
                || event.type_ == MouseEventType::EndDrag) && self@.drags(*event)),
            r matches Some(v) ==> v == self@.to_snap(event.pos),
    {
        let drag: bool = match event.type_ {
            MouseEventType::UpdateDrag | MouseEventType::EndDrag => true,
            _ => false,
        };
        if !event.modifier.shift || !drag || event.button == MouseButton::Middle || event.pos
            == Vec2D::zero() {
            return None;
        }
        match (&self.stroke, self.drag_anchor) {
            (Some(stroke), Some(anchor)) => {
                let asked: Vec2D = asked_offset(stroke, anchor, self.drag_style, event.pos);
                let n: usize = stroke.rest.len();
                let keep: usize = if stroke.shift_pressed && n > 0 {
                    n - 1
                } else {
                    n
                };
                let last: Vec2D = if keep > 0 {
                    stroke.rest[keep - 1]
                } else {
                    Vec2D::zero()
                };
                proof {
                    if keep > 0 {
                        assert(point_in(stroke@.rest[keep - 1]));
                    }
                }
                Some(asked.minus(last))
            },
            _ => None,
        }
    }

    /// Handles a pointer event. `snapped` is the offset that [`snap_input`]
    /// asked for, turned to the nearest multiple of 15 degrees.
    ///
    /// [`snap_input`]: HighlightTool::snap_input
    pub fn handle_mouse_event(&mut self, event: MouseEventMsg, snapped: Vec2D, bands: &mut BandState) -> (r:
        HighlightStep)
        requires
            old(self)@.ok(),
            point_in(event.pos),
            point_in(snapped),
            old(bands).wf(),
            old(self).looks_up(event) ==> detectable(
                old(bands),
                event.pos.x as int,
                event.pos.y as int,
            ),
        ensures
            final(bands).wf(),
            old(self).looks_up(event) ==> exists|band: Option<TextBand>| #[trigger]
                is_detected(
                    old(bands),
                    event.pos.x as int,
                    event.pos.y as int,
                    band,
                    final(bands),
                ) && final(self)@ == old(self)@.mouse_step(event, snapped, band).0 && r.is(
                    old(self)@.mouse_step(event, snapped, band).1,
                ),
            !old(self).looks_up(event) ==> {
                let (tool, step, forget) = old(self)@.mouse_step(event, snapped, None);
                &&& final(self)@ == tool
                &&& r.is(step)
                &&& final(bands).image == old(bands).image
                &&& final(bands).bands == old(bands).bands
                &&& final(bands).cache == if forget {
                    None
                } else {
                    old(bands).cache
                }
            },
    {
        match event.type_ {
            MouseEventType::BeginDrag => {
                if event.button == MouseButton::Middle {
                    return HighlightStep::Done(ToolUpdateResult::Unmodified);
                }
                self.begin_drag(event.pos, event.modifier.shift, bands);
                HighlightStep::Done(ToolUpdateResult::Redraw)
            },
            MouseEventType::UpdateDrag | MouseEventType::EndDrag => {
                if event.button == MouseButton::Middle {
                    return HighlightStep::Done(ToolUpdateResult::Unmodified);
                }
                let end: bool = event.type_ == MouseEventType::EndDrag;
                if event.pos == Vec2D::zero() || self.stroke.is_none() || self.drag_anchor.is_none() {
                    return self.drag_nothing(end, bands);
                }
                let ghost before = *old(self);
                let (Some(anchor), Some(mut stroke)) = (self.drag_anchor, self.stroke.take()) else {
                    assert(false);
                    return HighlightStep::Done(ToolUpdateResult::Unmodified);
                };
                assert(before@.stroke == Some(stroke@));
                extend(&mut stroke, anchor, self.drag_style, event.pos, event.modifier.shift, snapped);
                assert(stroke@ == before@.extended(event.pos, event.modifier.shift, snapped));
                if event.type_ == MouseEventType::UpdateDrag {
                    self.stroke = Some(stroke);
                    return HighlightStep::Done(ToolUpdateResult::Redraw);
                }
                self.end_drag(stroke, bands, Ghost(before))
            },
            _ => HighlightStep::Done(ToolUpdateResult::Unmodified),
        }
    }

    /// A drag event that adds nothing to a stroke: at most, the drag ends.
    fn drag_nothing(&mut self, end: bool, bands: &mut BandState) -> (r: HighlightStep)
        requires
            old(bands).wf(),
        ensures
            final(bands).wf(),
            final(bands).image == old(bands).image,
            final(bands).bands == old(bands).bands,
            final(bands).cache == if end && (old(self).stroke is Some || old(self).drag_anchor is Some) {
                None
            } else {
                old(bands).cache
            },
            final(self)@ == if end {
                old(self)@.cleared()
            } else {
                old(self)@
            },
            r.is(
                if end && old(self).stroke is Some {
                    StepView::Redraw
                } else {
                    StepView::Unmodified
                },
            ),
    {
        if !end {
            return HighlightStep::Done(ToolUpdateResult::Unmodified);
        }
        let drawn: bool = self.stroke.is_some();
        if drawn || self.drag_anchor.is_some() {
            clear_local_band_cache(bands);
        }
        self.clear_drag();
        if drawn {
            HighlightStep::Done(ToolUpdateResult::Redraw)
        } else {
            HighlightStep::Done(ToolUpdateResult::Unmodified)
        }
    }

    /// Starts a stroke.
    fn begin_drag(&mut self, pos: Vec2D, shift: bool, bands: &mut BandState)
        requires
            point_in(pos),
            old(bands).wf(),
            old(self).highlight_style == HighlighterStyle::TextLocked ==> detectable(
                old(bands),
                pos.x as int,
                pos.y as int,
            ),
        ensures
            final(bands).wf(),
            old(self).highlight_style == HighlighterStyle::TextLocked ==> exists|
                band: Option<TextBand>,
            | #[trigger]
                is_detected(old(bands), pos.x as int, pos.y as int, band, final(bands)) && final(self)@ == old(self)@.begun(pos, shift, band),
            old(self).highlight_style == HighlighterStyle::Normal ==> final(self)@
                == old(self)@.begun(pos, shift, None) && *final(bands) == *old(bands),
    {
        self.drag_style = Some(self.highlight_style);
        self.drag_anchor = Some(pos);
        match self.highlight_style {
            HighlighterStyle::TextLocked => {
                let band: Option<TextBand> = detect_local_band(bands, pos.x, pos.y);
                assert(is_detected(old(bands), pos.x as int, pos.y as int, band, bands));
                self.locked_band = band;
                let (first, forced_width): (Vec2D, Option<i64>) = match band {
                    Some(b) => {
                        let height: i64 = b.height();
                        proof {
                            lemma_band_width_bound(b);
                        }
                        let pad: i64 = mul_div(2 * height, BAND_PAD_PER_SIDE, MICRO);
                        (Vec2D::new(pos.x, b.center_y()), Some(height + pad))
                    },
                    None => (pos, None),
                };
                self.stroke = Some(
                    HighlightStroke {
                        first,
                        rest: Vec::new(),
                        style: self.style,
                        shift_pressed: shift,
                        forced_width,
                        highlight_style: HighlighterStyle::TextLocked,
                    },
                );
                assert(self@ == old(self)@.begun(pos, shift, band));
            },
            HighlighterStyle::Normal => {
                self.locked_band = None;
                self.stroke = Some(
                    HighlightStroke {
                        first: pos,
                        rest: Vec::new(),
                        style: self.style,
                        shift_pressed: shift,
                        forced_width: None,
                        highlight_style: HighlighterStyle::Normal,
                    },
                );
                assert(self@ == old(self)@.begun(pos, shift, None));
            },
        }
    }

    /// Ends a stroke.
    fn end_drag(&mut self, stroke: HighlightStroke, bands: &mut BandState, Ghost(before): Ghost<
        HighlightTool,
    >) -> (r: HighlightStep)
        requires
            before@.ok(),
            before@.stroke is Some,
            stroke@.first == before@.stroke->0.first,
            forall|i: int| 0 <= i < stroke@.rest.len() ==> coord_ok((#[trigger] stroke@.rest[i]).x as int) && coord_ok(stroke@.rest[i].y as int),
            old(self)@ == (HighlightToolView { stroke: None, ..before@ }),
            old(bands).wf(),
        ensures
            final(bands).wf(),
            final(bands).image == old(bands).image,
            final(bands).bands == old(bands).bands,
            ({
                let grown = stroke@;
                if last_offset(grown.rest).norm2_spec() < MIN_COMMIT_LENGTH_SQUARED {
                    final(self)@ == before@.cleared() && r.is(StepView::Redraw) && final(bands).cache is None
                } else if before@.drag_style == Some(HighlighterStyle::Normal)
                    && !grown.shift_pressed && grown.rest.len() >= 2 {
                    final(self)@ == before@.cleared() && r.is(
                        StepView::Smooth(grown, grown.points(), HIGHLIGHT_SMOOTH_LEVEL),
                    ) && final(bands).cache is None
                } else {
                    final(self)@ == before@.cleared() && r.is(StepView::Commit(grown)) && final(bands).cache is None
                }
            }),
    {
        let n: usize = stroke.rest.len();
        let end_offset: Vec2D = if n > 0 {
            stroke.rest[n - 1]
        } else {
            Vec2D::zero()
        };
        proof {
            if n > 0 {
                assert(coord_ok(stroke@.rest[n - 1].x as int));
            }
        }
        let normal: bool = match self.drag_style {
            Some(HighlighterStyle::Normal) => true,
            _ => false,
        };
        self.clear_drag();
        clear_local_band_cache(bands);
        if dist2(end_offset, Vec2D::zero()) < MIN_COMMIT_LENGTH_SQUARED {
            return HighlightStep::Done(ToolUpdateResult::Redraw);
        }
        if normal && !stroke.shift_pressed && n >= 2 {
            let points = wide_points(&stroke);
            return HighlightStep::Smooth(stroke, points, HIGHLIGHT_SMOOTH_LEVEL);
        }
        HighlightStep::Done(ToolUpdateResult::Commit(stroke))
    }

    /// Forgets the drag.
    fn clear_drag(&mut self)
        ensures
            final(self)@ == old(self)@.cleared(),
    {
        self.stroke = None;
        self.locked_band = None;
        self.drag_anchor = None;
        self.drag_style = None;
    }

    /// Escape drops the stroke being drawn.
    pub fn handle_key_event(&mut self, event: KeyEventMsg) -> (r: ToolUpdateResult<HighlightStroke>)
        ensures
            event.key.0 == KEY_ESCAPE && old(self).stroke is Some ==> r is Redraw && final(self)@
                == (HighlightToolView { stroke: None, ..old(self)@ }),
            !(event.key.0 == KEY_ESCAPE && old(self).stroke is Some) ==> r is Unmodified && final(self)@ == old(self)@,
    {
        if event.key.0 == KEY_ESCAPE && self.stroke.is_some() {
            self.stroke = None;
            return ToolUpdateResult::Redraw;
        }
        ToolUpdateResult::Unmodified
    }

    /// Releasing Shift makes the last point firm: it is doubled, or a double
    /// of it removed, so that the next aligned segment starts there.
    pub fn handle_key_release_event(&mut self, event: KeyEventMsg) -> (r: ToolUpdateResult<
        HighlightStroke,
    >)
        ensures
            ({
                let shift = event.key.0 == KEY_SHIFT_L || event.key.0 == KEY_SHIFT_R;
                match old(self)@.stroke {
                    Some(s) if shift && s.rest.len() >= 2 => {
                        let n = s.rest.len();
                        &&& r is Redraw
                        &&& final(self)@ == (HighlightToolView {
                            stroke: Some(
                                StrokeView {
                                    rest: if s.rest[n - 1] == s.rest[n - 2] {
                                        s.rest.drop_last()
                                    } else {
                                        s.rest.push(s.rest[n - 1])
                                    },
                                    ..s
                                },
                            ),
                            ..old(self)@
                        })
                    },
                    _ => r is Unmodified && final(self)@ == old(self)@,
                }
            }),
    {
        if event.key.0 == KEY_SHIFT_L || event.key.0 == KEY_SHIFT_R {
            match self.stroke.take() {
                Some(s) => {
                    let mut stroke = s;
                    let n: usize = stroke.rest.len();
                    if n >= 2 {
                        let last: Vec2D = stroke.rest[n - 1];
                        let second_last: Vec2D = stroke.rest[n - 2];
                        let ghost before = stroke.rest@;
                        if last == second_last {
                            stroke.rest.pop();
                            assert(stroke.rest@ =~= before.drop_last());
                        } else {
                            stroke.rest.push(last);
                        }
                        self.stroke = Some(stroke);
                        return ToolUpdateResult::Redraw;
                    }
                    self.stroke = Some(stroke);
                },
                None => {},
            }
        }
        ToolUpdateResult::Unmodified
    }

    /// New strokes get `style`.
    pub fn handle_style_event(&mut self, style: Style) -> (r: ToolUpdateResult<HighlightStroke>)
        ensures
            final(self)@ == (HighlightToolView { style, ..old(self)@ }),
            r is Unmodified,
    {
        self.style = style;
        ToolUpdateResult::Unmodified
    }

    pub fn get_drawable(&self) -> (r: Option<&HighlightStroke>)
        ensures
            r == match &self.stroke {
                Some(s) => Some(s),
                None => None,
            },
    {
        match &self.stroke {
            Some(s) => Some(s),
            None => None,
        }
    }

    pub fn get_tool_type(&self) -> (r: Tools)
        ensures
            r == Tools::Highlighter,
    {
        Tools::Highlighter
    }

    pub fn locked_text_band(&self) -> (r: Option<TextBand>)
        ensures
            r == self.locked_band,
    {
        self.locked_band
    }

    /// The next stroke follows the pointer in this way; one in flight is not
    /// affected.
    pub fn set_highlighter_style(&mut self, style: HighlighterStyle)
        ensures
            final(self)@ == (HighlightToolView { highlight_style: style, ..old(self)@ }),
    {
        self.highlight_style = style;
    }

    pub fn highlighter_style(&self) -> (r: Option<HighlighterStyle>)
        ensures
            r == Some(self.highlight_style),
    {
        Some(self.highlight_style)
    }

    pub fn input_enabled(&self) -> (r: bool)
        ensures
            r == self.input_enabled,
    {
        self.input_enabled
    }

    pub fn set_input_enabled(&mut self, value: bool)
        ensures
            final(self)@ == (HighlightToolView { input_enabled: value, ..old(self)@ }),
    {
        self.input_enabled = value;
    }
}

/// The points of a stroke whose offsets may be larger than what comes from
/// outside.
fn wide_points(stroke: &HighlightStroke) -> (r: Vec<Vec2D>)
    requires
        point_in(stroke.first),
        forall|i: int|
            0 <= i < stroke.rest@.len() ==> coord_ok((#[trigger] stroke.rest@[i]).x as int)
                && coord_ok(stroke.rest@[i].y as int),
    ensures
        r@ == stroke@.points(),
{
    let mut points: Vec<Vec2D> = Vec::new();
    points.push(stroke.first);
    let mut i: usize = 0;
    while i < stroke.rest.len()
        invariant
            point_in(stroke.first),
            forall|k: int|
                0 <= k < stroke.rest@.len() ==> coord_ok((#[trigger] stroke.rest@[k]).x as int)
                    && coord_ok(stroke.rest@[k].y as int),
            i <= stroke.rest@.len(),
            points@.len() == i + 1,
            forall|k: int| 0 <= k <= i ==> #[trigger] points@[k] == stroke@.points()[k],
        decreases stroke.rest.len() - i,
    {
        assert(coord_ok(stroke.rest@[i as int].x as int));
        points.push(stroke.first.plus(stroke.rest[i]));
        i = i + 1;
    }
    assert(points@ =~= stroke@.points());
    points
}

proof fn lemma_band_width_bound(b: TextBand)
    requires
        b.wf(),
    ensures
        0 <= times_micro(2 * (b.y_end - b.y_start), BAND_PAD_PER_SIDE as int),
        band_width(b) <= INPUT_MAX,
{
    let h = b.y_end - b.y_start;
    let q = times_micro(2 * h, BAND_PAD_PER_SIDE as int);
    assert(0 <= (2 * h) * BAND_PAD_PER_SIDE == 100_000 * h) by (nonlinear_arith)
        requires
            h >= 0,
            BAND_PAD_PER_SIDE == 50_000,
    ;
    crate::units::lemma_div_round_near((2 * h) * BAND_PAD_PER_SIDE, MICRO as int);
    crate::tools::lemma_div_round_nonneg((2 * h) * BAND_PAD_PER_SIDE, MICRO as int);
    assert(q <= h / 10 + 1) by (nonlinear_arith)
        requires
            2 * (q * MICRO - 100_000 * h) <= MICRO,
            MICRO == 1_000_000,
    ;
}

/// The offset that a drag event asks to add to the stroke.
fn asked_offset(stroke: &HighlightStroke, anchor: Vec2D, drag_style: Option<HighlighterStyle>, pos: Vec2D) -> (r:
    Vec2D)
    requires
        point_in(stroke.first),
        point_in(anchor),
        point_in(pos),
    ensures
        r == if drag_style == Some(HighlighterStyle::TextLocked) {
            Vec2D { x: (anchor.x + pos.x - stroke.first.x) as i64, y: 0 }
        } else {
            pos
        },
        r.ok(),
{
    match drag_style {
        Some(HighlighterStyle::TextLocked) => {
            let abs_x: i64 = anchor.x + pos.x;
            Vec2D::new(abs_x - stroke.first.x, 0)
        },
        _ => pos,
    }
}

/// Adds the point of a drag event to a stroke.
fn extend(
    stroke: &mut HighlightStroke,
    anchor: Vec2D,
    drag_style: Option<HighlighterStyle>,
    pos: Vec2D,
    shift: bool,
    snapped: Vec2D,
)
    requires
        old(stroke)@.ok(),
        point_in(anchor),
        point_in(pos),
        point_in(snapped),
    ensures
        ({
            let s = old(stroke)@;
            let kept = if shift && s.shift_pressed && s.rest.len() > 0 {
                s.rest.drop_last()
            } else {
                s.rest
            };
            let last = last_offset(kept);
            let asked = if drag_style == Some(HighlighterStyle::TextLocked) {
                Vec2D { x: (anchor.x + pos.x - s.first.x) as i64, y: 0 }
            } else {
                pos
            };
            final(stroke)@ == (StrokeView {
                rest: if shift {
                    kept.push(sum(last, snapped))
                } else if dist2_spec(asked, last) >= UNIT_SQUARED {
                    kept.push(asked)
                } else {
                    kept
                },
                shift_pressed: shift,
                ..s
            })
        }),
        forall|i: int|
            0 <= i < final(stroke)@.rest.len() ==> coord_ok(
                (#[trigger] final(stroke)@.rest[i]).x as int,
            ) && coord_ok(final(stroke)@.rest[i].y as int),
{
    let ghost s = stroke@;
    let asked: Vec2D = asked_offset(stroke, anchor, drag_style, pos);
    if shift && stroke.shift_pressed && stroke.rest.len() > 0 {
        stroke.rest.pop();
        assert(stroke.rest@ =~= s.rest.drop_last());
    }
    let ghost kept = stroke.rest@;
    proof {
        assert forall|i: int| 0 <= i < kept.len() implies point_in(#[trigger] kept[i]) by {
            assert(kept[i] == s.rest[i]);
        }
    }
    let n: usize = stroke.rest.len();
    let last: Vec2D = if n > 0 {
        stroke.rest[n - 1]
    } else {
        Vec2D::zero()
    };
    if shift {
        stroke.rest.push(last.plus(snapped));
    } else if dist2(asked, last) >= UNIT_SQUARED {
        stroke.rest.push(asked);
    }
    stroke.shift_pressed = shift;
}

fn within(v: i64) -> (r: bool)
    ensures
        r == input_ok(v as int),
{
    -INPUT_MAX <= v && v <= INPUT_MAX
}

/// Whether all points of a stroke are in range.
fn stroke_in_range(s: &HighlightStroke) -> (r: bool)
    ensures
        r == s@.ok(),
{
    if !(within(s.first.x) && within(s.first.y)) {
        return false;
    }
    if let Some(w) = s.forced_width {
        if w < 0 || w > INPUT_MAX {
            return false;
        }
    }
    let mut i: usize = 0;
    while i < s.rest.len()
        invariant
            i <= s.rest@.len(),
            point_in(s.first),
            s.forced_width matches Some(w) ==> 0 <= w <= INPUT_MAX,
            forall|k: int| 0 <= k < i ==> point_in(#[trigger] s.rest@[k]),
        decreases s.rest.len() - i,
    {
        let p: Vec2D = s.rest[i];
        if !(within(p.x) && within(p.y)) {
            assert(!point_in(s@.rest[i as int]));
            return false;
        }
        i = i + 1;
    }
    true
}

/// Whatever its place, the end of a drag leaves nothing of the drag behind.
pub proof fn lemma_drag_ends(
    tool: HighlightToolView,
    event: MouseEventMsg,
    snapped: Vec2D,
    band: Option<TextBand>,
)
    requires
        event.type_ == MouseEventType::EndDrag,
        event.button != MouseButton::Middle,
    ensures
        tool.mouse_step(event, snapped, band).0 == tool.cleared(),
{
}

} // verus!
