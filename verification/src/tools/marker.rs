//! Numbered badges.
use vstd::prelude::*;
use crate::input::{MouseButton, MouseEventMsg, MouseEventType};
use crate::math::{dist2, dist2_spec, Rect, Vec2D};
use crate::style::{Color, Size, Style};
use crate::tools::arrow::{is_mapped_point, point_in};
use crate::tools::{CanvasTransform, Handle, HandleId, HandleKind, ToolUpdateResult, Tools};
use crate::units::{
    clamp_spec, coord_ok, div_round_spec, floor_div, input_ok, max_len, max_spec, mul_div, MICRO,
    UNIT,
};
use crate::wide::{is_isqrt, isqrt};

verus! {

/// Opacity of the badge under the pointer, in millionths.
pub const GHOST_ALPHA: i64 = 720_000;

/// Largest size factor of an annotation, in millionths.
pub const FACTOR_MAX: i64 = 100_000_000;

/// Smallest and largest factor that a badge can be resized by, in millionths.
pub const SCALE_MIN: i64 = 200_000;

pub const SCALE_MAX: i64 = 10_000_000;

/// Largest text size of a badge, in sub-units.
pub const TEXT_SIZE_MAX: i64 = 0x1_8000_0000;

/// Height of the number, in pixels, before any factor.
pub open spec fn base_text_size(size: Size) -> int {
    match size {
        Size::XSmall => 14,
        Size::Small => 22,
        Size::Medium => 36,
        Size::Large => 50,
        Size::XLarge => 70,
        Size::XXLarge => 96,
    }
}

/// Height of the number: the size's own, times two factors in millionths.
pub open spec fn text_size_spec(size: Size, factor: int, scale: int) -> int {
    div_round_spec((base_text_size(size) * UNIT) * factor * scale, 1_000_000_000_000)
}

/// Height of the number on a badge, in sub-units.
pub fn marker_text_size(size: Size, factor: i64, scale: i64) -> (r: i64)
    requires
        0 <= factor <= FACTOR_MAX,
        0 <= scale <= SCALE_MAX,
    ensures
        r == text_size_spec(size, factor as int, scale as int),
        0 <= r <= TEXT_SIZE_MAX,
{
    let base: i128 = match size {
        Size::XSmall => 14 * UNIT as i128,
        Size::Small => 22 * UNIT as i128,
        Size::Medium => 36 * UNIT as i128,
        Size::Large => 50 * UNIT as i128,
        Size::XLarge => 70 * UNIT as i128,
        Size::XXLarge => 96 * UNIT as i128,
    };
    proof {
        assert(0 <= base * factor <= 96 * 65536 * 100_000_000) by (nonlinear_arith)
            requires
                0 <= base <= 96 * 65536,
                0 <= factor <= 100_000_000,
        ;
        assert(0 <= (base * factor) * scale <= 96 * 65536 * 100_000_000 * 10_000_000)
            by (nonlinear_arith)
            requires
                0 <= base * factor <= 96 * 65536 * 100_000_000,
                0 <= scale <= 10_000_000,
        ;
    }
    let p: i128 = (base * factor as i128) * scale as i128;
    floor_div(2 * p + 1_000_000_000_000, 2_000_000_000_000) as i64
}

/// How many digits a number is written with.
pub open spec fn digits_spec(number: int) -> int
    decreases number,
{
    if number < 10 {
        1
    } else {
        1 + digits_spec(number / 10)
    }
}

fn digits(number: u16) -> (r: u32)
    ensures
        r == digits_spec(number as int),
        1 <= r <= 5,
{
    reveal_with_fuel(digits_spec, 6);
    if number < 10 {
        1
    } else if number < 100 {
        2
    } else if number < 1000 {
        3
    } else if number < 10000 {
        4
    } else {
        5
    }
}

/// `r` is the radius of a badge: 65 hundredths of the diagonal of a text that
/// is seven tenths of its height wide for each digit.
pub open spec fn is_radius(text_size: int, number: int, r: int) -> bool {
    exists|s: int| #[trigger] is_isqrt(tenths_diagonal2(text_size, number), s) && r == div_round_spec(s * 65, 1000)
}

/// The square of ten times the diagonal of the text.
pub open spec fn tenths_diagonal2(text_size: int, number: int) -> int {
    (7 * digits_spec(number) * text_size) * (7 * digits_spec(number) * text_size) + (10
        * text_size) * (10 * text_size)
}

/// Radius of a badge with this number.
pub fn marker_radius(text_size: i64, number: u16) -> (r: i64)
    requires
        0 <= text_size <= TEXT_SIZE_MAX,
    ensures
        is_radius(text_size as int, number as int, r as int),
        0 <= r <= 0x10_0000_0000,
{
    let n: u32 = digits(number);
    proof {
        assert(0 <= 7 * n * text_size <= 35 * TEXT_SIZE_MAX) by (nonlinear_arith)
            requires
                1 <= n <= 5,
                0 <= text_size <= TEXT_SIZE_MAX,
        ;
    }
    let w: u128 = 7 * n as u128 * text_size as u128;
    let h: u128 = 10 * text_size as u128;
    proof {
        assert(w * w <= 0x80_0000_0000 * 0x80_0000_0000) by (nonlinear_arith)
            requires
                0 <= w <= 35 * 0x1_8000_0000,
        ;
        assert(h * h <= 0x80_0000_0000 * 0x80_0000_0000) by (nonlinear_arith)
            requires
                0 <= h <= 10 * 0x1_8000_0000,
        ;
    }
    let d2: u128 = w * w + h * h;
    let s: u64 = isqrt(d2);
    proof {
        assert(is_isqrt(tenths_diagonal2(text_size as int, number as int), s as int));
        assert(s <= 0xC0_0000_0000) by (nonlinear_arith)
            requires
                s * s <= d2,
                d2 <= 2 * (0x80_0000_0000 * 0x80_0000_0000),
        ;
    }
    mul_div(s as i64, 65, 1000)
}

/// `r` is the radius of the disc behind a number that measures `w` by `h`.
pub open spec fn is_disc_radius(w: int, h: int, text_size: int, r: int) -> bool {
    exists|s: int| #[trigger] is_isqrt(w * w + h * h, s) && r == max_spec(
        div_round_spec(s * 65, 100),
        div_round_spec(text_size * 55, 100),
    )
}

/// Radius of the disc behind a number that measures `w` by `h`.
pub fn disc_radius(w: i64, h: i64, text_size: i64) -> (r: i64)
    requires
        0 <= w <= 0x100_0000_0000,
        0 <= h <= 0x100_0000_0000,
        0 <= text_size <= 0x100_0000_0000,
    ensures
        is_disc_radius(w as int, h as int, text_size as int, r as int),
{
    proof {
        assert(0 <= w * w <= 0x100_0000_0000 * 0x100_0000_0000) by (nonlinear_arith)
            requires
                0 <= w <= 0x100_0000_0000,
        ;
        assert(0 <= h * h <= 0x100_0000_0000 * 0x100_0000_0000) by (nonlinear_arith)
            requires
                0 <= h <= 0x100_0000_0000,
        ;
    }
    let d2: u128 = w as u128 * w as u128 + h as u128 * h as u128;
    let s: u64 = isqrt(d2);
    proof {
        assert(is_isqrt(w * w + h * h, s as int));
        assert(s <= 0x200_0000_0000) by (nonlinear_arith)
            requires
                s * s <= d2,
                d2 <= 2 * (0x100_0000_0000 * 0x100_0000_0000),
        ;
    }
    max_len(mul_div(s as i64, 65, 100), mul_div(text_size, 55, 100))
}

/// The number is written in black: the badge is brighter than half.
pub open spec fn dark_text_spec(c: Color) -> bool {
    2126 * c.r + 7152 * c.g + 722 * c.b > 5000 * 255
}

/// Whether the number on a badge of this color is written in black rather
/// than white.
pub fn dark_text(c: Color) -> (r: bool)
    ensures
        r == dark_text_spec(c),
{
    2126 * c.r as u32 + 7152 * c.g as u32 + 722 * c.b as u32 > 5000 * 255
}

/// A numbered badge.
#[derive(Clone, Copy, Debug, PartialEq, Eq, Structural)]
pub struct Marker {
    pub pos: Vec2D,
    /// Resize factor on top of the style's size, in millionths.
    pub scale: i64,
    pub number: u16,
    pub style: Style,
    /// Only a preview under the pointer.
    pub preview: bool,
}

impl Marker {
    /// Position and factors are in range.
    pub open spec fn ok(&self) -> bool {
        &&& point_in(self.pos)
        &&& 0 <= self.scale <= SCALE_MAX
        &&& 0 <= self.style.annotation_size_factor <= FACTOR_MAX
    }

    /// Height of the number.
    pub open spec fn text_size(&self) -> int {
        text_size_spec(
            self.style.size,
            self.style.annotation_size_factor as int,
            self.scale as int,
        )
    }

    pub fn marker_text_size(&self) -> (r: i64)
        requires
            self.ok(),
        ensures
            r == self.text_size(),
            0 <= r <= TEXT_SIZE_MAX,
    {
        marker_text_size(self.style.size, self.style.annotation_size_factor, self.scale)
    }

    pub fn approx_radius(&self) -> (r: i64)
        requires
            self.ok(),
        ensures
            is_radius(self.text_size(), self.number as int, r as int),
            0 <= r <= 0x10_0000_0000,
    {
        marker_radius(self.marker_text_size(), self.number)
    }

    /// Opacity, in millionths, that the badge is drawn with.
    pub fn alpha(&self) -> (r: i64)
        ensures
            r == if self.preview {
                GHOST_ALPHA
            } else {
                MICRO
            },
    {
        if self.preview {
            GHOST_ALPHA
        } else {
            MICRO
        }
    }

    pub fn is_hover_preview(&self) -> (r: bool)
        ensures
            r == self.preview,
    {
        self.preview
    }

    /// The square around the badge.
    pub fn bounds(&self) -> (r: Option<Rect>)
        requires
            self.ok(),
        ensures
            r is Some,
            r->0.ok(),
            exists|radius: int| #[trigger]
                is_radius(self.text_size(), self.number as int, radius) && is_square_around(
                    self.pos,
                    radius,
                    r->0,
                ),
    {
        let radius: i64 = self.approx_radius();
        assert(is_radius(self.text_size(), self.number as int, radius as int));
        Some(
            Rect {
                pos: Vec2D::new(self.pos.x - radius, self.pos.y - radius),
                size: Vec2D::new(radius * 2, radius * 2),
            },
        )
    }

    /// Whether `point` is on the badge, give or take `tolerance`.
    pub fn hit_test(&self, point: Vec2D, tolerance: i64) -> (r: bool)
        requires
            self.ok(),
            point.ok(),
            input_ok(tolerance as int),
        ensures
            exists|radius: int| #[trigger]
                is_radius(self.text_size(), self.number as int, radius) && r == (radius + tolerance
                    >= 0 && dist2_spec(self.pos, point) <= (radius + tolerance) * (radius
                    + tolerance)),
    {
        let radius: i64 = self.approx_radius();
        let reach: i64 = radius + tolerance;
        assert(is_radius(self.text_size(), self.number as int, radius as int));
        proof {
            crate::math::lemma_square_bound(reach as int);
        }
        reach >= 0 && dist2(self.pos, point) <= reach as i128 * reach as i128
    }

    pub fn translate(&mut self, delta: Vec2D)
        requires
            i64::MIN <= old(self).pos.x + delta.x <= i64::MAX,
            i64::MIN <= old(self).pos.y + delta.y <= i64::MAX,
        ensures
            final(self).pos.x == old(self).pos.x + delta.x,
            final(self).pos.y == old(self).pos.y + delta.y,
            *final(self) == (Marker { pos: final(self).pos, ..*old(self) }),
    {
        self.pos = self.pos.plus(delta);
    }

    /// Only the middle of the badge moves with the canvas.
    pub fn apply_canvas_transform(&mut self, t: CanvasTransform, w: i64, h: i64)
        requires
            point_in(old(self).pos),
            t.wf(),
            coord_ok(w as int),
            coord_ok(h as int),
            t.fits(old(self).pos.x as int, old(self).pos.y as int),
        ensures
            is_mapped_point(t, old(self).pos, w as int, h as int, final(self).pos),
            *final(self) == (Marker { pos: final(self).pos, ..*old(self) }),
    {
        self.pos = t.map_point(self.pos, w, h);
    }

    /// One handle on each corner of the box: a badge keeps its proportions.
    pub fn handles(&self, hit_radius: i64) -> (r: Vec<Handle>)
        requires
            self.ok(),
        ensures
            exists|radius: int| #[trigger]
                is_radius(self.text_size(), self.number as int, radius) && is_corner_handles(
                    self.pos,
                    radius,
                    hit_radius,
                    r@,
                ),
    {
        let Some(b) = self.bounds() else {
            return Vec::new();
        };
        let ghost radius = choose|radius: int| #[trigger]
            is_radius(self.text_size(), self.number as int, radius) && is_square_around(
                self.pos,
                radius,
                b,
            );
        let r: Vec<Handle> = vec![
            Handle::new(HandleId::TopLeft, b.top_left(), hit_radius),
            Handle::new(HandleId::TopRight, b.top_right(), hit_radius),
            Handle::new(HandleId::BottomLeft, b.bottom_left(), hit_radius),
            Handle::new(HandleId::BottomRight, b.bottom_right(), hit_radius),
        ];
        r
    }

    /// Resizes the badge about its middle so that its corner comes to lie as
    /// far out as `to`.
    pub fn move_handle(&mut self, _handle: HandleId, to: Vec2D)
        requires
            old(self).ok(),
            to.ok(),
        ensures
            *final(self) == (Marker { scale: final(self).scale, ..*old(self) }),
            exists|radius: int, reach: int|
                is_radius(old(self).text_size(), old(self).number as int, radius)
                    && #[trigger] is_resized_scale(*old(self), to, radius, reach, final(self).scale as int),
    {
        let current_r: i64 = self.approx_radius();
        let d2: i128 = dist2(self.pos, to);
        let target_r: u64 = isqrt((d2 / 2) as u128);
        let ghost before = *self;
        proof {
            let dx = before.pos.x - to.x;
            let dy = before.pos.y - to.y;
            assert(d2 <= 2 * (0x200_0000_0000_0000 * 0x200_0000_0000_0000)) by (nonlinear_arith)
                requires
                    d2 == dx * dx + dy * dy,
                    -0x200_0000_0000_0000 <= dx <= 0x200_0000_0000_0000,
                    -0x200_0000_0000_0000 <= dy <= 0x200_0000_0000_0000,
            ;
            assert(target_r <= 0x200_0000_0000_0000) by (nonlinear_arith)
                requires
                    target_r * target_r <= d2 / 2,
                    d2 <= 2 * (0x200_0000_0000_0000 * 0x200_0000_0000_0000),
            ;
        }
        if current_r <= 0 {
            assert(is_resized_scale(before, to, current_r as int, target_r as int, before.scale as int));
            return ;
        }
        let wanted: i128 = crate::units::mul_div_wide(self.scale, target_r as i64, current_r);
        let scale: i64 = if wanted < SCALE_MIN as i128 {
            SCALE_MIN
        } else if wanted > SCALE_MAX as i128 {
            SCALE_MAX
        } else {
            wanted as i64
        };
        self.scale = scale;
        assert(is_resized_scale(before, to, current_r as int, target_r as int, scale as int));
    }

    /// Undoing the badge makes its number the next one again.
    pub fn handle_undo(&self, next_number: &mut u16)
        ensures
            *final(next_number) == self.number,
    {
        *next_number = self.number;
    }

    /// Redoing the badge makes the number after it the next one.
    pub fn handle_redo(&self, next_number: &mut u16)
        requires
            self.number < u16::MAX,
        ensures
            *final(next_number) == self.number + 1,
    {
        *next_number = self.number + 1;
    }

    pub fn set_style(&mut self, style: Style)
        ensures
            *final(self) == (Marker { style, ..*old(self) }),
    {
        self.style = style;
    }

    pub fn style(&self) -> (r: Option<Style>)
        ensures
            r == Some(self.style),
    {
        Some(self.style)
    }

    pub fn tool_type(&self) -> (r: Option<Tools>)
        ensures
            r == Some(Tools::Marker),
    {
        Some(Tools::Marker)
    }

    pub fn kind_label(&self) -> (r: &'static str)
        ensures
            r == "Marker",
    {
        "Marker"
    }

    pub fn icon_name(&self) -> (r: &'static str)
        ensures
            r == "number-circle-1-regular",
    {
        "number-circle-1-regular"
    }
}

/// `b` is the square with the given middle and half side.
pub open spec fn is_square_around(middle: Vec2D, radius: int, b: Rect) -> bool {
    &&& b.pos.x == middle.x - radius
    &&& b.pos.y == middle.y - radius
    &&& b.size.x == 2 * radius
    &&& b.size.y == 2 * radius
}

/// The handles on the corners of the square with the given middle.
pub open spec fn is_corner_handles(
    middle: Vec2D,
    radius: int,
    hit_radius: i64,
    r: Seq<Handle>,
) -> bool {
    &&& r.len() == 4
    &&& r[0].id == HandleId::TopLeft && r[0].pos.x == middle.x - radius && r[0].pos.y == middle.y
        - radius
    &&& r[1].id == HandleId::TopRight && r[1].pos.x == middle.x + radius && r[1].pos.y == middle.y
        - radius
    &&& r[2].id == HandleId::BottomLeft && r[2].pos.x == middle.x - radius && r[2].pos.y
        == middle.y + radius
    &&& r[3].id == HandleId::BottomRight && r[3].pos.x == middle.x + radius && r[3].pos.y
        == middle.y + radius
    &&& forall|i: int|
        0 <= i < 4 ==> (#[trigger] r[i]).hit_radius == hit_radius && r[i].kind == HandleKind::Round
}

/// `scale` is the factor of `m` after a corner was dragged to `to`: `reach` is
/// the half side of the square whose corner is that far out.
pub open spec fn is_resized_scale(m: Marker, to: Vec2D, radius: int, reach: int, scale: int) -> bool {
    &&& is_isqrt(dist2_spec(m.pos, to) / 2, reach)
    &&& scale == if radius <= 0 {
        m.scale as int
    } else {
        clamp_spec(
            div_round_spec(m.scale * reach, radius),
            SCALE_MIN as int,
            SCALE_MAX as int,
        )
    }
}

/// A radius is determined by the text.
pub proof fn lemma_radius_unique(text_size: int, number: int, a: int, b: int)
    requires
        is_radius(text_size, number, a),
        is_radius(text_size, number, b),
    ensures
        a == b,
{
    let d2 = tenths_diagonal2(text_size, number);
    let s = choose|s: int| #[trigger] is_isqrt(d2, s) && a == div_round_spec(s * 65, 1000);
    let t = choose|s: int| #[trigger] is_isqrt(d2, s) && b == div_round_spec(s * 65, 1000);
    crate::wide::lemma_isqrt_unique(d2, s, t);
}

/// Stamps badges.
#[derive(Clone, Copy, Debug, PartialEq, Eq, Structural)]
pub struct MarkerTool {
    pub style: Style,
    pub next_number: u16,
    pub input_enabled: bool,
    /// The badge that a click would stamp.
    pub preview: Option<Marker>,
}

impl MarkerTool {
    /// A tool that starts counting at one.
    pub fn new(style: Style) -> (r: MarkerTool)
        ensures
            r == (MarkerTool { style, next_number: 1, input_enabled: true, preview: None }),
    {
        MarkerTool { style, next_number: 1, input_enabled: true, preview: None }
    }

    /// The badge that a click at `pos` would stamp.
    pub open spec fn preview_at(self, pos: Vec2D) -> Marker {
        Marker { pos, scale: MICRO, number: self.next_number, style: self.style, preview: true }
    }

    /// The preview already looks like the one at `pos` would.
    pub open spec fn preview_fits(self, pos: Vec2D) -> bool {
        self.preview matches Some(g) && g.pos == pos && g.number == self.next_number && g.style.color
            == self.style.color && g.style.size == self.style.size && g.style.annotation_size_factor
            == self.style.annotation_size_factor
    }

    /// Parks the preview at `pos`, or removes it; tells whether anything
    /// changed on screen.
    pub fn set_hover_preview(&mut self, pos: Option<Vec2D>) -> (r: bool)
        ensures
            match pos {
                None => r == (old(self).preview is Some) && *final(self) == (MarkerTool {
                    preview: None,
                    ..*old(self)
                }),
                Some(p) => {
                    &&& r == !old(self).preview_fits(p)
                    &&& *final(self) == if r {
                        MarkerTool { preview: Some(old(self).preview_at(p)), ..*old(self) }
                    } else {
                        *old(self)
                    }
                },
            },
    {
        let Some(pos) = pos else {
            let had: bool = self.preview.is_some();
            self.preview = None;
            return had;
        };
        let number: u16 = self.next_number;
        if let Some(g) = self.preview {
            if g.pos == pos && g.number == number && g.style.color == self.style.color
                && g.style.size == self.style.size && g.style.annotation_size_factor
                == self.style.annotation_size_factor {
                return false;
            }
        }
        self.preview = Some(Marker { pos, scale: MICRO, number, style: self.style, preview: true });
        true
    }

    /// A primary click stamps the next number, where the preview is.
    pub fn handle_mouse_event(&mut self, event: MouseEventMsg) -> (r: ToolUpdateResult<Marker>)
        requires
            event.type_ == MouseEventType::Click && event.button == MouseButton::Primary ==> old(
                self,
            ).next_number < u16::MAX,
        ensures
            event.type_ == MouseEventType::Click && event.button == MouseButton::Primary ==> {
                &&& r == ToolUpdateResult::Commit(
                    Marker {
                        pos: match old(self).preview {
                            Some(g) => g.pos,
                            None => event.pos,
                        },
                        scale: MICRO,
                        number: old(self).next_number,
                        style: old(self).style,
                        preview: false,
                    },
                )
                &&& *final(self) == (MarkerTool {
                    next_number: (old(self).next_number + 1) as u16,
                    ..*old(self)
                })
            },
            !(event.type_ == MouseEventType::Click && event.button == MouseButton::Primary) ==> r
                == ToolUpdateResult::<Marker>::Unmodified && *final(self) == *old(self),
    {
        match event.type_ {
            MouseEventType::Click => {
                if event.button == MouseButton::Primary {
                    let pos: Vec2D = match self.preview {
                        Some(g) => g.pos,
                        None => event.pos,
                    };
                    let marker = Marker {
                        pos,
                        scale: MICRO,
                        number: self.next_number,
                        style: self.style,
                        preview: false,
                    };
                    self.next_number = self.next_number + 1;
                    ToolUpdateResult::Commit(marker)
                } else {
                    ToolUpdateResult::Unmodified
                }
            },
            _ => ToolUpdateResult::Unmodified,
        }
    }

    /// New badges get `style`.
    pub fn handle_style_event(&mut self, style: Style) -> (r: ToolUpdateResult<Marker>)
        ensures
            *final(self) == (MarkerTool { style, ..*old(self) }),
            r == ToolUpdateResult::<Marker>::Unmodified,
    {
        self.style = style;
        ToolUpdateResult::Unmodified
    }

    pub fn get_drawable(&self) -> (r: Option<Marker>)
        ensures
            r == self.preview,
    {
        self.preview
    }

    pub fn get_tool_type(&self) -> (r: Tools)
        ensures
            r == Tools::Marker,
    {
        Tools::Marker
    }

    pub fn input_enabled(&self) -> (r: bool)
        ensures
            r == self.input_enabled,
    {
        self.input_enabled
    }

    pub fn set_input_enabled(&mut self, value: bool)
        ensures
            *final(self) == (MarkerTool { input_enabled: value, ..*old(self) }),
    {
        self.input_enabled = value;
    }
}

} // verus!
