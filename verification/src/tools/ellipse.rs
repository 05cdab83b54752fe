//! Ellipses.
use vstd::prelude::*;
use crate::input::{KeyEventMsg, MouseButton, MouseEventMsg, MouseEventType, KEY_ESCAPE};
use crate::math::{Rect, Vec2D};
use crate::style::Style;
use crate::tools::arrow::{is_mapped_point, point_in};
use crate::tools::{
    bbox_handle_at, bbox_handle_order, bbox_handles, bbox_resize, is_resized, CanvasTransform,
    Handle, HandleId, HandleKind, PanelPreview, ToolUpdateResult, Tools,
};
use crate::units::{abs_len, abs_spec, coord_ok, half, input_ok, max_len, max_spec};
use crate::wide::U256;

verus! {

/// `(dx, dy)` from its middle lies in the ellipse with the radii `a` and `b`,
/// its edge included.
pub open spec fn in_ellipse_spec(dx: int, dy: int, a: int, b: int) -> bool {
    (dx * dx) * (b * b) + (dy * dy) * (a * a) <= (a * a) * (b * b)
}

/// A length squared.
fn square(v: i64) -> (r: u128)
    requires
        -0x400_0000_0000_0000 <= v <= 0x400_0000_0000_0000,
    ensures
        r == v * v,
        r <= 0x10_0000_0000_0000_0000_0000_0000_0000,
{
    proof {
        assert(0 <= v * v <= 0x10_0000_0000_0000_0000_0000_0000_0000) by (nonlinear_arith)
            requires
                -0x400_0000_0000_0000 <= v <= 0x400_0000_0000_0000,
        ;
    }
    (v as i128 * v as i128) as u128
}

/// The product of two squares, which leaves room to add another one.
fn square_product(a: i64, b: i64) -> (r: U256)
    requires
        -0x400_0000_0000_0000 <= a <= 0x400_0000_0000_0000,
        -0x400_0000_0000_0000 <= b <= 0x400_0000_0000_0000,
    ensures
        r.val() == (a * a) * (b * b),
        r.hi <= 0x100_0000_0000_0000_0000_0000_0000,
{
    let a2: u128 = square(a);
    let b2: u128 = square(b);
    let r = U256::product(a2, b2);
    proof {
        let lim = 0x10_0000_0000_0000_0000_0000_0000_0000int;
        assert(a2 * b2 <= lim * lim) by (nonlinear_arith)
            requires
                0 <= a2 <= lim,
                0 <= b2 <= lim,
        ;
        assert(lim * lim == 0x100_0000_0000_0000_0000_0000_0000
            * 0x1_0000_0000_0000_0000_0000_0000_0000_0000) by (nonlinear_arith)
            requires
                lim == 0x10_0000_0000_0000_0000_0000_0000_0000int,
        ;
    }
    r
}

/// Whether `(dx, dy)` from its middle lies in the ellipse.
fn in_ellipse(dx: i64, dy: i64, a: i64, b: i64) -> (r: bool)
    requires
        -0x400_0000_0000_0000 <= dx <= 0x400_0000_0000_0000,
        -0x400_0000_0000_0000 <= dy <= 0x400_0000_0000_0000,
        -0x400_0000_0000_0000 <= a <= 0x400_0000_0000_0000,
        -0x400_0000_0000_0000 <= b <= 0x400_0000_0000_0000,
    ensures
        r == in_ellipse_spec(dx as int, dy as int, a as int, b as int),
{
    let left = square_product(dx, b).plus(square_product(dy, a));
    left.at_most(square_product(a, b))
}

/// An ellipse; without radii it is not there yet.
#[derive(Clone, Copy, Debug, PartialEq, Eq, Structural)]
pub struct Ellipse {
    pub origin: Vec2D,
    pub middle: Vec2D,
    pub radii: Option<Vec2D>,
    pub style: Style,
    pub centered: bool,
    pub finishing: bool,
}

impl Ellipse {
    /// All points are coordinates that came from outside.
    pub open spec fn ok(&self) -> bool {
        &&& point_in(self.origin)
        &&& point_in(self.middle)
        &&& self.radii matches Some(r) ==> point_in(r)
    }

    /// Half the stroke plus the caller's slack: how far either side of the
    /// curve still counts as on the line.
    pub open spec fn outline_pad_spec(tolerance: int, stroke: int) -> int {
        stroke / 2 + tolerance
    }

    pub fn outline_pad(tolerance: i64, stroke: i64) -> (r: i64)
        requires
            0 <= stroke,
            input_ok(tolerance as int),
            input_ok(stroke as int),
        ensures
            r == Ellipse::outline_pad_spec(tolerance as int, stroke as int),
    {
        half(stroke) + tolerance
    }

    /// `p` is inside the curve, padded outward by `pad`. Slack that takes a
    /// radius away altogether leaves nothing.
    pub open spec fn inside_outer_spec(&self, p: Vec2D, pad: int) -> bool {
        match self.radii {
            Some(r) => {
                let rx = abs_spec(r.x as int);
                let ry = abs_spec(r.y as int);
                rx > 0 && ry > 0 && rx + pad != 0 && ry + pad != 0 && in_ellipse_spec(
                    p.x - self.middle.x,
                    p.y - self.middle.y,
                    rx + pad,
                    ry + pad,
                )
            },
            None => false,
        }
    }

    /// `p` is on the ring around the curve, `pad` wide on each side. Where the
    /// padding swallows a radius the whole silhouette is outline.
    pub open spec fn on_outline_spec(&self, p: Vec2D, pad: int) -> bool {
        self.inside_outer_spec(p, pad) && {
            let rx = abs_spec(self.radii->0.x as int) - pad;
            let ry = abs_spec(self.radii->0.y as int) - pad;
            rx <= 0 || ry <= 0 || !in_ellipse_spec(
                p.x - self.middle.x,
                p.y - self.middle.y,
                rx,
                ry,
            )
        }
    }

    /// Inside the curve, padded outward.
    fn inside_outer_edge(&self, point: Vec2D, tolerance: i64, stroke: i64) -> (r: bool)
        requires
            self.ok(),
            point.ok(),
            0 <= stroke,
            input_ok(tolerance as int),
            input_ok(stroke as int),
        ensures
            r == self.inside_outer_spec(
                point,
                Ellipse::outline_pad_spec(tolerance as int, stroke as int),
            ),
    {
        let Some(r) = self.radii else {
            return false;
        };
        let rx: i64 = abs_len(r.x);
        let ry: i64 = abs_len(r.y);
        if rx == 0 || ry == 0 {
            return false;
        }
        let pad: i64 = Ellipse::outline_pad(tolerance, stroke);
        rx + pad != 0 && ry + pad != 0 && in_ellipse(
            point.x - self.middle.x,
            point.y - self.middle.y,
            rx + pad,
            ry + pad,
        )
    }

    /// On the ring straddling the curve.
    fn on_outline(&self, point: Vec2D, tolerance: i64, stroke: i64) -> (r: bool)
        requires
            self.ok(),
            point.ok(),
            0 <= stroke,
            input_ok(tolerance as int),
            input_ok(stroke as int),
        ensures
            r == self.on_outline_spec(
                point,
                Ellipse::outline_pad_spec(tolerance as int, stroke as int),
            ),
    {
        if !self.inside_outer_edge(point, tolerance, stroke) {
            return false;
        }
        let Some(r) = self.radii else {
            return false;
        };
        let pad: i64 = Ellipse::outline_pad(tolerance, stroke);
        let inner_rx: i64 = abs_len(r.x) - pad;
        let inner_ry: i64 = abs_len(r.y) - pad;
        if inner_rx <= 0 || inner_ry <= 0 {
            return true;
        }
        !in_ellipse(point.x - self.middle.x, point.y - self.middle.y, inner_rx, inner_ry)
    }

    /// Whether `point` is on the border, which is what can be grabbed while
    /// another tool is armed.
    pub fn edge_hit_test(&self, point: Vec2D, tolerance: i64, stroke: i64) -> (r: bool)
        requires
            self.ok(),
            point.ok(),
            0 <= stroke,
            input_ok(tolerance as int),
            input_ok(stroke as int),
        ensures
            r == self.on_outline_spec(
                point,
                Ellipse::outline_pad_spec(tolerance as int, stroke as int),
            ),
    {
        self.on_outline(point, tolerance, stroke)
    }

    /// Whether `point` is on the ellipse: anywhere inside where it is filled,
    /// else on its stroke.
    pub fn hit_test(&self, point: Vec2D, tolerance: i64, stroke: i64) -> (r: bool)
        requires
            self.ok(),
            point.ok(),
            0 <= stroke,
            input_ok(tolerance as int),
            input_ok(stroke as int),
        ensures
            r == self.hit_spec(point, Ellipse::outline_pad_spec(tolerance as int, stroke as int)),
    {
        if self.style.fill {
            self.inside_outer_edge(point, tolerance, stroke)
        } else {
            self.on_outline(point, tolerance, stroke)
        }
    }

    /// `p` hits the ellipse.
    pub open spec fn hit_spec(&self, p: Vec2D, pad: int) -> bool {
        if self.style.fill {
            self.inside_outer_spec(p, pad)
        } else {
            self.on_outline_spec(p, pad)
        }
    }

    /// The box around the curve.
    pub open spec fn is_box(&self, b: Rect) -> bool {
        let rx = abs_spec(self.radii->0.x as int);
        let ry = abs_spec(self.radii->0.y as int);
        &&& b.pos.x == self.middle.x - rx
        &&& b.pos.y == self.middle.y - ry
        &&& b.size.x == 2 * rx
        &&& b.size.y == 2 * ry
    }

    pub fn bounds(&self) -> (r: Option<Rect>)
        requires
            self.ok(),
        ensures
            r is Some == self.radii is Some,
            r matches Some(b) ==> self.is_box(b) && b.ok() && b.canonical(),
    {
        match self.radii {
            Some(r) => {
                let rx: i64 = abs_len(r.x);
                let ry: i64 = abs_len(r.y);
                Some(
                    Rect {
                        pos: Vec2D::new(self.middle.x - rx, self.middle.y - ry),
                        size: Vec2D::new(rx * 2, ry * 2),
                    },
                )
            },
            None => None,
        }
    }

    /// Moves the ellipse.
    pub fn translate(&mut self, delta: Vec2D)
        requires
            old(self).ok(),
            point_in(delta),
        ensures
            final(self).middle.x == old(self).middle.x + delta.x,
            final(self).middle.y == old(self).middle.y + delta.y,
            final(self).origin.x == old(self).origin.x + delta.x,
            final(self).origin.y == old(self).origin.y + delta.y,
            *final(self) == (Ellipse {
                middle: final(self).middle,
                origin: final(self).origin,
                ..*old(self)
            }),
    {
        self.middle = self.middle.plus(delta);
        self.origin = self.origin.plus(delta);
    }

    /// The ellipse fills the box `b`.
    pub open spec fn fills(&self, b: Rect) -> bool {
        &&& self.radii matches Some(r)
        &&& r.x == b.size.x as int / 2
        &&& r.y == b.size.y as int / 2
        &&& self.middle.x == b.pos.x + b.size.x as int / 2
        &&& self.middle.y == b.pos.y + b.size.y as int / 2
        &&& self.origin == b.pos
    }

    /// Makes the ellipse fill a box.
    fn fill_box(&mut self, b: Rect)
        requires
            -0x2000_0000_0000_0000 <= b.pos.x <= 0x2000_0000_0000_0000,
            -0x2000_0000_0000_0000 <= b.pos.y <= 0x2000_0000_0000_0000,
            -0x2000_0000_0000_0000 <= b.size.x <= 0x2000_0000_0000_0000,
            -0x2000_0000_0000_0000 <= b.size.y <= 0x2000_0000_0000_0000,
        ensures
            final(self).fills(b),
            final(self).style == old(self).style,
            final(self).centered == old(self).centered,
            final(self).finishing == old(self).finishing,
    {
        let rx: i64 = half(b.size.x);
        let ry: i64 = half(b.size.y);
        self.middle = Vec2D::new(b.pos.x + rx, b.pos.y + ry);
        self.radii = Some(Vec2D::new(rx, ry));
        self.origin = b.pos;
    }

    /// Moves the ellipse along with a transform of the whole canvas: it fills
    /// the transformed box.
    pub fn apply_canvas_transform(&mut self, t: CanvasTransform, w: i64, h: i64)
        requires
            old(self).ok(),
            t.wf(),
            coord_ok(w as int),
            coord_ok(h as int),
            t.fits(old(self).middle.x as int, old(self).middle.y as int),
            t.fits(old(self).origin.x as int, old(self).origin.y as int),
            forall|b: Rect| #[trigger]
                old(self).is_box(b) && old(self).radii is Some ==> t.fits(b.pos.x as int, b.pos.y as int) && t.fits(
                    b.right(),
                    b.bottom(),
                ),
        ensures
            final(self).style == old(self).style,
            final(self).centered == old(self).centered,
            final(self).finishing == old(self).finishing,
            old(self).radii is Some ==> exists|b: Rect, m: Rect|
                old(self).is_box(b) && #[trigger] t.is_mapped_rect(b, w as int, h as int, m)
                    && final(self).fills(m),
            old(self).radii is None ==> {
                &&& final(self).radii is None
                &&& is_mapped_point(t, old(self).middle, w as int, h as int, final(self).middle)
                &&& is_mapped_point(t, old(self).origin, w as int, h as int, final(self).origin)
            },
    {
        match self.bounds() {
            Some(bbox) => {
                let m: Rect = t.map_rect(bbox, w, h);
                assert(t.is_mapped_rect(bbox, w as int, h as int, m));
                self.fill_box(m);
            },
            None => {
                self.middle = t.map_point(self.middle, w, h);
                self.origin = t.map_point(self.origin, w, h);
            },
        }
    }

    /// The eight handles of the box.
    pub fn handles(&self, hit_radius: i64) -> (r: Vec<Handle>)
        requires
            self.ok(),
        ensures
            self.radii is None ==> r@.len() == 0,
            self.radii is Some ==> exists|b: Rect| #[trigger]
                self.is_box(b) && r@.len() == 8 && forall|i: int|
                    0 <= i < 8 ==> {
                        &&& (#[trigger] r@[i]).id == bbox_handle_order()[i]
                        &&& bbox_handle_at(b, r@[i].id, r@[i].pos)
                        &&& r@[i].hit_radius == hit_radius
                        &&& r@[i].kind == HandleKind::Round
                    },
    {
        match self.bounds() {
            Some(b) => {
                assert(self.is_box(b));
                bbox_handles(b, hit_radius)
            },
            None => Vec::new(),
        }
    }

    /// Resizes the ellipse by a handle of its box.
    pub fn move_handle(&mut self, handle: HandleId, to: Vec2D)
        requires
            old(self).ok(),
            to.ok(),
        ensures
            final(self).style == old(self).style,
            final(self).centered == old(self).centered,
            final(self).finishing == old(self).finishing,
            old(self).radii is None ==> *final(self) == *old(self),
            old(self).radii is Some && handle.is_box_handle() ==> exists|b: Rect, m: Rect|
                old(self).is_box(b) && #[trigger] is_resized(b, handle, to, m) && final(self).fills(m),
            old(self).radii is Some && !handle.is_box_handle() ==> exists|b: Rect| #[trigger]
                old(self).is_box(b) && final(self).fills(b),
    {
        let Some(cur) = self.bounds() else {
            return ;
        };
        let new: Rect = bbox_resize(cur, handle, to);
        assert(self.is_box(cur));
        self.fill_box(new);
    }

    pub fn set_style(&mut self, style: Style)
        ensures
            *final(self) == (Ellipse { style, ..*old(self) }),
    {
        self.style = style;
    }

    pub fn style(&self) -> (r: Option<Style>)
        ensures
            r == Some(self.style),
    {
        Some(self.style)
    }

    pub fn tool_type(&self) -> (r: Option<Tools>)
        ensures
            r == Some(Tools::Ellipse),
    {
        Some(Tools::Ellipse)
    }

    pub fn kind_label(&self) -> (r: &'static str)
        ensures
            r == "Ellipse",
    {
        "Ellipse"
    }

    pub fn icon_name(&self) -> (r: &'static str)
        ensures
            r == "circle-regular",
    {
        "circle-regular"
    }

    pub fn panel_preview(&self) -> (r: PanelPreview)
        ensures
            r == (PanelPreview::Ellipse { filled: self.style.fill }),
    {
        PanelPreview::Ellipse { filled: self.style.fill }
    }

    /// The ellipse after a drag to the offset of `event`: Alt keeps it
    /// centered on its origin, Shift makes it a circle.
    pub open spec fn shaped(self, event: MouseEventMsg) -> Ellipse {
        let dx = event.pos.x as int;
        let dy = event.pos.y as int;
        let reach = max_spec(abs_spec(dx), abs_spec(dy));
        let (rx, ry) = if event.modifier.shift {
            let r = if event.modifier.alt {
                reach
            } else {
                reach / 2
            };
            (toward(dx, r), toward(dy, r))
        } else if event.modifier.alt {
            (dx, dy)
        } else {
            (dx / 2, dy / 2)
        };
        Ellipse {
            radii: Some(Vec2D { x: rx as i64, y: ry as i64 }),
            middle: if event.modifier.alt {
                self.origin
            } else {
                Vec2D { x: (self.origin.x + rx) as i64, y: (self.origin.y + ry) as i64 }
            },
            centered: event.modifier.alt,
            ..self
        }
    }

    fn calculate_shape(&mut self, event: &MouseEventMsg)
        requires
            point_in(old(self).origin),
            point_in(event.pos),
        ensures
            *final(self) == old(self).shaped(*event),
    {
        self.centered = event.modifier.alt;
        let reach: i64 = max_len(abs_len(event.pos.x), abs_len(event.pos.y));
        if event.modifier.alt && event.modifier.shift {
            self.middle = self.origin;
            self.radii = Some(
                Vec2D { x: signed(event.pos.x, reach), y: signed(event.pos.y, reach) },
            );
        } else if event.modifier.alt {
            self.middle = self.origin;
            self.radii = Some(event.pos);
        } else if event.modifier.shift {
            let max_size: i64 = half(reach);
            let rx: i64 = signed(event.pos.x, max_size);
            let ry: i64 = signed(event.pos.y, max_size);
            self.radii = Some(Vec2D { x: rx, y: ry });
            self.middle = Vec2D { x: self.origin.x + rx, y: self.origin.y + ry };
        } else {
            let rx: i64 = half(event.pos.x);
            let ry: i64 = half(event.pos.y);
            self.radii = Some(Vec2D { x: rx, y: ry });
            self.middle = Vec2D { x: self.origin.x + rx, y: self.origin.y + ry };
        }
    }

    /// The outline is part of the silhouette, it does not depend on the fill,
    /// and without a fill it is all that can be hit.
    pub proof fn lemma_outline_and_hit_agree(self, p: Vec2D, pad: int, other: Style)
        ensures
            self.on_outline_spec(p, pad) ==> self.inside_outer_spec(p, pad),
            self.on_outline_spec(p, pad) ==> self.hit_spec(p, pad),
            !self.style.fill ==> self.hit_spec(p, pad) == self.on_outline_spec(p, pad),
            (Ellipse { style: other, ..self }).on_outline_spec(p, pad) == self.on_outline_spec(
                p,
                pad,
            ),
    {
    }

    /// Every point of the curve is on the outline.
    pub proof fn lemma_curve_is_outline(self, p: Vec2D, pad: int)
        requires
            self.radii is Some,
            self.radii->0.x != 0,
            self.radii->0.y != 0,
            pad > 0,
            ({
                let dx = p.x - self.middle.x;
                let dy = p.y - self.middle.y;
                let a = abs_spec(self.radii->0.x as int);
                let b = abs_spec(self.radii->0.y as int);
                (dx * dx) * (b * b) + (dy * dy) * (a * a) == (a * a) * (b * b)
            }),
        ensures
            self.on_outline_spec(p, pad),
    {
        let dx = p.x - self.middle.x;
        let dy = p.y - self.middle.y;
        let a = abs_spec(self.radii->0.x as int);
        let b = abs_spec(self.radii->0.y as int);
        assert(dx * dx >= 0 && dy * dy >= 0) by (nonlinear_arith);
        lemma_scaled_curve(dx * dx, dy * dy, a, b, a + pad, b + pad);
        if a - pad > 0 && b - pad > 0 {
            lemma_scaled_curve(dx * dx, dy * dy, a, b, a - pad, b - pad);
        }
    }

    /// The middle of a large enough ellipse is not on its outline.
    pub proof fn lemma_middle_is_not_outline(self, pad: int)
        requires
            self.radii is Some,
            pad >= 0,
            abs_spec(self.radii->0.x as int) > pad,
            abs_spec(self.radii->0.y as int) > pad,
        ensures
            !self.on_outline_spec(self.middle, pad),
    {
        let a = abs_spec(self.radii->0.x as int) - pad;
        let b = abs_spec(self.radii->0.y as int) - pad;
        assert((0int * 0) * (b * b) + (0int * 0) * (a * a) <= (a * a) * (b * b)) by (nonlinear_arith);
    }
}

/// A point on the ellipse with the radii `a` and `b` lies inside a larger one
/// and outside a smaller one.
proof fn lemma_scaled_curve(x2: int, y2: int, a: int, b: int, c: int, d: int)
    requires
        x2 >= 0,
        y2 >= 0,
        a > 0,
        b > 0,
        c > 0,
        d > 0,
        x2 * (b * b) + y2 * (a * a) == (a * a) * (b * b),
    ensures
        c >= a && d >= b ==> x2 * (d * d) + y2 * (c * c) <= (c * c) * (d * d),
        c < a && d < b ==> x2 * (d * d) + y2 * (c * c) > (c * c) * (d * d),
{
    let a2 = a * a;
    let b2 = b * b;
    let c2 = c * c;
    let d2 = d * d;
    let x = x2 * b2;
    let y = y2 * a2;
    assert(a2 > 0 && b2 > 0 && c2 > 0 && d2 > 0 && x >= 0 && y >= 0) by (nonlinear_arith)
        requires
            a2 == a * a,
            b2 == b * b,
            c2 == c * c,
            d2 == d * d,
            a > 0,
            b > 0,
            c > 0,
            d > 0,
            x == x2 * b2,
            y == y2 * a2,
            x2 >= 0,
            y2 >= 0,
    ;
    let left = x2 * d2 + y2 * c2;
    let right = c2 * d2;
    assert(left * (a2 * b2) == (x2 * d2) * (a2 * b2) + (y2 * c2) * (a2 * b2)) by (nonlinear_arith)
        requires
            left == x2 * d2 + y2 * c2,
    ;
    assert((x2 * d2) * (a2 * b2) == (x2 * b2) * (a2 * d2)) by (nonlinear_arith);
    assert((y2 * c2) * (a2 * b2) == (y2 * a2) * (b2 * c2)) by (nonlinear_arith);
    assert(right * (a2 * b2) == x * (c2 * d2) + y * (c2 * d2)) by (nonlinear_arith)
        requires
            right == c2 * d2,
            x + y == a2 * b2,
    ;
    assert(a2 * b2 > 0) by (nonlinear_arith)
        requires
            a2 > 0,
            b2 > 0,
    ;
    if c >= a && d >= b {
        assert(c2 >= a2 && d2 >= b2) by (nonlinear_arith)
            requires
                a2 == a * a,
                b2 == b * b,
                c2 == c * c,
                d2 == d * d,
                c >= a > 0,
                d >= b > 0,
        ;
        assert(x * (a2 * d2) <= x * (c2 * d2)) by (nonlinear_arith)
            requires
                x >= 0,
                d2 > 0,
                c2 >= a2,
        ;
        assert(y * (b2 * c2) <= y * (c2 * d2)) by (nonlinear_arith)
            requires
                y >= 0,
                c2 > 0,
                d2 >= b2,
        ;
        assert(left <= right) by (nonlinear_arith)
            requires
                left * (a2 * b2) <= right * (a2 * b2),
                a2 * b2 > 0,
        ;
    }
    if c < a && d < b {
        assert(c2 < a2 && d2 < b2) by (nonlinear_arith)
            requires
                a2 == a * a,
                b2 == b * b,
                c2 == c * c,
                d2 == d * d,
                0 < c < a,
                0 < d < b,
        ;
        assert(x * (a2 * d2) >= x * (c2 * d2)) by (nonlinear_arith)
            requires
                x >= 0,
                d2 > 0,
                c2 < a2,
        ;
        assert(y * (b2 * c2) >= y * (c2 * d2)) by (nonlinear_arith)
            requires
                y >= 0,
                c2 > 0,
                d2 < b2,
        ;
        if x > 0 {
            assert(x * (a2 * d2) > x * (c2 * d2)) by (nonlinear_arith)
                requires
                    x > 0,
                    d2 > 0,
                    c2 < a2,
            ;
        } else {
            assert(y * (b2 * c2) > y * (c2 * d2)) by (nonlinear_arith)
                requires
                    y > 0,
                    c2 > 0,
                    d2 < b2,
            ;
        }
        assert(left > right) by (nonlinear_arith)
            requires
                left * (a2 * b2) > right * (a2 * b2),
                a2 * b2 > 0,
        ;
    }
}

/// `m` with the sign of `v`; zero counts as positive.
pub open spec fn toward(v: int, m: int) -> int {
    if v >= 0 {
        m
    } else {
        -m
    }
}

/// `m` with the sign of `v`.
fn signed(v: i64, m: i64) -> (r: i64)
    requires
        m > i64::MIN,
    ensures
        r == toward(v as int, m as int),
{
    if v >= 0 {
        m
    } else {
        -m
    }
}

/// Draws ellipses.
#[derive(Clone, Copy, Debug, PartialEq, Eq, Structural)]
pub struct EllipseTool {
    pub ellipse: Option<Ellipse>,
    pub style: Style,
    pub input_enabled: bool,
}

impl EllipseTool {
    /// The ellipse being drawn started at a point that came from outside.
    pub open spec fn ok(&self) -> bool {
        self.ellipse matches Some(e) ==> point_in(e.origin)
    }

    /// What a pointer event makes of the tool, and what it asks for.
    pub open spec fn mouse_step(self, event: MouseEventMsg) -> (
        EllipseTool,
        ToolUpdateResult<Ellipse>,
    ) {
        let still = event.pos == (Vec2D { x: 0, y: 0 });
        if event.button == MouseButton::Middle {
            (self, ToolUpdateResult::Unmodified)
        } else {
            match (event.type_, self.ellipse) {
                (MouseEventType::BeginDrag, _) => (
                    EllipseTool {
                        ellipse: Some(
                            Ellipse {
                                origin: event.pos,
                                middle: event.pos,
                                radii: None,
                                style: self.style,
                                centered: true,
                                finishing: false,
                            },
                        ),
                        ..self
                    },
                    ToolUpdateResult::Redraw,
                ),
                (MouseEventType::UpdateDrag, Some(e)) => if still {
                    (self, ToolUpdateResult::Unmodified)
                } else {
                    (
                        EllipseTool { ellipse: Some(e.shaped(event)), ..self },
                        ToolUpdateResult::Redraw,
                    )
                },
                (MouseEventType::EndDrag, Some(e)) => (
                    EllipseTool { ellipse: None, ..self },
                    if still {
                        ToolUpdateResult::Redraw
                    } else {
                        ToolUpdateResult::Commit(
                            Ellipse { finishing: true, ..e.shaped(event) },
                        )
                    },
                ),
                _ => (self, ToolUpdateResult::Unmodified),
            }
        }
    }

    pub fn handle_mouse_event(&mut self, event: MouseEventMsg) -> (r: ToolUpdateResult<Ellipse>)
        requires
            old(self).ok(),
            point_in(event.pos),
        ensures
            (*final(self), r) == old(self).mouse_step(event),
            final(self).ok(),
    {
        if event.button == MouseButton::Middle {
            return ToolUpdateResult::Unmodified;
        }
        match event.type_ {
            MouseEventType::BeginDrag => {
                self.ellipse = Some(
                    Ellipse {
                        origin: event.pos,
                        middle: event.pos,
                        radii: None,
                        style: self.style,
                        centered: true,
                        finishing: false,
                    },
                );
                ToolUpdateResult::Redraw
            },
            MouseEventType::EndDrag => {
                if let Some(e) = self.ellipse {
                    let mut ellipse: Ellipse = e;
                    ellipse.finishing = true;
                    self.ellipse = None;
                    if event.pos == Vec2D::zero() {
                        ToolUpdateResult::Redraw
                    } else {
                        ellipse.calculate_shape(&event);
                        ToolUpdateResult::Commit(ellipse)
                    }
                } else {
                    ToolUpdateResult::Unmodified
                }
            },
            MouseEventType::UpdateDrag => {
                if let Some(e) = self.ellipse {
                    if event.pos == Vec2D::zero() {
                        return ToolUpdateResult::Unmodified;
                    }
                    let mut ellipse: Ellipse = e;
                    ellipse.calculate_shape(&event);
                    self.ellipse = Some(ellipse);
                    ToolUpdateResult::Redraw
                } else {
                    ToolUpdateResult::Unmodified
                }
            },
            _ => ToolUpdateResult::Unmodified,
        }
    }

    /// Escape drops the ellipse being drawn.
    pub fn handle_key_event(&mut self, event: KeyEventMsg) -> (r: ToolUpdateResult<Ellipse>)
        ensures
            event.key.0 == KEY_ESCAPE && old(self).ellipse is Some ==> r == ToolUpdateResult::<
                Ellipse,
            >::Redraw && *final(self) == (EllipseTool { ellipse: None, ..*old(self) }),
            !(event.key.0 == KEY_ESCAPE && old(self).ellipse is Some) ==> r == ToolUpdateResult::<
                Ellipse,
            >::Unmodified && *final(self) == *old(self),
    {
        if event.key.0 == KEY_ESCAPE && self.ellipse.is_some() {
            self.ellipse = None;
            ToolUpdateResult::Redraw
        } else {
            ToolUpdateResult::Unmodified
        }
    }

    /// New ellipses get `style`.
    pub fn handle_style_event(&mut self, style: Style) -> (r: ToolUpdateResult<Ellipse>)
        ensures
            *final(self) == (EllipseTool { style, ..*old(self) }),
            r == ToolUpdateResult::<Ellipse>::Unmodified,
    {
        self.style = style;
        ToolUpdateResult::Unmodified
    }

    pub fn get_drawable(&self) -> (r: Option<Ellipse>)
        ensures
            r == self.ellipse,
    {
        self.ellipse
    }

    pub fn get_tool_type(&self) -> (r: Tools)
        ensures
            r == Tools::Ellipse,
    {
        Tools::Ellipse
    }

    pub fn input_enabled(&self) -> (r: bool)
        ensures
            r == self.input_enabled,
    {
        self.input_enabled
    }

    pub fn set_input_enabled(&mut self, value: bool)
        ensures
            *final(self) == (EllipseTool { input_enabled: value, ..*old(self) }),
    {
        self.input_enabled = value;
    }
}

} // verus!
