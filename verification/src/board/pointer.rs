//! The pointer over the canvas: which cursor it has, and what the canvas
//! does with a mouse event that no tool took.
use vstd::prelude::*;
use crate::board::messages::InputEvent;
use crate::board::{BoardConfig, Effect, SketchBoard};
use crate::input::{MouseButton, MouseEventMsg, MouseEventType};
use crate::math::{dist2, dist2_spec, Rect, Vec2D};
use crate::text_bands::{TextBand, BAND_PAD_PER_SIDE};
use crate::tools::crop::{CropHandle, CropHit};
use crate::tools::highlight::HighlighterStyle;
use crate::tools::{Handle, HandleId, Tools};
use crate::units::{div_round_spec, mul_div, MICRO};

verus! {

/// How far one notch of the wheel pans the view, in pixels.
pub const SCROLL_PAN_PIXELS: i64 = 48;

/// The shape of the cursor over a handle.
pub open spec fn handle_cursor(h: HandleId) -> &'static str {
    match h {
        HandleId::Start | HandleId::End | HandleId::Control => "move",
        HandleId::TopLeft | HandleId::BottomRight => "nwse-resize",
        HandleId::TopRight | HandleId::BottomLeft => "nesw-resize",
        HandleId::Top | HandleId::Bottom => "ns-resize",
        HandleId::Left | HandleId::Right => "ew-resize",
    }
}

/// The shape of the cursor over a handle.
pub fn cursor_for_handle(handle: HandleId) -> (r: &'static str)
    ensures
        r == handle_cursor(handle),
{
    match handle {
        HandleId::Start | HandleId::End | HandleId::Control => "move",
        HandleId::TopLeft | HandleId::BottomRight => "nwse-resize",
        HandleId::TopRight | HandleId::BottomLeft => "nesw-resize",
        HandleId::Top | HandleId::Bottom => "ns-resize",
        HandleId::Left | HandleId::Right => "ew-resize",
    }
}

/// The shape of the cursor over a handle of the crop.
pub open spec fn crop_cursor(h: CropHandle) -> &'static str {
    match h {
        CropHandle::TopLeftCorner | CropHandle::BottomRightCorner => "nwse-resize",
        CropHandle::TopRightCorner | CropHandle::BottomLeftCorner => "nesw-resize",
        CropHandle::TopEdge | CropHandle::BottomEdge => "ns-resize",
        CropHandle::LeftEdge | CropHandle::RightEdge => "ew-resize",
    }
}

/// A point is on a handle.
pub open spec fn on_handle(h: Handle, p: Vec2D) -> bool {
    h.hit_radius >= 0 && dist2_spec(h.pos, p) <= h.hit_radius * h.hit_radius
}

/// The first handle that a point is on.
pub open spec fn handle_at(handles: Seq<Handle>, p: Vec2D) -> Option<HandleId>
    decreases handles.len(),
{
    if handles.len() == 0 {
        None
    } else if on_handle(handles[0], p) {
        Some(handles[0].id)
    } else {
        handle_at(handles.drop_first(), p)
    }
}

/// All handles are in range.
pub open spec fn handles_ok(handles: Seq<Handle>) -> bool {
    forall|i: int|
        0 <= i < handles.len() ==> (#[trigger] handles[i]).pos.ok() && handles[i].hit_radius
            <= 0x100_0000_0000_0000
}

fn find_handle(handles: &Vec<Handle>, p: Vec2D) -> (r: Option<HandleId>)
    requires
        handles_ok(handles@),
        p.ok(),
    ensures
        r == handle_at(handles@, p),
{
    let mut i: usize = 0;
    assert(handles@.skip(0) =~= handles@);
    while i < handles.len()
        invariant
            handles_ok(handles@),
            p.ok(),
            i <= handles@.len(),
            handle_at(handles@, p) == handle_at(handles@.skip(i as int), p),
        decreases handles.len() - i,
    {
        let h: Handle = handles[i];
        let ghost rest = handles@.skip(i as int);
        proof {
            assert(rest[0] == handles@[i as int]);
            assert(handles@[i as int].pos.ok());
            assert(rest.drop_first() =~= handles@.skip(i + 1));
            if h.hit_radius >= 0 {
                assert(0 <= h.hit_radius * h.hit_radius <= 0x100_0000_0000_0000int
                    * 0x100_0000_0000_0000) by (nonlinear_arith)
                    requires
                        0 <= h.hit_radius <= 0x100_0000_0000_0000,
                ;
            }
        }
        if h.hit_radius >= 0 && dist2(h.pos, p) <= h.hit_radius as i128 * h.hit_radius as i128 {
            return Some(h.id);
        }
        i = i + 1;
    }
    None
}

/// What is known about the place that the pointer is over.
#[derive(Debug)]
pub struct Hover {
    /// The place, on the image.
    pub pos: Vec2D,
    /// A drawable is being dragged.
    pub dragging: bool,
    /// A drawable is being resized.
    pub resizing: bool,
    /// The scale that the image is shown at, in millionths.
    pub render_scale: i64,
    /// The handles of the only selected drawable.
    pub selected_handles: Vec<Handle>,
    /// The handles, and the body, of what the active tool is editing.
    pub editing_handles: Vec<Handle>,
    pub editing_body: Option<Rect>,
    /// A drawable is under the pointer, made by this tool.
    pub hit: Option<Option<Tools>>,
}

impl Hover {
    /// Everything is in range.
    pub open spec fn ok(&self) -> bool {
        &&& self.pos.ok()
        &&& handles_ok(self.selected_handles@)
        &&& handles_ok(self.editing_handles@)
        &&& self.editing_body matches Some(b) ==> b.ok()
    }
}

/// The cursor over a place.
#[derive(Clone, Copy, Debug, PartialEq, Eq)]
pub enum Cursor {
    /// As it is.
    Unchanged,
    /// None at all.
    Hidden,
    Named(&'static str),
    /// That of the active tool.
    Drawing,
}

impl SketchBoard {
    /// The cursor over the crop that is being edited.
    pub open spec fn crop_hover(&self, h: Hover) -> Option<&'static str> {
        match self.crop_tool.crop {
            Some(c) if self.active_tool == Tools::Crop && !c.committed => match c.hit_kind_spec(
                h.pos,
                h.render_scale as int,
            ) {
                Some(CropHit::Handle(handle)) => Some(crop_cursor(handle)),
                Some(CropHit::Body) => Some("grab"),
                None => None,
            },
            _ => None,
        }
    }

    /// The cursor over a drawable that can be picked up.
    pub open spec fn hit_hover(&self, h: Hover, config: BoardConfig) -> Option<&'static str> {
        match h.hit {
            None => None,
            Some(made_by) => if self.active_tool == Tools::Pointer || made_by == Some(
                self.active_tool,
            ) {
                Some("grab")
            } else if config.select_any_annotation {
                Some("pointer")
            } else {
                None
            },
        }
    }

    /// The cursor over a place.
    pub open spec fn hover_spec(&self, h: Hover, config: BoardConfig) -> Cursor {
        if h.dragging {
            if h.resizing {
                Cursor::Hidden
            } else {
                Cursor::Unchanged
            }
        } else if self.crop_hover(h) is Some {
            Cursor::Named(self.crop_hover(h)->0)
        } else if handle_at(h.selected_handles@, h.pos) is Some {
            Cursor::Named(handle_cursor(handle_at(h.selected_handles@, h.pos)->0))
        } else if handle_at(h.editing_handles@, h.pos) is Some {
            Cursor::Named(handle_cursor(handle_at(h.editing_handles@, h.pos)->0))
        } else if h.editing_body is Some && h.editing_body->0.contains_spec(h.pos) {
            Cursor::Named("text")
        } else if self.hit_hover(h, config) is Some {
            Cursor::Named(self.hit_hover(h, config)->0)
        } else {
            Cursor::Drawing
        }
    }

    fn find_crop_hover(&self, h: &Hover) -> (r: Option<&'static str>)
        requires
            self.wf(),
            h.ok(),
        ensures
            r == self.crop_hover(*h),
    {
        if self.active_tool != Tools::Crop {
            return None;
        }
        let Some(c) = self.crop_tool.crop else {
            return None;
        };
        if c.is_committed() {
            return None;
        }
        match c.hit_kind(h.pos, h.render_scale) {
            Some(CropHit::Handle(handle)) => Some(handle.resize_cursor()),
            Some(CropHit::Body) => Some("grab"),
            None => None,
        }
    }

    /// The pointer moved, or a drag ended: remembers the place, and says which
    /// cursor it has.
    pub fn update_hover_cursor(&mut self, h: &Hover, config: &BoardConfig) -> (r: Cursor)
        requires
            old(self).wf(),
            h.ok(),
        ensures
            final(self).wf(),
            *final(self) == (SketchBoard { last_hover_image_pos: Some(h.pos), ..*old(self) }),
            r == old(self).hover_spec(*h, *config),
    {
        self.last_hover_image_pos = Some(h.pos);
        if h.dragging {
            if h.resizing {
                return Cursor::Hidden;
            }
            return Cursor::Unchanged;
        }
        if let Some(name) = self.find_crop_hover(h) {
            return Cursor::Named(name);
        }
        if let Some(id) = find_handle(&h.selected_handles, h.pos) {
            return Cursor::Named(cursor_for_handle(id));
        }
        if let Some(id) = find_handle(&h.editing_handles, h.pos) {
            return Cursor::Named(cursor_for_handle(id));
        }
        if let Some(body) = h.editing_body {
            if body.contains(h.pos) {
                return Cursor::Named("text");
            }
        }
        if let Some(made_by) = h.hit {
            if self.active_tool == Tools::Pointer || made_by == Some(self.active_tool) {
                return Cursor::Named("grab");
            }
            if config.select_any_annotation {
                return Cursor::Named("pointer");
            }
        }
        Cursor::Drawing
    }

    /// The cursor of the active tool, where it has none of its own.
    pub fn idle_cursor_for_active_tool(&self) -> (r: Option<&'static str>)
        ensures
            r == if self.active_tool == Tools::Pointer || self.active_tool == Tools::Crop {
                None::<&'static str>
            } else {
                Some("crosshair")
            },
    {
        match self.active_tool {
            Tools::Pointer | Tools::Crop => None,
            _ => Some("crosshair"),
        }
    }
}

/// Which line of text the cursor of the highlighter is as high as.
#[derive(Clone, Copy, Debug, PartialEq, Eq, Structural)]
pub enum BandWanted {
    Nothing,
    /// The line that the stroke follows.
    Known(TextBand),
    /// The line under the pointer, to be looked for.
    Detect,
}

impl SketchBoard {
    /// Which line of text the cursor is as high as. `locked` is the line that
    /// a stroke follows.
    pub fn wanted_band(&self, locked: Option<TextBand>) -> (r: BandWanted)
        ensures
            r == if self.active_tool != Tools::Highlighter {
                BandWanted::Nothing
            } else {
                match locked {
                    Some(b) => BandWanted::Known(b),
                    None => if self.highlighter_style == HighlighterStyle::TextLocked {
                        BandWanted::Detect
                    } else {
                        BandWanted::Nothing
                    },
                }
            },
    {
        if self.active_tool != Tools::Highlighter {
            return BandWanted::Nothing;
        }
        match locked {
            Some(b) => BandWanted::Known(b),
            None => {
                if self.highlighter_style == HighlighterStyle::TextLocked {
                    BandWanted::Detect
                } else {
                    BandWanted::Nothing
                }
            },
        }
    }
}

/// Height of a cursor for a line of text, with the padding on both sides, and
/// how far its middle lies below the pointer.
pub open spec fn band_cursor_spec(band: TextBand, y: int) -> (int, int) {
    let h = band.y_end - band.y_start;
    (
        h + div_round_spec(h * (2 * BAND_PAD_PER_SIDE), MICRO as int),
        (band.y_start + band.y_end) / 2 - y,
    )
}

/// Height of a cursor for a line of text, and how far its middle lies below
/// the pointer at height `y`.
pub fn band_cursor(band: &TextBand, y: i64) -> (r: (i64, i64))
    requires
        band.wf(),
        -0x1000_0000_0000_0000 <= y <= 0x1000_0000_0000_0000,
    ensures
        (r.0 as int, r.1 as int) == band_cursor_spec(*band, y as int),
{
    let h: i64 = band.height();
    proof {
        crate::units::lemma_div_round_near(h * (2 * BAND_PAD_PER_SIDE), MICRO as int);
    }
    let pad: i64 = mul_div(h, 2 * BAND_PAD_PER_SIDE, MICRO);
    (h + pad, band.center_y() - y)
}

/// What the place of a mouse event has to be converted from.
#[derive(Clone, Copy, Debug, PartialEq, Eq, Structural)]
pub enum PlaceKind {
    /// A point on the canvas.
    Point,
    /// An offset on the canvas.
    Offset,
    /// Nothing.
    AsIs,
}

/// What the place of a mouse event is, before the tools see it.
pub fn place_kind(event: MouseEventType) -> (r: PlaceKind)
    ensures
        r == match event {
            MouseEventType::Click | MouseEventType::Release | MouseEventType::BeginDrag => {
                PlaceKind::Point
            },
            MouseEventType::EndDrag | MouseEventType::UpdateDrag => PlaceKind::Offset,
            _ => PlaceKind::AsIs,
        },
{
    match event {
        MouseEventType::Click | MouseEventType::Release | MouseEventType::BeginDrag => {
            PlaceKind::Point
        },
        MouseEventType::EndDrag | MouseEventType::UpdateDrag => PlaceKind::Offset,
        _ => PlaceKind::AsIs,
    }
}

/// What the canvas does with a mouse event that no tool took.
pub open spec fn canvas_effects(me: MouseEventMsg) -> Seq<Effect> {
    match me.type_ {
        MouseEventType::Click => if me.button == MouseButton::Secondary {
            seq![Effect::RenderOnRightClick]
        } else {
            Seq::empty()
        },
        MouseEventType::UpdateDrag => if me.button == MouseButton::Middle {
            seq![Effect::PanBy(me.pos), Effect::PanDragging(true), Effect::Render(None)]
        } else {
            Seq::empty()
        },
        MouseEventType::EndDrag => if me.button == MouseButton::Middle {
            seq![
                Effect::PanBy(me.pos),
                Effect::PanDragging(true),
                Effect::StorePan,
                Effect::PanDragging(false),
                Effect::Render(None),
            ]
        } else {
            Seq::empty()
        },
        MouseEventType::PanScroll => seq![
            Effect::PanByPixels(
                Vec2D {
                    x: (me.pos.x * SCROLL_PAN_PIXELS) as i64,
                    y: (me.pos.y * SCROLL_PAN_PIXELS) as i64,
                },
            ),
        ],
        MouseEventType::PointerPos => seq![Effect::PointerAt(me.pos)],
        _ => Seq::empty(),
    }
}

/// What the canvas does with a mouse event that no tool took. Returns whether
/// the canvas has to be drawn again.
pub fn handle_mouse_event(me: &MouseEventMsg, out: &mut Vec<Effect>) -> (r: bool)
    requires
        me.pos.ok(),
    ensures
        final(out)@ == old(out)@ + canvas_effects(*me),
        r == (me.type_ == MouseEventType::PanScroll),
{
    match me.type_ {
        MouseEventType::Click => {
            if me.button == MouseButton::Secondary {
                out.push(Effect::RenderOnRightClick);
            }
        },
        MouseEventType::UpdateDrag | MouseEventType::EndDrag => {
            if me.button == MouseButton::Middle {
                out.push(Effect::PanBy(me.pos));
                out.push(Effect::PanDragging(true));
                if me.type_ == MouseEventType::EndDrag {
                    out.push(Effect::StorePan);
                    out.push(Effect::PanDragging(false));
                }
                out.push(Effect::Render(None));
            }
        },
        MouseEventType::PanScroll => {
            let d: Vec2D = Vec2D::new(
                me.pos.x * SCROLL_PAN_PIXELS,
                me.pos.y * SCROLL_PAN_PIXELS,
            );
            out.push(Effect::PanByPixels(d));
        },
        MouseEventType::PointerPos => out.push(Effect::PointerAt(me.pos)),
        _ => {},
    }
    assert(out@ =~= old(out)@ + canvas_effects(*me));
    match me.type_ {
        MouseEventType::PanScroll => true,
        _ => false,
    }
}

/// A press inside what the active tool is editing is for that tool alone; the
/// pointer tool is not asked first.
pub open spec fn in_editing_body(me: MouseEventMsg, body: Option<Rect>) -> bool {
    &&& me.type_ == MouseEventType::Click || me.type_ == MouseEventType::BeginDrag
    &&& body matches Some(b) && b.contains_spec(me.pos)
}

impl SketchBoard {
    /// The pointer tool is asked before the active tool. `body` is what the
    /// active tool is editing.
    pub fn pointer_goes_first(&self, event: &InputEvent, body: Option<Rect>) -> (r: bool)
        requires
            body matches Some(b) ==> b.ok(),
            event matches InputEvent::Mouse(me) ==> me.pos.ok(),
        ensures
            r == (self.active_tool != Tools::Pointer && !(match *event {
                InputEvent::Mouse(me) => in_editing_body(me, body),
                _ => false,
            })),
    {
        if self.active_tool == Tools::Pointer {
            return false;
        }
        match event {
            InputEvent::Mouse(me) => {
                let press: bool = match me.type_ {
                    MouseEventType::Click | MouseEventType::BeginDrag => true,
                    _ => false,
                };
                if !press {
                    return true;
                }
                match body {
                    Some(b) => !b.contains(me.pos),
                    None => true,
                }
            },
            _ => true,
        }
    }
}

} // verus!
