//! Straight lines.
use vstd::prelude::*;
use crate::input::{KeyEventMsg, MouseButton, MouseEventMsg, MouseEventType, KEY_ESCAPE};
use crate::math::{near_segment, near_segment_spec, Rect, Vec2D};
use crate::style::Style;
use crate::tools::{
    CanvasTransform, Handle, HandleId, HandleKind, PanelPreview, ToolUpdateResult, Tools,
};
use crate::units::{coord_ok, half, input_ok, max_spec, min_spec};

verus! {

/// A line from `start` along `direction`; without a direction it is not there
/// yet.
#[derive(Clone, Copy, Debug, PartialEq, Eq, Structural)]
pub struct Line {
    pub start: Vec2D,
    pub direction: Option<Vec2D>,
    pub style: Style,
}

impl Line {
    /// Both ends are coordinates that came from outside.
    pub open spec fn ok(&self) -> bool {
        &&& input_ok(self.start.x as int) && input_ok(self.start.y as int)
        &&& self.direction matches Some(d) ==> input_ok(d.x as int) && input_ok(d.y as int)
    }

    pub fn kind_label(&self) -> (r: &'static str)
        ensures
            r == "Line",
    {
        "Line"
    }

    pub fn icon_name(&self) -> (r: &'static str)
        ensures
            r == "minus-large",
    {
        "minus-large"
    }

    pub fn panel_preview(&self) -> (r: PanelPreview)
        ensures
            r == PanelPreview::Line,
    {
        PanelPreview::Line
    }

    pub fn tool_type(&self) -> (r: Option<Tools>)
        ensures
            r == Some(Tools::Line),
    {
        Some(Tools::Line)
    }

    pub fn style(&self) -> (r: Option<Style>)
        ensures
            r == Some(self.style),
    {
        Some(self.style)
    }

    pub fn set_style(&mut self, style: Style)
        ensures
            *final(self) == (Line { style, ..*old(self) }),
    {
        self.style = style;
    }

    /// The box around the line as drawn `stroke` wide.
    pub fn bounds(&self, stroke: i64) -> (r: Option<Rect>)
        requires
            self.ok(),
            input_ok(stroke as int),
        ensures
            r is Some == self.direction is Some,
            r matches Some(b) ==> {
                let d = self.direction->0;
                let pad = stroke as int / 2;
                &&& b.pos.x == min_spec(self.start.x as int, self.start.x + d.x) - pad
                &&& b.pos.y == min_spec(self.start.y as int, self.start.y + d.y) - pad
                &&& b.right() == max_spec(self.start.x as int, self.start.x + d.x) + pad
                &&& b.bottom() == max_spec(self.start.y as int, self.start.y + d.y) + pad
            },
    {
        match self.direction {
            Some(dir) => Some(
                Rect::from_corners(self.start, self.start.plus(dir)).inflated(half(stroke)),
            ),
            None => None,
        }
    }

    /// Whether `point` is on the line as drawn `stroke` wide, give or take
    /// `tolerance`.
    pub fn hit_test(&self, point: Vec2D, tolerance: i64, stroke: i64) -> (r: bool)
        requires
            self.ok(),
            point.ok(),
            input_ok(stroke as int),
            input_ok(tolerance as int),
        ensures
            r == match self.direction {
                Some(d) => near_segment_spec(
                    point,
                    self.start,
                    Vec2D { x: (self.start.x + d.x) as i64, y: (self.start.y + d.y) as i64 },
                    stroke as int / 2 + tolerance,
                ),
                None => false,
            },
    {
        match self.direction {
            Some(dir) => near_segment(
                point,
                self.start,
                self.start.plus(dir),
                half(stroke) + tolerance,
            ),
            None => false,
        }
    }

    /// Moves the line; its direction is an offset and stays.
    pub fn translate(&mut self, delta: Vec2D)
        requires
            i64::MIN <= old(self).start.x + delta.x <= i64::MAX,
            i64::MIN <= old(self).start.y + delta.y <= i64::MAX,
        ensures
            final(self).start.x == old(self).start.x + delta.x,
            final(self).start.y == old(self).start.y + delta.y,
            final(self).direction == old(self).direction,
            final(self).style == old(self).style,
    {
        self.start = self.start.plus(delta);
    }

    /// Moves the line along with a transform of the whole `w` by `h` canvas.
    pub fn apply_canvas_transform(&mut self, t: CanvasTransform, w: i64, h: i64)
        requires
            old(self).ok(),
            t.wf(),
            coord_ok(w as int),
            coord_ok(h as int),
            t.fits(old(self).start.x as int, old(self).start.y as int),
            old(self).direction matches Some(d) ==> t.fits(d.x as int, d.y as int),
        ensures
            final(self).style == old(self).style,
            final(self).start.x == t.map_x(
                old(self).start.x as int,
                old(self).start.y as int,
                w as int,
                h as int,
            ),
            final(self).start.y == t.map_y(
                old(self).start.x as int,
                old(self).start.y as int,
                w as int,
                h as int,
            ),
            match (old(self).direction, final(self).direction) {
                (Some(d), Some(e)) => e.x == t.map_x(d.x as int, d.y as int, 0, 0) && e.y == t.map_y(
                    d.x as int,
                    d.y as int,
                    0,
                    0,
                ),
                (None, None) => true,
                _ => false,
            },
    {
        if let Some(dir) = self.direction {
            self.direction = Some(t.map_offset(dir));
        }
        self.start = t.map_point(self.start, w, h);
    }

    /// One handle at each end.
    pub fn handles(&self, hit_radius: i64) -> (r: Vec<Handle>)
        requires
            self.ok(),
        ensures
            self.direction is None ==> r@.len() == 0,
            self.direction matches Some(d) ==> {
                &&& r@.len() == 2
                &&& r@[0] == (Handle {
                    id: HandleId::Start,
                    pos: self.start,
                    hit_radius,
                    kind: HandleKind::Round,
                })
                &&& r@[1].id == HandleId::End
                &&& r@[1].pos.x == self.start.x + d.x
                &&& r@[1].pos.y == self.start.y + d.y
                &&& r@[1].hit_radius == hit_radius
                &&& r@[1].kind == HandleKind::Round
            },
    {
        match self.direction {
            Some(dir) => vec![
                Handle::new(HandleId::Start, self.start, hit_radius),
                Handle::new(HandleId::End, self.start.plus(dir), hit_radius),
            ],
            None => Vec::new(),
        }
    }

    /// Moves one end to `to`; the other end stays where it is.
    pub fn move_handle(&mut self, handle: HandleId, to: Vec2D)
        requires
            old(self).ok(),
            to.ok(),
        ensures
            final(self).style == old(self).style,
            old(self).direction matches Some(d) ==> {
                &&& final(self).direction matches Some(e)
                &&& handle == HandleId::Start ==> {
                    &&& final(self).start == to
                    &&& to.x + e.x == old(self).start.x + d.x
                    &&& to.y + e.y == old(self).start.y + d.y
                }
                &&& handle == HandleId::End ==> {
                    &&& final(self).start == old(self).start
                    &&& old(self).start.x + e.x == to.x
                    &&& old(self).start.y + e.y == to.y
                }
            },
            old(self).direction is None || !(handle == HandleId::Start || handle == HandleId::End)
                ==> *final(self) == *old(self),
    {
        let Some(dir) = self.direction else {
            return ;
        };
        let cur_end: Vec2D = self.start.plus(dir);
        match handle {
            HandleId::Start => {
                self.start = to;
                self.direction = Some(cur_end.minus(to));
            },
            HandleId::End => {
                self.direction = Some(to.minus(self.start));
            },
            _ => {},
        }
    }
}

/// Draws lines.
#[derive(Clone, Copy, Debug, PartialEq, Eq, Structural)]
pub struct LineTool {
    pub line: Option<Line>,
    pub style: Style,
    pub input_enabled: bool,
}

impl LineTool {
    /// The offset that a drag event counts as: with Shift held the one
    /// snapped to a multiple of 15 degrees.
    pub open spec fn drag_offset(event: MouseEventMsg, snapped: Vec2D) -> Vec2D {
        if event.modifier.shift {
            snapped
        } else {
            event.pos
        }
    }

    /// What a pointer event makes of the tool, and what it asks for.
    pub open spec fn mouse_step(self, event: MouseEventMsg, snapped: Vec2D) -> (
        LineTool,
        ToolUpdateResult<Line>,
    ) {
        if event.button == MouseButton::Middle {
            (self, ToolUpdateResult::Unmodified)
        } else {
            match (event.type_, self.line) {
                (MouseEventType::BeginDrag, _) => (
                    LineTool {
                        line: Some(Line { start: event.pos, direction: None, style: self.style }),
                        ..self
                    },
                    ToolUpdateResult::Redraw,
                ),
                (MouseEventType::UpdateDrag, Some(line)) => (
                    LineTool {
                        line: Some(
                            Line { direction: Some(Self::drag_offset(event, snapped)), ..line },
                        ),
                        ..self
                    },
                    ToolUpdateResult::Redraw,
                ),
                (MouseEventType::EndDrag, Some(line)) => (
                    LineTool { line: None, ..self },
                    if event.pos == (Vec2D { x: 0, y: 0 }) {
                        ToolUpdateResult::Redraw
                    } else {
                        ToolUpdateResult::Commit(
                            Line { direction: Some(Self::drag_offset(event, snapped)), ..line },
                        )
                    },
                ),
                _ => (self, ToolUpdateResult::Unmodified),
            }
        }
    }

    /// Handles a pointer event. `snapped` is the offset of a drag event,
    /// turned to the nearest multiple of 15 degrees.
    pub fn handle_mouse_event(&mut self, event: MouseEventMsg, snapped: Vec2D) -> (r:
        ToolUpdateResult<Line>)
        ensures
            (*final(self), r) == old(self).mouse_step(event, snapped),
    {
        if event.button == MouseButton::Middle {
            return ToolUpdateResult::Unmodified;
        }
        let offset: Vec2D = if event.modifier.shift {
            snapped
        } else {
            event.pos
        };
        match event.type_ {
            MouseEventType::BeginDrag => {
                self.line = Some(Line { start: event.pos, direction: None, style: self.style });
                ToolUpdateResult::Redraw
            },
            MouseEventType::EndDrag => {
                if let Some(line) = self.line {
                    self.line = None;
                    if event.pos == Vec2D::zero() {
                        ToolUpdateResult::Redraw
                    } else {
                        ToolUpdateResult::Commit(Line { direction: Some(offset), ..line })
                    }
                } else {
                    ToolUpdateResult::Unmodified
                }
            },
            MouseEventType::UpdateDrag => {
                if let Some(line) = self.line {
                    self.line = Some(Line { direction: Some(offset), ..line });
                    ToolUpdateResult::Redraw
                } else {
                    ToolUpdateResult::Unmodified
                }
            },
            _ => ToolUpdateResult::Unmodified,
        }
    }

    /// Escape drops the line being drawn.
    pub fn handle_key_event(&mut self, event: KeyEventMsg) -> (r: ToolUpdateResult<Line>)
        ensures
            event.key.0 == KEY_ESCAPE && old(self).line is Some ==> r == ToolUpdateResult::<Line>::Redraw
                && *final(self) == (LineTool { line: None, ..*old(self) }),
            !(event.key.0 == KEY_ESCAPE && old(self).line is Some) ==> r == ToolUpdateResult::<
                Line,
            >::Unmodified && *final(self) == *old(self),
    {
        if event.key.0 == KEY_ESCAPE && self.line.is_some() {
            self.line = None;
            ToolUpdateResult::Redraw
        } else {
            ToolUpdateResult::Unmodified
        }
    }

    /// New lines get `style`.
    pub fn handle_style_event(&mut self, style: Style) -> (r: ToolUpdateResult<Line>)
        ensures
            *final(self) == (LineTool { style, ..*old(self) }),
            r == ToolUpdateResult::<Line>::Unmodified,
    {
        self.style = style;
        ToolUpdateResult::Unmodified
    }

    pub fn get_drawable(&self) -> (r: Option<Line>)
        ensures
            r == self.line,
    {
        self.line
    }

    pub fn get_tool_type(&self) -> (r: Tools)
        ensures
            r == Tools::Line,
    {
        Tools::Line
    }

    pub fn input_enabled(&self) -> (r: bool)
        ensures
            r == self.input_enabled,
    {
        self.input_enabled
    }

    pub fn set_input_enabled(&mut self, value: bool)
        ensures
            *final(self) == (LineTool { input_enabled: value, ..*old(self) }),
    {
        self.input_enabled = value;
    }
}

} // verus!
