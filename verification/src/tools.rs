//! What the drawing tools share: identifiers, handles and the geometry of
//! resizing boxes and transforming the whole canvas.
use vstd::prelude::*;
use crate::math::{Rect, Vec2D};
use crate::style::{Color, Size, Style};
use crate::tools::arrow::ArrowStyle;
use crate::units::{
    abs_len, abs_spec, coord_ok, div_round_spec, lemma_div_round_near, lemma_mul_div_inverse,
    max_spec, min_spec, mul_div, mul_div_wide, COORD_MAX,
};

pub mod arrow;
pub mod blur;
pub mod crop;
pub mod ellipse;
pub mod highlight;
pub mod line;
pub mod marker;
pub mod marks;
pub mod pasted_image;

verus! {

/// What handling an event asks the board to do. `D` is the kind of drawable.
#[derive(Debug)]
pub enum ToolUpdateResult<D> {
    /// Put a new drawable on the stack.
    Commit(D),
    /// Replace a drawable, as one undo step.
    ModifyDrawable(DrawableId, D),
    /// Replace many drawables, as one undo step.
    ModifyDrawables(Vec<(DrawableId, D)>),
    /// Replace a drawable, merging with the previous undo step for it.
    ModifyDrawableCoalesce(DrawableId, D),
    /// Replace many drawables, merging with the previous undo step for them.
    ModifyDrawablesCoalesce(Vec<(DrawableId, D)>),
    /// Raise a drawable to the top, redraw, and stop.
    RaiseAndRedrawStop(DrawableId),
    /// Remove a drawable.
    DeleteDrawable(DrawableId),
    /// Remove many drawables, as one undo step.
    DeleteDrawables(Vec<DrawableId>),
    /// Switch to the text tool and edit this drawable.
    EditTextDrawable(DrawableId),
    Redraw,
    Unmodified,
    StopPropagation,
    RedrawAndStopPropagation,
}

/// The tools, in toolbar order.
#[derive(Clone, Copy, Debug, PartialEq, Eq, PartialOrd, Ord, Hash, Structural)]
pub enum Tools {
    Pointer,
    Crop,
    Line,
    Arrow,
    Rectangle,
    Ellipse,
    Text,
    Marker,
    Blur,
    Highlighter,
    Brush,
    Spotlight,
}

impl Tools {
    /// The number a tool is stored and transmitted as.
    pub open spec fn index_spec(&self) -> u32 {
        match self {
            Tools::Pointer => 0,
            Tools::Crop => 1,
            Tools::Line => 2,
            Tools::Arrow => 3,
            Tools::Rectangle => 4,
            Tools::Ellipse => 5,
            Tools::Text => 6,
            Tools::Marker => 7,
            Tools::Blur => 8,
            Tools::Highlighter => 9,
            Tools::Brush => 10,
            Tools::Spotlight => 11,
        }
    }

    /// Name shown to the user.
    pub open spec fn display_name_spec(&self) -> &'static str {
        match self {
            Tools::Pointer => "Pointer",
            Tools::Crop => "Crop",
            Tools::Brush => "Pen",
            Tools::Line => "Line",
            Tools::Arrow => "Arrow",
            Tools::Rectangle => "Rectangle",
            Tools::Ellipse => "Ellipse",
            Tools::Text => "Text",
            Tools::Marker => "Counter",
            Tools::Blur => "Blur",
            Tools::Highlighter => "Highlighter",
            Tools::Spotlight => "Spotlight",
        }
    }

    /// Name used in configuration files.
    pub open spec fn config_name_spec(&self) -> &'static str {
        match self {
            Tools::Pointer => "pointer",
            Tools::Crop => "crop",
            Tools::Line => "line",
            Tools::Arrow => "arrow",
            Tools::Rectangle => "rectangle",
            Tools::Ellipse => "ellipse",
            Tools::Text => "text",
            Tools::Marker => "marker",
            Tools::Blur => "blur",
            Tools::Highlighter => "highlighter",
            Tools::Brush => "brush",
            Tools::Spotlight => "spotlight",
        }
    }

    /// Name shown to the user.
    pub fn display_name(&self) -> (r: &'static str)
        ensures
            r == self.display_name_spec(),
    {
        match self {
            Tools::Pointer => "Pointer",
            Tools::Crop => "Crop",
            Tools::Brush => "Pen",
            Tools::Line => "Line",
            Tools::Arrow => "Arrow",
            Tools::Rectangle => "Rectangle",
            Tools::Ellipse => "Ellipse",
            Tools::Text => "Text",
            Tools::Marker => "Counter",
            Tools::Blur => "Blur",
            Tools::Highlighter => "Highlighter",
            Tools::Spotlight => "Spotlight",
        }
    }

    /// Name used in configuration files.
    pub fn config_name(&self) -> (r: &'static str)
        ensures
            r == self.config_name_spec(),
    {
        match self {
            Tools::Pointer => "pointer",
            Tools::Crop => "crop",
            Tools::Line => "line",
            Tools::Arrow => "arrow",
            Tools::Rectangle => "rectangle",
            Tools::Ellipse => "ellipse",
            Tools::Text => "text",
            Tools::Marker => "marker",
            Tools::Blur => "blur",
            Tools::Highlighter => "highlighter",
            Tools::Brush => "brush",
            Tools::Spotlight => "spotlight",
        }
    }

    /// Starting annotation size for a tool without a saved one; `None` means
    /// the global default. Counters read best at the small size.
    pub fn builtin_default_size(&self) -> (r: Option<Size>)
        ensures
            r == if *self == Tools::Marker {
                Some(Size::Small)
            } else {
                None
            },
    {
        match self {
            Tools::Marker => Some(Size::Small),
            _ => None,
        }
    }

    /// The number a tool is stored and transmitted as.
    pub fn to_variant(&self) -> (r: u32)
        ensures
            r == self.index_spec(),
    {
        match self {
            Tools::Pointer => 0,
            Tools::Crop => 1,
            Tools::Line => 2,
            Tools::Arrow => 3,
            Tools::Rectangle => 4,
            Tools::Ellipse => 5,
            Tools::Text => 6,
            Tools::Marker => 7,
            Tools::Blur => 8,
            Tools::Highlighter => 9,
            Tools::Brush => 10,
            Tools::Spotlight => 11,
        }
    }

    /// The tool with the given number, if there is one.
    pub fn from_variant(v: u32) -> (r: Option<Tools>)
        ensures
            v < 12 ==> r is Some && r->0.index_spec() == v,
            v >= 12 ==> r is None,
    {
        match v {
            0 => Some(Tools::Pointer),
            1 => Some(Tools::Crop),
            2 => Some(Tools::Line),
            3 => Some(Tools::Arrow),
            4 => Some(Tools::Rectangle),
            5 => Some(Tools::Ellipse),
            6 => Some(Tools::Text),
            7 => Some(Tools::Marker),
            8 => Some(Tools::Blur),
            9 => Some(Tools::Highlighter),
            10 => Some(Tools::Brush),
            11 => Some(Tools::Spotlight),
            _ => None,
        }
    }

    /// Tools are told apart by their number, and every number is below 12.
    pub proof fn lemma_index_injective(a: Tools, b: Tools)
        ensures
            a.index_spec() < 12,
            a.index_spec() == b.index_spec() ==> a == b,
    {
    }
}

/// Identifier of a committed drawable, stable across moves and edits.
#[derive(Clone, Copy, Debug, PartialEq, Eq, Hash, Structural)]
pub struct DrawableId(pub u64);

/// How the layer list pictures a drawable.
#[derive(Clone, Copy, Debug, PartialEq, Eq, Structural)]
pub enum PanelPreview {
    /// The icon of its kind.
    Icon,
    Rectangle { filled: bool },
    Ellipse { filled: bool },
    Line,
    Arrow(ArrowStyle),
}

/// The swatch that the layer list shows next to a drawable.
#[derive(Clone, Copy, Debug, PartialEq, Eq, Structural)]
pub enum PanelSwatch {
    Color(Color),
    /// No swatch.
    Empty,
    Checkerboard,
    SpotlightOverlay,
}

impl PanelSwatch {
    /// The swatch of a drawable that does not ask for a special one: its
    /// color, if it has a style.
    pub fn of_style(style: Option<Style>) -> (r: PanelSwatch)
        ensures
            r == match style {
                Some(s) => PanelSwatch::Color(s.color),
                None => PanelSwatch::Empty,
            },
    {
        match style {
            Some(s) => PanelSwatch::Color(s.color),
            None => PanelSwatch::Empty,
        }
    }
}

/// The box behind text.
#[derive(Clone, Copy, Debug, PartialEq, Eq, Structural)]
pub enum TextBackground {
    Plain,
    Rounded,
}

impl Default for TextBackground {
    fn default() -> (r: TextBackground)
        ensures
            r == TextBackground::Plain,
    {
        TextBackground::Plain
    }
}

impl TextBackground {
    /// The name shown to the user.
    pub open spec fn display_name_spec(self) -> &'static str {
        match self {
            TextBackground::Plain => "Plain",
            TextBackground::Rounded => "Rounded",
        }
    }

    /// The name shown to the user.
    pub fn display_name(self) -> (r: &'static str)
        ensures
            r == self.display_name_spec(),
    {
        match self {
            TextBackground::Plain => "Plain",
            TextBackground::Rounded => "Rounded",
        }
    }
}

/// A drawable on the stack, with what the layer list knows of it.
#[derive(Debug)]
pub struct Stacked<D> {
    pub id: DrawableId,
    pub drawable: D,
    pub visible: bool,
    pub locked: bool,
    /// Name given by the user.
    pub custom_name: Option<String>,
    /// Number behind the automatic name.
    pub auto_label_index: u32,
}

impl<D> Stacked<D> {
    /// A visible, unlocked layer without a name of its own.
    pub fn new(id: DrawableId, drawable: D, auto_label_index: u32) -> (r: Stacked<D>)
        ensures
            r == (Stacked {
                id,
                drawable,
                visible: true,
                locked: false,
                custom_name: None,
                auto_label_index,
            }),
    {
        Stacked {
            id,
            drawable,
            visible: true,
            locked: false,
            custom_name: None,
            auto_label_index,
        }
    }
}

/// Visual shape of a handle.
#[derive(Clone, Copy, Debug, PartialEq, Eq, Structural)]
pub enum HandleKind {
    Round,
    Square,
}

impl Default for HandleKind {
    fn default() -> (r: HandleKind)
        ensures
            r == HandleKind::Round,
    {
        HandleKind::Round
    }
}

/// Which part of a shape a handle moves.
#[derive(Clone, Copy, Debug, PartialEq, Eq, Structural)]
pub enum HandleId {
    Start,
    End,
    Control,
    TopLeft,
    TopRight,
    BottomLeft,
    BottomRight,
    Top,
    Right,
    Bottom,
    Left,
}

/// A handle exposed for direct manipulation.
#[derive(Clone, Copy, Debug, PartialEq, Eq, Structural)]
pub struct Handle {
    pub id: HandleId,
    pub pos: Vec2D,
    pub hit_radius: i64,
    pub kind: HandleKind,
}

impl Handle {
    /// A round handle with the given pick radius.
    pub fn new(id: HandleId, pos: Vec2D, hit_radius: i64) -> (r: Handle)
        ensures
            r == (Handle { id, pos, hit_radius, kind: HandleKind::Round }),
    {
        Handle { id, pos, hit_radius, kind: HandleKind::Round }
    }

    /// The same handle with another pick radius.
    pub fn with_hit_radius(self, r: i64) -> (h: Handle)
        ensures
            h == (Handle { hit_radius: r, ..self }),
    {
        Handle { hit_radius: r, ..self }
    }

    /// The same handle drawn in another shape.
    pub fn with_kind(self, kind: HandleKind) -> (h: Handle)
        ensures
            h == (Handle { kind, ..self }),
    {
        Handle { kind, ..self }
    }
}

impl HandleId {
    /// Dragging this handle moves the left edge of the box.
    pub open spec fn moves_left(self) -> bool {
        self == HandleId::TopLeft || self == HandleId::BottomLeft || self == HandleId::Left
    }

    /// Dragging this handle moves the right edge of the box.
    pub open spec fn moves_right(self) -> bool {
        self == HandleId::TopRight || self == HandleId::BottomRight || self == HandleId::Right
    }

    /// Dragging this handle moves the top edge of the box.
    pub open spec fn moves_top(self) -> bool {
        self == HandleId::TopLeft || self == HandleId::TopRight || self == HandleId::Top
    }

    /// Dragging this handle moves the bottom edge of the box.
    pub open spec fn moves_bottom(self) -> bool {
        self == HandleId::BottomLeft || self == HandleId::BottomRight || self == HandleId::Bottom
    }

    /// One of the eight handles of a bounding box.
    pub open spec fn is_box_handle(self) -> bool {
        self.moves_left() || self.moves_right() || self.moves_top() || self.moves_bottom()
    }

    /// One of the four corners of a bounding box.
    pub open spec fn is_corner(self) -> bool {
        (self.moves_left() || self.moves_right()) && (self.moves_top() || self.moves_bottom())
    }

    /// One of the four sides of a bounding box.
    pub open spec fn is_side(self) -> bool {
        self.is_box_handle() && !self.is_corner()
    }
}

/// Where the box handle `id` of `rect` sits.
pub open spec fn bbox_handle_at(rect: Rect, id: HandleId, p: Vec2D) -> bool {
    &&& p.x == if id.moves_left() {
        rect.pos.x as int
    } else if id.moves_right() {
        rect.right()
    } else {
        rect.pos.x + rect.size.x as int / 2
    }
    &&& p.y == if id.moves_top() {
        rect.pos.y as int
    } else if id.moves_bottom() {
        rect.bottom()
    } else {
        rect.pos.y + rect.size.y as int / 2
    }
}

/// The order in which box handles are listed: corners first, then sides.
pub open spec fn bbox_handle_order() -> Seq<HandleId> {
    seq![
        HandleId::TopLeft,
        HandleId::TopRight,
        HandleId::BottomLeft,
        HandleId::BottomRight,
        HandleId::Top,
        HandleId::Bottom,
        HandleId::Left,
        HandleId::Right,
    ]
}

/// The eight handles of a bounding box: four corners, four edge midpoints.
pub fn bbox_handles(rect: Rect, hit_radius: i64) -> (r: Vec<Handle>)
    requires
        rect.ok(),
    ensures
        r@.len() == 8,
        forall|i: int|
            0 <= i < 8 ==> {
                &&& (#[trigger] r@[i]).id == bbox_handle_order()[i]
                &&& bbox_handle_at(rect, r@[i].id, r@[i].pos)
                &&& r@[i].hit_radius == hit_radius
                &&& r@[i].kind == HandleKind::Round
            },
{
    let tl: Vec2D = rect.top_left();
    let tr: Vec2D = rect.top_right();
    let bl: Vec2D = rect.bottom_left();
    let br: Vec2D = rect.bottom_right();
    let center: Vec2D = rect.center();
    let r: Vec<Handle> = vec![
        Handle::new(HandleId::TopLeft, tl, hit_radius),
        Handle::new(HandleId::TopRight, tr, hit_radius),
        Handle::new(HandleId::BottomLeft, bl, hit_radius),
        Handle::new(HandleId::BottomRight, br, hit_radius),
        Handle::new(HandleId::Top, Vec2D::new(center.x, tl.y), hit_radius),
        Handle::new(HandleId::Bottom, Vec2D::new(center.x, br.y), hit_radius),
        Handle::new(HandleId::Left, Vec2D::new(tl.x, center.y), hit_radius),
        Handle::new(HandleId::Right, Vec2D::new(br.x, center.y), hit_radius),
    ];
    r
}

/// `r` is `rect` after its handle `h` was dragged to `to`: the edges that the
/// handle moves pass through `to`, the others stay, and the corners are put
/// back in order.
pub open spec fn is_resized(rect: Rect, h: HandleId, to: Vec2D, r: Rect) -> bool {
    let left = if h.moves_left() {
        to.x as int
    } else {
        rect.pos.x as int
    };
    let right = if h.moves_right() {
        to.x as int
    } else {
        rect.right()
    };
    let top = if h.moves_top() {
        to.y as int
    } else {
        rect.pos.y as int
    };
    let bottom = if h.moves_bottom() {
        to.y as int
    } else {
        rect.bottom()
    };
    &&& r.pos.x == min_spec(left, right)
    &&& r.right() == max_spec(left, right)
    &&& r.pos.y == min_spec(top, bottom)
    &&& r.bottom() == max_spec(top, bottom)
}

/// Resizes a bounding box whose handle is dragged to `to`. Handles that are
/// not part of a box leave it as it is.
pub fn bbox_resize(rect: Rect, handle: HandleId, to: Vec2D) -> (r: Rect)
    requires
        rect.ok(),
        to.ok(),
    ensures
        handle.is_box_handle() ==> is_resized(rect, handle, to, r) && r.canonical(),
        !handle.is_box_handle() ==> r == rect,
{
    let tl: Vec2D = rect.top_left();
    let br: Vec2D = rect.bottom_right();
    let (new_tl, new_br): (Vec2D, Vec2D) = match handle {
        HandleId::TopLeft => (to, br),
        HandleId::TopRight => (Vec2D::new(tl.x, to.y), Vec2D::new(to.x, br.y)),
        HandleId::BottomLeft => (Vec2D::new(to.x, tl.y), Vec2D::new(br.x, to.y)),
        HandleId::BottomRight => (tl, to),
        HandleId::Top => (Vec2D::new(tl.x, to.y), br),
        HandleId::Bottom => (tl, Vec2D::new(br.x, to.y)),
        HandleId::Left => (Vec2D::new(to.x, tl.y), br),
        HandleId::Right => (tl, Vec2D::new(to.x, br.y)),
        _ => {
            return rect;
        },
    };
    Rect::from_corners(new_tl, new_br)
}

/// The corner opposite the corner handle `h`.
pub open spec fn anchor_x(orig: Rect, h: HandleId) -> int {
    if h.moves_left() {
        orig.right()
    } else {
        orig.pos.x as int
    }
}

/// The corner opposite the corner handle `h`.
pub open spec fn anchor_y(orig: Rect, h: HandleId) -> int {
    if h.moves_top() {
        orig.bottom()
    } else {
        orig.pos.y as int
    }
}

/// `-1` for negative numbers, else `1`.
pub open spec fn sign_spec(v: int) -> int {
    if v >= 0 {
        1
    } else {
        -1
    }
}

/// The horizontal drag scales the box at least as much as the vertical one.
pub open spec fn x_dominates(orig: Rect, h: HandleId, to: Vec2D) -> bool {
    abs_spec(to.x - anchor_x(orig, h)) * orig.size.y >= abs_spec(to.y - anchor_y(orig, h))
        * orig.size.x
}

/// Length of the side that follows the dominant one at the original ratio.
pub open spec fn following_length(orig: Rect, h: HandleId, to: Vec2D) -> int {
    if x_dominates(orig, h, to) {
        div_round_spec(abs_spec(to.x - anchor_x(orig, h)) * orig.size.y, orig.size.x as int)
    } else {
        div_round_spec(abs_spec(to.y - anchor_y(orig, h)) * orig.size.x, orig.size.y as int)
    }
}

/// `r` is `to` moved onto the diagonal that keeps the ratio of `orig`: the
/// axis dragged further wins, the other follows.
pub open spec fn is_aspect_locked(orig: Rect, h: HandleId, to: Vec2D, r: Vec2D) -> bool {
    let ax = anchor_x(orig, h);
    let ay = anchor_y(orig, h);
    if x_dominates(orig, h, to) {
        r.x == to.x && r.y == ay + sign_spec(to.y - ay) * following_length(orig, h, to)
    } else {
        r.y == to.y && r.x == ax + sign_spec(to.x - ax) * following_length(orig, h, to)
    }
}

/// Constrains the target of a corner handle so that the box keeps its aspect
/// ratio. Other handles, and boxes without area, pass `to` through.
pub fn aspect_lock_corner_target(orig: Rect, handle: HandleId, to: Vec2D) -> (r: Vec2D)
    requires
        orig.ok(),
        to.ok(),
        orig.size.x > 0 && orig.size.y > 0 && handle.is_corner() ==> following_length(
            orig,
            handle,
            to,
        ) <= 0x2000_0000_0000_0000,
    ensures
        handle.is_corner() && orig.size.x > 0 && orig.size.y > 0 ==> is_aspect_locked(
            orig,
            handle,
            to,
            r,
        ),
        !(handle.is_corner() && orig.size.x > 0 && orig.size.y > 0) ==> r == to,
{
    let anchor: Vec2D = match handle {
        HandleId::TopLeft => orig.bottom_right(),
        HandleId::TopRight => orig.bottom_left(),
        HandleId::BottomLeft => orig.top_right(),
        HandleId::BottomRight => orig.top_left(),
        _ => {
            return to;
        },
    };
    if orig.size.x <= 0 || orig.size.y <= 0 {
        return to;
    }
    let dx: i64 = to.x - anchor.x;
    let dy: i64 = to.y - anchor.y;
    let adx: i64 = abs_len(dx);
    let ady: i64 = abs_len(dy);
    let w: i64 = orig.size.x;
    let h: i64 = orig.size.y;
    proof {
        lemma_product_bound(adx as int, h as int);
        lemma_product_bound(ady as int, w as int);
        lemma_div_round_near(adx * h, w as int);
        lemma_div_round_near(ady * w, h as int);
        lemma_div_round_nonneg(adx * h, w as int);
        lemma_div_round_nonneg(ady * w, h as int);
    }
    if adx as i128 * h as i128 >= ady as i128 * w as i128 {
        let follow: i64 = mul_div(adx, h, w);
        Vec2D {
            x: to.x,
            y: if dy >= 0 {
                anchor.y + follow
            } else {
                anchor.y - follow
            },
        }
    } else {
        let follow: i64 = mul_div(ady, w, h);
        Vec2D {
            x: if dx >= 0 {
                anchor.x + follow
            } else {
                anchor.x - follow
            },
            y: to.y,
        }
    }
}

/// Products of two lengths fit 128 bits.
pub proof fn lemma_product_bound(a: int, b: int)
    requires
        -0x1000_0000_0000_0000 <= a <= 0x1000_0000_0000_0000,
        -0x1000_0000_0000_0000 <= b <= 0x1000_0000_0000_0000,
    ensures
        -0x100_0000_0000_0000_0000_0000_0000_0000 <= a * b <= 0x100_0000_0000_0000_0000_0000_0000_0000,
        a >= 0 && b >= 0 ==> a * b >= 0,
{
    assert(-0x100_0000_0000_0000_0000_0000_0000_0000 <= a * b
        <= 0x100_0000_0000_0000_0000_0000_0000_0000 && (a >= 0 && b >= 0 ==> a * b >= 0))
        by (nonlinear_arith)
        requires
            -0x1000_0000_0000_0000 <= a <= 0x1000_0000_0000_0000,
            -0x1000_0000_0000_0000 <= b <= 0x1000_0000_0000_0000,
    ;
}

/// A non-negative number stays so when divided and rounded.
pub proof fn lemma_div_round_nonneg(a: int, b: int)
    requires
        a >= 0,
        b > 0,
    ensures
        div_round_spec(a, b) >= 0,
{
    vstd::arithmetic::div_mod::lemma_div_pos_is_pos(2 * a + b, 2 * b);
}

/// The side opposite a side handle.
pub open spec fn opposite_side(h: HandleId) -> HandleId {
    match h {
        HandleId::Top => HandleId::Bottom,
        HandleId::Bottom => HandleId::Top,
        HandleId::Left => HandleId::Right,
        _ => HandleId::Left,
    }
}

/// For a side handle dragged to `to`: the opposite side, and the target that
/// mirrors the drag about the middle of the box. `None` for other handles.
pub fn mirror_side_target(orig: Rect, handle: HandleId, to: Vec2D) -> (r: Option<(HandleId, Vec2D)>)
    requires
        orig.ok(),
        to.ok(),
    ensures
        !handle.is_side() ==> r is None,
        handle.is_side() ==> {
            &&& r matches Some((opp, p))
            &&& opp == opposite_side(handle)
            &&& handle == HandleId::Top ==> p.x == orig.right()
            &&& handle == HandleId::Bottom ==> p.x == orig.pos.x
            &&& handle == HandleId::Left ==> p.y == orig.bottom()
            &&& handle == HandleId::Right ==> p.y == orig.pos.y
            &&& handle.moves_top() || handle.moves_bottom() ==> p.y == orig.pos.y + orig.bottom()
                - to.y
            &&& handle.moves_left() || handle.moves_right() ==> p.x == orig.pos.x + orig.right()
                - to.x
        },
{
    let tl: Vec2D = orig.top_left();
    let br: Vec2D = orig.bottom_right();
    match handle {
        HandleId::Top => {
            let mirrored_y: i64 = br.y - (to.y - tl.y);
            Some((HandleId::Bottom, Vec2D::new(br.x, mirrored_y)))
        },
        HandleId::Bottom => {
            let mirrored_y: i64 = tl.y - (to.y - br.y);
            Some((HandleId::Top, Vec2D::new(tl.x, mirrored_y)))
        },
        HandleId::Left => {
            let mirrored_x: i64 = br.x - (to.x - tl.x);
            Some((HandleId::Right, Vec2D::new(mirrored_x, br.y)))
        },
        HandleId::Right => {
            let mirrored_x: i64 = tl.x - (to.x - br.x);
            Some((HandleId::Left, Vec2D::new(mirrored_x, tl.y)))
        },
        _ => None,
    }
}

/// Moving a side and then the opposite side to its mirrored target keeps the
/// box centered where it was, as long as the side is not dragged past the
/// opposite one.
pub proof fn lemma_side_pair_keeps_center(
    orig: Rect,
    h: HandleId,
    to: Vec2D,
    mirrored: Vec2D,
    first: Rect,
    second: Rect,
)
    requires
        orig.canonical(),
        h.is_side(),
        h == HandleId::Top ==> to.y <= orig.bottom(),
        h == HandleId::Bottom ==> to.y >= orig.pos.y,
        h == HandleId::Left ==> to.x <= orig.right(),
        h == HandleId::Right ==> to.x >= orig.pos.x,
        h.moves_top() || h.moves_bottom() ==> mirrored.y == orig.pos.y + orig.bottom() - to.y,
        h.moves_left() || h.moves_right() ==> mirrored.x == orig.pos.x + orig.right() - to.x,
        is_resized(orig, h, to, first),
        is_resized(first, opposite_side(h), mirrored, second),
    ensures
        second.pos.x + second.right() == orig.pos.x + orig.right(),
        second.pos.y + second.bottom() == orig.pos.y + orig.bottom(),
        h.moves_top() || h.moves_bottom() ==> second.pos.x == orig.pos.x && second.size.x
            == orig.size.x,
        h.moves_left() || h.moves_right() ==> second.pos.y == orig.pos.y && second.size.y
            == orig.size.y,
{
}

/// The locked target keeps the ratio of the box up to the rounding of one
/// side, and reaches at least as far from the anchor as the drag did.
pub proof fn lemma_aspect_lock_keeps_ratio(orig: Rect, h: HandleId, to: Vec2D, r: Vec2D)
    requires
        h.is_corner(),
        orig.size.x > 0,
        orig.size.y > 0,
        is_aspect_locked(orig, h, to, r),
    ensures
        ({
            let w = orig.size.x as int;
            let ht = orig.size.y as int;
            let rw = abs_spec(r.x - anchor_x(orig, h));
            let rh = abs_spec(r.y - anchor_y(orig, h));
            &&& -max_spec(w, ht) <= 2 * (rh * w - rw * ht) <= max_spec(w, ht)
            &&& rw >= abs_spec(to.x - anchor_x(orig, h))
            &&& rh >= abs_spec(to.y - anchor_y(orig, h))
        }),
{
    let w = orig.size.x as int;
    let ht = orig.size.y as int;
    let adx = abs_spec(to.x - anchor_x(orig, h));
    let ady = abs_spec(to.y - anchor_y(orig, h));
    let f = following_length(orig, h, to);
    if x_dominates(orig, h, to) {
        lemma_product_nonneg(adx, ht);
        lemma_div_round_near(adx * ht, w);
        lemma_div_round_nonneg(adx * ht, w);
        assert(f >= ady) by (nonlinear_arith)
            requires
                w > 0,
                adx * ht >= ady * w,
                -w <= 2 * (f * w - adx * ht),
        ;
    } else {
        lemma_product_nonneg(ady, w);
        lemma_div_round_near(ady * w, ht);
        lemma_div_round_nonneg(ady * w, ht);
        assert(f >= adx) by (nonlinear_arith)
            requires
                ht > 0,
                ady * w >= adx * ht,
                -ht <= 2 * (f * ht - ady * w),
        ;
    }
}

proof fn lemma_product_nonneg(a: int, b: int)
    requires
        a >= 0,
        b >= 0,
    ensures
        a * b >= 0,
{
    assert(a * b >= 0) by (nonlinear_arith)
        requires
            a >= 0,
            b >= 0,
    ;
}

/// A positive ratio of two lengths.
#[derive(Clone, Copy, Debug, PartialEq, Eq, Structural)]
pub struct Ratio {
    pub num: i64,
    pub den: i64,
}

impl Ratio {
    /// Both terms are positive.
    pub open spec fn wf(&self) -> bool {
        self.num > 0 && self.den > 0
    }

    /// `v` scaled by the ratio, to the nearest sub-unit.
    pub open spec fn scale_spec(&self, v: int) -> int {
        div_round_spec(v * self.num, self.den as int)
    }

    /// `v` scaled by the ratio, to the nearest sub-unit.
    pub fn scale(&self, v: i64) -> (r: i64)
        requires
            self.wf(),
            i64::MIN <= self.scale_spec(v as int) <= i64::MAX,
        ensures
            r == self.scale_spec(v as int),
    {
        mul_div(v, self.num, self.den)
    }
}

/// A whole-canvas geometry transform. All maps use the width `w` and height
/// `h` of the image before the transform.
#[derive(Clone, Copy, Debug, PartialEq, Eq, Structural)]
pub enum CanvasTransform {
    /// Mirror left and right about the vertical centerline.
    FlipHorizontal,
    /// Rotate by a quarter turn counter-clockwise.
    RotateCcw,
    /// Rotate by a quarter turn clockwise.
    RotateCw,
    /// Scale about the origin: an image resize.
    Scale { sx: Ratio, sy: Ratio },
}

impl CanvasTransform {
    /// Scale ratios are positive.
    pub open spec fn wf(&self) -> bool {
        match self {
            CanvasTransform::Scale { sx, sy } => sx.wf() && sy.wf(),
            _ => true,
        }
    }

    /// Horizontal position of the point `(x, y)` after the transform.
    pub open spec fn map_x(self, x: int, y: int, w: int, h: int) -> int {
        match self {
            CanvasTransform::FlipHorizontal => w - x,
            CanvasTransform::RotateCcw => y,
            CanvasTransform::RotateCw => h - y,
            CanvasTransform::Scale { sx, sy } => sx.scale_spec(x),
        }
    }

    /// Vertical position of the point `(x, y)` after the transform.
    pub open spec fn map_y(self, x: int, y: int, w: int, h: int) -> int {
        match self {
            CanvasTransform::FlipHorizontal => y,
            CanvasTransform::RotateCcw => w - x,
            CanvasTransform::RotateCw => x,
            CanvasTransform::Scale { sx, sy } => sy.scale_spec(y),
        }
    }

    /// Width of a `w` by `h` image after the transform.
    pub open spec fn new_w(self, w: int, h: int) -> int {
        match self {
            CanvasTransform::FlipHorizontal => w,
            CanvasTransform::RotateCcw | CanvasTransform::RotateCw => h,
            CanvasTransform::Scale { sx, sy } => sx.scale_spec(w),
        }
    }

    /// Height of a `w` by `h` image after the transform.
    pub open spec fn new_h(self, w: int, h: int) -> int {
        match self {
            CanvasTransform::FlipHorizontal => h,
            CanvasTransform::RotateCcw | CanvasTransform::RotateCw => w,
            CanvasTransform::Scale { sx, sy } => sy.scale_spec(h),
        }
    }

    /// The transform that undoes this one.
    pub open spec fn inverse_spec(self) -> CanvasTransform {
        match self {
            CanvasTransform::FlipHorizontal => CanvasTransform::FlipHorizontal,
            CanvasTransform::RotateCcw => CanvasTransform::RotateCw,
            CanvasTransform::RotateCw => CanvasTransform::RotateCcw,
            CanvasTransform::Scale { sx, sy } => CanvasTransform::Scale {
                sx: Ratio { num: sx.den, den: sx.num },
                sy: Ratio { num: sy.den, den: sy.num },
            },
        }
    }

    /// The point `(x, y)` is mapped to a coordinate: only a scale can leave
    /// the range.
    pub open spec fn fits(self, x: int, y: int) -> bool {
        match self {
            CanvasTransform::Scale { sx, sy } => coord_ok(sx.scale_spec(x)) && coord_ok(
                sy.scale_spec(y),
            ),
            _ => true,
        }
    }

    /// Whether a point is mapped to a coordinate.
    pub fn can_map(self, p: Vec2D) -> (r: bool)
        requires
            self.wf(),
        ensures
            r == self.fits(p.x as int, p.y as int),
    {
        match self {
            CanvasTransform::Scale { sx, sy } => {
                let x: i128 = mul_div_wide(p.x, sx.num, sx.den);
                let y: i128 = mul_div_wide(p.y, sy.num, sy.den);
                let m: i128 = COORD_MAX as i128;
                -m <= x && x <= m && -m <= y && y <= m
            },
            _ => true,
        }
    }

    /// Maps an absolute point.
    pub fn map_point(self, p: Vec2D, w: i64, h: i64) -> (r: Vec2D)
        requires
            self.wf(),
            -0x1000_0000_0000_0000 <= p.x <= 0x1000_0000_0000_0000,
            -0x1000_0000_0000_0000 <= p.y <= 0x1000_0000_0000_0000,
            coord_ok(w as int),
            coord_ok(h as int),
            self.fits(p.x as int, p.y as int),
        ensures
            r.x == self.map_x(p.x as int, p.y as int, w as int, h as int),
            r.y == self.map_y(p.x as int, p.y as int, w as int, h as int),
    {
        match self {
            CanvasTransform::FlipHorizontal => Vec2D::new(w - p.x, p.y),
            CanvasTransform::RotateCcw => Vec2D::new(p.y, w - p.x),
            CanvasTransform::RotateCw => Vec2D::new(h - p.y, p.x),
            CanvasTransform::Scale { sx, sy } => Vec2D::new(sx.scale(p.x), sy.scale(p.y)),
        }
    }

    /// Maps a relative offset: the translation cancels.
    pub fn map_offset(self, d: Vec2D) -> (r: Vec2D)
        requires
            self.wf(),
            d.ok(),
            self.fits(d.x as int, d.y as int),
        ensures
            r.x == self.map_x(d.x as int, d.y as int, 0, 0),
            r.y == self.map_y(d.x as int, d.y as int, 0, 0),
    {
        match self {
            CanvasTransform::FlipHorizontal => Vec2D::new(-d.x, d.y),
            CanvasTransform::RotateCcw => Vec2D::new(d.y, -d.x),
            CanvasTransform::RotateCw => Vec2D::new(-d.y, d.x),
            CanvasTransform::Scale { sx, sy } => Vec2D::new(sx.scale(d.x), sy.scale(d.y)),
        }
    }

    /// `r` is spanned by the images of two opposite corners of `a`.
    pub open spec fn is_mapped_rect(self, a: Rect, w: int, h: int, r: Rect) -> bool {
        let x1 = self.map_x(a.pos.x as int, a.pos.y as int, w, h);
        let y1 = self.map_y(a.pos.x as int, a.pos.y as int, w, h);
        let x2 = self.map_x(a.right(), a.bottom(), w, h);
        let y2 = self.map_y(a.right(), a.bottom(), w, h);
        &&& r.pos.x == min_spec(x1, x2)
        &&& r.right() == max_spec(x1, x2)
        &&& r.pos.y == min_spec(y1, y2)
        &&& r.bottom() == max_spec(y1, y2)
    }

    /// Maps an axis-aligned rectangle; the result has no negative size.
    pub fn map_rect(self, a: Rect, w: i64, h: i64) -> (r: Rect)
        requires
            self.wf(),
            a.ok(),
            coord_ok(w as int),
            coord_ok(h as int),
            self.fits(a.pos.x as int, a.pos.y as int),
            self.fits(a.right(), a.bottom()),
        ensures
            self.is_mapped_rect(a, w as int, h as int, r),
            r.canonical(),
    {
        Rect::from_corners(
            self.map_point(a.top_left(), w, h),
            self.map_point(a.bottom_right(), w, h),
        )
    }

    /// Size of a `w` by `h` image after the transform.
    pub fn new_size(self, w: i64, h: i64) -> (r: (i64, i64))
        requires
            self.wf(),
            coord_ok(w as int),
            coord_ok(h as int),
            self.fits(w as int, h as int),
        ensures
            r.0 == self.new_w(w as int, h as int),
            r.1 == self.new_h(w as int, h as int),
    {
        match self {
            CanvasTransform::FlipHorizontal => (w, h),
            CanvasTransform::RotateCcw | CanvasTransform::RotateCw => (h, w),
            CanvasTransform::Scale { sx, sy } => (sx.scale(w), sy.scale(h)),
        }
    }

    /// The transform that undoes this one, applied to the result.
    pub fn inverse(self) -> (r: CanvasTransform)
        requires
            self.wf(),
        ensures
            r == self.inverse_spec(),
            r.wf(),
    {
        match self {
            CanvasTransform::FlipHorizontal => CanvasTransform::FlipHorizontal,
            CanvasTransform::RotateCcw => CanvasTransform::RotateCw,
            CanvasTransform::RotateCw => CanvasTransform::RotateCcw,
            CanvasTransform::Scale { sx, sy } => CanvasTransform::Scale {
                sx: Ratio { num: sx.den, den: sx.num },
                sy: Ratio { num: sy.den, den: sy.num },
            },
        }
    }

    /// Scaling `(x, y)` needs no rounding.
    pub open spec fn exact_at(self, x: int, y: int) -> bool {
        match self {
            CanvasTransform::Scale { sx, sy } => (x * sx.num) % (sx.den as int) == 0 && (y * sy.num)
                % (sy.den as int) == 0,
            _ => true,
        }
    }

    /// What a scale gives back for the horizontal position `x` is off by at
    /// most half a sub-unit, and half of what one sub-unit of the scaled image
    /// spans; other transforms give it back exactly.
    pub open spec fn gives_back_x(self, x: int, back: int) -> bool {
        match self {
            CanvasTransform::Scale { sx, sy } => sx.gives_back(x, back),
            _ => back == x,
        }
    }

    /// The same for the vertical position `y`.
    pub open spec fn gives_back_y(self, y: int, back: int) -> bool {
        match self {
            CanvasTransform::Scale { sx, sy } => sy.gives_back(y, back),
            _ => back == y,
        }
    }

    /// A transform followed by its inverse, at the transformed image size,
    /// gives every point back, and the image size. A scale does so up to
    /// rounding, and exactly where it needs none.
    pub proof fn lemma_inverse_round_trips(self, x: int, y: int, w: int, h: int)
        requires
            self.wf(),
        ensures
            ({
                let mx = self.map_x(x, y, w, h);
                let my = self.map_y(x, y, w, h);
                let w2 = self.new_w(w, h);
                let h2 = self.new_h(w, h);
                let back = self.inverse_spec();
                &&& self.gives_back_x(x, back.map_x(mx, my, w2, h2))
                &&& self.gives_back_y(y, back.map_y(mx, my, w2, h2))
                &&& self.gives_back_x(w, back.new_w(w2, h2))
                &&& self.gives_back_y(h, back.new_h(w2, h2))
                &&& self.exact_at(x, y) ==> back.map_x(mx, my, w2, h2) == x && back.map_y(
                    mx,
                    my,
                    w2,
                    h2,
                ) == y
                &&& self.exact_at(w, h) ==> back.new_w(w2, h2) == w && back.new_h(w2, h2) == h
            }),
    {
        match self {
            CanvasTransform::Scale { sx, sy } => {
                sx.lemma_gives_back(x);
                sx.lemma_gives_back(w);
                sy.lemma_gives_back(y);
                sy.lemma_gives_back(h);
            },
            _ => {},
        }
    }

    /// Undoing an undone transform is the transform itself.
    pub proof fn lemma_inverse_involutive(self)
        ensures
            self.inverse_spec().inverse_spec() == self,
    {
    }

    /// Four quarter turns the same way give every point and the image size
    /// back.
    pub proof fn lemma_four_turns_are_identity(self, x: int, y: int, w: int, h: int)
        requires
            self is RotateCcw || self is RotateCw,
        ensures
            ({
                let t = self;
                let (x1, y1) = (t.map_x(x, y, w, h), t.map_y(x, y, w, h));
                let (w1, h1) = (t.new_w(w, h), t.new_h(w, h));
                let (x2, y2) = (t.map_x(x1, y1, w1, h1), t.map_y(x1, y1, w1, h1));
                let (w2, h2) = (t.new_w(w1, h1), t.new_h(w1, h1));
                let (x3, y3) = (t.map_x(x2, y2, w2, h2), t.map_y(x2, y2, w2, h2));
                let (w3, h3) = (t.new_w(w2, h2), t.new_h(w2, h2));
                &&& t.map_x(x3, y3, w3, h3) == x
                &&& t.map_y(x3, y3, w3, h3) == y
                &&& t.new_w(w3, h3) == w
                &&& t.new_h(w3, h3) == h
            }),
    {
    }

    /// The largest difference that rounding can make to a mapped length: one
    /// sub-unit for a scale.
    pub open spec fn slack(self) -> int {
        if self is Scale {
            1
        } else {
            0
        }
    }

    /// An offset maps like the difference of two mapped points, whatever the
    /// image size: the translation cancels. A scale does so up to a sub-unit
    /// of rounding, and exactly where it needs none.
    pub proof fn lemma_offset_is_difference(self, ax: int, ay: int, bx: int, by: int, w: int, h: int)
        requires
            self.wf(),
        ensures
            ({
                let dx = self.map_x(bx, by, w, h) - self.map_x(ax, ay, w, h);
                let dy = self.map_y(bx, by, w, h) - self.map_y(ax, ay, w, h);
                let ox = self.map_x(bx - ax, by - ay, 0, 0);
                let oy = self.map_y(bx - ax, by - ay, 0, 0);
                &&& -self.slack() <= ox - dx <= self.slack()
                &&& -self.slack() <= oy - dy <= self.slack()
                &&& self.exact_at(ax, ay) && self.exact_at(bx, by) ==> ox == dx && oy == dy
            }),
    {
        match self {
            CanvasTransform::Scale { sx, sy } => {
                sx.lemma_difference(ax, bx);
                sy.lemma_difference(ay, by);
            },
            _ => {},
        }
    }

    /// The transformed image exactly fills the new canvas: the rectangle of
    /// the whole image is mapped to that of the new size.
    pub proof fn lemma_image_fills_canvas(self, a: Rect, r: Rect)
        requires
            self.wf(),
            a.pos == (Vec2D { x: 0, y: 0 }),
            a.canonical(),
            self.is_mapped_rect(a, a.size.x as int, a.size.y as int, r),
        ensures
            r.pos == (Vec2D { x: 0, y: 0 }),
            r.size.x == self.new_w(a.size.x as int, a.size.y as int),
            r.size.y == self.new_h(a.size.x as int, a.size.y as int),
    {
        match self {
            CanvasTransform::Scale { sx, sy } => {
                sx.lemma_monotone(0, a.size.x as int);
                sy.lemma_monotone(0, a.size.y as int);
                sx.lemma_zero();
                sy.lemma_zero();
            },
            _ => {},
        }
    }

    /// A point inside the image stays inside.
    pub proof fn lemma_image_stays_covered(self, x: int, y: int, w: int, h: int)
        requires
            self.wf(),
            0 <= x <= w,
            0 <= y <= h,
        ensures
            0 <= self.map_x(x, y, w, h) <= self.new_w(w, h),
            0 <= self.map_y(x, y, w, h) <= self.new_h(w, h),
    {
        match self {
            CanvasTransform::Scale { sx, sy } => {
                sx.lemma_zero();
                sy.lemma_zero();
                sx.lemma_monotone(0, x);
                sx.lemma_monotone(x, w);
                sy.lemma_monotone(0, y);
                sy.lemma_monotone(y, h);
            },
            _ => {},
        }
    }

    /// A rectangle is mapped to one of the size that the transform gives an
    /// image of its size: a quarter turn swaps the sides, a flip keeps them,
    /// a scale scales them, up to a sub-unit of rounding.
    pub proof fn lemma_mapped_rect_size(self, a: Rect, w: int, h: int, r: Rect)
        requires
            self.wf(),
            a.canonical(),
            self.is_mapped_rect(a, w, h, r),
        ensures
            ({
                let (nw, nh) = (
                    self.new_w(a.size.x as int, a.size.y as int),
                    self.new_h(a.size.x as int, a.size.y as int),
                );
                &&& -self.slack() <= r.size.x - nw <= self.slack()
                &&& -self.slack() <= r.size.y - nh <= self.slack()
            }),
    {
        match self {
            CanvasTransform::Scale { sx, sy } => {
                sx.lemma_monotone(a.pos.x as int, a.right());
                sy.lemma_monotone(a.pos.y as int, a.bottom());
                sx.lemma_difference(a.pos.x as int, a.right());
                sy.lemma_difference(a.pos.y as int, a.bottom());
            },
            _ => {},
        }
    }
}

impl Ratio {
    /// What scaling `v`, and scaling back, gives is off by at most half a
    /// sub-unit, and half of what one scaled sub-unit spans.
    pub open spec fn gives_back(self, v: int, back: int) -> bool {
        2 * abs_spec(back - v) * self.num <= self.num + self.den
    }

    proof fn lemma_gives_back(self, v: int)
        requires
            self.wf(),
        ensures
            ({
                let back = Ratio { num: self.den, den: self.num };
                let r = back.scale_spec(self.scale_spec(v));
                &&& self.gives_back(v, r)
                &&& (v * self.num) % (self.den as int) == 0 ==> r == v
            }),
    {
        let (n, d) = (self.num as int, self.den as int);
        let m = self.scale_spec(v);
        let r = div_round_spec(m * d, n);
        lemma_div_round_near(v * n, d);
        lemma_div_round_near(m * d, n);
        if (v * n) % d == 0 {
            lemma_mul_div_inverse(v, n, d);
        }
        assert(2 * (r - v) * n <= n + d && -(n + d) <= 2 * (r - v) * n) by (nonlinear_arith)
            requires
                -d <= 2 * (m * d - v * n) <= d,
                -n <= 2 * (r * n - m * d) <= n,
        ;
        assert(2 * abs_spec(r - v) * n <= n + d) by (nonlinear_arith)
            requires
                2 * (r - v) * n <= n + d,
                -(n + d) <= 2 * (r - v) * n,
                abs_spec(r - v) == r - v || abs_spec(r - v) == -(r - v),
        ;
    }

    proof fn lemma_difference(self, a: int, b: int)
        requires
            self.wf(),
        ensures
            ({
                let d = self.scale_spec(b) - self.scale_spec(a);
                &&& -1 <= self.scale_spec(b - a) - d <= 1
                &&& (a * self.num) % (self.den as int) == 0 && (b * self.num) % (self.den as int)
                    == 0 ==> self.scale_spec(b - a) == d
            }),
    {
        let (n, d) = (self.num as int, self.den as int);
        let (p, q, o) = (self.scale_spec(a), self.scale_spec(b), self.scale_spec(b - a));
        lemma_div_round_near(a * n, d);
        lemma_div_round_near(b * n, d);
        lemma_div_round_near((b - a) * n, d);
        if (a * n) % d == 0 && (b * n) % d == 0 {
            lemma_exact_difference(a, b, n, d);
        }
        let e = o - (q - p);
        assert(-1 <= e <= 1) by (nonlinear_arith)
            requires
                d > 0,
                -d <= 2 * (p * d - a * n) <= d,
                -d <= 2 * (q * d - b * n) <= d,
                -d <= 2 * (o * d - (b - a) * n) <= d,
                e == o - (q - p),
        ;
    }

    proof fn lemma_monotone(self, a: int, b: int)
        requires
            self.wf(),
            a <= b,
        ensures
            self.scale_spec(a) <= self.scale_spec(b),
    {
        let (n, d) = (self.num as int, self.den as int);
        assert(2 * (a * n) + d <= 2 * (b * n) + d) by (nonlinear_arith)
            requires
                a <= b,
                n > 0,
        ;
        vstd::arithmetic::div_mod::lemma_div_is_ordered(2 * (a * n) + d, 2 * (b * n) + d, 2 * d);
    }

    proof fn lemma_zero(self)
        requires
            self.wf(),
        ensures
            self.scale_spec(0) == 0,
    {
        let d = self.den as int;
        assert(0 * self.num == 0);
        vstd::arithmetic::div_mod::lemma_basic_div(d, 2 * d);
    }
}

proof fn lemma_exact_difference(a: int, b: int, num: int, den: int)
    requires
        num > 0,
        den > 0,
        (a * num) % den == 0,
        (b * num) % den == 0,
    ensures
        div_round_spec((b - a) * num, den) == div_round_spec(b * num, den) - div_round_spec(
            a * num,
            den,
        ),
{
    lemma_exact_quotient(a, num, den);
    lemma_exact_quotient(b, num, den);
    let qa = (a * num) / den;
    let qb = (b * num) / den;
    vstd::arithmetic::div_mod::lemma_fundamental_div_mod(a * num, den);
    vstd::arithmetic::div_mod::lemma_fundamental_div_mod(b * num, den);
    assert(2 * ((b - a) * num) + den == (qb - qa) * (2 * den) + den) by (nonlinear_arith)
        requires
            a * num == den * qa,
            b * num == den * qb,
    ;
    vstd::arithmetic::div_mod::lemma_fundamental_div_mod_converse(
        2 * ((b - a) * num) + den,
        2 * den,
        qb - qa,
        den,
    );
}

proof fn lemma_exact_quotient(v: int, num: int, den: int)
    requires
        num > 0,
        den > 0,
        (v * num) % den == 0,
    ensures
        div_round_spec(v * num, den) == (v * num) / den,
{
    let q = (v * num) / den;
    vstd::arithmetic::div_mod::lemma_fundamental_div_mod(v * num, den);
    assert(2 * (v * num) + den == q * (2 * den) + den) by (nonlinear_arith)
        requires
            v * num == den * q,
    ;
    vstd::arithmetic::div_mod::lemma_fundamental_div_mod_converse(
        2 * (v * num) + den,
        2 * den,
        q,
        den,
    );
}

} // verus!
