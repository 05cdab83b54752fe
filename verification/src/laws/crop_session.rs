//! What entering, applying and leaving a crop come to.
use vstd::prelude::*;
use crate::input::{KeyEventMsg, Modifiers, MouseButton, MouseEventMsg, MouseEventType};
use crate::math::Vec2D;
use crate::tools::crop::{
    bounds_ok, edit_dimensions, Crop, CropBgColor, CropHandle, CropMessage, CropTool,
};
use crate::tools::{CanvasTransform, ToolUpdateResult, Tools};
use crate::units::UNIT;

verus! {

/// `n` whole pixels are nearest to the length `v`.
pub open spec fn is_in_pixels(n: int, v: int) -> bool {
    -65536 <= 2 * (65536 * n - v) <= 65536
}

/// The handle taken from a little outside is the nearest: no other is closer
/// to the pointer.
pub proof fn lemma_nearest_handle_is_taken(
    c: Crop,
    h: CropHandle,
    mouse: Vec2D,
    best: int,
    p: Vec2D,
    other: CropHandle,
    q: Vec2D,
)
    requires
        c.is_closest(h, mouse, best),
        Crop::handle_at(c.pos, c.size, h, p),
        Crop::handle_at(c.pos, c.size, other, q),
    ensures
        (p.x - mouse.x) * (p.x - mouse.x) + (p.y - mouse.y) * (p.y - mouse.y) <= (q.x - mouse.x) * (
        q.x - mouse.x) + (q.y - mouse.y) * (q.y - mouse.y),
{
    let d = (q.x - mouse.x) * (q.x - mouse.x) + (q.y - mouse.y) * (q.y - mouse.y);
    let all = CropHandle::all_spec();
    let j: int = match other {
        CropHandle::TopLeftCorner => 0,
        CropHandle::TopEdge => 1,
        CropHandle::TopRightCorner => 2,
        CropHandle::RightEdge => 3,
        CropHandle::BottomRightCorner => 4,
        CropHandle::BottomEdge => 5,
        CropHandle::BottomLeftCorner => 6,
        CropHandle::LeftEdge => 7,
    };
    assert(all[j] == other);
    assert(c.handle_dist2(all[j], mouse, d));
    let at = choose|x: Vec2D| #[trigger]
        Crop::handle_at(c.pos, c.size, h, x) && best == crate::math::dist2_spec(x, mouse);
    assert(at == p);
}

/// The size that is told while editing is that of the crop in whole pixels.
pub proof fn lemma_told_size_is_in_pixels(c: Crop)
    requires
        0 <= c.size.x <= 0x7fff_0000 * UNIT,
        0 <= c.size.y <= 0x7fff_0000 * UNIT,
    ensures
        edit_dimensions(c) matches CropMessage::CropEditDimensions { width, height } && is_in_pixels(
            width as int,
            c.size.x as int,
        ) && is_in_pixels(height as int, c.size.y as int),
{
}

/// Applying tells the size of the crop in sub-units and in whole pixels, and
/// goes back to the pointer and the canvas.
pub proof fn lemma_applying_tells_the_size(tool: CropTool, post: CropTool, redraw: bool, b: Vec2D)
    requires
        tool.connected,
        tool.crop is Some,
        tool.crop->0.active,
        tool.image_bounds == Some(b),
        bounds_ok(tool.image_bounds),
        b.x <= 0x7fff_0000 * UNIT,
        b.y <= 0x7fff_0000 * UNIT,
        tool.commit_step(post, redraw),
    ensures
        ({
            let m = tool.commit_msgs(post);
            let s = post.crop->0.size;
            &&& m.len() == 4
            &&& m[0] == CropMessage::ContentSizeChanged { width: s.x, height: s.y }
            &&& m[1] matches CropMessage::DimensionsUpdate(Some((w, h))) && is_in_pixels(
                w as int,
                s.x as int,
            ) && is_in_pixels(h as int, s.y as int)
            &&& m[2] == CropMessage::ToolSelected(Tools::Pointer)
            &&& m[3] == CropMessage::FocusCanvas
        }),
{
}

/// A crop counts as the whole image when it is off by less than half a pixel.
pub proof fn lemma_whole_image_to_half_a_pixel(tool: CropTool, c: Crop, b: Vec2D)
    requires
        tool.crop == Some(c),
        tool.image_bounds == Some(b),
        c.size.x >= 0,
        c.size.y >= 0,
    ensures
        tool.full_image_spec() <==> {
            &&& -32768 < c.pos.x < 32768 && -32768 < c.pos.y < 32768
            &&& -32768 < c.size.x - b.x < 32768 && -32768 < c.size.y - b.y < 32768
        },
{
}

/// A crop goes with the image that is turned or mirrored: it covers the same
/// part of the picture as before.
pub proof fn lemma_crop_goes_with_the_image(
    tool: CropTool,
    t: CanvasTransform,
    w: i64,
    h: i64,
    post: CropTool,
    before: Seq<CropMessage>,
    after: Seq<CropMessage>,
    x: int,
    y: int,
)
    requires
        !(t is Scale),
        tool.crop is Some,
        tool.crop->0.size.x >= 0,
        tool.crop->0.size.y >= 0,
        tool.transform_step(t, w, h, post, before, after),
    ensures
        post.crop is Some,
        ({
            let (a, c) = (tool.crop->0, post.crop->0);
            let (nx, ny) = (
                t.map_x(x, y, w as int, h as int),
                t.map_y(x, y, w as int, h as int),
            );
            &&& (a.pos.x <= x <= a.pos.x + a.size.x && a.pos.y <= y <= a.pos.y + a.size.y) <==> (
            c.pos.x <= nx <= c.pos.x + c.size.x && c.pos.y <= ny <= c.pos.y + c.size.y)
            &&& c.committed == a.committed && c.active == a.active && c.ever_committed
                == a.ever_committed
        }),
{
}

/// Dropping the crop shows the whole image again.
pub proof fn lemma_dropping_shows_the_image(
    tool: CropTool,
    post: CropTool,
    before: Seq<CropMessage>,
    after: Seq<CropMessage>,
    b: Vec2D,
)
    requires
        tool.connected,
        tool.image_bounds == Some(b),
        tool.revert_step(post, before, after),
    ensures
        post.crop is None,
        post.action is None,
        post.image_bounds == tool.image_bounds,
        after == before + seq![
            CropMessage::DimensionsUpdate(None),
            CropMessage::CropPresenceChanged(false),
            CropMessage::ContentSizeChanged { width: b.x, height: b.y },
        ],
{
    assert(seq![CropMessage::DimensionsUpdate(None), CropMessage::CropPresenceChanged(false)]
        + seq![CropMessage::ContentSizeChanged { width: b.x, height: b.y }] =~= seq![
        CropMessage::DimensionsUpdate(None),
        CropMessage::CropPresenceChanged(false),
        CropMessage::ContentSizeChanged { width: b.x, height: b.y },
    ]);
}

/// Starting over gives a first draft of the whole image.
pub proof fn lemma_starting_over_takes_the_whole_image(
    tool: CropTool,
    emit: bool,
    post: CropTool,
    before: Seq<CropMessage>,
    after: Seq<CropMessage>,
    b: Vec2D,
)
    requires
        tool.image_bounds == Some(b),
        tool.seed_step(emit, post, before, after),
    ensures
        post.crop is Some,
        ({
            let c = post.crop->0;
            &&& c.pos.x == 0 && c.pos.y == 0 && c.size == b
            &&& c.active && !c.committed && !c.ever_committed && c.last_committed is None
        }),
        post.action is None,
{
}

/// Letting go leaves the crop where dragging there would have put it, and ends
/// the drag.
pub proof fn lemma_release_ends_where_the_drag_is(
    tool: CropTool,
    d: Vec2D,
    modifier: Modifiers,
    post: CropTool,
    redraw: bool,
    held: CropTool,
)
    requires
        tool.end_step(d, modifier, post, redraw),
        held == (CropTool { action: tool.action, ..post }),
    ensures
        post.action is None,
        tool.drag_step(d, modifier, held, redraw),
        held.crop == post.crop,
{
}

/// A right click drops a crop that is being edited; an applied crop does not
/// react to the left button.
pub proof fn lemma_clicks_on_a_crop(
    tool: CropTool,
    event: MouseEventMsg,
    post: CropTool,
    r: ToolUpdateResult<Crop>,
)
    requires
        tool.crop is Some,
        tool.mouse_step(event, post, r),
    ensures
        event.type_ == MouseEventType::Click && event.button == MouseButton::Secondary
            && tool.crop->0.active ==> post.crop is None && post.action is None,
        event.button == MouseButton::Primary && tool.crop->0.committed ==> post == tool
            && r is Unmodified,
        event.button == MouseButton::Middle ==> post == tool && r is Unmodified,
{
}

/// Edges attract unless Alt is held or that is switched off.
pub proof fn lemma_alt_keeps_edges_from_attracting(tool: CropTool, m: Modifiers)
    ensures
        m.alt ==> !tool.snap_active_spec(m),
        !tool.snap_to_edges ==> !tool.snap_active_spec(m),
        tool.snap_to_edges && !m.alt ==> tool.snap_active_spec(m),
{
}

/// Either Enter key applies a crop.
pub proof fn lemma_enter_applies(tool: CropTool, event: KeyEventMsg)
    ensures
        tool.is_commit_key(event) <==> tool.crop is Some && (event.key.0 == 0xff0d || event.key.0
            == 0xff8d),
{
}

/// The matte is half clear black by default, none when transparent, and else
/// opaque in its color.
pub proof fn lemma_mattes(r: i64, g: i64, b: i64)
    ensures
        CropBgColor::Auto.paint_color_spec() == (0int, 0int, 0int, 500_000int),
        CropBgColor::Transparent.paint_color_spec().3 == 0,
        CropBgColor::White.paint_color_spec() == (1_000_000int, 1_000_000int, 1_000_000int, 1_000_000int),
        CropBgColor::Gray.paint_color_spec() == (500_000int, 500_000int, 500_000int, 1_000_000int),
        CropBgColor::Black.paint_color_spec() == (0int, 0int, 0int, 1_000_000int),
        CropBgColor::Custom(r, g, b).paint_color_spec() == (r as int, g as int, b as int, 1_000_000int),
{
}

/// Leaving an edit of an applied crop goes back to what was applied; leaving a
/// first draft keeps it.
pub proof fn lemma_leaving_goes_back_to_applied(c: Crop, p: Vec2D, s: Vec2D)
    ensures
        c.ever_committed && !c.committed && c.last_committed == Some((p, s)) ==> {
            let r = CropTool::deactivated_crop(c);
            r.pos == p && r.size == s && r.committed && !r.active
        },
        !c.ever_committed ==> {
            let r = CropTool::deactivated_crop(c);
            r.pos == c.pos && r.size == c.size && r.committed == c.committed && !r.active
        },
{
}

} // verus!
