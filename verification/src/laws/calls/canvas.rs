//! What the functions of the canvas give back.
use vstd::prelude::*;
use crate::board::canvas::{find_hull, near, Dims, Growth, Hull};
use crate::board::layers::{find_layer, Layer, LayerEdit};
use crate::board::messages::{SketchBoardOutput, ZoomCommand};
use crate::board::panel::layers_ok;
use crate::board::{Effect, SketchBoard};
use crate::laws::canvas::covers;
use crate::math::{Rect, Vec2D};
use crate::tools::crop::{Crop, CropMessage, CropTool};
use crate::tools::{CanvasTransform, DrawableId, ToolUpdateResult, Tools};
use crate::units::{input_ok, UNIT};

verus! {

/// The image is told to be so large.
pub open spec fn dims_told(w: i32, h: i32) -> Effect {
    Effect::Output(SketchBoardOutput::ImageDimensionsChanged { width: w, height: h })
}

/// The content is told to be so large.
pub open spec fn size_told(width: i64, height: i64) -> Effect {
    Effect::Output(SketchBoardOutput::ContentSizeChanged { width, height })
}

/// The hull of some drawables covers each of them.
pub proof fn lemma_hull(
    ids: Vec<DrawableId>,
    layers: Vec<Layer>,
    r: Option<Hull>,
    i: int,
    d: Layer,
    b: Rect,
)
    requires
        layers_ok(layers@),
        0 <= i < ids@.len(),
        call_ensures(find_layer, (&layers, ids@[i]), Some(d)),
        d.bounds == Some(b),
        call_ensures(find_hull, (&ids, &layers), r),
    ensures
        r is Some,
        covers(r->0, b),
{
    crate::laws::canvas::lemma_hull_covers_drawables(ids@, layers@, i);
}

/// Without an applied crop it is the image that grows; nothing does while
/// cropping.
pub proof fn lemma_growth(
    b: SketchBoard,
    ids: Vec<DrawableId>,
    layers: Vec<Layer>,
    h: Option<Hull>,
    rect: Option<(Vec2D, Vec2D)>,
    r: Growth,
)
    requires
        b.wf(),
        call_ensures(find_hull, (&ids, &layers), h),
        call_ensures(CropTool::get_committed_rect, (&b.crop_tool,), rect),
        call_ensures(SketchBoard::growth, (&b, &ids, &layers), r),
    ensures
        b.active_tool == Tools::Crop ==> r == Growth::Nothing,
        b.active_tool != Tools::Crop && rect is None ==> r == Growth::Image,
        b.active_tool != Tools::Crop && rect is Some ==> {
            let (p, s) = rect->0;
            match h {
                None => r == Growth::Nothing,
                Some(o) => if p.x <= o.left && p.y <= o.top && o.right <= p.x + s.x && o.bottom
                    <= p.y + s.y {
                    r == Growth::Nothing
                } else {
                    r is Crop && r->touched == o
                },
            }
        },
{
    crate::laws::canvas::lemma_what_grows(b, ids@, layers@);
}

/// An image that has grown is told with its size, and the crop is kept to it.
pub proof fn lemma_auto_resize(b: &mut SketchBoard, d: Dims, out: &mut Vec<Effect>)
    requires
        d.ok(),
        call_ensures(SketchBoard::auto_resize_canvas, (b, Some(d), out), ()),
    ensures
        final(b).crop_tool.image_bounds is Some,
        final(b).crop_tool.image_bounds->0.x == d.w * 65536,
        final(b).crop_tool.image_bounds->0.y == d.h * 65536,
        final(out)@.len() == old(out)@.len() + 4,
        final(out)@[old(out)@.len() + 1int] == dims_told(d.w, d.h),
        final(out)@[old(out)@.len() + 2int] == size_told((d.w * 65536) as i64, (d.h * 65536) as i64),
{
}

/// A crop that grows covers what it covered and the drawings, moved with the
/// image and as far as that goes.
pub proof fn lemma_auto_grow(
    b: &mut SketchBoard,
    crop: Hull,
    touched: Hull,
    offset: Vec2D,
    dims: Dims,
    out: &mut Vec<Effect>,
    c0: Crop,
    x: int,
    y: int,
)
    requires
        near(crop),
        touched.ok(),
        input_ok(offset.x as int),
        input_ok(offset.y as int),
        dims.ok(),
        old(b).crop_tool.crop == Some(c0),
        c0.committed,
        call_ensures(SketchBoard::auto_grow_crop, (b, crop, touched, offset, dims, out), ()),
        0 <= x + offset.x <= dims.w * UNIT,
        0 <= y + offset.y <= dims.h * UNIT,
        (crop.left <= x <= crop.right && crop.top <= y <= crop.bottom) || (touched.left <= x
            <= touched.right && touched.top <= y <= touched.bottom),
    ensures
        final(b).crop_tool.crop is Some,
        ({
            let c = final(b).crop_tool.crop->0;
            &&& c.pos.x <= x + offset.x <= c.pos.x + c.size.x
            &&& c.pos.y <= y + offset.y <= c.pos.y + c.size.y
            &&& c.last_committed == Some((c.pos, c.size))
            &&& final(out)@.contains(size_told(c.size.x, c.size.y))
        }),
{
    assert(final(out)@[old(out)@.len() + 1int] == size_told(
        final(b).crop_tool.crop->0.size.x,
        final(b).crop_tool.crop->0.size.y,
    ));
}

/// After another size of the image the crop keeps what lies on the image, and
/// the content is told: the crop, or else the image.
pub proof fn lemma_refit(
    b: &mut SketchBoard,
    dims: Dims,
    out: &mut Vec<Effect>,
    rect: Option<(Vec2D, Vec2D)>,
    x: int,
    y: int,
)
    requires
        dims.ok(),
        old(b).wf(),
        call_ensures(CropTool::get_committed_rect, (&old(b).crop_tool,), rect),
        rect matches Some((p, s)) ==> p.ok() && s.ok(),
        call_ensures(SketchBoard::refit_after_dims_change, (b, dims, out), ()),
    ensures
        final(out)@.len() == old(out)@.len() + 3,
        final(out)@[old(out)@.len() + 1int] == dims_told(dims.w, dims.h),
        rect is None ==> final(out)@.last() == size_told(
            (dims.w * 65536) as i64,
            (dims.h * 65536) as i64,
        ),
        rect matches Some((p, s)) ==> {
            let c = final(b).crop_tool.crop->0;
            &&& final(out)@.last() == size_told(c.size.x, c.size.y)
            &&& (c.pos.x <= x <= c.pos.x + c.size.x && c.pos.y <= y <= c.pos.y + c.size.y) <==> {
                &&& p.x <= x <= p.x + s.x && p.y <= y <= p.y + s.y
                &&& 0 <= x <= dims.w * 65536 && 0 <= y <= dims.h * 65536
            }
        },
{
    if let Some((p, s)) = rect {
        crate::laws::canvas::lemma_cut_keeps_what_is_on_the_image(p, s, dims, x, y);
    }
}

/// Mirroring the image takes the crop along: what lay to the left lies as far
/// to the right.
pub proof fn lemma_flipped(
    b: &mut SketchBoard,
    before: Dims,
    after: Dims,
    crop_out: &mut Vec<CropMessage>,
    x: int,
    y: int,
)
    requires
        before.ok(),
        old(b).crop_tool.crop is Some,
        old(b).crop_tool.crop->0.size.x >= 0,
        old(b).crop_tool.crop->0.size.y >= 0,
        call_ensures(SketchBoard::image_flipped, (b, before, Some(after), crop_out), ()),
    ensures
        *final(b) == (SketchBoard { crop_tool: final(b).crop_tool, ..*old(b) }),
        final(b).crop_tool.crop is Some,
        ({
            let (a, c) = (old(b).crop_tool.crop->0, final(b).crop_tool.crop->0);
            let w = before.w * UNIT;
            (a.pos.x <= x <= a.pos.x + a.size.x && a.pos.y <= y <= a.pos.y + a.size.y) <==> (c.pos.x
                <= w - x <= c.pos.x + c.size.x && c.pos.y <= y <= c.pos.y + c.size.y)
        }),
{
}

/// Turning the image to the left takes the crop along; its sides change
/// places, and so does what is told of the content.
pub proof fn lemma_rotated(
    b: &mut SketchBoard,
    before: Dims,
    after: Dims,
    zoom: i64,
    crop_out: &mut Vec<CropMessage>,
    out: &mut Vec<Effect>,
    rect: Option<(Vec2D, Vec2D)>,
    x: int,
    y: int,
)
    requires
        before.ok(),
        after.ok(),
        0 <= zoom <= 1_000_000_000,
        old(b).crop_tool.crop is Some,
        old(b).crop_tool.crop->0.size.x >= 0,
        old(b).crop_tool.crop->0.size.y >= 0,
        call_ensures(CropTool::get_committed_rect, (&old(b).crop_tool,), rect),
        call_ensures(
            SketchBoard::image_rotated,
            (b, before, Some(after), zoom, crop_out, out),
            (),
        ),
    ensures
        *final(b) == (SketchBoard { crop_tool: final(b).crop_tool, ..*old(b) }),
        final(b).crop_tool.crop is Some,
        ({
            let (a, c) = (old(b).crop_tool.crop->0, final(b).crop_tool.crop->0);
            let w = before.w * UNIT;
            (a.pos.x <= x <= a.pos.x + a.size.x && a.pos.y <= y <= a.pos.y + a.size.y) <==> (c.pos.x
                <= y <= c.pos.x + c.size.x && c.pos.y <= w - x <= c.pos.y + c.size.y)
        }),
        final(out)@[old(out)@.len() as int] == dims_told(after.w, after.h),
        rect matches Some((p, s)) ==> final(out)@.last() == size_told(s.y, s.x),
        rect is None ==> (final(out)@.last() matches Effect::Output(
            SketchBoardOutput::ContentSizeChanged { width, height },
        ) && -1_000_000 <= 2 * (width * 1_000_000 - after.w * UNIT * zoom) <= 1_000_000 && -1_000_000
            <= 2 * (height * 1_000_000 - after.h * UNIT * zoom) <= 1_000_000),
{
    crate::laws::canvas::lemma_zoomed_size(after, zoom);
}

/// A crop of the whole image stays one when the image gets another size.
pub proof fn lemma_resized_whole(
    b: &mut SketchBoard,
    before: Dims,
    after: Dims,
    crop_out: &mut Vec<CropMessage>,
    out: &mut Vec<Effect>,
)
    requires
        after.ok(),
        call_ensures(CropTool::is_full_image_crop, (&old(b).crop_tool,), true),
        call_ensures(SketchBoard::image_resized, (b, before, Some(after), crop_out, out), ()),
    ensures
        *final(b) == (SketchBoard { crop_tool: final(b).crop_tool, ..*old(b) }),
        final(b).crop_tool.crop is Some,
        ({
            let c = final(b).crop_tool.crop->0;
            &&& c.pos.x == 0 && c.pos.y == 0
            &&& c.size.x == after.w * 65536 && c.size.y == after.h * 65536
        }),
        final(out)@.last() == dims_told(after.w, after.h),
{
}

/// Going back or forth in history undoes a turn of the crop with that of the
/// image; where the size stays, nothing is told.
pub proof fn lemma_history(
    b: &mut SketchBoard,
    dims: Dims,
    before: Dims,
    crop_out: &mut Vec<CropMessage>,
    out: &mut Vec<Effect>,
    x: int,
    y: int,
)
    requires
        before.ok(),
        old(b).crop_tool.crop is Some,
        old(b).crop_tool.crop->0.size.x >= 0,
        old(b).crop_tool.crop->0.size.y >= 0,
        call_ensures(
            SketchBoard::after_history_step,
            (b, dims, dims, Some((CanvasTransform::RotateCw, before)), crop_out, out),
            (),
        ),
    ensures
        *final(b) == (SketchBoard { crop_tool: final(b).crop_tool, ..*old(b) }),
        final(b).crop_tool.crop is Some,
        final(out)@ == old(out)@,
        ({
            let (a, c) = (old(b).crop_tool.crop->0, final(b).crop_tool.crop->0);
            let h = before.h * UNIT;
            (a.pos.x <= x <= a.pos.x + a.size.x && a.pos.y <= y <= a.pos.y + a.size.y) <==> (c.pos.x
                <= h - y <= c.pos.x + c.size.x && c.pos.y <= x <= c.pos.y + c.size.y)
        }),
{
}

/// A step in history that changes the size of the image tells it.
pub proof fn lemma_history_tells(
    b: &mut SketchBoard,
    before: Dims,
    now: Dims,
    crop_out: &mut Vec<CropMessage>,
    out: &mut Vec<Effect>,
)
    requires
        now.ok(),
        now != before,
        old(b).crop_tool.crop is None,
        call_ensures(SketchBoard::after_history_step, (b, before, now, None, crop_out, out), ()),
    ensures
        *final(b) == (SketchBoard { crop_tool: final(b).crop_tool, ..*old(b) }),
        final(out)@.len() == old(out)@.len() + 3,
        final(out)@[old(out)@.len() as int] == Effect::ResetSize(0),
        final(out)@[old(out)@.len() + 1int] == dims_told(now.w, now.h),
        final(b).crop_tool.image_bounds is Some,
        final(b).crop_tool.image_bounds->0.x == now.w * 65536,
        final(b).crop_tool.image_bounds->0.y == now.h * 65536,
{
}

/// Each zoom command does what it says, then redraws.
pub proof fn lemma_zoom(b: SketchBoard, cmd: ZoomCommand, out: &mut Vec<Effect>, scale: i64)
    requires
        call_ensures(SketchBoard::handle_zoom_command, (&b, cmd, out), ()),
    ensures
        ({
            let e = final(out)@[old(out)@.len() as int];
            &&& cmd == ZoomCommand::In ==> e == Effect::ZoomIn
            &&& cmd == ZoomCommand::Out ==> e == Effect::ZoomOut
            &&& cmd == ZoomCommand::FitCanvas ==> e == Effect::ResetSize(0)
            &&& cmd == ZoomCommand::Abs(scale) ==> e == Effect::ResetSize(scale)
        }),
        final(out)@.last() == Effect::Render(None),
{
}

/// A pinch zooms by its factor, unless that is none or does nothing.
pub proof fn lemma_pinch(
    b: SketchBoard,
    factor: i64,
    out: &mut Vec<Effect>,
    r: ToolUpdateResult<LayerEdit>,
)
    requires
        call_ensures(SketchBoard::handle_pinch, (&b, factor, out), r),
    ensures
        factor > 0 && factor != 1_000_000 ==> final(out)@ == old(out)@ + seq![
            Effect::ZoomBy(factor),
            Effect::Render(None),
        ],
        factor <= 0 || factor == 1_000_000 ==> final(out)@ == old(out)@,
{
}

} // verus!
