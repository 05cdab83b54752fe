//! What growing, cutting and scaling the image come to.
use vstd::prelude::*;
use crate::board::canvas::{
    cut, grown_rect, hull_of, near, scaling, zoom_effects, zoomed, Dims, Growth, Hull,
};
use crate::board::layers::{layer_of, Layer};
use crate::board::messages::ZoomCommand;
use crate::board::{Effect, SketchBoard};
use crate::math::{Rect, Vec2D};
use crate::tools::{DrawableId, Tools};
use crate::units::{input_ok, MICRO, UNIT};

verus! {

/// `b` lies inside `h`.
pub open spec fn covers(h: Hull, b: Rect) -> bool {
    &&& h.left <= b.pos.x && h.top <= b.pos.y
    &&& b.pos.x + b.size.x <= h.right && b.pos.y + b.size.y <= h.bottom
}

/// The hull of some drawables covers the bounds of each of them, and there is
/// one as soon as one of them has bounds.
pub proof fn lemma_hull_covers_drawables(ids: Seq<DrawableId>, layers: Seq<Layer>, i: int)
    requires
        0 <= i < ids.len(),
        crate::board::panel::layers_ok(layers),
        layer_of(layers, ids[i]) is Some,
        layer_of(layers, ids[i])->0.bounds is Some,
    ensures
        hull_of(ids, layers) is Some,
        covers(hull_of(ids, layers)->0, layer_of(layers, ids[i])->0.bounds->0),
    decreases ids.len(),
{
    let rest = ids.drop_last();
    lemma_hull_in_range(rest, layers);
    crate::board::panel::lemma_layer_ok(layers, ids[i]);
    crate::board::panel::lemma_layer_ok(layers, ids.last());
    if i < rest.len() {
        assert(rest[i] == ids[i]);
        lemma_hull_covers_drawables(rest, layers, i);
    }
}

proof fn lemma_hull_in_range(ids: Seq<DrawableId>, layers: Seq<Layer>)
    requires
        crate::board::panel::layers_ok(layers),
    ensures
        hull_of(ids, layers) matches Some(h) ==> h.ok(),
    decreases ids.len(),
{
    if ids.len() > 0 {
        lemma_hull_in_range(ids.drop_last(), layers);
        crate::board::panel::lemma_layer_ok(layers, ids.last());
    }
}

/// The edges of the hull are edges of the drawables.
pub proof fn lemma_hull_is_tight(ids: Seq<DrawableId>, layers: Seq<Layer>)
    requires
        crate::board::panel::layers_ok(layers),
        hull_of(ids, layers) is Some,
    ensures
        ({
            let h = hull_of(ids, layers)->0;
            &&& exists|i: int| #[trigger] has_box(ids, layers, i) && box_of(ids, layers, i).pos.x
                == h.left
            &&& exists|i: int| #[trigger] has_box(ids, layers, i) && box_of(ids, layers, i).pos.y
                == h.top
            &&& exists|i: int| #[trigger]
                has_box(ids, layers, i) && box_of(ids, layers, i).pos.x + box_of(
                    ids,
                    layers,
                    i,
                ).size.x == h.right
            &&& exists|i: int| #[trigger]
                has_box(ids, layers, i) && box_of(ids, layers, i).pos.y + box_of(
                    ids,
                    layers,
                    i,
                ).size.y == h.bottom
        }),
    decreases ids.len(),
{
    let rest = ids.drop_last();
    lemma_hull_in_range(rest, layers);
    crate::board::panel::lemma_layer_ok(layers, ids.last());
    let n = ids.len() - 1;
    assert forall|i: int| #[trigger] has_box(rest, layers, i) implies has_box(ids, layers, i)
        && box_of(rest, layers, i) == box_of(ids, layers, i) by {
        assert(rest[i] == ids[i]);
    }
    if hull_of(rest, layers) is Some {
        lemma_hull_is_tight(rest, layers);
        let h = hull_of(rest, layers)->0;
        let a = choose|i: int| #[trigger]
            has_box(rest, layers, i) && box_of(rest, layers, i).pos.x == h.left;
        let b = choose|i: int| #[trigger]
            has_box(rest, layers, i) && box_of(rest, layers, i).pos.y == h.top;
        let c = choose|i: int| #[trigger]
            has_box(rest, layers, i) && box_of(rest, layers, i).pos.x + box_of(
                rest,
                layers,
                i,
            ).size.x == h.right;
        let d = choose|i: int| #[trigger]
            has_box(rest, layers, i) && box_of(rest, layers, i).pos.y + box_of(
                rest,
                layers,
                i,
            ).size.y == h.bottom;
        assert(has_box(ids, layers, a) && has_box(ids, layers, b) && has_box(ids, layers, c)
            && has_box(ids, layers, d));
    }
    if layer_of(layers, ids.last()) is Some && layer_of(layers, ids.last())->0.bounds is Some {
        assert(has_box(ids, layers, n));
    }
}

/// Drawable `i` of `ids` exists and has bounds.
pub open spec fn has_box(ids: Seq<DrawableId>, layers: Seq<Layer>, i: int) -> bool {
    &&& 0 <= i < ids.len()
    &&& layer_of(layers, ids[i]) is Some
    &&& layer_of(layers, ids[i])->0.bounds is Some
}

/// The bounds of drawable `i` of `ids`.
pub open spec fn box_of(ids: Seq<DrawableId>, layers: Seq<Layer>, i: int) -> Rect {
    layer_of(layers, ids[i])->0.bounds->0
}

/// Without an applied crop it is the image that grows. With one, the crop
/// grows when a drawing sticks out of it. Nothing does while cropping.
pub proof fn lemma_what_grows(b: SketchBoard, ids: Seq<DrawableId>, layers: Seq<Layer>)
    requires
        b.wf(),
    ensures
        b.active_tool == Tools::Crop ==> b.growth_spec(ids, layers) == Growth::Nothing,
        b.active_tool != Tools::Crop && b.crop_tool.committed_rect_spec() is None ==> b.growth_spec(
            ids,
            layers,
        ) == Growth::Image,
        b.active_tool != Tools::Crop && b.crop_tool.committed_rect_spec() is Some ==> {
            let (p, s) = b.crop_tool.committed_rect_spec()->0;
            let (l, t) = (p.x as int, p.y as int);
            let (r, e) = (p.x + s.x, p.y + s.y);
            let g = b.growth_spec(ids, layers);
            match hull_of(ids, layers) {
                None => g == Growth::Nothing,
                Some(h) => if l <= h.left && t <= h.top && h.right <= r && h.bottom <= e {
                    g == Growth::Nothing
                } else {
                    &&& g is Crop
                    &&& g->touched == h
                    &&& g->crop.left == l && g->crop.top == t
                    &&& g->crop.right == r && g->crop.bottom == e
                },
            }
        },
{
}

/// A grown crop reaches no further than the old one and the drawings: each of
/// its edges is one of theirs, or that of the image.
pub proof fn lemma_grown_crop_is_tight(crop: Hull, touched: Hull, offset: Vec2D, dims: Dims)
    requires
        near(crop),
        touched.ok(),
        input_ok(offset.x as int),
        input_ok(offset.y as int),
        dims.ok(),
    ensures
        ({
            let (p, s) = grown_rect(crop, touched, offset, dims);
            let (l, t) = (p.x - offset.x, p.y - offset.y);
            let (r, b) = (p.x + s.x - offset.x, p.y + s.y - offset.y);
            &&& p.x == 0 || l == crop.left || l == touched.left
            &&& p.y == 0 || t == crop.top || t == touched.top
            &&& p.x + s.x == dims.w * UNIT || r == crop.right || r == touched.right
            &&& p.y + s.y == dims.h * UNIT || b == crop.bottom || b == touched.bottom
        }),
{
}

/// What is cut to the image keeps what lies on the image, and nothing else.
pub proof fn lemma_cut_keeps_what_is_on_the_image(pos: Vec2D, size: Vec2D, dims: Dims, x: int, y: int)
    requires
        dims.ok(),
        pos.ok(),
        size.ok(),
    ensures
        ({
            let (p, s) = cut(pos, size, dims);
            (p.x <= x <= p.x + s.x && p.y <= y <= p.y + s.y) <==> {
                &&& pos.x <= x <= pos.x + size.x && pos.y <= y <= pos.y + size.y
                &&& 0 <= x <= dims.w * 65536 && 0 <= y <= dims.h * 65536
            }
        }),
{
}

/// Scaling an image carries its far corner to its new far corner.
pub proof fn lemma_scaled_image_fits(before: Dims, after: Dims)
    requires
        before.ok(),
        after.ok(),
    ensures
        ({
            let t = scaling(before, after);
            &&& t.wf()
            &&& t.new_w(before.w * UNIT, before.h * UNIT) == after.w * UNIT
            &&& t.new_h(before.w * UNIT, before.h * UNIT) == after.h * UNIT
        }),
{
    lemma_exact(before.w as int, after.w as int);
    lemma_exact(before.h as int, after.h as int);
}

proof fn lemma_exact(a: int, b: int)
    requires
        a > 0,
    ensures
        crate::units::div_round_spec(a * UNIT * b, a) == b * UNIT,
{
    let q = crate::units::div_round_spec(a * UNIT * b, a);
    crate::units::lemma_div_round_near(a * UNIT * b, a);
    assert(q == b * UNIT) by (nonlinear_arith)
        requires
            a > 0,
            -a <= 2 * (q * a - a * UNIT * b) <= a,
    ;
}

/// Shown at a scale, an image measures its size times the scale.
pub proof fn lemma_zoomed_size(d: Dims, zoom: i64)
    requires
        d.ok(),
        0 <= zoom <= 1_000_000_000,
    ensures
        -MICRO <= 2 * (zoomed(d, zoom).x * MICRO - d.w * UNIT * zoom) <= MICRO,
        -MICRO <= 2 * (zoomed(d, zoom).y * MICRO - d.h * UNIT * zoom) <= MICRO,
{
    crate::board::canvas::lemma_zoomed(d.w * UNIT, zoom as int);
    crate::board::canvas::lemma_zoomed(d.h * UNIT, zoom as int);
    crate::units::lemma_div_round_near(d.w * UNIT * zoom, MICRO as int);
    crate::units::lemma_div_round_near(d.h * UNIT * zoom, MICRO as int);
}

/// Each zoom command does what it says, then redraws.
pub proof fn lemma_zoom_commands(b: SketchBoard, scale: i64)
    ensures
        zoom_effects(b, ZoomCommand::In)[0] == Effect::ZoomIn,
        zoom_effects(b, ZoomCommand::Out)[0] == Effect::ZoomOut,
        zoom_effects(b, ZoomCommand::FitCanvas)[0] == Effect::ResetSize(0),
        zoom_effects(b, ZoomCommand::Abs(scale))[0] == Effect::ResetSize(scale),
        zoom_effects(b, ZoomCommand::In).last() == Effect::Render(None),
        zoom_effects(b, ZoomCommand::Abs(scale)).last() == Effect::Render(None),
{
}

} // verus!
