//! The image behind the drawings: how it and the crop follow what is drawn
//! and what is done to the whole of it.
use vstd::prelude::*;
use crate::board::layers::{find_layer, layer_of, Layer, LayerEdit};
use crate::board::messages::{SketchBoardOutput, ZoomCommand};
use crate::board::panel::layers_ok;
use crate::board::{Effect, SketchBoard};
use crate::math::{rect_ensure_in_bounds, Rect, Vec2D};
use crate::tools::crop::{Crop, CropMessage, CropTool};
use crate::tools::{CanvasTransform, DrawableId, Ratio, ToolUpdateResult, Tools};
use crate::units::{
    div_round_spec, input_ok, max_len, max_spec, min_len, min_spec, mul_div, px, INPUT_MAX, MICRO,
    UNIT,
};

verus! {

/// Largest scale that the view zooms to, in millionths.
pub const SCALE_MAX: i64 = 1_000_000_000;

/// The edges of a rectangle that covers some drawables.
#[derive(Clone, Copy, Debug, PartialEq, Eq, Structural)]
pub struct Hull {
    pub left: i64,
    pub top: i64,
    pub right: i64,
    pub bottom: i64,
}

impl Hull {
    /// The edges are those of drawables.
    pub open spec fn ok(&self) -> bool {
        let m = 0x200_0000_0000_0000int;
        -m <= self.left <= m && -m <= self.top <= m && -m <= self.right <= m && -m <= self.bottom
            <= m
    }

    /// The edges of a rectangle.
    pub open spec fn of_spec(b: Rect) -> Hull {
        Hull {
            left: b.pos.x,
            top: b.pos.y,
            right: b.right() as i64,
            bottom: b.bottom() as i64,
        }
    }

    fn of(b: Rect) -> (r: Hull)
        requires
            b.ok(),
        ensures
            r == Hull::of_spec(b),
            r.ok(),
    {
        let br: Vec2D = b.bottom_right();
        Hull { left: b.pos.x, top: b.pos.y, right: br.x, bottom: br.y }
    }

    /// The hull that covers both.
    pub open spec fn join_spec(self, o: Hull) -> Hull {
        Hull {
            left: min_spec(self.left as int, o.left as int) as i64,
            top: min_spec(self.top as int, o.top as int) as i64,
            right: max_spec(self.right as int, o.right as int) as i64,
            bottom: max_spec(self.bottom as int, o.bottom as int) as i64,
        }
    }

    fn join(self, o: Hull) -> (r: Hull)
        requires
            self.ok(),
            o.ok(),
        ensures
            r == self.join_spec(o),
            r.ok(),
    {
        Hull {
            left: min_len(self.left, o.left),
            top: min_len(self.top, o.top),
            right: max_len(self.right, o.right),
            bottom: max_len(self.bottom, o.bottom),
        }
    }

    /// All of it lies inside the other.
    pub open spec fn inside(&self, o: Hull) -> bool {
        o.left <= self.left && o.top <= self.top && self.right <= o.right && self.bottom
            <= o.bottom
    }
}

/// The hull of those of some drawables that exist and have bounds.
pub open spec fn hull_of(ids: Seq<DrawableId>, layers: Seq<Layer>) -> Option<Hull>
    decreases ids.len(),
{
    if ids.len() == 0 {
        None
    } else {
        let rest = hull_of(ids.drop_last(), layers);
        match layer_of(layers, ids.last()) {
            Some(Layer { bounds: Some(b), .. }) => Some(
                match rest {
                    Some(h) => h.join_spec(Hull::of_spec(b)),
                    None => Hull::of_spec(b),
                },
            ),
            _ => rest,
        }
    }
}

proof fn lemma_bounds_ok(layers: Seq<Layer>, id: DrawableId)
    requires
        layers_ok(layers),
    ensures
        layer_of(layers, id) matches Some(d) ==> (d.bounds matches Some(b) ==> b.ok()),
    decreases layers.len(),
{
    if layers.len() > 0 && layers[0].id != id {
        let rest = layers.drop_first();
        assert forall|i: int| 0 <= i < rest.len() implies ((#[trigger] rest[i]).bounds matches Some(
            b,
        ) ==> b.ok()) by {
            assert(rest[i] == layers[i + 1]);
        }
        lemma_bounds_ok(rest, id);
    } else if layers.len() > 0 {
        assert(layers[0].bounds matches Some(b) ==> b.ok());
    }
}

/// Works out the hull of some drawables.
pub fn find_hull(ids: &Vec<DrawableId>, layers: &Vec<Layer>) -> (r: Option<Hull>)
    requires
        layers_ok(layers@),
    ensures
        r == hull_of(ids@, layers@),
        r matches Some(h) ==> h.ok(),
{
    let mut hull: Option<Hull> = None;
    let mut i: usize = 0;
    while i < ids.len()
        invariant
            layers_ok(layers@),
            i <= ids@.len(),
            hull == hull_of(ids@.take(i as int), layers@),
            hull matches Some(h) ==> h.ok(),
        decreases ids.len() - i,
    {
        let id: DrawableId = ids[i];
        proof {
            let t = ids@.take(i + 1);
            assert(t.drop_last() =~= ids@.take(i as int));
            assert(t.last() == id);
            lemma_bounds_ok(layers@, id);
        }
        if let Some(d) = find_layer(layers, id) {
            if let Some(b) = d.bounds {
                let one: Hull = Hull::of(b);
                hull = match hull {
                    Some(h) => Some(h.join(one)),
                    None => Some(one),
                };
            }
        }
        i = i + 1;
    }
    assert(ids@.take(ids@.len() as int) =~= ids@);
    hull
}

/// What has to grow after some drawables changed.
#[derive(Clone, Copy, Debug, PartialEq, Eq, Structural)]
pub enum Growth {
    Nothing,
    /// The image, where a drawable sticks out.
    Image,
    /// The image likewise, and the crop, so that it covers these drawables.
    Crop { crop: Hull, touched: Hull },
}

/// Width and height of an image, in pixels.
#[derive(Clone, Copy, Debug, PartialEq, Eq, Structural)]
pub struct Dims {
    pub w: i32,
    pub h: i32,
}

impl Dims {
    /// An image that is not empty.
    pub open spec fn ok(&self) -> bool {
        self.w >= 1 && self.h >= 1
    }

    /// The size in sub-units.
    pub open spec fn size_spec(&self) -> Vec2D {
        Vec2D { x: (self.w * UNIT) as i64, y: (self.h * UNIT) as i64 }
    }

    /// The size in sub-units.
    pub fn size(&self) -> (r: Vec2D)
        ensures
            r == self.size_spec(),
    {
        Vec2D::new(px(self.w), px(self.h))
    }

    /// Tells of the size of the image.
    pub open spec fn told(&self) -> Effect {
        Effect::Output(SketchBoardOutput::ImageDimensionsChanged { width: self.w, height: self.h })
    }
}

/// Tells of the size of what is shown.
pub open spec fn content_told(size: Vec2D) -> Effect {
    Effect::Output(SketchBoardOutput::ContentSizeChanged { width: size.x, height: size.y })
}

fn tell_content(size: Vec2D, out: &mut Vec<Effect>)
    ensures
        final(out)@ == old(out)@.push(content_told(size)),
{
    out.push(
        Effect::Output(SketchBoardOutput::ContentSizeChanged { width: size.x, height: size.y }),
    );
}

fn tell_dims(dims: Dims, out: &mut Vec<Effect>)
    ensures
        final(out)@ == old(out)@.push(dims.told()),
{
    out.push(
        Effect::Output(
            SketchBoardOutput::ImageDimensionsChanged { width: dims.w, height: dims.h },
        ),
    );
}

impl SketchBoard {
    /// The committed crop, as a hull.
    pub open spec fn crop_hull(&self) -> Option<Hull> {
        match self.crop_tool.committed_rect_spec() {
            Some((p, s)) => Some(Hull::of_spec(Rect { pos: p, size: s })),
            None => None,
        }
    }

    /// What has to grow after these drawables changed. Nothing does while the
    /// crop is being edited.
    pub open spec fn growth_spec(&self, ids: Seq<DrawableId>, layers: Seq<Layer>) -> Growth {
        if self.active_tool == Tools::Crop {
            Growth::Nothing
        } else {
            match self.crop_hull() {
                None => Growth::Image,
                Some(crop) => match hull_of(ids, layers) {
                    Some(touched) if !touched.inside(crop) => Growth::Crop { crop, touched },
                    _ => Growth::Nothing,
                },
            }
        }
    }

    /// What has to grow after these drawables changed.
    pub fn growth(&self, ids: &Vec<DrawableId>, layers: &Vec<Layer>) -> (r: Growth)
        requires
            self.wf(),
            layers_ok(layers@),
        ensures
            r == self.growth_spec(ids@, layers@),
            r matches Growth::Crop { touched, .. } ==> touched.ok(),
    {
        if self.active_tool == Tools::Crop {
            return Growth::Nothing;
        }
        let Some((pos, size)) = self.crop_tool.get_committed_rect() else {
            return Growth::Image;
        };
        let crop: Hull = Hull {
            left: pos.x,
            top: pos.y,
            right: pos.x + size.x,
            bottom: pos.y + size.y,
        };
        match find_hull(ids, layers) {
            Some(touched) => {
                if touched.left >= crop.left && touched.top >= crop.top && touched.right
                    <= crop.right && touched.bottom <= crop.bottom {
                    Growth::Nothing
                } else {
                    Growth::Crop { crop, touched }
                }
            },
            None => Growth::Nothing,
        }
    }

    /// The image has grown, or not, for what was drawn, and there is no crop.
    pub fn auto_resize_canvas(&mut self, resized: Option<Dims>, out: &mut Vec<Effect>)
        requires
            old(self).wf(),
            resized matches Some(d) ==> d.ok(),
        ensures
            final(self).wf(),
            match resized {
                None => *final(self) == *old(self) && final(out)@ == old(out)@,
                Some(d) => {
                    &&& *final(self) == (SketchBoard {
                        crop_tool: CropTool {
                            image_bounds: Some(d.size_spec()),
                            ..old(self).crop_tool
                        },
                        ..*old(self)
                    })
                    &&& final(out)@ == old(out)@ + seq![
                        Effect::ResetSize(0),
                        d.told(),
                        content_told(d.size_spec()),
                        Effect::GrabFocus,
                    ]
                },
            },
    {
        if let Some(d) = resized {
            let size: Vec2D = d.size();
            self.crop_tool.set_image_bounds(size);
            out.push(Effect::ResetSize(0));
            tell_dims(d, out);
            tell_content(size, out);
            out.push(Effect::GrabFocus);
            assert(out@ =~= old(out)@ + seq![
                Effect::ResetSize(0),
                d.told(),
                content_told(d.size_spec()),
                Effect::GrabFocus,
            ]);
        }
    }

    /// The crop grows to cover what was drawn, as far as the image goes.
    /// `offset` is how far the drawings moved when the image grew for them.
    pub fn auto_grow_crop(
        &mut self,
        crop: Hull,
        touched: Hull,
        offset: Vec2D,
        dims: Dims,
        out: &mut Vec<Effect>,
    )
        requires
            old(self).wf(),
            near(crop),
            touched.ok(),
            input_ok(offset.x as int),
            input_ok(offset.y as int),
            dims.ok(),
        ensures
            final(self).wf(),
            ({
                let (pos, size) = grown_rect(crop, touched, offset, dims);
                &&& *final(self) == (SketchBoard {
                    crop_tool: CropTool {
                        crop: match old(self).crop_tool.crop {
                            Some(c) if c.committed => Some(
                                Crop { pos, size, last_committed: Some((pos, size)), ..c },
                            ),
                            other => other,
                        },
                        image_bounds: Some(dims.size_spec()),
                        ..old(self).crop_tool
                    },
                    ..*old(self)
                })
                &&& final(out)@ == old(out)@ + seq![
                    dims.told(),
                    content_told(size),
                    Effect::GrabFocus,
                ]
            }),
    {
        let all: Hull = crop.join(touched);
        let size: Vec2D = dims.size();
        let left: i64 = max_len(all.left + offset.x, 0);
        let top: i64 = max_len(all.top + offset.y, 0);
        let right: i64 = min_len(all.right + offset.x, size.x);
        let bottom: i64 = min_len(all.bottom + offset.y, size.y);
        let gpos: Vec2D = Vec2D::new(left, top);
        let gsize: Vec2D = Vec2D::new(right - left, bottom - top);
        self.crop_tool.set_committed_rect(gpos, gsize);
        self.crop_tool.set_image_bounds(size);
        tell_dims(dims, out);
        tell_content(gsize, out);
        out.push(Effect::GrabFocus);
        assert(out@ =~= old(out)@ + seq![dims.told(), content_told(gsize), Effect::GrabFocus]);
    }
}

/// The rectangle is not much further out than what reaches the geometry from
/// outside.
pub open spec fn near(h: Hull) -> bool {
    let m = 2 * INPUT_MAX;
    &&& -m <= h.left <= h.right <= m
    &&& -m <= h.top <= h.bottom <= m
}

/// The crop that covers the old one and the drawings, as far as the image
/// goes.
pub open spec fn grown_rect(crop: Hull, touched: Hull, offset: Vec2D, dims: Dims) -> (Vec2D, Vec2D) {
    let all = crop.join_spec(touched);
    let size = dims.size_spec();
    let left = max_spec(all.left + offset.x, 0);
    let top = max_spec(all.top + offset.y, 0);
    let right = min_spec(all.right + offset.x, size.x as int);
    let bottom = min_spec(all.bottom + offset.y, size.y as int);
    (
        Vec2D { x: left as i64, y: top as i64 },
        Vec2D { x: (right - left) as i64, y: (bottom - top) as i64 },
    )
}

/// A grown crop covers the old crop and the drawings wherever these lie on
/// the image, and it never leaves the image.
pub proof fn lemma_grown_crop_covers(
    crop: Hull,
    touched: Hull,
    offset: Vec2D,
    dims: Dims,
    x: int,
    y: int,
)
    requires
        near(crop),
        touched.ok(),
        input_ok(offset.x as int),
        input_ok(offset.y as int),
        dims.ok(),
        0 <= x <= dims.w * UNIT,
        0 <= y <= dims.h * UNIT,
    ensures
        ({
            let (pos, size) = grown_rect(crop, touched, offset, dims);
            let in_crop = crop.left + offset.x <= x <= crop.right + offset.x && crop.top + offset.y
                <= y <= crop.bottom + offset.y;
            let in_touched = touched.left + offset.x <= x <= touched.right + offset.x && touched.top
                + offset.y <= y <= touched.bottom + offset.y;
            &&& in_crop || in_touched ==> pos.x <= x <= pos.x + size.x && pos.y <= y <= pos.y
                + size.y
            &&& 0 <= pos.x && 0 <= pos.y
            &&& pos.x + size.x <= dims.w * UNIT && pos.y + size.y <= dims.h * UNIT
        }),
{
}

/// A rectangle cut down to the image.
pub open spec fn cut(pos: Vec2D, size: Vec2D, dims: Dims) -> (Vec2D, Vec2D) {
    let b = dims.size_spec();
    let left = max_spec(pos.x as int, 0);
    let top = max_spec(pos.y as int, 0);
    (
        Vec2D { x: left as i64, y: top as i64 },
        Vec2D {
            x: (min_spec(pos.x + size.x, b.x as int) - left) as i64,
            y: (min_spec(pos.y + size.y, b.y as int) - top) as i64,
        },
    )
}

impl SketchBoard {
    /// The board after the image got another size: the crop is cut down to
    /// it.
    pub open spec fn refitted(self, dims: Dims) -> SketchBoard {
        let bounds = Some(dims.size_spec());
        SketchBoard {
            crop_tool: match self.crop_tool.committed_rect_spec() {
                Some((p, s)) => {
                    let (pos, size) = cut(p, s, dims);
                    CropTool {
                        crop: match self.crop_tool.crop {
                            Some(c) => Some(
                                Crop { pos, size, last_committed: Some((pos, size)), ..c },
                            ),
                            None => None,
                        },
                        image_bounds: bounds,
                        ..self.crop_tool
                    }
                },
                None => CropTool { image_bounds: bounds, ..self.crop_tool },
            },
            ..self
        }
    }

    /// What is said of an image that got another size.
    pub open spec fn refit_effects(&self, dims: Dims) -> Seq<Effect> {
        match self.crop_tool.committed_rect_spec() {
            Some((p, s)) => seq![
                Effect::ResetSize(MICRO),
                dims.told(),
                content_told(cut(p, s, dims).1),
            ],
            None => seq![Effect::ResetSize(0), dims.told(), content_told(dims.size_spec())],
        }
    }

    /// The image got another size by undoing or redoing.
    pub fn refit_after_dims_change(&mut self, dims: Dims, out: &mut Vec<Effect>)
        requires
            old(self).wf(),
            old(self).crop_hull() matches Some(h) ==> near(h),
            dims.ok(),
        ensures
            final(self).wf(),
            *final(self) == old(self).refitted(dims),
            final(out)@ == old(out)@ + old(self).refit_effects(dims),
    {
        let bounds: Vec2D = dims.size();
        let committed: Option<(Vec2D, Vec2D)> = self.crop_tool.get_committed_rect();
        self.crop_tool.set_image_bounds(bounds);
        match committed {
            Some((pos, size)) => {
                let (cpos, csize): (Vec2D, Vec2D) = rect_ensure_in_bounds(
                    pos,
                    size,
                    Vec2D::zero(),
                    bounds,
                );
                self.crop_tool.set_committed_rect(cpos, csize);
                out.push(Effect::ResetSize(MICRO));
                tell_dims(dims, out);
                tell_content(csize, out);
            },
            None => {
                out.push(Effect::ResetSize(0));
                tell_dims(dims, out);
                tell_content(bounds, out);
            },
        }
        assert(out@ =~= old(out)@ + old(self).refit_effects(dims));
    }

    /// Carries the crop through a transform of the whole image, and says
    /// where a committed crop went.
    pub fn transform_crop(
        &mut self,
        t: CanvasTransform,
        before: Dims,
        after: Dims,
        crop_out: &mut Vec<CropMessage>,
    ) -> (r: Option<Rect>)
        requires
            old(self).wf(),
            t.wf(),
            before.ok(),
            after.ok(),
            old(self).crop_tool.survives(t, before.w * UNIT, before.h * UNIT),
        ensures
            final(self).wf(),
            old(self).crop_transformed(t, before, after, *final(self), old(crop_out)@, final(crop_out)@),
            r is Some == old(self).crop_tool.committed_rect_spec() is Some,
            r matches Some(m) ==> {
                &&& old(self).crop_tool.committed_rect_spec() matches Some((p, s))
                &&& t.is_mapped_rect(
                    Rect { pos: p, size: s },
                    before.w * UNIT,
                    before.h * UNIT,
                    m,
                )
            },
    {
        let committed: Option<(Vec2D, Vec2D)> = self.crop_tool.get_committed_rect();
        let size: Vec2D = before.size();
        self.crop_tool.set_image_bounds(after.size());
        self.crop_tool.apply_canvas_transform(t, size.x, size.y, crop_out);
        match (committed, self.crop_tool.crop) {
            (Some(_), Some(c)) => Some(Rect::new(c.pos, c.size)),
            _ => None,
        }
    }

    /// The crop was carried through a transform of the whole image; nothing
    /// else changed.
    pub open spec fn crop_transformed(
        &self,
        t: CanvasTransform,
        before: Dims,
        after: Dims,
        b: SketchBoard,
        msgs: Seq<CropMessage>,
        msgs_after: Seq<CropMessage>,
    ) -> bool {
        let bounded = CropTool { image_bounds: Some(after.size_spec()), ..self.crop_tool };
        &&& b == (SketchBoard { crop_tool: b.crop_tool, ..*self })
        &&& bounded.transform_step(
            t,
            before.size_spec().x,
            before.size_spec().y,
            b.crop_tool,
            msgs,
            msgs_after,
        )
    }

    /// The image was mirrored.
    pub fn image_flipped(
        &mut self,
        before: Dims,
        after: Option<Dims>,
        crop_out: &mut Vec<CropMessage>,
    )
        requires
            old(self).wf(),
            before.ok(),
            after matches Some(d) ==> d.ok(),
            old(self).crop_tool.survives(
                CanvasTransform::FlipHorizontal,
                before.w * UNIT,
                before.h * UNIT,
            ),
        ensures
            final(self).wf(),
            match after {
                Some(d) => old(self).crop_transformed(
                    CanvasTransform::FlipHorizontal,
                    before,
                    d,
                    *final(self),
                    old(crop_out)@,
                    final(crop_out)@,
                ),
                None => *final(self) == *old(self) && final(crop_out)@ == old(crop_out)@,
            },
    {
        if let Some(d) = after {
            let _ = self.transform_crop(CanvasTransform::FlipHorizontal, before, d, crop_out);
        }
    }

    /// The image was turned counter-clockwise while it was shown at `zoom`
    /// millionths.
    pub fn image_rotated(
        &mut self,
        before: Dims,
        after: Option<Dims>,
        zoom: i64,
        crop_out: &mut Vec<CropMessage>,
        out: &mut Vec<Effect>,
    )
        requires
            old(self).wf(),
            before.ok(),
            after matches Some(d) ==> d.ok(),
            0 <= zoom <= SCALE_MAX,
            old(self).crop_tool.survives(
                CanvasTransform::RotateCcw,
                before.w * UNIT,
                before.h * UNIT,
            ),
        ensures
            final(self).wf(),
            match after {
                Some(d) => {
                    &&& old(self).crop_transformed(
                        CanvasTransform::RotateCcw,
                        before,
                        d,
                        *final(self),
                        old(crop_out)@,
                        final(crop_out)@,
                    )
                    &&& final(out)@ == old(out)@.push(d.told()) + (match old(self).crop_tool.committed_rect_spec() {
                        Some((_, s)) => seq![
                            Effect::ResetSize(MICRO),
                            content_told(Vec2D { x: s.y, y: s.x }),
                        ],
                        None => seq![
                            Effect::ResetSize(zoom),
                            content_told(zoomed(d, zoom)),
                        ],
                    })
                },
                None => *final(self) == *old(self) && final(crop_out)@ == old(crop_out)@
                    && final(out)@ == old(out)@,
            },
    {
        if let Some(d) = after {
            let mapped: Option<Rect> = self.transform_crop(
                CanvasTransform::RotateCcw,
                before,
                d,
                crop_out,
            );
            tell_dims(d, out);
            match mapped {
                Some(m) => {
                    out.push(Effect::ResetSize(MICRO));
                    tell_content(m.size, out);
                },
                None => {
                    out.push(Effect::ResetSize(zoom));
                    tell_content(zoomed_size(d, zoom), out);
                },
            }
            assert(out@ =~= old(out)@.push(d.told()) + (match old(self).crop_tool.committed_rect_spec() {
                Some((_, s)) => seq![
                    Effect::ResetSize(MICRO),
                    content_told(Vec2D { x: s.y, y: s.x }),
                ],
                None => seq![Effect::ResetSize(zoom), content_told(zoomed(d, zoom))],
            }));
        }
    }

    /// The image was scaled.
    pub fn image_resized(
        &mut self,
        before: Dims,
        after: Option<Dims>,
        crop_out: &mut Vec<CropMessage>,
        out: &mut Vec<Effect>,
    )
        requires
            old(self).wf(),
            before.ok(),
            after matches Some(d) ==> d.ok() && (old(self).crop_tool.full_image_spec() || old(self).crop_tool.survives(scaling(before, d), before.w * UNIT, before.h * UNIT)),
        ensures
            final(self).wf(),
            match after {
                Some(d) => if old(self).crop_tool.full_image_spec() {
                    let bounded = CropTool {
                        image_bounds: Some(d.size_spec()),
                        ..old(self).crop_tool
                    };
                    &&& *final(self) == (SketchBoard {
                        crop_tool: final(self).crop_tool,
                        ..*old(self)
                    })
                    &&& bounded.seed_step(
                        true,
                        final(self).crop_tool,
                        old(crop_out)@,
                        final(crop_out)@,
                    )
                    &&& final(out)@ == old(out)@ + seq![Effect::ResetSize(0), d.told()]
                } else {
                    &&& old(self).crop_transformed(
                        scaling(before, d),
                        before,
                        d,
                        *final(self),
                        old(crop_out)@,
                        final(crop_out)@,
                    )
                    &&& final(out)@ == old(out)@ + seq![
                        content_told(d.size_spec()),
                        Effect::ResetSize(0),
                        d.told(),
                    ]
                },
                None => *final(self) == *old(self) && final(crop_out)@ == old(crop_out)@
                    && final(out)@ == old(out)@,
            },
    {
        if let Some(d) = after {
            let pristine: bool = self.crop_tool.is_full_image_crop();
            if pristine {
                self.crop_tool.set_image_bounds(d.size());
                self.crop_tool.revert_to_seed(true, crop_out);
            } else {
                let t: CanvasTransform = CanvasTransform::Scale {
                    sx: Ratio { num: d.w as i64, den: before.w as i64 },
                    sy: Ratio { num: d.h as i64, den: before.h as i64 },
                };
                let _ = self.transform_crop(t, before, d, crop_out);
                tell_content(d.size(), out);
            }
            out.push(Effect::ResetSize(0));
            tell_dims(d, out);
            assert(pristine ==> out@ =~= old(out)@ + seq![Effect::ResetSize(0), d.told()]);
            assert(!pristine ==> out@ =~= old(out)@ + seq![
                content_told(d.size_spec()),
                Effect::ResetSize(0),
                d.told(),
            ]);
        }
    }

    /// A step in the history was undone or redone: the crop follows a
    /// transform of the whole image, and another size of it.
    pub fn after_history_step(
        &mut self,
        before: Dims,
        now: Dims,
        op: Option<(CanvasTransform, Dims)>,
        crop_out: &mut Vec<CropMessage>,
        out: &mut Vec<Effect>,
    )
        requires
            old(self).wf(),
            now.ok(),
            op matches Some((t, d)) ==> t.wf() && d.ok() && old(self).crop_tool.survives(
                t,
                d.w * UNIT,
                d.h * UNIT,
            ),
            op is None ==> (old(self).crop_hull() matches Some(h) ==> near(h)),
        ensures
            final(self).wf(),
            stepped_back(
                *old(self),
                before,
                now,
                op,
                old(crop_out)@,
                old(out)@,
                *final(self),
                final(crop_out)@,
                final(out)@,
            ),
    {
        if let Some((t, d)) = op {
            let size: Vec2D = d.size();
            self.crop_tool.apply_canvas_transform(t, size.x, size.y, crop_out);
        }
        let ghost mid = *self;
        let ghost mid_msgs = crop_out@;
        assert(history_transformed(*old(self), op, old(crop_out)@, mid, mid_msgs));
        if now.w != before.w || now.h != before.h {
            assert(mid.crop_hull() matches Some(h) ==> near(h));
            self.refit_after_dims_change(now, out);
        }
    }
}

/// Only the crop was carried through the transform of a history step.
pub open spec fn history_transformed(
    a: SketchBoard,
    op: Option<(CanvasTransform, Dims)>,
    msgs: Seq<CropMessage>,
    b: SketchBoard,
    msgs_after: Seq<CropMessage>,
) -> bool {
    match op {
        Some((t, d)) => {
            &&& b == (SketchBoard { crop_tool: b.crop_tool, ..a })
            &&& a.crop_tool.transform_step(
                t,
                d.size_spec().x,
                d.size_spec().y,
                b.crop_tool,
                msgs,
                msgs_after,
            )
        },
        None => b == a && msgs_after == msgs,
    }
}

/// What a step in the history makes of the board.
pub open spec fn stepped_back(
    a: SketchBoard,
    before: Dims,
    now: Dims,
    op: Option<(CanvasTransform, Dims)>,
    msgs: Seq<CropMessage>,
    effects: Seq<Effect>,
    b: SketchBoard,
    msgs_after: Seq<CropMessage>,
    effects_after: Seq<Effect>,
) -> bool {
    exists|mid: SketchBoard| #[trigger]
        history_transformed(a, op, msgs, mid, msgs_after) && if now != before {
            b == mid.refitted(now) && effects_after == effects + mid.refit_effects(now)
        } else {
            b == mid && effects_after == effects
        }
}

/// The transform that an image goes through when it is scaled.
pub open spec fn scaling(before: Dims, after: Dims) -> CanvasTransform {
    CanvasTransform::Scale {
        sx: Ratio { num: after.w as i64, den: before.w as i64 },
        sy: Ratio { num: after.h as i64, den: before.h as i64 },
    }
}

/// Size on screen of an image shown at a scale in millionths.
pub open spec fn zoomed(d: Dims, zoom: i64) -> Vec2D {
    Vec2D {
        x: div_round_spec((d.w * UNIT) * zoom, MICRO as int) as i64,
        y: div_round_spec((d.h * UNIT) * zoom, MICRO as int) as i64,
    }
}

/// A size on screen is in range.
pub proof fn lemma_zoomed(w: int, zoom: int)
    requires
        0 <= w <= 0x8000_0000 * UNIT,
        0 <= zoom <= SCALE_MAX,
    ensures
        0 <= div_round_spec(w * zoom, MICRO as int) <= 0x4000_0000_0000_0000,
{
    assert(0 <= w * zoom <= 0x8000_0000 * 65536 * 1_000_000_000) by (nonlinear_arith)
        requires
            0 <= w <= 0x8000_0000 * 65536,
            0 <= zoom <= 1_000_000_000,
    ;
}

fn zoomed_size(d: Dims, zoom: i64) -> (r: Vec2D)
    requires
        d.ok(),
        0 <= zoom <= SCALE_MAX,
    ensures
        r == zoomed(d, zoom),
{
    proof {
        lemma_zoomed(d.w * UNIT, zoom as int);
        lemma_zoomed(d.h * UNIT, zoom as int);
    }
    Vec2D::new(mul_div(px(d.w), zoom, MICRO), mul_div(px(d.h), zoom, MICRO))
}

/// What zooming asks for.
pub open spec fn zoom_effects(b: SketchBoard, cmd: ZoomCommand) -> Seq<Effect> {
    seq![
        match cmd {
            ZoomCommand::In => Effect::ZoomIn,
            ZoomCommand::Out => Effect::ZoomOut,
            ZoomCommand::FitCanvas => Effect::ResetSize(0),
            ZoomCommand::Abs(scale) => Effect::ResetSize(scale),
        },
    ] + (if b.active_tool == Tools::Crop && b.crop_tool.active_edit_spec() {
        seq![Effect::SyncRenderScale]
    } else {
        Seq::empty()
    }) + seq![Effect::Render(None)]
}

impl SketchBoard {
    /// Zooms. A crop that is being edited is told of the new scale.
    pub fn handle_zoom_command(&self, cmd: ZoomCommand, out: &mut Vec<Effect>)
        ensures
            final(out)@ == old(out)@ + zoom_effects(*self, cmd),
    {
        match cmd {
            ZoomCommand::In => out.push(Effect::ZoomIn),
            ZoomCommand::Out => out.push(Effect::ZoomOut),
            ZoomCommand::FitCanvas => out.push(Effect::ResetSize(0)),
            ZoomCommand::Abs(scale) => out.push(Effect::ResetSize(scale)),
        }
        if self.active_tool == Tools::Crop && self.crop_tool.is_active_edit() {
            out.push(Effect::SyncRenderScale);
        }
        out.push(Effect::Render(None));
        assert(out@ =~= old(out)@ + zoom_effects(*self, cmd));
    }

    /// A pinch: zooms by a factor in millionths, unless it is none.
    pub fn handle_pinch(&self, factor: i64, out: &mut Vec<Effect>) -> (r: ToolUpdateResult<
        LayerEdit,
    >)
        ensures
            r is Redraw,
            final(out)@ == if factor > 0 && factor != MICRO {
                old(out)@ + seq![Effect::ZoomBy(factor), Effect::Render(None)]
            } else {
                old(out)@
            },
    {
        if factor > 0 && factor != MICRO {
            out.push(Effect::ZoomBy(factor));
            out.push(Effect::Render(None));
            assert(out@ =~= old(out)@ + seq![Effect::ZoomBy(factor), Effect::Render(None)]);
        }
        ToolUpdateResult::Redraw
    }

    /// Control and the wheel over a crop being edited: it is scaled by a
    /// factor in millionths.
    pub fn scale_crop(
        &mut self,
        factor: i64,
        crop_out: &mut Vec<CropMessage>,
        out: &mut Vec<Effect>,
    )
        requires
            old(self).wf(),
        ensures
            final(self).wf(),
            *final(self) == (SketchBoard { crop_tool: final(self).crop_tool, ..*old(self) }),
            old(self).crop_tool.scale_step(
                factor,
                true,
                final(self).crop_tool,
                old(crop_out)@,
                final(crop_out)@,
            ) && final(out)@ == old(out)@.push(Effect::Render(None)) || old(self).crop_tool.scale_step(
                factor,
                false,
                final(self).crop_tool,
                old(crop_out)@,
                final(crop_out)@,
            ) && final(out)@ == old(out)@,
    {
        if self.crop_tool.resize_proportional(factor, crop_out) {
            out.push(Effect::Render(None));
        }
    }
}

} // verus!
