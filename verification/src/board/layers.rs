//! The drawables as the board sees them, and edits to those selected.
use vstd::prelude::*;
use crate::board::scroll::{apply_size_steps, stepped_rung};
use crate::math::Rect;
use crate::style::{Size, Style};
use crate::tools::arrow::ArrowStyle;
use crate::tools::blur::BlurStyle;
use crate::tools::{DrawableId, TextBackground, ToolUpdateResult, Tools};

verus! {

/// What the board needs to know of a drawable on the stack.
#[derive(Clone, Copy, Debug, PartialEq, Eq, Structural)]
pub struct Layer {
    pub id: DrawableId,
    /// The tool that made it.
    pub tool_type: Option<Tools>,
    pub style: Option<Style>,
    /// Smoothing level, for those that can be smoothed.
    pub smooth_level: Option<usize>,
    pub arrow_style: Option<ArrowStyle>,
    pub blur_style: Option<BlurStyle>,
    pub text_background: Option<TextBackground>,
    pub bounds: Option<Rect>,
    pub visible: bool,
    pub locked: bool,
}

/// The layer with this id, from the bottom up.
pub open spec fn layer_of(layers: Seq<Layer>, id: DrawableId) -> Option<Layer>
    decreases layers.len(),
{
    if layers.len() == 0 {
        None
    } else if layers[0].id == id {
        Some(layers[0])
    } else {
        layer_of(layers.drop_first(), id)
    }
}

/// Looks a layer up.
pub fn find_layer(layers: &Vec<Layer>, id: DrawableId) -> (r: Option<Layer>)
    ensures
        r == layer_of(layers@, id),
        r matches Some(l) ==> l.id == id,
{
    let mut i: usize = 0;
    assert(layers@.skip(0) == layers@);
    while i < layers.len()
        invariant
            i <= layers@.len(),
            layer_of(layers@, id) == layer_of(layers@.skip(i as int), id),
        decreases layers.len() - i,
    {
        let ghost rest = layers@.skip(i as int);
        assert(rest[0] == layers@[i as int]);
        let layer: Layer = layers[i];
        if layer.id == id {
            return Some(layer);
        }
        assert(rest.drop_first() == layers@.skip(i + 1));
        i = i + 1;
    }
    None
}

/// A change to one drawable.
#[derive(Clone, Copy, Debug, PartialEq, Eq, Structural)]
pub enum LayerEdit {
    Style(Style),
    Arrow(ArrowStyle),
    Blur(BlurStyle),
    Smooth(usize),
    TextBackground(TextBackground),
}

/// A change wanted for all selected drawables.
#[derive(Clone, Copy, Debug, PartialEq, Eq, Structural)]
pub enum Change {
    /// Arrows get this geometry.
    Arrow(ArrowStyle),
    /// Blurs get this algorithm.
    Blur(BlurStyle),
    /// Everything that can be smoothed gets this level.
    Smooth(usize),
    /// Rectangles and ellipses are filled or not.
    Fill(bool),
    /// Everything is told of this text background.
    TextBackground(TextBackground),
    /// Everything with a size goes up, or down, so many sizes.
    SizeSteps(i32),
    /// Highlights get this opacity.
    Opacity(i64),
    /// Everything with a style gets this size factor.
    Factor(i64),
}

/// Drawables of this kind can be filled.
pub open spec fn fillable(tool: Option<Tools>) -> bool {
    tool == Some(Tools::Rectangle) || tool == Some(Tools::Ellipse)
}

/// Whether drawables of this kind can be filled.
pub fn is_fillable(tool: Option<Tools>) -> (r: bool)
    ensures
        r == fillable(tool),
{
    match tool {
        Some(Tools::Rectangle) | Some(Tools::Ellipse) => true,
        _ => false,
    }
}

/// The size on a rung.
pub open spec fn size_at(rung: int) -> Size {
    if rung <= 0 {
        Size::XSmall
    } else if rung == 1 {
        Size::Small
    } else if rung == 2 {
        Size::Medium
    } else if rung == 3 {
        Size::Large
    } else if rung == 4 {
        Size::XLarge
    } else {
        Size::XXLarge
    }
}

impl Change {
    /// What the change comes to for a drawable; `None` where it is not for it
    /// or changes nothing.
    pub open spec fn edit_spec(self, d: Layer) -> Option<LayerEdit> {
        match self {
            Change::Arrow(s) => if d.arrow_style is Some {
                Some(LayerEdit::Arrow(s))
            } else {
                None
            },
            Change::Blur(s) => if d.blur_style is Some {
                Some(LayerEdit::Blur(s))
            } else {
                None
            },
            Change::Smooth(level) => if d.smooth_level is Some {
                Some(LayerEdit::Smooth(level))
            } else {
                None
            },
            Change::Fill(fill) => match d.style {
                Some(s) if fillable(d.tool_type) && s.fill != fill => Some(
                    LayerEdit::Style(Style { fill, ..s }),
                ),
                _ => None,
            },
            Change::TextBackground(bg) => Some(LayerEdit::TextBackground(bg)),
            Change::SizeSteps(steps) => match d.style {
                Some(s) => {
                    let size = size_at(stepped_rung(s.size.rung(), steps as int));
                    if size != s.size {
                        Some(LayerEdit::Style(Style { size, ..s }))
                    } else {
                        None
                    }
                },
                None => None,
            },
            Change::Opacity(v) => match d.style {
                Some(s) if d.tool_type == Some(Tools::Highlighter) => Some(
                    LayerEdit::Style(Style { highlighter_opacity: v, ..s }),
                ),
                _ => None,
            },
            Change::Factor(v) => match d.style {
                Some(s) if s.annotation_size_factor != v => Some(
                    LayerEdit::Style(Style { annotation_size_factor: v, ..s }),
                ),
                _ => None,
            },
        }
    }

    /// What the change comes to for a drawable.
    pub fn edit(self, d: &Layer) -> (r: Option<LayerEdit>)
        requires
            self matches Change::SizeSteps(n) ==> n > i32::MIN,
        ensures
            r == self.edit_spec(*d),
    {
        match self {
            Change::Arrow(s) => if d.arrow_style.is_some() {
                Some(LayerEdit::Arrow(s))
            } else {
                None
            },
            Change::Blur(s) => if d.blur_style.is_some() {
                Some(LayerEdit::Blur(s))
            } else {
                None
            },
            Change::Smooth(level) => if d.smooth_level.is_some() {
                Some(LayerEdit::Smooth(level))
            } else {
                None
            },
            Change::Fill(fill) => {
                let Some(s) = d.style else {
                    return None;
                };
                if is_fillable(d.tool_type) && s.fill != fill {
                    Some(LayerEdit::Style(Style { fill, ..s }))
                } else {
                    None
                }
            },
            Change::TextBackground(bg) => Some(LayerEdit::TextBackground(bg)),
            Change::SizeSteps(steps) => {
                let Some(s) = d.style else {
                    return None;
                };
                let size: Size = apply_size_steps(s.size, steps);
                proof {
                    Size::lemma_rung_injective(
                        size,
                        size_at(stepped_rung(s.size.rung(), steps as int)),
                    );
                }
                if size != s.size {
                    Some(LayerEdit::Style(Style { size, ..s }))
                } else {
                    None
                }
            },
            Change::Opacity(v) => {
                let Some(s) = d.style else {
                    return None;
                };
                if d.tool_type == Some(Tools::Highlighter) {
                    Some(LayerEdit::Style(Style { highlighter_opacity: v, ..s }))
                } else {
                    None
                }
            },
            Change::Factor(v) => {
                let Some(s) = d.style else {
                    return None;
                };
                if s.annotation_size_factor != v {
                    Some(LayerEdit::Style(Style { annotation_size_factor: v, ..s }))
                } else {
                    None
                }
            },
        }
    }
}

/// The edits that a change comes to, in the order of the selection. Drawables
/// that are no longer there are passed over.
pub open spec fn edits(sel: Seq<DrawableId>, layers: Seq<Layer>, change: Change) -> Seq<
    (DrawableId, LayerEdit),
>
    decreases sel.len(),
{
    if sel.len() == 0 {
        Seq::empty()
    } else {
        let rest = edits(sel.drop_last(), layers, change);
        match layer_of(layers, sel.last()) {
            Some(d) => match change.edit_spec(d) {
                Some(e) => rest.push((sel.last(), e)),
                None => rest,
            },
            None => rest,
        }
    }
}

/// Works out the edits that a change comes to.
pub fn collect_edits(sel: &Vec<DrawableId>, layers: &Vec<Layer>, change: Change) -> (r: Vec<
    (DrawableId, LayerEdit),
>)
    requires
        change matches Change::SizeSteps(n) ==> n > i32::MIN,
    ensures
        r@ == edits(sel@, layers@, change),
{
    let mut out: Vec<(DrawableId, LayerEdit)> = Vec::new();
    let mut i: usize = 0;
    while i < sel.len()
        invariant
            change matches Change::SizeSteps(n) ==> n > i32::MIN,
            i <= sel@.len(),
            out@ == edits(sel@.take(i as int), layers@, change),
        decreases sel.len() - i,
    {
        let id: DrawableId = sel[i];
        proof {
            let t = sel@.take(i + 1);
            assert(t.drop_last() == sel@.take(i as int));
            assert(t.last() == id);
        }
        if let Some(d) = find_layer(layers, id) {
            if let Some(e) = change.edit(&d) {
                out.push((id, e));
            }
        }
        i = i + 1;
    }
    assert(sel@.take(sel@.len() as int) == sel@);
    out
}

/// `r` asks for exactly these edits, as one undo step.
pub open spec fn asks_for(r: ToolUpdateResult<LayerEdit>, updates: Seq<(DrawableId, LayerEdit)>) -> bool {
    if updates.len() == 0 {
        r is Unmodified
    } else if updates.len() == 1 {
        r == ToolUpdateResult::ModifyDrawable(updates[0].0, updates[0].1)
    } else {
        r matches ToolUpdateResult::ModifyDrawables(v) && v@ == updates
    }
}

/// The request for some edits.
pub fn edits_result(updates: Vec<(DrawableId, LayerEdit)>) -> (r: ToolUpdateResult<LayerEdit>)
    ensures
        asks_for(r, updates@),
{
    if updates.len() == 0 {
        ToolUpdateResult::Unmodified
    } else if updates.len() == 1 {
        let (id, e): (DrawableId, LayerEdit) = updates[0];
        ToolUpdateResult::ModifyDrawable(id, e)
    } else {
        ToolUpdateResult::ModifyDrawables(updates)
    }
}

/// Applies a change to all selected drawables.
pub fn apply_to_selection(sel: &Vec<DrawableId>, layers: &Vec<Layer>, change: Change) -> (r:
    ToolUpdateResult<LayerEdit>)
    requires
        change matches Change::SizeSteps(n) ==> n > i32::MIN,
    ensures
        asks_for(r, edits(sel@, layers@, change)),
{
    edits_result(collect_edits(sel, layers, change))
}

/// Only selected drawables are edited, each that is edited exists, and none
/// is edited more often than it is selected.
pub proof fn lemma_edits_are_selected(sel: Seq<DrawableId>, layers: Seq<Layer>, change: Change)
    ensures
        edits(sel, layers, change).len() <= sel.len(),
        forall|i: int|
            0 <= i < edits(sel, layers, change).len() ==> {
                let e = #[trigger] edits(sel, layers, change)[i];
                &&& sel.contains(e.0)
                &&& layer_of(layers, e.0) is Some
                &&& change.edit_spec(layer_of(layers, e.0)->0) == Some(e.1)
            },
    decreases sel.len(),
{
    if sel.len() > 0 {
        lemma_edits_are_selected(sel.drop_last(), layers, change);
        let all = edits(sel, layers, change);
        let rest = edits(sel.drop_last(), layers, change);
        assert forall|i: int| 0 <= i < all.len() implies ({
            let e = #[trigger] all[i];
            &&& sel.contains(e.0)
            &&& layer_of(layers, e.0) is Some
            &&& change.edit_spec(layer_of(layers, e.0)->0) == Some(e.1)
        }) by {
            if i < rest.len() {
                assert(all[i] == rest[i]);
                let k = choose|k: int| 0 <= k < sel.drop_last().len() && sel.drop_last()[k] == rest[i].0;
                assert(sel[k] == all[i].0);
            } else {
                assert(sel[sel.len() - 1] == all[i].0);
            }
        }
    }
}

/// A second change to the same value has nothing left to do.
pub proof fn lemma_factor_settles(d: Layer, v: i64, after: Layer)
    requires
        match Change::Factor(v).edit_spec(d) {
            Some(LayerEdit::Style(s)) => after.style == Some(s),
            _ => after == d,
        },
    ensures
        Change::Factor(v).edit_spec(after) is None,
{
}

} // verus!
