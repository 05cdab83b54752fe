//! What changing the selected layers comes to.
use vstd::prelude::*;
use crate::board::layers::{edits, layer_of, Change, Layer, LayerEdit};
use crate::board::messages::{SketchBoardOutput, SmoothLevelMulti};
use crate::board::sync::{present, shared_size, shared_smooth, single_outputs};
use crate::board::{Effect, SketchBoard};
use crate::style::{Size, Style};
use crate::tools::{DrawableId, Tools};

verus! {

/// A layer is found by its id, and only where there is one.
pub proof fn lemma_layers_are_found(layers: Seq<Layer>, id: DrawableId)
    ensures
        layer_of(layers, id) is Some <==> exists|i: int|
            0 <= i < layers.len() && (#[trigger] layers[i]).id == id,
        layer_of(layers, id) is Some ==> layer_of(layers, id)->0.id == id && layers.contains(
            layer_of(layers, id)->0,
        ),
    decreases layers.len(),
{
    if layers.len() > 0 {
        let rest = layers.drop_first();
        lemma_layers_are_found(rest, id);
        if layers[0].id == id {
            assert(layers.contains(layers[0]));
        } else {
            if layer_of(rest, id) is Some {
                let i = choose|i: int| 0 <= i < rest.len() && (#[trigger] rest[i]).id == id;
                assert(layers[i + 1] == rest[i]);
                let j = choose|j: int| 0 <= j < rest.len() && rest[j] == layer_of(rest, id)->0;
                assert(layers[j + 1] == rest[j]);
            }
            if exists|i: int| 0 <= i < layers.len() && (#[trigger] layers[i]).id == id {
                let i = choose|i: int| 0 <= i < layers.len() && (#[trigger] layers[i]).id == id;
                assert(rest[i - 1] == layers[i]);
            }
        }
    }
}

/// The sizes from the smallest to the largest.
pub open spec fn next_size(s: Size) -> Size {
    match s {
        Size::XSmall => Size::Small,
        Size::Small => Size::Medium,
        Size::Medium => Size::Large,
        Size::Large => Size::XLarge,
        Size::XLarge => Size::XXLarge,
        Size::XXLarge => Size::XXLarge,
    }
}

/// One step up takes the next size, and one step down the one before; at the
/// ends nothing changes. Nothing but the size does.
pub proof fn lemma_size_steps_go_along_the_ladder(d: Layer, s: Style, n: i32)
    requires
        d.style == Some(s),
        n == 1 || n == -1,
    ensures
        match Change::SizeSteps(n).edit_spec(d) {
            Some(e) => {
                &&& e is Style
                &&& e == LayerEdit::Style(Style { size: style_in(e).size, ..s })
                &&& n == 1 ==> s.size != Size::XXLarge && style_in(e).size == next_size(s.size)
                &&& n == -1 ==> s.size != Size::XSmall && next_size(style_in(e).size) == s.size
                    && style_in(e).size != s.size
            },
            None => (n == 1 && s.size == Size::XXLarge) || (n == -1 && s.size == Size::XSmall),
        },
{
}

/// The style in an edit.
pub open spec fn style_in(e: LayerEdit) -> Style {
    match e {
        LayerEdit::Style(s) => s,
        _ => arbitrary(),
    }
}

/// Only rectangles and ellipses are filled, only highlights get an opacity,
/// and each change leaves the rest of the style alone.
pub proof fn lemma_changes_touch_one_thing(d: Layer, s: Style, fill: bool, v: i64)
    requires
        d.style == Some(s),
    ensures
        ({
            let shape = d.tool_type == Some(Tools::Rectangle) || d.tool_type == Some(
                Tools::Ellipse,
            );
            Change::Fill(fill).edit_spec(d) == if shape && s.fill != fill {
                Some(LayerEdit::Style(Style { fill, ..s }))
            } else {
                None
            }
        }),
        Change::Opacity(v).edit_spec(d) == if d.tool_type == Some(Tools::Highlighter) {
            Some(LayerEdit::Style(Style { highlighter_opacity: v, ..s }))
        } else {
            None
        },
        Change::Factor(v).edit_spec(d) == if s.annotation_size_factor != v {
            Some(LayerEdit::Style(Style { annotation_size_factor: v, ..s }))
        } else {
            None
        },
{
}

/// Every selected layer that the change is for is edited, and no other.
pub proof fn lemma_selected_layers_are_edited(
    sel: Seq<DrawableId>,
    layers: Seq<Layer>,
    change: Change,
    id: DrawableId,
    e: LayerEdit,
)
    ensures
        edits(sel, layers, change).contains((id, e)) <==> {
            &&& sel.contains(id)
            &&& layer_of(layers, id) is Some
            &&& change.edit_spec(layer_of(layers, id)->0) == Some(e)
        },
    decreases sel.len(),
{
    if sel.len() > 0 {
        let rest = sel.drop_last();
        let last = sel.last();
        lemma_selected_layers_are_edited(rest, layers, change, id, e);
        let (before, all) = (edits(rest, layers, change), edits(sel, layers, change));
        assert(sel.contains(id) <==> rest.contains(id) || id == last) by {
            if rest.contains(id) {
                let i = choose|i: int| 0 <= i < rest.len() && rest[i] == id;
                assert(sel[i] == id);
            }
            if sel.contains(id) {
                let i = choose|i: int| 0 <= i < sel.len() && sel[i] == id;
                if i < rest.len() {
                    assert(rest[i] == id);
                }
            }
            assert(sel[sel.len() - 1] == last);
        }
        if before.contains((id, e)) {
            let i = choose|i: int| 0 <= i < before.len() && before[i] == (id, e);
            assert(all[i] == (id, e));
        }
        if all.contains((id, e)) {
            let i = choose|i: int| 0 <= i < all.len() && all[i] == (id, e);
            if i < before.len() {
                assert(before[i] == (id, e));
            }
        }
        if layer_of(layers, last) is Some && change.edit_spec(layer_of(layers, last)->0) is Some {
            assert(all[all.len() - 1] == (last, change.edit_spec(layer_of(layers, last)->0)->0));
        }
    }
}

/// Several layers agree on a size when each of them has it.
pub proof fn lemma_agreement_on_size(ds: Seq<Layer>, size: Size)
    requires
        ds.len() > 0,
    ensures
        shared_size(ds) == Some(size) <==> forall|i: int|
            0 <= i < ds.len() ==> (#[trigger] ds[i]).style is Some && ds[i].style->0.size == size,
{
    if forall|i: int|
        0 <= i < ds.len() ==> (#[trigger] ds[i]).style is Some && ds[i].style->0.size == size {
        assert(ds[0].style is Some);
    }
}

/// Several layers agree on a smoothing level when each of them has it; where
/// one cannot be smoothed there is nothing to agree on.
pub proof fn lemma_agreement_on_smoothing(ds: Seq<Layer>, level: usize, i: int)
    requires
        0 <= i < ds.len(),
    ensures
        shared_smooth(ds) == SmoothLevelMulti::Shared(level) <==> forall|k: int|
            0 <= k < ds.len() ==> (#[trigger] ds[k]).smooth_level == Some(level),
        ds[i].smooth_level is None ==> shared_smooth(ds) == SmoothLevelMulti::NotApplicable,
{
    if forall|k: int| 0 <= k < ds.len() ==> (#[trigger] ds[k]).smooth_level == Some(level) {
        assert(ds[0].smooth_level == Some(level));
    }
}

/// The toolbar is told each style that the only selected layer has.
pub proof fn lemma_toolbar_hears_styles(d: Layer)
    ensures
        ({
            let out = single_outputs(d);
            &&& d.text_background is Some ==> out.contains(
                Effect::Output(
                    SketchBoardOutput::SelectionTextBackgroundChanged(d.text_background->0),
                ),
            )
            &&& d.arrow_style is Some ==> out.contains(
                Effect::Output(SketchBoardOutput::SelectionArrowStyleChanged(d.arrow_style->0)),
            )
            &&& d.blur_style is Some ==> out.contains(
                Effect::Output(SketchBoardOutput::SelectionBlurStyleChanged(d.blur_style->0)),
            )
            &&& d.smooth_level is Some ==> out.contains(
                Effect::Output(SketchBoardOutput::SelectionBrushPostSmoothChanged(d.smooth_level->0)),
            )
        }),
{
    let out = single_outputs(d);
    let a: int = if d.text_background is Some {
        1
    } else {
        0
    };
    let b: int = if d.arrow_style is Some {
        a + 1
    } else {
        a
    };
    let c: int = if d.blur_style is Some {
        b + 1
    } else {
        b
    };
    if d.text_background is Some {
        assert(out[0] == Effect::Output(
            SketchBoardOutput::SelectionTextBackgroundChanged(d.text_background->0),
        ));
    }
    if d.arrow_style is Some {
        assert(out[a] == Effect::Output(
            SketchBoardOutput::SelectionArrowStyleChanged(d.arrow_style->0),
        ));
    }
    if d.blur_style is Some {
        assert(out[b] == Effect::Output(
            SketchBoardOutput::SelectionBlurStyleChanged(d.blur_style->0),
        ));
    }
    if d.smooth_level is Some {
        assert(out[c] == Effect::Output(
            SketchBoardOutput::SelectionBrushPostSmoothChanged(d.smooth_level->0),
        ));
    }
}

/// Selecting one drawable asks for the tool that made it, unless that is
/// active, or is for cropping.
pub proof fn lemma_selection_asks_for_its_tool(b: SketchBoard, layers: Seq<Layer>, t: Tools)
    requires
        b.single(layers) is Some,
        b.single(layers)->0.tool_type == Some(t),
    ensures
        t == b.active_tool || t == Tools::Crop ==> b.sync_tool(layers) is None,
        t != b.active_tool && t != Tools::Crop ==> b.sync_tool(layers) == Some(t),
{
}

/// The only selected drawable is the one that exists of a selection of one.
pub proof fn lemma_single_is_the_only_one(b: SketchBoard, layers: Seq<Layer>)
    ensures
        b.selection@.len() != 1 ==> b.single(layers) is None,
        b.selection@.len() == 1 ==> b.single(layers) == layer_of(layers, b.selection@[0]),
{
}

/// The selected drawables that exist, each as often as it is selected.
pub proof fn lemma_present_are_selected(sel: Seq<DrawableId>, layers: Seq<Layer>, d: Layer)
    requires
        present(sel, layers).contains(d),
    ensures
        exists|i: int| 0 <= i < sel.len() && layer_of(layers, #[trigger] sel[i]) == Some(d),
    decreases sel.len(),
{
    let all = present(sel, layers);
    let k = choose|k: int| 0 <= k < all.len() && all[k] == d;
    let rest = sel.drop_last();
    let before = present(rest, layers);
    if k < before.len() {
        assert(before[k] == d);
        lemma_present_are_selected(rest, layers, d);
        let i = choose|i: int|
            0 <= i < rest.len() && layer_of(layers, #[trigger] rest[i]) == Some(d);
        assert(sel[i] == rest[i]);
    } else {
        assert(layer_of(layers, sel[sel.len() - 1]) == Some(d));
    }
}

} // verus!
