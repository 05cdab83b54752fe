//! Keeping the toolbar in step with the selection.
use vstd::prelude::*;
use crate::board::layers::{find_layer, layer_of, Layer};
use crate::board::messages::{SketchBoardOutput, SmoothLevelMulti};
use crate::board::{Effect, SketchBoard, SyncedSelection};
use crate::style::{Size, Style};
use crate::tools::{DrawableId, Tools};

verus! {

/// The selected drawables that exist, in the order of the selection.
pub open spec fn present(sel: Seq<DrawableId>, layers: Seq<Layer>) -> Seq<Layer>
    decreases sel.len(),
{
    if sel.len() == 0 {
        Seq::empty()
    } else {
        let rest = present(sel.drop_last(), layers);
        match layer_of(layers, sel.last()) {
            Some(d) => rest.push(d),
            None => rest,
        }
    }
}

/// The selected drawables that exist.
pub fn present_layers(sel: &Vec<DrawableId>, layers: &Vec<Layer>) -> (r: Vec<Layer>)
    ensures
        r@ == present(sel@, layers@),
{
    let mut found: Vec<Layer> = Vec::new();
    let mut i: usize = 0;
    while i < sel.len()
        invariant
            i <= sel@.len(),
            found@ == present(sel@.take(i as int), layers@),
        decreases sel.len() - i,
    {
        let id: DrawableId = sel[i];
        proof {
            let t = sel@.take(i + 1);
            assert(t.drop_last() == sel@.take(i as int));
            assert(t.last() == id);
        }
        if let Some(d) = find_layer(layers, id) {
            found.push(d);
        }
        i = i + 1;
    }
    assert(sel@.take(sel@.len() as int) == sel@);
    found
}

/// All drawables have a style of this size.
pub open spec fn all_sized(ds: Seq<Layer>, size: Size) -> bool {
    forall|i: int|
        0 <= i < ds.len() ==> ((#[trigger] ds[i]).style matches Some(s) && s.size == size)
}

/// The size that all drawables have, if there is one.
pub open spec fn shared_size(ds: Seq<Layer>) -> Option<Size> {
    if ds.len() > 0 && ds[0].style is Some && all_sized(ds, ds[0].style->0.size) {
        Some(ds[0].style->0.size)
    } else {
        None
    }
}

/// What the drawables say of their smoothing.
pub open spec fn shared_smooth(ds: Seq<Layer>) -> SmoothLevelMulti {
    if exists|i: int| 0 <= i < ds.len() && (#[trigger] ds[i]).smooth_level is None {
        SmoothLevelMulti::NotApplicable
    } else if forall|i: int| 0 <= i < ds.len() ==> (#[trigger] ds[i]).smooth_level == ds[0].smooth_level {
        SmoothLevelMulti::Shared(ds[0].smooth_level->0)
    } else {
        SmoothLevelMulti::Mixed
    }
}

fn find_shared_size(ds: &Vec<Layer>) -> (r: Option<Size>)
    ensures
        r == shared_size(ds@),
{
    if ds.len() == 0 {
        return None;
    }
    let first: Size = match ds[0].style {
        Some(s) => s.size,
        None => {
            return None;
        },
    };
    let mut i: usize = 0;
    while i < ds.len()
        invariant
            i <= ds@.len(),
            ds@.len() > 0,
            ds@[0].style is Some,
            first == ds@[0].style->0.size,
            forall|k: int|
                0 <= k < i ==> ((#[trigger] ds@[k]).style matches Some(s) && s.size == first),
        decreases ds.len() - i,
    {
        let same: bool = match ds[i].style {
            Some(s) => s.size == first,
            None => false,
        };
        if !same {
            assert(!(ds@[i as int].style matches Some(s) && s.size == first));
            return None;
        }
        i = i + 1;
    }
    Some(first)
}

fn find_shared_smooth(ds: &Vec<Layer>) -> (r: SmoothLevelMulti)
    requires
        ds@.len() > 0,
    ensures
        r == shared_smooth(ds@),
{
    let mut i: usize = 0;
    let mut same: bool = true;
    while i < ds.len()
        invariant
            i <= ds@.len(),
            ds@.len() > 0,
            forall|k: int| 0 <= k < i ==> (#[trigger] ds@[k]).smooth_level is Some,
            same == (forall|k: int|
                0 <= k < i ==> (#[trigger] ds@[k]).smooth_level == ds@[0].smooth_level),
        decreases ds.len() - i,
    {
        if ds[i].smooth_level.is_none() {
            assert(ds@[i as int].smooth_level is None);
            return SmoothLevelMulti::NotApplicable;
        }
        let here: Option<usize> = ds[i].smooth_level;
        let first: Option<usize> = ds[0].smooth_level;
        let equal: bool = match (here, first) {
            (Some(a), Some(b)) => a == b,
            (None, None) => true,
            _ => false,
        };
        assert(equal == (ds@[i as int].smooth_level == ds@[0].smooth_level));
        same = same && equal;
        i = i + 1;
    }
    match ds[0].smooth_level {
        Some(level) => if same {
            SmoothLevelMulti::Shared(level)
        } else {
            SmoothLevelMulti::Mixed
        },
        None => {
            assert(ds@[0].smooth_level is None);
            SmoothLevelMulti::NotApplicable
        },
    }
}

impl SketchBoard {
    /// Style of the only selected drawable.
    pub open spec fn single_style(&self, layers: Seq<Layer>) -> Option<Style> {
        match self.single(layers) {
            Some(d) => d.style,
            None => None,
        }
    }

    /// The only selected drawable and its sizing.
    pub open spec fn sync_key(&self, layers: Seq<Layer>) -> Option<SyncedSelection> {
        match self.single_style(layers) {
            Some(s) => Some(
                SyncedSelection {
                    id: self.selection@[0],
                    size: s.size,
                    size_factor: s.annotation_size_factor,
                },
            ),
            None => None,
        }
    }

    /// The toolbar has to be told of the style of the selection.
    pub open spec fn style_is_news(&self, layers: Seq<Layer>) -> bool {
        self.sync_key(layers) != self.last_synced_selection || self.last_was_multi_selection != (
        self.selection@.len() >= 2)
    }

    /// What the toolbar is told of the selection.
    pub open spec fn sync_outputs(&self, layers: Seq<Layer>) -> Seq<Effect> {
        let style = if self.style_is_news(layers) {
            seq![
                Effect::Output(
                    SketchBoardOutput::SelectionStyleChanged(self.single_style(layers)),
                ),
            ]
        } else {
            Seq::empty()
        };
        let many = if self.selection@.len() >= 2 {
            let ds = present(self.selection@, layers);
            seq![
                Effect::Output(
                    SketchBoardOutput::SelectionMultiAgreement {
                        size: shared_size(ds),
                        smooth: shared_smooth(ds),
                    },
                ),
            ]
        } else {
            Seq::empty()
        };
        style + many + match self.single(layers) {
            Some(d) => single_outputs(d),
            None => Seq::empty(),
        }
    }

    /// The tool that the selection asks to switch to: the one that made the
    /// only selected drawable.
    pub open spec fn sync_tool(&self, layers: Seq<Layer>) -> Option<Tools> {
        match self.single(layers) {
            Some(Layer { tool_type: Some(t), .. }) if t != Tools::Crop && t != self.active_tool => Some(
                t,
            ),
            _ => None,
        }
    }

    /// Tells the toolbar of the selection, and returns the tool that has to
    /// be switched to, if any.
    pub fn sync_toolbar_to_selection(&mut self, layers: &Vec<Layer>, out: &mut Vec<Effect>) -> (r:
        Option<Tools>)
        requires
            old(self).selection@.len() >= 2 ==> present(old(self).selection@, layers@).len() > 0,
        ensures
            *final(self) == (SketchBoard {
                last_was_multi_selection: old(self).selection@.len() >= 2,
                last_synced_selection: if old(self).style_is_news(layers@) {
                    old(self).sync_key(layers@)
                } else {
                    old(self).last_synced_selection
                },
                ..*old(self)
            }),
            final(out)@ == old(out)@ + old(self).sync_outputs(layers@),
            r == old(self).sync_tool(layers@),
    {
        let single: Option<Layer> = self.single_layer(layers);
        let style: Option<Style> = match single {
            Some(d) => d.style,
            None => None,
        };
        let key: Option<SyncedSelection> = match style {
            Some(s) => Some(
                SyncedSelection {
                    id: self.selection[0],
                    size: s.size,
                    size_factor: s.annotation_size_factor,
                },
            ),
            None => None,
        };
        let is_multi: bool = self.selection.len() >= 2;
        let same_key: bool = match (key, self.last_synced_selection) {
            (Some(a), Some(b)) => a == b,
            (None, None) => true,
            _ => false,
        };
        let was_multi: bool = self.last_was_multi_selection;
        self.last_was_multi_selection = is_multi;
        if !same_key || was_multi != is_multi {
            self.last_synced_selection = key;
            out.push(Effect::Output(SketchBoardOutput::SelectionStyleChanged(style)));
        }
        if is_multi {
            let ds = present_layers(&self.selection, layers);
            let size: Option<Size> = find_shared_size(&ds);
            let smooth: SmoothLevelMulti = find_shared_smooth(&ds);
            out.push(Effect::Output(SketchBoardOutput::SelectionMultiAgreement { size, smooth }));
        }
        let ghost head = out@;
        let mut target: Option<Tools> = None;
        if let Some(d) = single {
            emit_single(&d, out);
            if let Some(t) = d.tool_type {
                if t != Tools::Crop && t != self.active_tool {
                    target = Some(t);
                }
            }
        }
        assert(out@ =~= old(out)@ + old(self).sync_outputs(layers@));
        target
    }

    /// Telling the toolbar twice says nothing new of the style.
    pub proof fn lemma_sync_settles(before: SketchBoard, after: SketchBoard, layers: Seq<Layer>)
        requires
            after == (SketchBoard {
                last_was_multi_selection: before.selection@.len() >= 2,
                last_synced_selection: if before.style_is_news(layers) {
                    before.sync_key(layers)
                } else {
                    before.last_synced_selection
                },
                ..before
            }),
        ensures
            !after.style_is_news(layers),
            after.sync_tool(layers) == before.sync_tool(layers),
    {
    }
}

/// What the toolbar is told of the only selected drawable.
pub open spec fn single_outputs(d: Layer) -> Seq<Effect> {
    (match d.text_background {
        Some(bg) => seq![Effect::Output(SketchBoardOutput::SelectionTextBackgroundChanged(bg))],
        None => Seq::empty(),
    }) + (match d.arrow_style {
        Some(s) => seq![Effect::Output(SketchBoardOutput::SelectionArrowStyleChanged(s))],
        None => Seq::empty(),
    }) + (match d.blur_style {
        Some(s) => seq![Effect::Output(SketchBoardOutput::SelectionBlurStyleChanged(s))],
        None => Seq::empty(),
    }) + (match d.smooth_level {
        Some(level) => seq![
            Effect::Output(SketchBoardOutput::SelectionBrushPostSmoothChanged(level)),
        ],
        None => Seq::empty(),
    })
}

fn emit_single(d: &Layer, out: &mut Vec<Effect>)
    ensures
        final(out)@ == old(out)@ + single_outputs(*d),
{
    if let Some(bg) = d.text_background {
        out.push(Effect::Output(SketchBoardOutput::SelectionTextBackgroundChanged(bg)));
    }
    if let Some(s) = d.arrow_style {
        out.push(Effect::Output(SketchBoardOutput::SelectionArrowStyleChanged(s)));
    }
    if let Some(s) = d.blur_style {
        out.push(Effect::Output(SketchBoardOutput::SelectionBlurStyleChanged(s)));
    }
    if let Some(level) = d.smooth_level {
        out.push(Effect::Output(SketchBoardOutput::SelectionBrushPostSmoothChanged(level)));
    }
    assert(out@ =~= old(out)@ + single_outputs(*d));
}

} // verus!
