//! What saving and loading choices give back.
use vstd::prelude::*;
use crate::state::{
    append_custom_color, initial_color, load_arrow_style, load_blur_style,
    load_brush_post_smooth_iterations, load_custom_colors, load_fill_for_tool,
    load_highlighter_opacity, load_highlighter_style, load_last_color, load_layer_panel_width,
    load_legacy_preferences, load_scroll_capture_last_region, load_size_for_tool,
    load_snap_to_edges, load_spotlight_darkness, load_spotlight_magnification,
    load_text_background, save_arrow_style, save_blur_style,
    save_brush_post_smooth_iterations, save_custom_colors, save_fill_for_tool,
    save_highlighter_opacity, save_highlighter_style, save_last_color, save_layer_panel_width,
    save_scroll_capture_last_region, save_size_for_tool, save_snap_to_edges,
    save_spotlight_darkness, save_spotlight_magnification, save_text_background,
    LegacyPreferences, PersistedState,
};
use crate::style::{Color, Size};
use crate::tools::arrow::ArrowStyle;
use crate::tools::blur::BlurStyle;
use crate::tools::highlight::HighlighterStyle;
use crate::tools::{TextBackground, Tools};

verus! {

/// Loading gives back the spotlight darkness that was saved, and saving it leaves every
/// other choice alone.
pub proof fn lemma_spotlight_darkness(s: &mut PersistedState, value: i64, r: Option<i64>)
    requires
        call_ensures(save_spotlight_darkness, (s, value), ()),
        call_ensures(load_spotlight_darkness, (&*final(s),), r),
    ensures
        r == Some(value),
        *old(s) == (PersistedState { spotlight_darkness: old(s).spotlight_darkness, ..*final(s) }),
{
}

/// Loading gives back the highlighter opacity that was saved, and saving it leaves every
/// other choice alone.
pub proof fn lemma_highlighter_opacity(s: &mut PersistedState, value: i64, r: Option<i64>)
    requires
        call_ensures(save_highlighter_opacity, (s, value), ()),
        call_ensures(load_highlighter_opacity, (&*final(s),), r),
    ensures
        r == Some(value),
        *old(s) == (PersistedState { highlighter_opacity: old(s).highlighter_opacity, ..*final(s) }),
{
}

/// Loading gives back the spotlight magnification that was saved, and saving it leaves every
/// other choice alone.
pub proof fn lemma_spotlight_magnification(s: &mut PersistedState, value: i64, r: Option<i64>)
    requires
        call_ensures(save_spotlight_magnification, (s, value), ()),
        call_ensures(load_spotlight_magnification, (&*final(s),), r),
    ensures
        r == Some(value),
        *old(s) == (PersistedState { spotlight_magnification: old(s).spotlight_magnification, ..*final(s) }),
{
}

/// Loading gives back the snap to edges that was saved, and saving it leaves every
/// other choice alone.
pub proof fn lemma_snap_to_edges(s: &mut PersistedState, value: bool, r: Option<bool>)
    requires
        call_ensures(save_snap_to_edges, (s, value), ()),
        call_ensures(load_snap_to_edges, (&*final(s),), r),
    ensures
        r == Some(value),
        *old(s) == (PersistedState { snap_to_edges: old(s).snap_to_edges, ..*final(s) }),
{
}

/// Loading gives back the arrow style that was saved, and saving it leaves every
/// other choice alone.
pub proof fn lemma_arrow_style(s: &mut PersistedState, value: ArrowStyle, r: Option<ArrowStyle>)
    requires
        call_ensures(save_arrow_style, (s, value), ()),
        call_ensures(load_arrow_style, (&*final(s),), r),
    ensures
        r == Some(value),
        *old(s) == (PersistedState { arrow_style: old(s).arrow_style, ..*final(s) }),
{
}

/// Loading gives back the blur style that was saved, and saving it leaves every
/// other choice alone.
pub proof fn lemma_blur_style(s: &mut PersistedState, value: BlurStyle, r: Option<BlurStyle>)
    requires
        call_ensures(save_blur_style, (s, value), ()),
        call_ensures(load_blur_style, (&*final(s),), r),
    ensures
        r == Some(value),
        *old(s) == (PersistedState { blur_style: old(s).blur_style, ..*final(s) }),
{
}

/// Loading gives back the text background that was saved, and saving it leaves every
/// other choice alone.
pub proof fn lemma_text_background(s: &mut PersistedState, value: TextBackground, r: Option<TextBackground>)
    requires
        call_ensures(save_text_background, (s, value), ()),
        call_ensures(load_text_background, (&*final(s),), r),
    ensures
        r == Some(value),
        *old(s) == (PersistedState { text_background: old(s).text_background, ..*final(s) }),
{
}

/// Loading gives back the highlighter style that was saved, and saving it leaves every
/// other choice alone.
pub proof fn lemma_highlighter_style(s: &mut PersistedState, value: HighlighterStyle, r: Option<HighlighterStyle>)
    requires
        call_ensures(save_highlighter_style, (s, value), ()),
        call_ensures(load_highlighter_style, (&*final(s),), r),
    ensures
        r == Some(value),
        *old(s) == (PersistedState { highlighter_style: old(s).highlighter_style, ..*final(s) }),
{
}

/// Loading gives back the brush post smooth iterations that was saved, and saving it leaves every
/// other choice alone.
pub proof fn lemma_brush_post_smooth_iterations(s: &mut PersistedState, value: usize, r: Option<usize>)
    requires
        call_ensures(save_brush_post_smooth_iterations, (s, value), ()),
        call_ensures(load_brush_post_smooth_iterations, (&*final(s),), r),
    ensures
        r == Some(value),
        *old(s) == (PersistedState { brush_post_smooth_iterations: old(s).brush_post_smooth_iterations, ..*final(s) }),
{
}

/// Loading gives back the layer panel width that was saved, and saving it leaves every
/// other choice alone.
pub proof fn lemma_layer_panel_width(s: &mut PersistedState, value: i64, r: Option<i64>)
    requires
        call_ensures(save_layer_panel_width, (s, value), ()),
        call_ensures(load_layer_panel_width, (&*final(s),), r),
    ensures
        r == Some(value),
        *old(s) == (PersistedState { layer_panel_width: old(s).layer_panel_width, ..*final(s) }),
{
}

/// Loading gives back the region that was captured last.
pub proof fn lemma_last_region(s: &mut PersistedState, region: [i64; 4], r: Option<[i64; 4]>)
    requires
        call_ensures(save_scroll_capture_last_region, (s, region), ()),
        call_ensures(load_scroll_capture_last_region, (&*final(s),), r),
    ensures
        r == Some(region),
{
}

/// A size is kept for its tool; that of another tool stays.
pub proof fn lemma_size_per_tool(
    s: &mut PersistedState,
    tool: Tools,
    other: Tools,
    size: Size,
    r: Option<Size>,
    before: Option<Size>,
    after: Option<Size>,
)
    requires
        tool != other,
        call_ensures(load_size_for_tool, (&*old(s), other), before),
        call_ensures(save_size_for_tool, (s, tool, size), ()),
        call_ensures(load_size_for_tool, (&*final(s), tool), r),
        call_ensures(load_size_for_tool, (&*final(s), other), after),
    ensures
        r == Some(size),
        before == after,
{
}

/// A fill is kept for its tool; that of another tool stays.
pub proof fn lemma_fill_per_tool(
    s: &mut PersistedState,
    tool: Tools,
    other: Tools,
    fill: bool,
    r: Option<bool>,
    before: Option<bool>,
    after: Option<bool>,
)
    requires
        tool != other,
        call_ensures(load_fill_for_tool, (&*old(s), other), before),
        call_ensures(save_fill_for_tool, (s, tool, fill), ()),
        call_ensures(load_fill_for_tool, (&*final(s), tool), r),
        call_ensures(load_fill_for_tool, (&*final(s), other), after),
    ensures
        r == Some(fill),
        before == after,
{
}

/// The last color is loaded as it was saved, and it is the one to start with;
/// without one that is the red of the palette.
pub proof fn lemma_last_color(
    s: &mut PersistedState,
    c: Color,
    r: Option<Color>,
    first: Color,
    fresh: PersistedState,
    red: Color,
)
    requires
        fresh.last_color is None,
        call_ensures(save_last_color, (s, c), ()),
        call_ensures(load_last_color, (&*final(s),), r),
        call_ensures(initial_color, (&*final(s),), first),
        call_ensures(initial_color, (&fresh,), red),
    ensures
        r == Some(c),
        first == c,
        red == (Color { r: 235, g: 77, b: 75, a: 255 }),
{
}

/// Saved colors are loaded in their slots; only empty slots at the end are
/// lost. A color that is fully clear black counts as empty.
pub proof fn lemma_custom_colors(
    s: &mut PersistedState,
    slots: Vec<Option<Color>>,
    r: Vec<Option<Color>>,
    i: int,
)
    requires
        call_ensures(save_custom_colors, (s, &slots), ()),
        call_ensures(load_custom_colors, (&*final(s),), r),
        0 <= i < slots@.len(),
        slots@[i] matches Some(c) ==> c.r != 0 || c.g != 0 || c.b != 0 || c.a != 0,
    ensures
        r@.len() <= slots@.len(),
        i < r@.len() ==> r@[i] == slots@[i],
        i >= r@.len() ==> slots@[i] is None,
{
    crate::laws::state::lemma_trimmed_ends_with_a_color(slots@);
    let kept = crate::state::trimmed(slots@);
    if i < kept.len() {
        assert(kept[i] == slots@[i]);
        assert(final(s).saved_custom_colors@[i] == crate::state::slot_to_hex_spec(kept[i]));
    }
}

/// A new color takes the first empty slot, or the one behind the last.
pub proof fn lemma_append_color(
    s: &mut PersistedState,
    c: Color,
    slots: Vec<Option<Color>>,
    r: Vec<Option<Color>>,
    k: int,
)
    requires
        call_ensures(load_custom_colors, (&*old(s),), slots),
        call_ensures(append_custom_color, (s, c), r),
        0 <= k <= slots@.len(),
        forall|i: int| 0 <= i < k ==> (#[trigger] slots@[i]) is Some,
        k < slots@.len() ==> slots@[k] is None,
    ensures
        r@ == if k < slots@.len() {
            slots@.update(k, Some(c))
        } else {
            slots@.push(Some(c))
        },
{
    crate::laws::state::lemma_color_takes_first_empty_slot(slots@, c, k);
}

/// Old preferences are taken over under their own names.
pub proof fn lemma_legacy_preferences(
    s: PersistedState,
    keep: Option<bool>,
    r: LegacyPreferences,
    empty: bool,
)
    requires
        call_ensures(load_legacy_preferences, (s, keep), r),
        call_ensures(LegacyPreferences::is_empty, (&r,), empty),
    ensures
        r.annotation_size_factor == s.annotation_size_factor,
        r.keybinds == s.keybinds,
        r.close_on_esc == s.close_on_esc,
        r.close_on_copy == s.close_on_copy,
        r.close_on_save == s.close_on_save,
        r.hide_default_palette == s.hide_default_palette,
        r.sticky_session_defaults == s.sticky_session_defaults,
        r.park_pointer_during_manual_scroll_capture == s.park_pointer_during_manual_scroll_capture,
        r.keep_window_size_on_crop == keep,
        s.keybinds is Some || s.close_on_esc is Some || s.close_on_copy is Some || s.close_on_save
            is Some || keep is Some || s.annotation_size_factor is Some || s.hide_default_palette
            is Some || s.sticky_session_defaults is Some
            || s.park_pointer_during_manual_scroll_capture is Some ==> !empty,
{
}

} // verus!
