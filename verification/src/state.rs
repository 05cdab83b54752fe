//! Incidental UI state that survives across launches.
use vstd::prelude::*;
use hex_color::HexColor;
use crate::style::{Color, Size};
use crate::tools::arrow::ArrowStyle;
use crate::tools::blur::BlurStyle;
use crate::tools::highlight::HighlighterStyle;
use crate::tools::{TextBackground, Tools};

verus! {

/// A color as the `hex_color` crate stores it: four public components.
#[verifier::external_type_specification]
pub struct ExHexColor(HexColor);

/// `HexColor::rgba` of the `hex_color` crate builds a color from its four
/// components; the contract says that it holds exactly these.
pub assume_specification[ HexColor::rgba ](r: u8, g: u8, b: u8, a: u8) -> (c: HexColor)
    ensures
        c == (HexColor { r, g, b, a }),
;

/// An empty slot is stored as fully transparent black.
pub open spec fn hex_to_slot_spec(hc: HexColor) -> Option<Color> {
    if hc.r == 0 && hc.g == 0 && hc.b == 0 && hc.a == 0 {
        None
    } else {
        Some(Color { r: hc.r, g: hc.g, b: hc.b, a: hc.a })
    }
}

fn hex_to_slot(hc: &HexColor) -> (r: Option<Color>)
    ensures
        r == hex_to_slot_spec(*hc),
{
    if hc.r == 0 && hc.g == 0 && hc.b == 0 && hc.a == 0 {
        None
    } else {
        Some(Color { r: hc.r, g: hc.g, b: hc.b, a: hc.a })
    }
}

/// How a slot is stored.
pub open spec fn slot_to_hex_spec(slot: Option<Color>) -> HexColor {
    match slot {
        Some(c) => HexColor { r: c.r, g: c.g, b: c.b, a: c.a },
        None => HexColor { r: 0, g: 0, b: 0, a: 0 },
    }
}

fn slot_to_hex(slot: Option<Color>) -> (r: HexColor)
    ensures
        r == slot_to_hex_spec(slot),
{
    match slot {
        Some(c) => HexColor::rgba(c.r, c.g, c.b, c.a),
        None => HexColor::rgba(0, 0, 0, 0),
    }
}

/// One optional value for every tool.
#[derive(Debug)]
pub struct PerTool<T> {
    slots: Vec<Option<T>>,
}

impl<T> View for PerTool<T> {
    type V = Map<Tools, T>;

    closed spec fn view(&self) -> Map<Tools, T> {
        Map::new(
            |t: Tools| self.slots@[t.index_spec() as int] is Some,
            |t: Tools| self.slots@[t.index_spec() as int]->0,
        )
    }
}

impl<T> PerTool<T> {
    /// There is a slot for every tool.
    pub closed spec fn wf(&self) -> bool {
        self.slots@.len() == 12
    }

    /// No tool has a value.
    pub fn new() -> (r: PerTool<T>)
        ensures
            r.wf(),
            r@ == Map::<Tools, T>::empty(),
    {
        let mut slots: Vec<Option<T>> = Vec::new();
        let mut i: usize = 0;
        while i < 12
            invariant
                i <= 12,
                slots@.len() == i,
                forall|k: int| 0 <= k < i ==> #[trigger] slots@[k] is None,
            decreases 12 - i,
        {
            slots.push(None);
            i = i + 1;
        }
        let r = PerTool { slots };
        proof {
            assert forall|t: Tools| !r@.dom().contains(t) by {
                Tools::lemma_index_injective(t, t);
            }
            assert(r@ =~= Map::<Tools, T>::empty());
        }
        r
    }

    /// The value of a tool.
    pub fn get(&self, tool: Tools) -> (r: Option<&T>)
        requires
            self.wf(),
        ensures
            match r {
                Some(v) => self@.dom().contains(tool) && self@[tool] == *v,
                None => !self@.dom().contains(tool),
            },
    {
        proof {
            Tools::lemma_index_injective(tool, tool);
        }
        self.slots[tool.to_variant() as usize].as_ref()
    }

    /// Sets the value of a tool.
    pub fn insert(&mut self, tool: Tools, value: T)
        requires
            old(self).wf(),
        ensures
            final(self).wf(),
            final(self)@ == old(self)@.insert(tool, value),
    {
        proof {
            Tools::lemma_index_injective(tool, tool);
        }
        self.slots.set(tool.to_variant() as usize, Some(value));
        proof {
            assert forall|t: Tools| #[trigger] self@.dom().contains(t) == old(self)@.insert(
                tool,
                value,
            ).dom().contains(t) by {
                Tools::lemma_index_injective(tool, t);
                Tools::lemma_index_injective(t, t);
            }
            assert forall|t: Tools| #[trigger] self@.dom().contains(t) implies self@[t] == old(
                self)@.insert(tool, value)[t] by {
                Tools::lemma_index_injective(tool, t);
                Tools::lemma_index_injective(t, t);
            }
            assert(self@ =~= old(self)@.insert(tool, value));
        }
    }
}

/// What the state file holds. Values that older versions stored there, and
/// that now belong to the configuration, are marked as such.
#[derive(Debug)]
pub struct PersistedState {
    pub last_color: Option<HexColor>,
    pub saved_custom_colors: Vec<HexColor>,
    /// Darkness around a spotlight, in millionths.
    pub spotlight_darkness: Option<i64>,
    /// Opacity of highlights, in millionths.
    pub highlighter_opacity: Option<i64>,
    /// Magnification inside a spotlight, in millionths.
    pub spotlight_magnification: Option<i64>,
    /// Moved to the configuration. In millionths.
    pub annotation_size_factor: Option<i64>,
    /// Whether the crop tool snaps to edges.
    pub snap_to_edges: Option<bool>,
    /// Size that a tool starts with.
    pub size_per_tool: PerTool<Size>,
    /// Arrow geometry last chosen.
    pub arrow_style: Option<ArrowStyle>,
    /// Blur algorithm last chosen.
    pub blur_style: Option<BlurStyle>,
    /// Text background last chosen.
    pub text_background: Option<TextBackground>,
    /// Highlighter style last chosen.
    pub highlighter_style: Option<HighlighterStyle>,
    /// Moved to the configuration.
    pub keybinds: Option<PerTool<String>>,
    /// Moved to the configuration.
    pub close_on_esc: Option<bool>,
    /// Moved to the configuration.
    pub close_on_copy: Option<bool>,
    /// Moved to the configuration.
    pub close_on_save: Option<bool>,
    /// Moved to the configuration.
    pub hide_default_palette: Option<bool>,
    /// Smoothing passes of the brush.
    pub brush_post_smooth_iterations: Option<usize>,
    /// Whether shapes of a tool start filled.
    pub fill_per_tool: PerTool<bool>,
    /// Moved to the configuration.
    pub sticky_session_defaults: Option<bool>,
    /// Width of the layer list, in sub-units.
    pub layer_panel_width: Option<i64>,
    /// The chord that starts a scroll capture.
    pub scroll_capture_shortcut: Option<String>,
    /// Left, top, width and height of the last scroll capture, in sub-units.
    pub scroll_capture_last_region: Option<[i64; 4]>,
    /// Moved to the configuration.
    pub park_pointer_during_manual_scroll_capture: Option<bool>,
}

impl PersistedState {
    /// The values per tool are well formed.
    pub open spec fn wf(&self) -> bool {
        self.size_per_tool.wf() && self.fill_per_tool.wf()
    }

    /// The state of a first launch: nothing is remembered.
    pub open spec fn is_fresh(&self) -> bool {
        &&& self.last_color is None
        &&& self.saved_custom_colors@.len() == 0
        &&& self.spotlight_darkness is None
        &&& self.highlighter_opacity is None
        &&& self.spotlight_magnification is None
        &&& self.annotation_size_factor is None
        &&& self.snap_to_edges is None
        &&& self.size_per_tool@ == Map::<Tools, Size>::empty()
        &&& self.arrow_style is None
        &&& self.blur_style is None
        &&& self.text_background is None
        &&& self.highlighter_style is None
        &&& self.keybinds is None
        &&& self.close_on_esc is None
        &&& self.close_on_copy is None
        &&& self.close_on_save is None
        &&& self.hide_default_palette is None
        &&& self.brush_post_smooth_iterations is None
        &&& self.fill_per_tool@ == Map::<Tools, bool>::empty()
        &&& self.sticky_session_defaults is None
        &&& self.layer_panel_width is None
        &&& self.scroll_capture_shortcut is None
        &&& self.scroll_capture_last_region is None
        &&& self.park_pointer_during_manual_scroll_capture is None
    }
}

impl Default for PersistedState {
    fn default() -> (r: PersistedState)
        ensures
            r.wf(),
            r.is_fresh(),
    {
        PersistedState {
            last_color: None,
            saved_custom_colors: Vec::new(),
            spotlight_darkness: None,
            highlighter_opacity: None,
            spotlight_magnification: None,
            annotation_size_factor: None,
            snap_to_edges: None,
            size_per_tool: PerTool::new(),
            arrow_style: None,
            blur_style: None,
            text_background: None,
            highlighter_style: None,
            keybinds: None,
            close_on_esc: None,
            close_on_copy: None,
            close_on_save: None,
            hide_default_palette: None,
            brush_post_smooth_iterations: None,
            fill_per_tool: PerTool::new(),
            sticky_session_defaults: None,
            layer_panel_width: None,
            scroll_capture_shortcut: None,
            scroll_capture_last_region: None,
            park_pointer_during_manual_scroll_capture: None,
        }
    }
}

pub fn load_spotlight_darkness(state: &PersistedState) -> (r: Option<i64>)
    ensures
        r == state.spotlight_darkness,
{
    state.spotlight_darkness
}

pub fn save_spotlight_darkness(state: &mut PersistedState, value: i64)
    ensures
        *final(state) == (PersistedState { spotlight_darkness: Some(value), ..*old(state) }),
{
    state.spotlight_darkness = Some(value);
}

pub fn load_highlighter_opacity(state: &PersistedState) -> (r: Option<i64>)
    ensures
        r == state.highlighter_opacity,
{
    state.highlighter_opacity
}

pub fn save_highlighter_opacity(state: &mut PersistedState, value: i64)
    ensures
        *final(state) == (PersistedState { highlighter_opacity: Some(value), ..*old(state) }),
{
    state.highlighter_opacity = Some(value);
}

pub fn load_spotlight_magnification(state: &PersistedState) -> (r: Option<i64>)
    ensures
        r == state.spotlight_magnification,
{
    state.spotlight_magnification
}

pub fn save_spotlight_magnification(state: &mut PersistedState, value: i64)
    ensures
        *final(state) == (PersistedState { spotlight_magnification: Some(value), ..*old(state) }),
{
    state.spotlight_magnification = Some(value);
}

pub fn save_annotation_size_factor(state: &mut PersistedState, value: i64)
    ensures
        *final(state) == (PersistedState { annotation_size_factor: Some(value), ..*old(state) }),
{
    state.annotation_size_factor = Some(value);
}

pub fn load_snap_to_edges(state: &PersistedState) -> (r: Option<bool>)
    ensures
        r == state.snap_to_edges,
{
    state.snap_to_edges
}

pub fn save_snap_to_edges(state: &mut PersistedState, value: bool)
    ensures
        *final(state) == (PersistedState { snap_to_edges: Some(value), ..*old(state) }),
{
    state.snap_to_edges = Some(value);
}

pub fn load_arrow_style(state: &PersistedState) -> (r: Option<ArrowStyle>)
    ensures
        r == state.arrow_style,
{
    state.arrow_style
}

pub fn save_arrow_style(state: &mut PersistedState, value: ArrowStyle)
    ensures
        *final(state) == (PersistedState { arrow_style: Some(value), ..*old(state) }),
{
    state.arrow_style = Some(value);
}

pub fn load_blur_style(state: &PersistedState) -> (r: Option<BlurStyle>)
    ensures
        r == state.blur_style,
{
    state.blur_style
}

pub fn save_blur_style(state: &mut PersistedState, value: BlurStyle)
    ensures
        *final(state) == (PersistedState { blur_style: Some(value), ..*old(state) }),
{
    state.blur_style = Some(value);
}

pub fn load_text_background(state: &PersistedState) -> (r: Option<TextBackground>)
    ensures
        r == state.text_background,
{
    state.text_background
}

pub fn save_text_background(state: &mut PersistedState, value: TextBackground)
    ensures
        *final(state) == (PersistedState { text_background: Some(value), ..*old(state) }),
{
    state.text_background = Some(value);
}

pub fn load_highlighter_style(state: &PersistedState) -> (r: Option<HighlighterStyle>)
    ensures
        r == state.highlighter_style,
{
    state.highlighter_style
}

pub fn save_highlighter_style(state: &mut PersistedState, value: HighlighterStyle)
    ensures
        *final(state) == (PersistedState { highlighter_style: Some(value), ..*old(state) }),
{
    state.highlighter_style = Some(value);
}

pub fn load_brush_post_smooth_iterations(state: &PersistedState) -> (r: Option<usize>)
    ensures
        r == state.brush_post_smooth_iterations,
{
    state.brush_post_smooth_iterations
}

pub fn save_brush_post_smooth_iterations(state: &mut PersistedState, value: usize)
    ensures
        *final(state) == (PersistedState { brush_post_smooth_iterations: Some(value), ..*old(state) }),
{
    state.brush_post_smooth_iterations = Some(value);
}

pub fn load_layer_panel_width(state: &PersistedState) -> (r: Option<i64>)
    ensures
        r == state.layer_panel_width,
{
    state.layer_panel_width
}

pub fn save_layer_panel_width(state: &mut PersistedState, value: i64)
    ensures
        *final(state) == (PersistedState { layer_panel_width: Some(value), ..*old(state) }),
{
    state.layer_panel_width = Some(value);
}

/// The color that a stored one stands for.
pub open spec fn color_of(hc: HexColor) -> Color {
    Color { r: hc.r, g: hc.g, b: hc.b, a: hc.a }
}

/// How a color is stored.
pub open spec fn hex_of(c: Color) -> HexColor {
    HexColor { r: c.r, g: c.g, b: c.b, a: c.a }
}

/// Remembers the color last chosen.
pub fn save_last_color(state: &mut PersistedState, color: Color)
    ensures
        *final(state) == (PersistedState { last_color: Some(hex_of(color)), ..*old(state) }),
{
    state.last_color = Some(HexColor::rgba(color.r, color.g, color.b, color.a));
}

/// The color last chosen.
pub fn load_last_color(state: &PersistedState) -> (r: Option<Color>)
    ensures
        r == match state.last_color {
            Some(hc) => Some(color_of(hc)),
            None => None,
        },
{
    match &state.last_color {
        Some(hc) => Some(Color { r: hc.r, g: hc.g, b: hc.b, a: hc.a }),
        None => None,
    }
}

/// The color to start with: the one last chosen, else red.
pub fn initial_color(state: &PersistedState) -> (r: Color)
    ensures
        r == match state.last_color {
            Some(hc) => color_of(hc),
            None => Color::red_spec(),
        },
{
    match load_last_color(state) {
        Some(c) => c,
        None => Color::red(),
    }
}

/// The slots of saved colors; `None` for those left empty.
pub open spec fn slots_of(stored: Seq<HexColor>) -> Seq<Option<Color>> {
    stored.map_values(|hc: HexColor| hex_to_slot_spec(hc))
}

/// How slots of saved colors are stored.
pub open spec fn stored_of(slots: Seq<Option<Color>>) -> Seq<HexColor> {
    slots.map_values(|slot: Option<Color>| slot_to_hex_spec(slot))
}

/// The slots without the empty ones at the end.
pub open spec fn trimmed(slots: Seq<Option<Color>>) -> Seq<Option<Color>>
    decreases slots.len(),
{
    if slots.len() > 0 && slots.last() is None {
        trimmed(slots.drop_last())
    } else {
        slots
    }
}

/// The slots with a color added: in the first empty one, else at the end.
pub open spec fn with_color(slots: Seq<Option<Color>>, color: Color) -> Seq<Option<Color>>
    decreases slots.len(),
{
    if slots.len() == 0 {
        seq![Some(color)]
    } else if slots[0] is None {
        slots.update(0, Some(color))
    } else {
        seq![slots[0]] + with_color(slots.drop_first(), color)
    }
}

/// The slots of saved colors.
pub fn load_custom_colors(state: &PersistedState) -> (r: Vec<Option<Color>>)
    ensures
        r@ == slots_of(state.saved_custom_colors@),
{
    let mut slots: Vec<Option<Color>> = Vec::new();
    let mut i: usize = 0;
    while i < state.saved_custom_colors.len()
        invariant
            i <= state.saved_custom_colors@.len(),
            slots@.len() == i,
            forall|k: int|
                0 <= k < i ==> #[trigger] slots@[k] == hex_to_slot_spec(
                    state.saved_custom_colors@[k],
                ),
        decreases state.saved_custom_colors.len() - i,
    {
        slots.push(hex_to_slot(&state.saved_custom_colors[i]));
        i = i + 1;
    }
    assert(slots@ =~= slots_of(state.saved_custom_colors@));
    slots
}

/// Stores the slots, without the empty ones at the end.
pub fn save_custom_colors(state: &mut PersistedState, slots: &Vec<Option<Color>>)
    ensures
        final(state).saved_custom_colors@ == stored_of(trimmed(slots@)),
        *final(state) == (PersistedState {
            saved_custom_colors: final(state).saved_custom_colors,
            ..*old(state)
        }),
{
    let mut n: usize = slots.len();
    assert(slots@.take(n as int) == slots@);
    while n > 0 && slots[n - 1].is_none()
        invariant
            n <= slots@.len(),
            trimmed(slots@.take(n as int)) == trimmed(slots@),
        decreases n,
    {
        proof {
            let t = slots@.take(n as int);
            assert(t.last() is None);
            assert(t.drop_last() == slots@.take(n - 1));
        }
        n = n - 1;
    }
    proof {
        let t = slots@.take(n as int);
        if n > 0 {
            assert(t.last() == slots@[n - 1]);
        }
        assert(trimmed(t) == t);
    }
    let mut stored: Vec<HexColor> = Vec::new();
    let mut i: usize = 0;
    while i < n
        invariant
            i <= n <= slots@.len(),
            stored@.len() == i,
            forall|k: int| 0 <= k < i ==> #[trigger] stored@[k] == slot_to_hex_spec(slots@[k]),
        decreases n - i,
    {
        stored.push(slot_to_hex(slots[i]));
        i = i + 1;
    }
    assert(stored@ =~= stored_of(slots@.take(n as int)));
    state.saved_custom_colors = stored;
}

/// Adds a color to the saved ones and returns the slots as they are now.
pub fn append_custom_color(state: &mut PersistedState, color: Color) -> (r: Vec<Option<Color>>)
    ensures
        r@ == with_color(slots_of(old(state).saved_custom_colors@), color),
        final(state).saved_custom_colors@ == stored_of(trimmed(r@)),
        *final(state) == (PersistedState {
            saved_custom_colors: final(state).saved_custom_colors,
            ..*old(state)
        }),
{
    let mut slots = load_custom_colors(state);
    let ghost before = slots@;
    let mut i: usize = 0;
    while i < slots.len() && slots[i].is_some()
        invariant
            i <= slots@.len(),
            slots@ == before,
            forall|k: int| 0 <= k < i ==> #[trigger] before[k] is Some,
        decreases slots.len() - i,
    {
        i = i + 1;
    }
    proof {
        lemma_with_color(before, color, i as int);
    }
    if i < slots.len() {
        slots.set(i, Some(color));
    } else {
        slots.push(Some(color));
    }
    save_custom_colors(state, &slots);
    slots
}

/// Where a color is added: in the first empty slot, else at the end.
proof fn lemma_with_color(slots: Seq<Option<Color>>, color: Color, i: int)
    requires
        0 <= i <= slots.len(),
        forall|k: int| 0 <= k < i ==> #[trigger] slots[k] is Some,
        i < slots.len() ==> slots[i] is None,
    ensures
        i < slots.len() ==> with_color(slots, color) == slots.update(i, Some(color)),
        i == slots.len() ==> with_color(slots, color) == slots.push(Some(color)),
    decreases slots.len(),
{
    if slots.len() == 0 {
        assert(slots.push(Some(color)) =~= seq![Some(color)]);
    } else if i > 0 {
        let rest = slots.drop_first();
        assert forall|k: int| 0 <= k < i - 1 implies #[trigger] rest[k] is Some by {
            assert(rest[k] == slots[k + 1]);
        }
        lemma_with_color(rest, color, i - 1);
        if i < slots.len() {
            assert(seq![slots[0]] + rest.update(i - 1, Some(color)) =~= slots.update(
                i,
                Some(color),
            ));
        } else {
            assert(seq![slots[0]] + rest.push(Some(color)) =~= slots.push(Some(color)));
        }
    }
}

/// The chord that starts a scroll capture.
pub fn load_scroll_capture_shortcut(state: &PersistedState) -> (r: Option<String>)
    ensures
        match (r, state.scroll_capture_shortcut) {
            (Some(a), Some(b)) => a@ == b@,
            (None, None) => true,
            _ => false,
        },
{
    match &state.scroll_capture_shortcut {
        Some(chord) => Some(chord.clone()),
        None => None,
    }
}

/// Remembers the chord that starts a scroll capture, or forgets it.
pub fn save_scroll_capture_shortcut(state: &mut PersistedState, chord: Option<String>)
    ensures
        *final(state) == (PersistedState { scroll_capture_shortcut: chord, ..*old(state) }),
{
    state.scroll_capture_shortcut = chord;
}

/// Left, top, width and height of the last scroll capture.
pub fn load_scroll_capture_last_region(state: &PersistedState) -> (r: Option<[i64; 4]>)
    ensures
        r == state.scroll_capture_last_region,
{
    state.scroll_capture_last_region
}

/// Remembers the region of a scroll capture.
pub fn save_scroll_capture_last_region(state: &mut PersistedState, region: [i64; 4])
    ensures
        *final(state) == (PersistedState {
            scroll_capture_last_region: Some(region),
            ..*old(state)
        }),
{
    state.scroll_capture_last_region = Some(region);
}

/// What was kept for a tool.
pub open spec fn kept_for<T>(m: Map<Tools, T>, tool: Tools) -> Option<T> {
    if m.dom().contains(tool) {
        Some(m[tool])
    } else {
        None
    }
}

/// What is saved for a tool is what is loaded for it, and nothing changes for
/// the others.
pub proof fn lemma_kept_for_tool<T>(m: Map<Tools, T>, tool: Tools, value: T, other: Tools)
    ensures
        kept_for(m.insert(tool, value), tool) == Some(value),
        other != tool ==> kept_for(m.insert(tool, value), other) == kept_for(m, other),
{
}

/// The size that a tool starts with, if one was saved.
pub fn load_size_for_tool(state: &PersistedState, tool: Tools) -> (r: Option<Size>)
    requires
        state.wf(),
    ensures
        r == kept_for(state.size_per_tool@, tool),
{
    match state.size_per_tool.get(tool) {
        Some(size) => Some(*size),
        None => None,
    }
}

/// Saves the size that a tool starts with.
pub fn save_size_for_tool(state: &mut PersistedState, tool: Tools, size: Size)
    requires
        old(state).wf(),
    ensures
        final(state).wf(),
        final(state).size_per_tool@ == old(state).size_per_tool@.insert(tool, size),
        *final(state) == (PersistedState {
            size_per_tool: final(state).size_per_tool,
            ..*old(state)
        }),
{
    state.size_per_tool.insert(tool, size);
}

/// Whether shapes of a tool start filled, if that was saved.
pub fn load_fill_for_tool(state: &PersistedState, tool: Tools) -> (r: Option<bool>)
    requires
        state.wf(),
    ensures
        r == kept_for(state.fill_per_tool@, tool),
{
    match state.fill_per_tool.get(tool) {
        Some(fill) => Some(*fill),
        None => None,
    }
}

/// Saves whether shapes of a tool start filled.
pub fn save_fill_for_tool(state: &mut PersistedState, tool: Tools, fill: bool)
    requires
        old(state).wf(),
    ensures
        final(state).wf(),
        final(state).fill_per_tool@ == old(state).fill_per_tool@.insert(tool, fill),
        *final(state) == (PersistedState {
            fill_per_tool: final(state).fill_per_tool,
            ..*old(state)
        }),
{
    state.fill_per_tool.insert(tool, fill);
}

/// Values that older versions kept in the state file and that now belong to
/// the configuration.
#[derive(Debug)]
pub struct LegacyPreferences {
    pub annotation_size_factor: Option<i64>,
    pub keybinds: Option<PerTool<String>>,
    pub close_on_esc: Option<bool>,
    pub close_on_copy: Option<bool>,
    pub close_on_save: Option<bool>,
    pub hide_default_palette: Option<bool>,
    pub sticky_session_defaults: Option<bool>,
    pub park_pointer_during_manual_scroll_capture: Option<bool>,
    pub keep_window_size_on_crop: Option<bool>,
}

impl LegacyPreferences {
    /// There is nothing to move to the configuration.
    pub open spec fn is_empty_spec(&self) -> bool {
        &&& self.annotation_size_factor is None
        &&& self.keybinds is None
        &&& self.close_on_esc is None
        &&& self.close_on_copy is None
        &&& self.close_on_save is None
        &&& self.hide_default_palette is None
        &&& self.sticky_session_defaults is None
        &&& self.park_pointer_during_manual_scroll_capture is None
        &&& self.keep_window_size_on_crop is None
    }

    /// Whether there is nothing to move to the configuration.
    pub fn is_empty(&self) -> (r: bool)
        ensures
            r == self.is_empty_spec(),
    {
        self.annotation_size_factor.is_none() && self.keybinds.is_none()
            && self.close_on_esc.is_none() && self.close_on_copy.is_none()
            && self.close_on_save.is_none() && self.hide_default_palette.is_none()
            && self.sticky_session_defaults.is_none()
            && self.park_pointer_during_manual_scroll_capture.is_none()
            && self.keep_window_size_on_crop.is_none()
    }
}

/// What has to move to the configuration. The last value is no longer part of
/// the state, so it comes separately.
pub fn load_legacy_preferences(state: PersistedState, keep_window_size_on_crop: Option<bool>) -> (r:
    LegacyPreferences)
    ensures
        r == (LegacyPreferences {
            annotation_size_factor: state.annotation_size_factor,
            keybinds: state.keybinds,
            close_on_esc: state.close_on_esc,
            close_on_copy: state.close_on_copy,
            close_on_save: state.close_on_save,
            hide_default_palette: state.hide_default_palette,
            sticky_session_defaults: state.sticky_session_defaults,
            park_pointer_during_manual_scroll_capture:
                state.park_pointer_during_manual_scroll_capture,
            keep_window_size_on_crop,
        }),
{
    LegacyPreferences {
        annotation_size_factor: state.annotation_size_factor,
        keybinds: state.keybinds,
        close_on_esc: state.close_on_esc,
        close_on_copy: state.close_on_copy,
        close_on_save: state.close_on_save,
        hide_default_palette: state.hide_default_palette,
        sticky_session_defaults: state.sticky_session_defaults,
        park_pointer_during_manual_scroll_capture: state.park_pointer_during_manual_scroll_capture,
        keep_window_size_on_crop,
    }
}

/// A saved color comes back as it was.
pub proof fn lemma_color_round_trip(c: Color)
    ensures
        color_of(hex_of(c)) == c,
{
}

/// What is stored of the slots comes back as it was, gaps included; only empty
/// slots at the end are dropped. Fully transparent black is the mark of an
/// empty slot, so it does not survive.
pub proof fn lemma_slots_round_trip(slots: Seq<Option<Color>>)
    requires
        forall|i: int|
            0 <= i < slots.len() ==> #[trigger] slots[i] != Some(Color { r: 0, g: 0, b: 0, a: 0 }),
    ensures
        slots_of(stored_of(trimmed(slots))) == trimmed(slots),
{
    lemma_trimmed_prefix(slots);
    let t = trimmed(slots);
    assert forall|i: int| 0 <= i < t.len() implies #[trigger] slots_of(stored_of(t))[i] == t[i] by {
        assert(t[i] == slots[i]);
    }
    assert(slots_of(stored_of(t)) =~= t);
}

/// Trimming keeps a prefix, and everything after it was empty.
pub proof fn lemma_trimmed_prefix(slots: Seq<Option<Color>>)
    ensures
        trimmed(slots).len() <= slots.len(),
        trimmed(slots) == slots.take(trimmed(slots).len() as int),
        forall|i: int| trimmed(slots).len() <= i < slots.len() ==> #[trigger] slots[i] is None,
        trimmed(slots).len() > 0 ==> trimmed(slots).last() is Some,
    decreases slots.len(),
{
    if slots.len() > 0 && slots.last() is None {
        let s = slots.drop_last();
        lemma_trimmed_prefix(s);
        assert(s.take(trimmed(s).len() as int) =~= slots.take(trimmed(s).len() as int));
        assert forall|i: int| trimmed(slots).len() <= i < slots.len() implies #[trigger] slots[i] is None by {
            if i < s.len() {
                assert(s[i] is None);
            }
        }
    } else {
        assert(slots.take(slots.len() as int) =~= slots);
    }
}

/// A color that was added is among the saved ones, no other color is lost,
/// and no slot moves.
pub proof fn lemma_added_color_is_kept(slots: Seq<Option<Color>>, color: Color)
    ensures
        with_color(slots, color).contains(Some(color)),
        with_color(slots, color).len() <= slots.len() + 1,
        slots.len() <= with_color(slots, color).len(),
        forall|i: int|
            0 <= i < slots.len() && #[trigger] slots[i] is Some ==> with_color(slots, color)[i]
                == slots[i],
    decreases slots.len(),
{
    let w = with_color(slots, color);
    if slots.len() == 0 || slots[0] is None {
        assert(w[0] == Some(color));
    } else {
        let rest = slots.drop_first();
        lemma_added_color_is_kept(rest, color);
        let v = with_color(rest, color);
        let j = choose|j: int| 0 <= j < v.len() && v[j] == Some(color);
        assert(w[j + 1] == Some(color));
        assert forall|i: int| 0 <= i < slots.len() && #[trigger] slots[i] is Some implies w[i]
            == slots[i] by {
            if i > 0 {
                assert(rest[i - 1] == slots[i]);
            }
        }
    }
}

} // verus!
