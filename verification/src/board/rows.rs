//! The rows of the layer list: what they show and what a click, or a drop, on
//! them means.
use vstd::prelude::*;
use crate::board::messages::{PanelMoveDir, SketchBoardInput};
use crate::board::panel::{find_place, lemma_place};
use crate::board::SketchBoard;
use crate::text::{decimal, decimal_spec, lemma_decimal_reads_back, number, number_spec};
use crate::tools::arrow::ArrowStyle;
use crate::tools::{DrawableId, PanelPreview};
use crate::units::{half, max_len, max_spec, min_len, min_spec, px, UNIT};

verus! {

/// A row: one layer.
#[derive(Debug)]
pub struct LayerRow {
    pub id: DrawableId,
    pub label: String,
    pub selected: bool,
    pub visible: bool,
    pub locked: bool,
}

/// The name of a layer: its own, or else its kind and number.
pub open spec fn label_spec(custom: Option<Seq<char>>, kind: Seq<char>, index: nat) -> Seq<char> {
    match custom {
        Some(name) => name,
        None => kind + seq![' '] + decimal_spec(index),
    }
}

/// The name of a layer. `index` counts the layers of one kind.
pub fn layer_label(custom: Option<String>, kind: &str, index: Option<u64>) -> (r: String)
    ensures
        r@ == label_spec(
            match custom {
                Some(name) => Some(name@),
                None => None,
            },
            kind@,
            match index {
                Some(n) => n as nat,
                None => 0,
            },
        ),
{
    match custom {
        Some(name) => name,
        None => {
            let n: u64 = match index {
                Some(n) => n,
                None => 0,
            };
            let mut s: String = kind.to_owned();
            s.push(' ');
            assert(s@ =~= kind@ + seq![' ']);
            s.concat(decimal(n).as_str())
        },
    }
}

/// Two layers of one kind never get the same name by themselves.
pub proof fn lemma_labels_differ(kind: Seq<char>, a: u64, b: u64)
    requires
        label_spec(None, kind, a as nat) == label_spec(None, kind, b as nat),
    ensures
        a == b,
{
    lemma_decimal_reads_back(a);
    lemma_decimal_reads_back(b);
    let x = label_spec(None, kind, a as nat);
    let n = kind.len() as int + 1;
    assert(x.skip(n) =~= decimal_spec(a as nat));
    assert(x.skip(n) =~= decimal_spec(b as nat));
}

impl LayerRow {
    /// The style classes of the row.
    pub fn classes(&self) -> (r: Vec<&'static str>)
        ensures
            r@ == seq!["layer_row"] + (if self.selected {
                seq!["selected"]
            } else {
                Seq::empty()
            }) + (if self.visible {
                Seq::empty()
            } else {
                seq!["hidden_layer"]
            }),
    {
        let mut classes: Vec<&'static str> = vec!["layer_row"];
        if self.selected {
            classes.push("selected");
        }
        if !self.visible {
            classes.push("hidden_layer");
        }
        assert(classes@ =~= seq!["layer_row"] + (if self.selected {
            seq!["selected"]
        } else {
            Seq::empty()
        }) + (if self.visible {
            Seq::empty()
        } else {
            seq!["hidden_layer"]
        }));
        classes
    }

    /// Icon and hint of the button that shows and hides the layer.
    pub fn eye(&self) -> (r: (&'static str, &'static str))
        ensures
            r == if self.visible {
                ("eye-regular", "Hide layer")
            } else {
                ("eye-off-regular", "Show layer")
            },
    {
        if self.visible {
            ("eye-regular", "Hide layer")
        } else {
            ("eye-off-regular", "Show layer")
        }
    }

    /// Icon and hint of the button that locks and unlocks the layer.
    pub fn lock(&self) -> (r: (&'static str, &'static str))
        ensures
            r == if self.locked {
                ("lock-closed-regular", "Unlock layer")
            } else {
                ("lock-open-regular", "Lock layer")
            },
    {
        if self.locked {
            ("lock-closed-regular", "Unlock layer")
        } else {
            ("lock-open-regular", "Lock layer")
        }
    }

    /// What a click on the row asks for; `None` where the name is to be
    /// edited in place.
    pub fn clicked(&self, control: bool) -> (r: Option<SketchBoardInput>)
        ensures
            r == if !control && self.selected {
                None
            } else {
                Some(SketchBoardInput::PanelSelectDrawable { id: self.id, additive: control })
            },
    {
        if !control && self.selected {
            None
        } else {
            Some(SketchBoardInput::PanelSelectDrawable { id: self.id, additive: control })
        }
    }

    /// The name of the row's widget, by which a drop finds the layer.
    pub fn widget_name(&self) -> (r: String)
        ensures
            r@ == row_name(self.id),
    {
        "layer-row-".to_owned().concat(decimal(self.id.0).as_str())
    }
}

/// The name of the widget of a row.
pub open spec fn row_name(id: DrawableId) -> Seq<char> {
    "layer-row-"@ + decimal_spec(id.0 as nat)
}

/// The layer that a widget name stands for.
pub open spec fn named_layer(name: Seq<char>) -> Option<nat> {
    let p = "layer-row-"@;
    if name.len() >= p.len() && name.take(p.len() as int) == p {
        number_spec(name.skip(p.len() as int))
    } else {
        None
    }
}

/// The layer whose row has this widget name.
pub fn row_id(name: &str) -> (r: Option<DrawableId>)
    ensures
        match r {
            Some(id) => named_layer(name@) == Some(id.0 as nat),
            None => named_layer(name@) is None,
        },
{
    let prefix: &str = "layer-row-";
    let n: usize = name.unicode_len();
    let k: usize = prefix.unicode_len();
    if n < k {
        return None;
    }
    let mut i: usize = 0;
    while i < k
        invariant
            prefix@ == "layer-row-"@,
            k == prefix@.len(),
            n == name@.len(),
            i <= k <= n,
            forall|j: int| 0 <= j < i ==> #[trigger] name@[j] == prefix@[j],
        decreases k - i,
    {
        if name.get_char(i) != prefix.get_char(i) {
            assert(name@.take(k as int)[i as int] != prefix@[i as int]);
            return None;
        }
        i = i + 1;
    }
    assert(name@.take(k as int) =~= prefix@);
    let rest: &str = name.substring_char(k, n);
    assert(rest@ =~= name@.skip(k as int));
    match number(rest) {
        Some(v) => Some(DrawableId(v)),
        None => None,
    }
}

/// A row's widget name leads back to its layer.
pub proof fn lemma_row_name_reads_back(id: DrawableId)
    ensures
        named_layer(row_name(id)) == Some(id.0 as nat),
{
    lemma_decimal_reads_back(id.0);
    let p = "layer-row-"@;
    assert(row_name(id).take(p.len() as int) =~= p);
    assert(row_name(id).skip(p.len() as int) =~= decimal_spec(id.0 as nat));
}

/// One place of the stack, as the list is told of it.
#[derive(Debug)]
pub struct StackEntry {
    pub id: DrawableId,
    /// What kind of drawable it is; `None` where nothing is drawn there.
    pub kind: Option<String>,
    /// The name that the user gave it.
    pub custom: Option<String>,
    /// Its number among those of its kind.
    pub index: Option<u64>,
    /// Whether it is visible and whether it is locked.
    pub flags: Option<(bool, bool)>,
}

/// What a row shows.
pub struct RowView {
    pub id: DrawableId,
    pub label: Seq<char>,
    pub selected: bool,
    pub visible: bool,
    pub locked: bool,
}

impl View for LayerRow {
    type V = RowView;

    open spec fn view(&self) -> RowView {
        RowView {
            id: self.id,
            label: self.label@,
            selected: self.selected,
            visible: self.visible,
            locked: self.locked,
        }
    }
}

impl StackEntry {
    /// What the row of the entry shows: the layer is visible and not locked
    /// unless something else is known. Nothing drawn, no row.
    pub open spec fn row(self, selection: Seq<DrawableId>) -> Option<RowView> {
        match self.kind {
            None => None,
            Some(kind) => Some(
                RowView {
                    id: self.id,
                    label: label_spec(
                        match self.custom {
                            Some(name) => Some(name@),
                            None => None,
                        },
                        kind@,
                        match self.index {
                            Some(n) => n as nat,
                            None => 0,
                        },
                    ),
                    selected: selection.contains(self.id),
                    visible: match self.flags {
                        Some(f) => f.0,
                        None => true,
                    },
                    locked: match self.flags {
                        Some(f) => f.1,
                        None => false,
                    },
                },
            ),
        }
    }

    fn into_row(self, selection: &Vec<DrawableId>) -> (r: Option<LayerRow>)
        ensures
            match r {
                Some(row) => self.row(selection@) == Some(row@),
                None => self.row(selection@) is None,
            },
    {
        let (visible, locked): (bool, bool) = match self.flags {
            Some(f) => f,
            None => (true, false),
        };
        proof {
            lemma_place(selection@, self.id);
        }
        match self.kind {
            None => None,
            Some(kind) => Some(
                LayerRow {
                    id: self.id,
                    label: layer_label(self.custom, kind.as_str(), self.index),
                    selected: find_place(selection, self.id).is_some(),
                    visible,
                    locked,
                },
            ),
        }
    }
}

/// The rows of a stack that is given from the bottom up: one for each layer,
/// the top one first.
pub open spec fn rows_of(stack: Seq<StackEntry>, selection: Seq<DrawableId>) -> Seq<RowView>
    decreases stack.len(),
{
    if stack.len() == 0 {
        Seq::empty()
    } else {
        let below = rows_of(stack.drop_last(), selection);
        match stack.last().row(selection) {
            Some(row) => seq![row] + below,
            None => below,
        }
    }
}

/// What the rows show.
pub open spec fn shown(rows: Seq<LayerRow>) -> Seq<RowView> {
    Seq::new(rows.len(), |i: int| rows[i]@)
}

impl SketchBoard {
    /// The rows of the list, where it is open. The stack is given from the
    /// bottom up.
    pub fn layer_rows(&self, stack: Vec<StackEntry>) -> (r: Option<Vec<LayerRow>>)
        ensures
            match r {
                Some(rows) => self.layer_panel_open && shown(rows@) == rows_of(
                    stack@,
                    self.selection@,
                ),
                None => !self.layer_panel_open,
            },
    {
        if !self.layer_panel_open {
            return None;
        }
        let mut left: Vec<StackEntry> = stack;
        let mut rows: Vec<LayerRow> = Vec::new();
        assert(shown(rows@) + rows_of(left@, self.selection@) =~= rows_of(stack@, self.selection@));
        while left.len() > 0
            invariant
                shown(rows@) + rows_of(left@, self.selection@) == rows_of(stack@, self.selection@),
            decreases left@.len(),
        {
            let ghost (before, seen) = (left@, shown(rows@));
            if let Some(entry) = left.pop() {
                assert(left@ == before.drop_last() && entry == before.last());
                if let Some(row) = entry.into_row(&self.selection) {
                    rows.push(row);
                    assert(shown(rows@) =~= seen.push(row@));
                    assert(seen.push(row@) + rows_of(left@, self.selection@) =~= seen + (seq![row@]
                        + rows_of(left@, self.selection@)));
                }
            }
        }
        assert(shown(rows@) =~= shown(rows@) + rows_of(left@, self.selection@));
        Some(rows)
    }
}

/// The list is as long as the stack where something is drawn at every place,
/// and shows the layers from the top down.
pub proof fn lemma_rows_go_down(stack: Seq<StackEntry>, selection: Seq<DrawableId>)
    requires
        forall|i: int| 0 <= i < stack.len() ==> (#[trigger] stack[i]).kind is Some,
    ensures
        rows_of(stack, selection).len() == stack.len(),
        forall|i: int|
            0 <= i < stack.len() ==> Some(#[trigger] rows_of(stack, selection)[i])
                == stack[stack.len() - 1 - i].row(selection),
    decreases stack.len(),
{
    if stack.len() > 0 {
        lemma_rows_go_down(stack.drop_last(), selection);
        let below = rows_of(stack.drop_last(), selection);
        assert(stack.last().kind is Some);
        assert forall|i: int| 0 <= i < stack.len() implies Some(
            #[trigger] rows_of(stack, selection)[i],
        ) == stack[stack.len() - 1 - i].row(selection) by {
            if i > 0 {
                assert(rows_of(stack, selection)[i] == below[i - 1]);
            }
        }
    }
}

/// A row on screen, in sub-units.
#[derive(Clone, Copy, Debug, PartialEq, Eq, Structural)]
pub struct RowSpan {
    pub top: i64,
    pub height: i64,
}

impl RowSpan {
    /// The row is on a screen.
    pub open spec fn ok(&self) -> bool {
        &&& -0x1000_0000_0000_0000 <= self.top <= 0x1000_0000_0000_0000
        &&& 0 <= self.height <= 0x1000_0000_0000_0000
    }

    /// A height lies above the middle of the row.
    pub open spec fn above_middle(&self, y: int) -> bool {
        2 * (y - self.top) < self.height
    }
}

/// The row that a drop at height `y` goes to, and whether it goes above it:
/// the first row whose middle is further down, or else below the last.
pub fn drop_target_row(rows: &Vec<RowSpan>, y: i64) -> (r: Option<(usize, bool)>)
    requires
        forall|i: int| 0 <= i < rows@.len() ==> (#[trigger] rows@[i]).ok(),
        -0x1000_0000_0000_0000 <= y <= 0x1000_0000_0000_0000,
    ensures
        match r {
            Some((k, true)) => k < rows@.len() && rows@[k as int].above_middle(y as int)
                && forall|i: int| 0 <= i < k ==> !(#[trigger] rows@[i]).above_middle(y as int),
            Some((k, false)) => k == rows@.len() - 1 && forall|i: int|
                0 <= i < rows@.len() ==> !(#[trigger] rows@[i]).above_middle(y as int),
            None => rows@.len() == 0,
        },
{
    let mut i: usize = 0;
    while i < rows.len()
        invariant
            i <= rows@.len(),
            forall|i: int| 0 <= i < rows@.len() ==> (#[trigger] rows@[i]).ok(),
            -0x1000_0000_0000_0000 <= y <= 0x1000_0000_0000_0000,
            forall|k: int| 0 <= k < i ==> !(#[trigger] rows@[k]).above_middle(y as int),
        decreases rows.len() - i,
    {
        let row: RowSpan = rows[i];
        assert(rows@[i as int].ok());
        if 2 * (y - row.top) < row.height {
            return Some((i, true));
        }
        i = i + 1;
    }
    if rows.len() == 0 {
        None
    } else {
        Some((rows.len() - 1, false))
    }
}

/// A button below the list.
#[derive(Clone, Copy, Debug, PartialEq, Eq)]
pub struct FooterButton {
    pub icon: &'static str,
    pub tip: &'static str,
    pub dir: PanelMoveDir,
}

/// The buttons below the list, from the left.
pub fn footer_buttons() -> (r: Vec<FooterButton>)
    ensures
        r@ == seq![
            FooterButton {
                icon: "chevron-double-up-regular",
                tip: "Bring to front",
                dir: PanelMoveDir::ToTop,
            },
            FooterButton { icon: "arrow-up-regular", tip: "Bring forward", dir: PanelMoveDir::Up },
            FooterButton { icon: "arrow-down-regular", tip: "Send backward", dir: PanelMoveDir::Down },
            FooterButton {
                icon: "chevron-double-down-regular",
                tip: "Send to back",
                dir: PanelMoveDir::ToBottom,
            },
        ],
{
    vec![
        FooterButton {
            icon: "chevron-double-up-regular",
            tip: "Bring to front",
            dir: PanelMoveDir::ToTop,
        },
        FooterButton { icon: "arrow-up-regular", tip: "Bring forward", dir: PanelMoveDir::Up },
        FooterButton { icon: "arrow-down-regular", tip: "Send backward", dir: PanelMoveDir::Down },
        FooterButton {
            icon: "chevron-double-down-regular",
            tip: "Send to back",
            dir: PanelMoveDir::ToBottom,
        },
    ]
}

/// Width and height of the picture of a layer, in pixels; `None` where its
/// icon stands there instead.
pub fn preview_slot(preview: PanelPreview) -> (r: Option<(i32, i32)>)
    ensures
        r == match preview {
            PanelPreview::Icon => None::<(i32, i32)>,
            PanelPreview::Arrow(_) => Some((28i32, 14i32)),
            _ => Some((18i32, 14i32)),
        },
{
    match preview {
        PanelPreview::Icon => None,
        PanelPreview::Arrow(_) => Some((28, 14)),
        _ => Some((18, 14)),
    }
}

/// What the picture of a layer shows, in sub-units.
#[derive(Clone, Copy, Debug, PartialEq, Eq, Structural)]
pub enum PreviewShape {
    Nothing,
    RoundRect { x: i64, y: i64, width: i64, height: i64, radius: i64, filled: bool },
    Oval { cx: i64, cy: i64, rx: i64, ry: i64, filled: bool },
    Stroke { x0: i64, x1: i64, y: i64 },
    Arrow(ArrowStyle),
}

/// What the picture of a layer shows in a slot of `w` by `h` sub-units.
pub open spec fn preview_shape_spec(preview: PanelPreview, w: int, h: int) -> PreviewShape {
    match preview {
        PanelPreview::Icon => PreviewShape::Nothing,
        PanelPreview::Rectangle { filled } => PreviewShape::RoundRect {
            x: (5 * UNIT / 2) as i64,
            y: (5 * UNIT / 2) as i64,
            width: max_spec(w - 5 * UNIT, UNIT as int) as i64,
            height: max_spec(h - 5 * UNIT, UNIT as int) as i64,
            radius: (2 * UNIT) as i64,
            filled,
        },
        PanelPreview::Ellipse { filled } => PreviewShape::Oval {
            cx: (w / 2) as i64,
            cy: (h / 2) as i64,
            rx: max_spec(w / 2 - 3 * UNIT / 2, UNIT as int) as i64,
            ry: max_spec(h / 2 - 3 * UNIT / 2, UNIT as int) as i64,
            filled,
        },
        PanelPreview::Line => PreviewShape::Stroke {
            x0: (2 * UNIT) as i64,
            x1: (w - 2 * UNIT) as i64,
            y: (h / 2) as i64,
        },
        PanelPreview::Arrow(style) => PreviewShape::Arrow(style),
    }
}

/// What the picture of a layer shows in a slot of `w` by `h` pixels.
pub fn preview_shape(preview: PanelPreview, w: i32, h: i32) -> (r: PreviewShape)
    ensures
        r == preview_shape_spec(preview, w * UNIT, h * UNIT),
{
    let (ws, hs): (i64, i64) = (px(w), px(h));
    match preview {
        PanelPreview::Icon => PreviewShape::Nothing,
        PanelPreview::Rectangle { filled } => PreviewShape::RoundRect {
            x: 5 * UNIT / 2,
            y: 5 * UNIT / 2,
            width: max_len(ws - 5 * UNIT, UNIT),
            height: max_len(hs - 5 * UNIT, UNIT),
            radius: 2 * UNIT,
            filled,
        },
        PanelPreview::Ellipse { filled } => PreviewShape::Oval {
            cx: half(ws),
            cy: half(hs),
            rx: max_len(half(ws) - 3 * UNIT / 2, UNIT),
            ry: max_len(half(hs) - 3 * UNIT / 2, UNIT),
            filled,
        },
        PanelPreview::Line => PreviewShape::Stroke { x0: 2 * UNIT, x1: ws - 2 * UNIT, y: half(hs) },
        PanelPreview::Arrow(style) => PreviewShape::Arrow(style),
    }
}

/// The dark tiles of a checkerboard of `rows` by `cols` tiles.
pub open spec fn dark_tile(tx: int, ty: int) -> bool {
    (tx + ty) % 2 == 1
}

/// How many tiles of `tile` sub-units a length takes, and one more.
pub open spec fn tiles_over(len: int, tile: int) -> int {
    (len + tile - 1) / tile + 1
}

/// The checkerboard swatch: the side of a tile in sub-units, and the dark
/// tiles by column and row.
pub fn checker_tiles(w: i32, h: i32) -> (r: (i64, Vec<(i32, i32)>))
    requires
        0 <= w <= 0x4000,
        0 <= h <= 0x4000,
    ensures
        r.0 == max_spec(min_spec(w as int, h as int) * UNIT / 2, 2 * UNIT),
        forall|tx: i32, ty: i32|
            #![trigger r.1@.contains((tx, ty))]
            r.1@.contains((tx, ty)) <==> 0 <= tx < tiles_over(w * UNIT, r.0 as int) && 0 <= ty
                < tiles_over(h * UNIT, r.0 as int) && dark_tile(tx as int, ty as int),
{
    let tile: i64 = max_len(half(min_len(px(w), px(h))), 2 * UNIT);
    proof {
        assert(min_spec(w * UNIT, h * UNIT) == min_spec(w as int, h as int) * UNIT);
        lemma_tiles(w * UNIT, tile as int);
        lemma_tiles(h * UNIT, tile as int);
    }
    let cols: i32 = ((px(w) + tile - 1) / tile) as i32 + 1;
    let rows: i32 = ((px(h) + tile - 1) / tile) as i32 + 1;
    let mut dark: Vec<(i32, i32)> = Vec::new();
    let mut ty: i32 = 0;
    while ty < rows
        invariant
            0 <= ty <= rows,
            0 <= cols <= 0x8001,
            0 <= rows <= 0x8001,
            forall|x: i32, y: i32|
                #![trigger dark@.contains((x, y))]
                dark@.contains((x, y)) <==> 0 <= x < cols && 0 <= y < ty && dark_tile(
                    x as int,
                    y as int,
                ),
        decreases rows - ty,
    {
        let mut tx: i32 = 0;
        while tx < cols
            invariant
                0 <= ty < rows,
                0 <= tx <= cols,
                0 <= cols <= 0x8001,
                0 <= rows <= 0x8001,
                forall|x: i32, y: i32|
                    #![trigger dark@.contains((x, y))]
                    dark@.contains((x, y)) <==> 0 <= x < cols && (0 <= y < ty || (y == ty && x
                        < tx)) && dark_tile(x as int, y as int),
            decreases cols - tx,
        {
            if (tx + ty) % 2 == 1 {
                let ghost before = dark@;
                dark.push((tx, ty));
                proof {
                    assert(dark@[before.len() as int] == (tx, ty));
                    assert forall|x: i32, y: i32| #[trigger]
                        dark@.contains((x, y)) <==> before.contains((x, y)) || (x == tx && y
                            == ty) by {
                        if before.contains((x, y)) {
                            let k = choose|k: int| 0 <= k < before.len() && before[k] == (x, y);
                            assert(dark@[k] == (x, y));
                        }
                        if dark@.contains((x, y)) && !(x == tx && y == ty) {
                            let k = choose|k: int| 0 <= k < dark@.len() && dark@[k] == (x, y);
                            assert(before[k] == (x, y));
                        }
                    }
                }
            }
            tx = tx + 1;
        }
        ty = ty + 1;
    }
    (tile, dark)
}

proof fn lemma_tiles(len: int, tile: int)
    requires
        0 <= len <= 0x4000 * UNIT,
        tile >= 2 * UNIT,
    ensures
        0 <= (len + tile - 1) / tile <= 0x8000,
{
    vstd::arithmetic::div_mod::lemma_div_pos_is_pos(len + tile - 1, tile);
    assert((len + tile - 1) / tile <= 0x8000) by (nonlinear_arith)
        requires
            0 <= len <= 0x4000 * 65536,
            tile >= 2 * 65536,
    ;
}

} // verus!
