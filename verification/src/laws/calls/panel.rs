//! What the functions of layers and of the layer list give back.
use vstd::prelude::*;
use crate::board::layers::{collect_edits, find_layer, Change, Layer, LayerEdit};
use crate::board::messages::{PanelMoveDir, SketchBoardInput};
use crate::board::panel::{
    drop_onto, initial_panel_width, layers_ok, order_of_moves, panel_moved, paste_place,
};
use crate::board::rows::{
    checker_tiles, drop_target_row, layer_label, preview_shape, row_id, LayerRow, PreviewShape,
    RowSpan,
};
use crate::board::{BoardConfig, Effect, SketchBoard};
use crate::laws::layers::{next_size, style_in};
use crate::laws::panel::is_locked_layer;
use crate::math::{Rect, Vec2D};
use crate::state::PersistedState;
use crate::style::{Color, Size, Style};
use crate::tools::{DrawableId, PanelPreview, ToolUpdateResult, Tools};
use crate::units::{MICRO, UNIT};

verus! {

/// A layer is found by its id wherever there is one.
pub proof fn lemma_find_layer(layers: Vec<Layer>, id: DrawableId, r: Option<Layer>)
    requires
        call_ensures(find_layer, (&layers, id), r),
    ensures
        r is Some <==> exists|i: int| 0 <= i < layers@.len() && (#[trigger] layers@[i]).id == id,
        r matches Some(d) ==> d.id == id && layers@.contains(d),
{
    crate::laws::layers::lemma_layers_are_found(layers@, id);
}

/// A step up or down the ladder of sizes edits nothing but the size.
pub proof fn lemma_size_edit(d: Layer, s: Style, n: i32, r: Option<LayerEdit>)
    requires
        d.style == Some(s),
        n == 1 || n == -1,
        call_ensures(Change::edit, (Change::SizeSteps(n), &d), r),
    ensures
        match r {
            Some(e) => {
                &&& e == LayerEdit::Style(Style { size: style_in(e).size, ..s })
                &&& n == 1 ==> s.size != Size::XXLarge && style_in(e).size == next_size(s.size)
                &&& n == -1 ==> s.size != Size::XSmall && next_size(style_in(e).size) == s.size
            },
            None => (n == 1 && s.size == Size::XXLarge) || (n == -1 && s.size == Size::XSmall),
        },
{
    crate::laws::layers::lemma_size_steps_go_along_the_ladder(d, s, n);
}

/// Filling is for shapes, opacity for highlights, and each for itself.
pub proof fn lemma_style_edits(
    d: Layer,
    s: Style,
    fill: bool,
    v: i64,
    filled: Option<LayerEdit>,
    clear: Option<LayerEdit>,
    grown: Option<LayerEdit>,
)
    requires
        d.style == Some(s),
        call_ensures(Change::edit, (Change::Fill(fill), &d), filled),
        call_ensures(Change::edit, (Change::Opacity(v), &d), clear),
        call_ensures(Change::edit, (Change::Factor(v), &d), grown),
    ensures
        ({
            let shape = d.tool_type == Some(Tools::Rectangle) || d.tool_type == Some(
                Tools::Ellipse,
            );
            &&& shape && s.fill != fill ==> filled == Some(LayerEdit::Style(Style { fill, ..s }))
            &&& !shape || s.fill == fill ==> filled is None
            &&& d.tool_type == Some(Tools::Highlighter) ==> clear == Some(
                LayerEdit::Style(Style { highlighter_opacity: v, ..s }),
            )
            &&& d.tool_type != Some(Tools::Highlighter) ==> clear is None
            &&& s.annotation_size_factor != v ==> grown == Some(
                LayerEdit::Style(Style { annotation_size_factor: v, ..s }),
            )
        }),
{
}

/// Every selected layer that the change is for is edited, and no other.
pub proof fn lemma_collect_edits(
    sel: Vec<DrawableId>,
    layers: Vec<Layer>,
    change: Change,
    r: Vec<(DrawableId, LayerEdit)>,
    id: DrawableId,
    d: Option<Layer>,
    e: LayerEdit,
)
    requires
        call_ensures(collect_edits, (&sel, &layers, change), r),
        call_ensures(find_layer, (&layers, id), d),
    ensures
        r@.contains((id, e)) <==> sel@.contains(id) && d is Some && change.edit_spec(d->0) == Some(e),
{
    crate::laws::layers::lemma_selected_layers_are_edited(sel@, layers@, change, id, e);
}

/// A dropped layer comes to lie right above or right below the other.
pub proof fn lemma_drop(
    order: Vec<DrawableId>,
    s: int,
    t: int,
    above: bool,
    r: Option<Vec<DrawableId>>,
)
    requires
        order@.no_duplicates(),
        0 <= s < order@.len(),
        0 <= t < order@.len(),
        s != t,
        call_ensures(drop_onto, (&order, order@[s], order@[t], above), r),
    ensures
        r is Some,
        ({
            let u = if s < t {
                t - 1
            } else {
                t
            };
            let v = r->0@;
            &&& v.len() == order@.len()
            &&& above ==> v[u] == order@[t] && v[u + 1] == order@[s] && v.remove(u + 1)
                == order@.remove(s)
            &&& !above ==> v[u + 1] == order@[t] && v[u] == order@[s] && v.remove(u)
                == order@.remove(s)
        }),
{
    crate::laws::panel::lemma_dropped_layer_lands_beside(order@, s, t, above);
}

/// Of several layers each is moved once, and none gets in the way of another:
/// down and to the top the lowest goes first, up and to the bottom the
/// highest.
pub proof fn lemma_order_of_moves(
    sel: Vec<DrawableId>,
    order: Vec<DrawableId>,
    dir: PanelMoveDir,
    r: Vec<DrawableId>,
    i: int,
    j: int,
    p: int,
    q: int,
)
    requires
        order@.no_duplicates(),
        call_ensures(order_of_moves, (&sel, &order, dir), r),
        0 <= i < j < r@.len(),
        0 <= p < order@.len(),
        0 <= q < order@.len(),
        r@[i] == order@[p],
        r@[j] == order@[q],
    ensures
        r@.to_multiset() == sel@.to_multiset(),
        dir == PanelMoveDir::Down || dir == PanelMoveDir::ToTop ==> p <= q,
        dir == PanelMoveDir::Up || dir == PanelMoveDir::ToBottom ==> p >= q,
{
    crate::board::panel::lemma_move_order(
        sel@,
        order@,
        crate::board::panel::lowest_first(dir),
    );
    crate::board::panel::lemma_place(order@, order@[p]);
    crate::board::panel::lemma_place(order@, order@[q]);
    assert(crate::board::panel::in_order(
        order@,
        crate::board::panel::lowest_first(dir),
        r@[i],
        r@[j],
    ));
}

/// A click selects the layer alone, a click with Control adds it or takes it
/// out.
pub proof fn lemma_panel_select(
    b: &mut SketchBoard,
    id: DrawableId,
    additive: bool,
    out: &mut Vec<Effect>,
    other: DrawableId,
)
    requires
        old(b).selection@.no_duplicates(),
        other != id,
        call_ensures(SketchBoard::panel_select, (b, id, additive, out), ()),
    ensures
        !additive ==> final(b).selection@ == seq![id],
        additive ==> (final(b).selection@.contains(id) <==> !old(b).selection@.contains(id)),
        additive ==> (final(b).selection@.contains(other) <==> old(b).selection@.contains(other)),
        final(out)@ == old(out)@.push(Effect::Refresh),
{
    crate::laws::panel::lemma_toggling_switches(old(b).selection@, id);
    let t = crate::board::panel::toggled(old(b).selection@, id);
    assert(t.contains(other) <==> old(b).selection@.contains(other));
}

/// What is locked stays selected, and the rest is deleted.
pub proof fn lemma_delete_selection(
    b: &mut SketchBoard,
    layers: Vec<Layer>,
    r: ToolUpdateResult<LayerEdit>,
    x: DrawableId,
)
    requires
        call_ensures(SketchBoard::delete_selection, (b, &layers), r),
    ensures
        final(b).selection@.contains(x) <==> old(b).selection@.contains(x) && is_locked_layer(
            layers@,
            x,
        ),
        r matches ToolUpdateResult::DeleteDrawable(id) ==> old(b).selection@.contains(id)
            && !is_locked_layer(layers@, id),
        r matches ToolUpdateResult::DeleteDrawables(ids) ==> (ids@.contains(x) <==> old(b).selection@.contains(x)
            && !is_locked_layer(layers@, x)),
        r is DeleteDrawable || r is DeleteDrawables || r is Redraw || r is Unmodified,
{
    let sel = old(b).selection@;
    crate::laws::panel::lemma_selection_is_sorted_out(sel, layers@, x, x);
    if let ToolUpdateResult::DeleteDrawable(id) = r {
        crate::laws::panel::lemma_selection_is_sorted_out(sel, layers@, id, id);
        let gone = crate::board::panel::with_lock(sel, layers@, false);
        assert(gone[0] == id);
    }
}

/// A copy lies a hundred pixels beside and below its original where there is
/// room.
pub proof fn lemma_duplicate(
    b: SketchBoard,
    layers: Vec<Layer>,
    w: i32,
    h: i32,
    r: Vec<(DrawableId, Vec2D)>,
    id: DrawableId,
    d: Layer,
    bounds: Rect,
)
    requires
        layers_ok(layers@),
        b.selection@ == seq![id],
        call_ensures(find_layer, (&layers, id), Some(d)),
        d.bounds == Some(bounds),
        call_ensures(SketchBoard::duplicate_selection, (&b, &layers, w, h), r),
    ensures
        r@.len() == 1,
        r@[0].0 == id,
        ({
            let o = r@[0].1;
            let m = 100 * UNIT;
            let (left, top) = (bounds.pos.x as int, bounds.pos.y as int);
            let (right, bottom) = (left + bounds.size.x, top + bounds.size.y);
            &&& left >= m || right > w * UNIT - m ==> o.x == -m
            &&& left < m && right <= w * UNIT - m ==> o.x == m
            &&& bottom <= h * UNIT - m || top < m ==> o.y == m
            &&& bottom > h * UNIT - m && top >= m ==> o.y == -m
        }),
{
    crate::laws::panel::lemma_existing_layers_are_copied(b.selection@, layers@, w * UNIT, h * UNIT);
    crate::laws::panel::lemma_copies_lie_beside(bounds, w * UNIT, h * UNIT);
}

/// A pasted image is as large on screen as it is in pixels, in the middle.
pub proof fn lemma_paste_place(
    w: i32,
    h: i32,
    scale: i64,
    img_w: i32,
    img_h: i32,
    r: (Vec2D, Vec2D),
)
    requires
        scale >= 1000,
        call_ensures(paste_place, (w, h, scale, img_w, img_h), r),
    ensures
        ({
            let (p, s) = r;
            &&& -scale <= 2 * (s.x * scale - w * UNIT * MICRO) <= scale
            &&& -scale <= 2 * (s.y * scale - h * UNIT * MICRO) <= scale
            &&& s.x <= img_w * UNIT ==> 0 <= (img_w * UNIT - (p.x + s.x)) - p.x <= 1
            &&& s.y <= img_h * UNIT ==> 0 <= (img_h * UNIT - (p.y + s.y)) - p.y <= 1
            &&& s.x > img_w * UNIT ==> p.x == 0
            &&& s.y > img_h * UNIT ==> p.y == 0
        }),
{
    crate::laws::panel::lemma_pasted_image_lies_in_the_middle(
        w as int,
        h as int,
        scale as int,
        img_w as int,
        img_h as int,
    );
}

/// The list is between 110 and 480 pixels wide, and starts as wide as it was.
pub proof fn lemma_panel_width(raw: i32, r: Result<i64, i32>, s: PersistedState, w: i64)
    requires
        call_ensures(panel_moved, (raw,), r),
        call_ensures(initial_panel_width, (&s,), w),
    ensures
        110 <= raw <= 480 ==> r is Ok && r->Ok_0 == raw * 65536,
        raw < 110 ==> r is Err && r->Err_0 == 110,
        raw > 480 ==> r is Err && r->Err_0 == 480,
        s.layer_panel_width matches Some(v) ==> {
            &&& 110 * 65536 <= v <= 480 * 65536 ==> w == v
            &&& v < 110 * 65536 ==> w == 110 * 65536
            &&& v > 480 * 65536 ==> w == 480 * 65536
        },
{
}

/// The eye and the lock of a layer change that flag alone; a layer that gets
/// locked leaves the selection.
pub proof fn lemma_flags(
    b: SketchBoard,
    c: &mut SketchBoard,
    id: DrawableId,
    layers: Vec<Layer>,
    d: Layer,
    eye: &mut Vec<Effect>,
    lock: &mut Vec<Effect>,
)
    requires
        call_ensures(find_layer, (&layers, id), Some(d)),
        call_ensures(SketchBoard::panel_toggle_visible, (&b, id, &layers, eye), ()),
        call_ensures(SketchBoard::panel_toggle_locked, (c, id, &layers, lock), ()),
    ensures
        final(eye)@ == old(eye)@ + seq![
            Effect::SetFlags { id, visible: !d.visible, locked: d.locked },
            Effect::Refresh,
        ],
        final(lock)@ == old(lock)@ + seq![
            Effect::SetFlags { id, visible: d.visible, locked: !d.locked },
            Effect::Refresh,
        ],
        !d.locked ==> !final(c).selection@.contains(id),
        d.locked ==> final(c).selection@ == old(c).selection@,
{
    crate::laws::panel::lemma_selection_is_sorted_out(old(c).selection@, layers@, id, id);
}

/// A color from the list goes to that layer and leaves the rest of its style.
pub proof fn lemma_panel_color(
    b: SketchBoard,
    id: DrawableId,
    color: Color,
    layers: Vec<Layer>,
    d: Layer,
    s: Style,
    out: &mut Vec<Effect>,
)
    requires
        call_ensures(find_layer, (&layers, id), Some(d)),
        d.style == Some(s),
        call_ensures(SketchBoard::panel_set_color, (&b, id, color, &layers, out), ()),
    ensures
        final(out)@ == old(out)@ + seq![
            Effect::Modify(id, LayerEdit::Style(Style { color, ..s })),
            Effect::Refresh,
        ],
{
}

/// Copies are selected in place of their originals, an image that was pasted
/// alone; every change is copied where that is set.
pub proof fn lemma_after_copying(
    b: &mut SketchBoard,
    c: &mut SketchBoard,
    ids: Vec<DrawableId>,
    id: DrawableId,
    config: BoardConfig,
    out: &mut Vec<Effect>,
    more: &mut Vec<Effect>,
)
    requires
        ids@.len() > 0,
        call_ensures(SketchBoard::finish_duplicate, (b, ids, &config, out), ()),
        call_ensures(SketchBoard::finish_paste, (c, id, more), ()),
    ensures
        final(b).selection@ == ids@,
        final(out)@.last() == Effect::SyncToolbar,
        config.auto_copy ==> final(out)@.len() == old(out)@.len() + 3,
        !config.auto_copy ==> final(out)@.len() == old(out)@.len() + 2,
        final(c).selection@ == seq![id],
{
}

/// A row shows its layer by a name of its own, or by kind and number.
pub proof fn lemma_label(name: String, kind: &str, n: u64, a: String, b: String)
    requires
        n < 10,
        call_ensures(layer_label, (Some(name), kind, Some(n)), a),
        call_ensures(layer_label, (None, kind, Some(n)), b),
    ensures
        a@ == name@,
        b@.len() == kind@.len() + 2,
        b@.take(kind@.len() as int) == kind@,
        b@[kind@.len() as int] == ' ',
        b@.last() as int == 48 + n,
{
    crate::laws::text::lemma_numbers_are_decimal(0, n as nat, Seq::empty(), '0');
    assert(b@.take(kind@.len() as int) =~= kind@);
}

/// The row of a layer is named so that the layer is found again.
pub proof fn lemma_row_name(row: LayerRow, name: String, read: &str, r: Option<DrawableId>)
    requires
        call_ensures(LayerRow::widget_name, (&row,), name),
        read@ == name@,
        call_ensures(row_id, (read,), r),
    ensures
        r == Some(row.id),
{
    let p = "layer-row-"@;
    let n = row.id.0 as nat;
    assert(name@.take(p.len() as int) =~= p);
    assert(name@.skip(p.len() as int) =~= crate::text::decimal_spec(n));
    crate::text::lemma_decimal_reads_back(row.id.0);
}

/// A click on a selected row without Control leaves the selection alone.
pub proof fn lemma_row_click(row: LayerRow, control: bool, r: Option<SketchBoardInput>)
    requires
        call_ensures(LayerRow::clicked, (&row, control), r),
    ensures
        row.selected && !control ==> r is None,
        control || !row.selected ==> r == Some(
            SketchBoardInput::PanelSelectDrawable { id: row.id, additive: control },
        ),
{
}

/// A drop goes above the first row whose middle is below the pointer, and
/// below the last where there is none.
pub proof fn lemma_drop_target(rows: Vec<RowSpan>, y: i64, r: Option<(usize, bool)>, k: int)
    requires
        0 <= k < rows@.len(),
        forall|i: int| #![trigger rows@[i]]
            0 <= i < k ==> rows@[i].top + rows@[i].height - y <= y - rows@[i].top,
        y - rows@[k].top < rows@[k].top + rows@[k].height - y,
        call_ensures(drop_target_row, (&rows, y), r),
    ensures
        r == Some((k as usize, true)),
{
    assert(rows@[k].above_middle(y as int));
    if let Some((j, true)) = r {
        assert(rows@[j as int].above_middle(y as int));
    }
}

/// The pictures of shapes keep off the edges of their slot.
pub proof fn lemma_preview(filled: bool, w: i32, h: i32, a: PreviewShape, b: PreviewShape, c: PreviewShape)
    requires
        6 <= w,
        6 <= h,
        call_ensures(preview_shape, (PanelPreview::Rectangle { filled }, w, h), a),
        call_ensures(preview_shape, (PanelPreview::Ellipse { filled }, w, h), b),
        call_ensures(preview_shape, (PanelPreview::Line, w, h), c),
    ensures
        a matches PreviewShape::RoundRect { x, y, width, height, radius, filled: f } && 2 * x == 5
            * UNIT && w * UNIT - (x + width) == x && 2 * y == 5 * UNIT && h * UNIT - (y + height)
            == y && f == filled,
        b matches PreviewShape::Oval { cx, cy, rx, ry, filled: f } && 2 * (cx - rx) == 3 * UNIT
            && 2 * (cy - ry) == 3 * UNIT && f == filled,
        c matches PreviewShape::Stroke { x0, x1, y } && x0 == 2 * UNIT && w * UNIT - x1 == 2 * UNIT,
{
    crate::laws::text::lemma_pictures_keep_off_the_edges(filled, w * UNIT, h * UNIT);
}

/// The tiles of a checkerboard take turns and are half as long as the shorter
/// side.
pub proof fn lemma_checker(w: i32, h: i32, r: (i64, Vec<(i32, i32)>), x: i32, y: i32)
    requires
        4 <= w <= 0x4000,
        4 <= h <= 0x4000,
        call_ensures(checker_tiles, (w, h), r),
        0 <= x,
        0 <= y,
        x * r.0 < w * UNIT,
        y * r.0 < h * UNIT,
    ensures
        w <= h ==> 2 * r.0 == w * UNIT,
        h <= w ==> 2 * r.0 == h * UNIT,
        r.1@.contains((x, y)) <==> (x + y) % 2 == 1,
{
    let (lw, lh, tile) = (w * UNIT, h * UNIT, r.0 as int);
    assert(2 * tile == if w <= h {
        lw
    } else {
        lh
    });
    crate::laws::text::lemma_checkerboard(x as int, y as int, lw, tile);
    crate::laws::text::lemma_checkerboard(x as int, y as int, lh, tile);
    let (nx, ny) = (
        crate::board::rows::tiles_over(lw, tile),
        crate::board::rows::tiles_over(lh, tile),
    );
    assert(x < nx) by (nonlinear_arith)
        requires
            x * tile < lw,
            (nx - 1) * tile >= lw,
            tile > 0,
    ;
    assert(y < ny) by (nonlinear_arith)
        requires
            y * tile < lh,
            (ny - 1) * tile >= lh,
            tile > 0,
    ;
}

} // verus!
