//! What the layer list does to the selection and to the stack.
use vstd::prelude::*;
use crate::board::layers::{find_layer, layer_of, Layer, LayerEdit};
use crate::board::messages::{Action, PanelMoveDir};
use crate::board::{BoardConfig, Effect, SketchBoard};
use crate::math::{Rect, Vec2D};
use crate::state::{save_layer_panel_width, PersistedState};
use crate::style::{Color, Style};
use crate::text::{trim, trim_spec};
use crate::tools::{DrawableId, ToolUpdateResult};
use crate::units::{
    abs_spec, clamp_len, clamp_spec, div_round_spec, half, max_len, max_spec, mul_div, px, MICRO,
    UNIT,
};

verus! {

/// Narrowest layer list, in sub-units.
pub const LAYER_PANEL_MIN_WIDTH: i64 = 7_208_960;

/// Widest layer list, in sub-units.
pub const LAYER_PANEL_MAX_WIDTH: i64 = 31_457_280;

/// Width of the layer list at first, in sub-units.
pub const LAYER_PANEL_DEFAULT_WIDTH: i64 = 9_175_040;

/// Where an id first stands in an order.
pub open spec fn place(order: Seq<DrawableId>, id: DrawableId) -> Option<int>
    decreases order.len(),
{
    if order.len() == 0 {
        None
    } else if order[0] == id {
        Some(0)
    } else {
        match place(order.drop_first(), id) {
            Some(k) => Some(k + 1),
            None => None,
        }
    }
}

/// What `place` finds is the first place, if there is any.
pub proof fn lemma_place(order: Seq<DrawableId>, id: DrawableId)
    ensures
        match place(order, id) {
            Some(k) => 0 <= k < order.len() && order[k] == id && forall|i: int|
                0 <= i < k ==> #[trigger] order[i] != id,
            None => !order.contains(id),
        },
    decreases order.len(),
{
    if order.len() > 0 && order[0] != id {
        lemma_place(order.drop_first(), id);
        let rest = order.drop_first();
        match place(rest, id) {
            Some(k) => {
                assert(order[k + 1] == rest[k]);
                assert forall|i: int| 0 <= i < k + 1 implies #[trigger] order[i] != id by {
                    if i > 0 {
                        assert(rest[i - 1] == order[i]);
                    }
                }
            },
            None => {
                if order.contains(id) {
                    let i = choose|i: int| 0 <= i < order.len() && order[i] == id;
                    assert(rest[i - 1] == id);
                }
            },
        }
    }
}

/// The first place with this id is the one that `place` finds.
proof fn lemma_place_is(order: Seq<DrawableId>, id: DrawableId, k: int)
    requires
        0 <= k < order.len(),
        order[k] == id,
        forall|i: int| 0 <= i < k ==> #[trigger] order[i] != id,
    ensures
        place(order, id) == Some(k),
{
    lemma_place(order, id);
    assert(order.contains(id));
    let p = place(order, id)->0;
    if p < k {
        assert(order[p] != id);
    }
}

/// Looks up where an id first stands.
pub fn find_place(order: &Vec<DrawableId>, id: DrawableId) -> (r: Option<usize>)
    ensures
        match r {
            Some(k) => k < order@.len() && place(order@, id) == Some(k as int),
            None => place(order@, id) is None,
        },
{
    let mut i: usize = 0;
    while i < order.len()
        invariant
            i <= order@.len(),
            forall|k: int| 0 <= k < i ==> #[trigger] order@[k] != id,
        decreases order.len() - i,
    {
        if order[i] == id {
            proof {
                lemma_place_is(order@, id, i as int);
            }
            return Some(i);
        }
        i = i + 1;
    }
    proof {
        lemma_place(order@, id);
    }
    None
}

/// The selection with an id taken out, or put in at the end.
pub open spec fn toggled(sel: Seq<DrawableId>, id: DrawableId) -> Seq<DrawableId> {
    match place(sel, id) {
        Some(k) => sel.remove(k),
        None => sel.push(id),
    }
}

/// Choosing a layer twice with Control held changes nothing, where it was
/// not selected before.
pub proof fn lemma_toggle_twice(sel: Seq<DrawableId>, id: DrawableId)
    requires
        !sel.contains(id),
    ensures
        toggled(toggled(sel, id), id) == sel,
{
    lemma_place(sel, id);
    let once = sel.push(id);
    assert forall|i: int| 0 <= i < sel.len() implies #[trigger] once[i] != id by {
        assert(once[i] == sel[i]);
        assert(sel.contains(sel[i]));
    }
    lemma_place_is(once, id, sel.len() as int);
    assert(once.remove(sel.len() as int) =~= sel);
}

/// The selection without an id.
pub open spec fn without(sel: Seq<DrawableId>, id: DrawableId) -> Seq<DrawableId>
    decreases sel.len(),
{
    if sel.len() == 0 {
        sel
    } else if sel.last() == id {
        without(sel.drop_last(), id)
    } else {
        without(sel.drop_last(), id).push(sel.last())
    }
}

/// The drawable is locked.
pub open spec fn is_locked(layers: Seq<Layer>, id: DrawableId) -> bool {
    layer_of(layers, id) matches Some(d) && d.locked
}

/// Those of the selection that are locked, or those that are not.
pub open spec fn with_lock(sel: Seq<DrawableId>, layers: Seq<Layer>, locked: bool) -> Seq<DrawableId>
    decreases sel.len(),
{
    if sel.len() == 0 {
        sel
    } else {
        let rest = with_lock(sel.drop_last(), layers, locked);
        if is_locked(layers, sel.last()) == locked {
            rest.push(sel.last())
        } else {
            rest
        }
    }
}

/// The result that deletes these drawables.
pub open spec fn deletes(r: ToolUpdateResult<LayerEdit>, ids: Seq<DrawableId>) -> bool {
    if ids.len() == 0 {
        r is Unmodified
    } else if ids.len() == 1 {
        r == ToolUpdateResult::<LayerEdit>::DeleteDrawable(ids[0])
    } else {
        r matches ToolUpdateResult::DeleteDrawables(v) && v@ == ids
    }
}

/// How far a copy lies from its original: a hundred pixels down to the left,
/// or the other way where only there is room.
pub open spec fn copy_offset(bounds: Option<Rect>, img_w: int, img_h: int) -> (int, int) {
    let d = 100 * UNIT;
    match bounds {
        Some(b) => (
            if b.pos.x - d < 0 && b.right() + d <= img_w {
                d
            } else {
                -d
            },
            if b.bottom() + d > img_h && b.pos.y - d >= 0 {
                -d
            } else {
                d
            },
        ),
        None => (-d, d),
    }
}

/// The copies of the selection that exist, with how far they move.
pub open spec fn copies(sel: Seq<DrawableId>, layers: Seq<Layer>, img_w: int, img_h: int) -> Seq<
    (DrawableId, Vec2D),
>
    decreases sel.len(),
{
    if sel.len() == 0 {
        Seq::empty()
    } else {
        let rest = copies(sel.drop_last(), layers, img_w, img_h);
        match layer_of(layers, sel.last()) {
            Some(d) => {
                let (x, y) = copy_offset(d.bounds, img_w, img_h);
                rest.push((sel.last(), Vec2D { x: x as i64, y: y as i64 }))
            },
            None => rest,
        }
    }
}

/// Where a copy is kept inside an image: a drawable inside it, with room for
/// the copy on either side, leaves a copy inside it.
pub proof fn lemma_copy_stays_inside(b: Rect, img_w: int, img_h: int)
    requires
        0 <= b.pos.x,
        b.right() <= img_w,
        0 <= b.pos.y,
        b.bottom() <= img_h,
        b.pos.x >= 100 * UNIT || b.right() + 100 * UNIT <= img_w,
        b.pos.y >= 100 * UNIT || b.bottom() + 100 * UNIT <= img_h,
        b.size.x >= 0,
        b.size.y >= 0,
    ensures
        ({
            let (x, y) = copy_offset(Some(b), img_w, img_h);
            &&& 0 <= b.pos.x + x && b.right() + x <= img_w
            &&& 0 <= b.pos.y + y && b.bottom() + y <= img_h
        }),
{
}

/// The bounds of all layers are in range.
pub open spec fn layers_ok(layers: Seq<Layer>) -> bool {
    forall|i: int|
        0 <= i < layers.len() ==> ((#[trigger] layers[i]).bounds matches Some(b) ==> b.ok())
}

/// The bounds of a layer that is found are in range.
pub proof fn lemma_layer_ok(layers: Seq<Layer>, id: DrawableId)
    requires
        layers_ok(layers),
    ensures
        layer_of(layers, id) matches Some(d) ==> (d.bounds matches Some(b) ==> b.ok()),
    decreases layers.len(),
{
    if layers.len() > 0 && layers[0].id != id {
        let rest = layers.drop_first();
        assert forall|i: int| 0 <= i < rest.len() implies ((#[trigger] rest[i]).bounds matches Some(
            b,
        ) ==> b.ok()) by {
            assert(rest[i] == layers[i + 1]);
        }
        lemma_layer_ok(rest, id);
    } else if layers.len() > 0 {
        assert(layers[0].bounds matches Some(b) ==> b.ok());
    }
}

fn offset_of_copy(bounds: Option<Rect>, img_w: i32, img_h: i32) -> (r: Vec2D)
    requires
        bounds matches Some(b) ==> b.ok(),
    ensures
        (r.x as int, r.y as int) == copy_offset(bounds, img_w * UNIT, img_h * UNIT),
{
    let d: i64 = 100 * UNIT;
    match bounds {
        Some(b) => {
            let br: Vec2D = b.bottom_right();
            let x: i64 = if b.pos.x - d < 0 && br.x + d <= px(img_w) {
                d
            } else {
                -d
            };
            let y: i64 = if br.y + d > px(img_h) && b.pos.y - d >= 0 {
                -d
            } else {
                d
            };
            Vec2D::new(x, y)
        },
        None => {
            let left: i64 = -d;
            Vec2D::new(left, d)
        },
    }
}

/// An element goes in front of another, or may.
pub open spec fn in_order(order: Seq<DrawableId>, rising: bool, a: DrawableId, b: DrawableId) -> bool {
    let (p, q) = (place_or_first(order, a), place_or_first(order, b));
    if rising {
        p <= q
    } else {
        p >= q
    }
}

/// Place of an id; an unknown one counts as the first.
pub open spec fn place_or_first(order: Seq<DrawableId>, id: DrawableId) -> int {
    match place(order, id) {
        Some(k) => k,
        None => 0,
    }
}

/// A list with an element put in behind everything that goes in front of it.
pub open spec fn put_in(s: Seq<DrawableId>, x: DrawableId, order: Seq<DrawableId>, rising: bool) -> Seq<
    DrawableId,
>
    decreases s.len(),
{
    if s.len() == 0 || in_order(order, rising, s.last(), x) {
        s.push(x)
    } else {
        put_in(s.drop_last(), x, order, rising).push(s.last())
    }
}

/// The selection in the order in which its layers are moved: the lowest
/// first, or the topmost first.
pub open spec fn move_order(sel: Seq<DrawableId>, order: Seq<DrawableId>, rising: bool) -> Seq<
    DrawableId,
>
    decreases sel.len(),
{
    if sel.len() == 0 {
        sel
    } else {
        put_in(move_order(sel.drop_last(), order, rising), sel.last(), order, rising)
    }
}

proof fn lemma_put_in_at(
    s: Seq<DrawableId>,
    x: DrawableId,
    order: Seq<DrawableId>,
    rising: bool,
    p: int,
)
    requires
        0 <= p <= s.len(),
        p == 0 || in_order(order, rising, s[p - 1], x),
        forall|k: int| p <= k < s.len() ==> !in_order(order, rising, #[trigger] s[k], x),
    ensures
        put_in(s, x, order, rising) == s.insert(p, x),
    decreases s.len(),
{
    if p == s.len() {
        assert(s.insert(p, x) =~= s.push(x));
    } else {
        assert(!in_order(order, rising, s[s.len() - 1], x));
        let rest = s.drop_last();
        assert forall|k: int| p <= k < rest.len() implies !in_order(
            order,
            rising,
            #[trigger] rest[k],
            x,
        ) by {
            assert(rest[k] == s[k]);
        }
        lemma_put_in_at(rest, x, order, rising, p);
        assert(s.insert(p, x) =~= rest.insert(p, x).push(s.last()));
    }
}

/// Sorted, and every earlier element goes in front of every later one.
pub open spec fn all_in_order(s: Seq<DrawableId>, order: Seq<DrawableId>, rising: bool) -> bool {
    forall|i: int, j: int|
        0 <= i < j < s.len() ==> in_order(order, rising, #[trigger] s[i], #[trigger] s[j])
}

proof fn lemma_put_in_keeps_order(
    s: Seq<DrawableId>,
    x: DrawableId,
    order: Seq<DrawableId>,
    rising: bool,
)
    requires
        all_in_order(s, order, rising),
    ensures
        all_in_order(put_in(s, x, order, rising), order, rising),
        put_in(s, x, order, rising).to_multiset() == s.to_multiset().insert(x),
        put_in(s, x, order, rising).len() == s.len() + 1,
        forall|i: int|
            0 <= i < put_in(s, x, order, rising).len() ==> {
                let y = #[trigger] put_in(s, x, order, rising)[i];
                y == x || s.contains(y)
            },
    decreases s.len(),
{
    broadcast use vstd::seq_lib::group_to_multiset_ensures;

    let r = put_in(s, x, order, rising);
    if s.len() == 0 || in_order(order, rising, s.last(), x) {
        assert forall|i: int, j: int| 0 <= i < j < r.len() implies in_order(
            order,
            rising,
            #[trigger] r[i],
            #[trigger] r[j],
        ) by {
            if j == s.len() {
                if i < s.len() - 1 {
                    assert(in_order(order, rising, s[i], s[s.len() - 1]));
                }
            } else {
                assert(in_order(order, rising, s[i], s[j]));
            }
        }
        assert forall|i: int| 0 <= i < r.len() implies ({
            let y = #[trigger] r[i];
            y == x || s.contains(y)
        }) by {
            if i < s.len() {
                assert(r[i] == s[i]);
            }
        }
    } else {
        let rest = s.drop_last();
        let q = put_in(rest, x, order, rising);
        assert forall|i: int, j: int| 0 <= i < j < rest.len() implies in_order(
            order,
            rising,
            #[trigger] rest[i],
            #[trigger] rest[j],
        ) by {
            assert(in_order(order, rising, s[i], s[j]));
        }
        lemma_put_in_keeps_order(rest, x, order, rising);
        assert(r == q.push(s.last()));
        assert(s =~= rest.push(s.last()));
        assert(r.to_multiset() =~= s.to_multiset().insert(x));
        assert forall|i: int, j: int| 0 <= i < j < r.len() implies in_order(
            order,
            rising,
            #[trigger] r[i],
            #[trigger] r[j],
        ) by {
            if j < q.len() {
                assert(in_order(order, rising, q[i], q[j]));
            } else {
                let y = q[i];
                if y != x {
                    assert(rest.contains(y));
                    let k = choose|k: int| 0 <= k < rest.len() && rest[k] == y;
                    assert(in_order(order, rising, s[k], s[s.len() - 1]));
                }
            }
        }
        assert forall|i: int| 0 <= i < r.len() implies ({
            let y = #[trigger] r[i];
            y == x || s.contains(y)
        }) by {
            if i < q.len() {
                assert(r[i] == q[i]);
                if q[i] != x {
                    let k = choose|k: int| 0 <= k < rest.len() && rest[k] == q[i];
                    assert(s[k] == q[i]);
                }
            } else {
                assert(s[s.len() - 1] == r[i]);
            }
        }
    }
}

/// Moving several layers moves each of them once, one after the other along
/// the stack.
pub proof fn lemma_move_order(sel: Seq<DrawableId>, order: Seq<DrawableId>, rising: bool)
    ensures
        move_order(sel, order, rising).to_multiset() == sel.to_multiset(),
        all_in_order(move_order(sel, order, rising), order, rising),
    decreases sel.len(),
{
    broadcast use vstd::seq_lib::group_to_multiset_ensures;

    if sel.len() > 0 {
        let rest = sel.drop_last();
        lemma_move_order(rest, order, rising);
        lemma_put_in_keeps_order(move_order(rest, order, rising), sel.last(), order, rising);
        assert(sel =~= rest.push(sel.last()));
    }
}

/// Where several layers move, the lowest goes first: on the way down, so that
/// it is out of the way of those above, and on the way to the top, so that the
/// others come to lie above it.
pub open spec fn lowest_first(dir: PanelMoveDir) -> bool {
    dir == PanelMoveDir::Down || dir == PanelMoveDir::ToTop
}

/// Works out the order in which the layers of the selection are moved.
pub fn order_of_moves(sel: &Vec<DrawableId>, order: &Vec<DrawableId>, dir: PanelMoveDir) -> (r: Vec<
    DrawableId,
>)
    ensures
        r@ == move_order(sel@, order@, lowest_first(dir)),
{
    let rising: bool = match dir {
        PanelMoveDir::Down | PanelMoveDir::ToTop => true,
        PanelMoveDir::Up | PanelMoveDir::ToBottom => false,
    };
    let mut sorted: Vec<DrawableId> = Vec::new();
    let mut i: usize = 0;
    assert(sel@.take(0) =~= Seq::<DrawableId>::empty());
    while i < sel.len()
        invariant
            i <= sel@.len(),
            rising == lowest_first(dir),
            sorted@ == move_order(sel@.take(i as int), order@, rising),
        decreases sel.len() - i,
    {
        let x: DrawableId = sel[i];
        let at: usize = find_place_or_first(order, x);
        let mut p: usize = sorted.len();
        while p > 0
            invariant
                p <= sorted@.len(),
                at == place_or_first(order@, x),
                forall|k: int|
                    p <= k < sorted@.len() ==> !in_order(order@, rising, #[trigger] sorted@[k], x),
            ensures
                p == 0 || in_order(order@, rising, sorted@[p - 1], x),
            decreases p,
        {
            let q: usize = find_place_or_first(order, sorted[p - 1]);
            if (rising && q <= at) || (!rising && q >= at) {
                break;
            }
            p = p - 1;
        }
        proof {
            lemma_put_in_at(sorted@, x, order@, rising, p as int);
            let t = sel@.take(i + 1);
            assert(t.drop_last() =~= sel@.take(i as int));
            assert(t.last() == x);
        }
        sorted.insert(p, x);
        i = i + 1;
    }
    assert(sel@.take(sel@.len() as int) =~= sel@);
    sorted
}

fn find_place_or_first(order: &Vec<DrawableId>, id: DrawableId) -> (r: usize)
    ensures
        r == place_or_first(order@, id),
{
    match find_place(order, id) {
        Some(k) => k,
        None => 0,
    }
}

/// The stack after one layer moved.
pub open spec fn moved_layer(order: Seq<DrawableId>, id: DrawableId, dir: PanelMoveDir) -> Seq<
    DrawableId,
> {
    match place(order, id) {
        None => order,
        Some(k) => {
            let rest = order.remove(k);
            match dir {
                PanelMoveDir::ToTop => rest.push(id),
                PanelMoveDir::ToBottom => rest.insert(0, id),
                PanelMoveDir::Up => if k < rest.len() {
                    rest.insert(k + 1, id)
                } else {
                    order
                },
                PanelMoveDir::Down => if k > 0 {
                    rest.insert(k - 1, id)
                } else {
                    order
                },
            }
        },
    }
}

/// The stack after several layers moved, one after the other.
pub open spec fn moved_layers(order: Seq<DrawableId>, ids: Seq<DrawableId>, dir: PanelMoveDir) -> Seq<
    DrawableId,
>
    decreases ids.len(),
{
    if ids.len() == 0 {
        order
    } else {
        moved_layer(moved_layers(order, ids.drop_last(), dir), ids.last(), dir)
    }
}

/// The layers that are among `ids`, or those that are not, as they lie in the
/// stack.
pub open spec fn among(order: Seq<DrawableId>, ids: Seq<DrawableId>, yes: bool) -> Seq<DrawableId>
    decreases order.len(),
{
    if order.len() == 0 {
        order
    } else {
        let below = among(order.drop_last(), ids, yes);
        if ids.contains(order.last()) == yes {
            below.push(order.last())
        } else {
            below
        }
    }
}

proof fn lemma_among_joined(a: Seq<DrawableId>, b: Seq<DrawableId>, ids: Seq<DrawableId>, yes: bool)
    ensures
        among(a + b, ids, yes) == among(a, ids, yes) + among(b, ids, yes),
    decreases b.len(),
{
    if b.len() == 0 {
        assert(a + b =~= a);
        assert(among(a, ids, yes) + among(b, ids, yes) =~= among(a, ids, yes));
    } else {
        assert((a + b).drop_last() =~= a + b.drop_last());
        lemma_among_joined(a, b.drop_last(), ids, yes);
        assert(among(a + b, ids, yes) =~= among(a, ids, yes) + among(b, ids, yes));
    }
}

proof fn lemma_among_alike(s: Seq<DrawableId>, a: Seq<DrawableId>, b: Seq<DrawableId>, yes: bool)
    requires
        forall|i: int| 0 <= i < s.len() ==> a.contains(#[trigger] s[i]) == b.contains(s[i]),
    ensures
        among(s, a, yes) == among(s, b, yes),
    decreases s.len(),
{
    if s.len() > 0 {
        let t = s.drop_last();
        assert forall|i: int| 0 <= i < t.len() implies a.contains(#[trigger] t[i]) == b.contains(
            t[i],
        ) by {
            assert(t[i] == s[i]);
        }
        lemma_among_alike(t, a, b, yes);
        assert(s[s.len() - 1] == s.last());
    }
}

proof fn lemma_among_none(s: Seq<DrawableId>, ids: Seq<DrawableId>)
    requires
        forall|i: int| 0 <= i < s.len() ==> !ids.contains(#[trigger] s[i]),
    ensures
        among(s, ids, true) == Seq::<DrawableId>::empty(),
        among(s, ids, false) == s,
    decreases s.len(),
{
    if s.len() > 0 {
        let t = s.drop_last();
        assert forall|i: int| 0 <= i < t.len() implies !ids.contains(#[trigger] t[i]) by {
            assert(t[i] == s[i]);
        }
        lemma_among_none(t, ids);
        assert(s[s.len() - 1] == s.last());
        assert(s =~= t.push(s.last()));
    }
}

/// What is among some ids lies in the stack.
proof fn lemma_among_within(s: Seq<DrawableId>, ids: Seq<DrawableId>, yes: bool)
    ensures
        forall|i: int|
            0 <= i < among(s, ids, yes).len() ==> s.contains(#[trigger] among(s, ids, yes)[i]),
    decreases s.len(),
{
    if s.len() > 0 {
        let t = s.drop_last();
        lemma_among_within(t, ids, yes);
        assert forall|i: int| 0 <= i < among(s, ids, yes).len() implies s.contains(
            #[trigger] among(s, ids, yes)[i],
        ) by {
            let below = among(t, ids, yes);
            if i < below.len() {
                assert(t.contains(below[i]));
                let k = choose|k: int| 0 <= k < t.len() && t[k] == below[i];
                assert(s[k] == below[i]);
            } else {
                assert(s[s.len() - 1] == among(s, ids, yes)[i]);
            }
        }
    }
}

/// A layer that stands nowhere in front, or behind, is found in between.
proof fn lemma_place_between(a: Seq<DrawableId>, x: DrawableId, b: Seq<DrawableId>)
    requires
        !a.contains(x),
    ensures
        place(a + seq![x] + b, x) == Some(a.len() as int),
        (a + seq![x] + b).remove(a.len() as int) == a + b,
{
    let s = a + seq![x] + b;
    assert(s[a.len() as int] == x);
    assert forall|i: int| 0 <= i < a.len() implies #[trigger] s[i] != x by {
        assert(s[i] == a[i]);
    }
    lemma_place_is(s, x, a.len() as int);
    assert(s.remove(a.len() as int) =~= a + b);
}

/// Those among some ids, where one layer is looked at by itself.
proof fn lemma_split(
    a: Seq<DrawableId>,
    x: DrawableId,
    b: Seq<DrawableId>,
    ids: Seq<DrawableId>,
    yes: bool,
)
    ensures
        among(a + seq![x] + b, ids, yes) == if ids.contains(x) == yes {
            among(a, ids, yes) + seq![x] + among(b, ids, yes)
        } else {
            among(a, ids, yes) + among(b, ids, yes)
        },
{
    lemma_among_joined(a + seq![x], b, ids, yes);
    let below = a + seq![x];
    assert(below.drop_last() =~= a);
    assert(below.last() == x);
    assert(among(a, ids, yes).push(x) =~= among(a, ids, yes) + seq![x]);
}

/// `ids` is `rest` and `x`, and the stack is `x` between `a` and `b`.
spec fn one_more(
    a: Seq<DrawableId>,
    x: DrawableId,
    b: Seq<DrawableId>,
    rest: Seq<DrawableId>,
    ids: Seq<DrawableId>,
) -> bool {
    &&& !a.contains(x)
    &&& !b.contains(x)
    &&& ids.contains(x)
    &&& forall|y: DrawableId| y != x ==> #[trigger] ids.contains(y) == rest.contains(y)
}

proof fn lemma_sides_alike(
    a: Seq<DrawableId>,
    x: DrawableId,
    b: Seq<DrawableId>,
    rest: Seq<DrawableId>,
    ids: Seq<DrawableId>,
    yes: bool,
)
    requires
        one_more(a, x, b, rest, ids),
    ensures
        among(a, ids, yes) == among(a, rest, yes),
        among(b, ids, yes) == among(b, rest, yes),
        !among(a, rest, yes).contains(x),
        !among(b, rest, yes).contains(x),
{
    assert forall|i: int| 0 <= i < a.len() implies ids.contains(#[trigger] a[i]) == rest.contains(
        a[i],
    ) by {
        assert(a.contains(a[i]));
    }
    assert forall|i: int| 0 <= i < b.len() implies ids.contains(#[trigger] b[i]) == rest.contains(
        b[i],
    ) by {
        assert(b.contains(b[i]));
    }
    lemma_among_alike(a, ids, rest, yes);
    lemma_among_alike(b, ids, rest, yes);
    lemma_among_within(a, rest, yes);
    lemma_among_within(b, rest, yes);
}

proof fn lemma_one_more_top(
    a: Seq<DrawableId>,
    x: DrawableId,
    b: Seq<DrawableId>,
    rest: Seq<DrawableId>,
    ids: Seq<DrawableId>,
)
    requires
        one_more(a, x, b, rest, ids),
        forall|i: int| 0 <= i < b.len() ==> !rest.contains(#[trigger] b[i]),
    ensures
        ({
            let order = a + seq![x] + b;
            moved_layer(
                among(order, rest, false) + among(order, rest, true),
                x,
                PanelMoveDir::ToTop,
            ) == among(order, ids, false) + among(order, ids, true)
        }),
{
    lemma_split(a, x, b, rest, true);
    lemma_split(a, x, b, rest, false);
    lemma_split(a, x, b, ids, true);
    lemma_split(a, x, b, ids, false);
    lemma_sides_alike(a, x, b, rest, ids, true);
    lemma_sides_alike(a, x, b, rest, ids, false);
    lemma_among_none(b, rest);
    let order = a + seq![x] + b;
    let e = Seq::<DrawableId>::empty();
    let (ay, an) = (among(a, rest, true), among(a, rest, false));
    let (yes, no) = (among(order, rest, true), among(order, rest, false));
    let want = an + b + (ay + seq![x]);
    assert(among(order, ids, false) + among(order, ids, true) =~= want);
    if rest.contains(x) {
        let front = an + b + ay;
        assert(no + yes =~= front + seq![x] + e);
        assert(!front.contains(x)) by {
            if front.contains(x) {
                let k = choose|k: int| 0 <= k < front.len() && front[k] == x;
                if k < an.len() {
                    assert(an[k] == x);
                } else if k < an.len() + b.len() {
                    assert(b[k - an.len()] == x);
                } else {
                    assert(ay[k - an.len() - b.len()] == x);
                }
            }
        }
        lemma_place_between(front, x, e);
        assert((front + e).push(x) =~= want);
    } else {
        assert(no + yes =~= an + seq![x] + (b + ay));
        lemma_place_between(an, x, b + ay);
        assert((an + (b + ay)).push(x) =~= want);
    }
}

proof fn lemma_one_more_bottom(
    a: Seq<DrawableId>,
    x: DrawableId,
    b: Seq<DrawableId>,
    rest: Seq<DrawableId>,
    ids: Seq<DrawableId>,
)
    requires
        one_more(a, x, b, rest, ids),
        forall|i: int| 0 <= i < a.len() ==> !rest.contains(#[trigger] a[i]),
    ensures
        ({
            let order = a + seq![x] + b;
            moved_layer(
                among(order, rest, true) + among(order, rest, false),
                x,
                PanelMoveDir::ToBottom,
            ) == among(order, ids, true) + among(order, ids, false)
        }),
{
    lemma_split(a, x, b, rest, true);
    lemma_split(a, x, b, rest, false);
    lemma_split(a, x, b, ids, true);
    lemma_split(a, x, b, ids, false);
    lemma_sides_alike(a, x, b, rest, ids, true);
    lemma_sides_alike(a, x, b, rest, ids, false);
    lemma_among_none(a, rest);
    let order = a + seq![x] + b;
    let e = Seq::<DrawableId>::empty();
    let (by, bn) = (among(b, rest, true), among(b, rest, false));
    let (yes, no) = (among(order, rest, true), among(order, rest, false));
    let want = seq![x] + by + (a + bn);
    assert(among(order, ids, true) + among(order, ids, false) =~= want);
    if rest.contains(x) {
        assert(yes + no =~= e + seq![x] + (by + (a + bn)));
        lemma_place_between(e, x, by + (a + bn));
        assert((e + (by + (a + bn))).insert(0, x) =~= want);
    } else {
        let front = by + a;
        assert(yes + no =~= front + seq![x] + bn);
        assert(!front.contains(x)) by {
            if front.contains(x) {
                let k = choose|k: int| 0 <= k < front.len() && front[k] == x;
                if k < by.len() {
                    assert(by[k] == x);
                } else {
                    assert(a[k - by.len()] == x);
                }
            }
        }
        lemma_place_between(front, x, bn);
        assert((front + bn).insert(0, x) =~= want);
    }
}

/// A layer that is not in the stack does not move.
proof fn lemma_none_more(order: Seq<DrawableId>, ids: Seq<DrawableId>, dir: PanelMoveDir, yes: bool)
    requires
        ids.len() > 0,
        place(order, ids.last()) is None,
    ensures
        among(order, ids, yes) == among(order, ids.drop_last(), yes),
        ({
            let s = among(order, ids, yes) + among(order, ids, !yes);
            moved_layer(s, ids.last(), dir) == s
        }),
{
    let (x, rest) = (ids.last(), ids.drop_last());
    lemma_place(order, x);
    assert forall|i: int| 0 <= i < order.len() implies ids.contains(#[trigger] order[i])
        == rest.contains(order[i]) by {
        assert(order.contains(order[i]));
        lemma_contains_before(ids, order[i]);
    }
    lemma_among_alike(order, ids, rest, yes);
    lemma_among_within(order, ids, true);
    lemma_among_within(order, ids, false);
    let (p, q) = (among(order, ids, yes), among(order, ids, !yes));
    let s = p + q;
    if s.contains(x) {
        let k = choose|k: int| 0 <= k < s.len() && s[k] == x;
        if k < p.len() {
            assert(p[k] == x);
        } else {
            assert(q[k - p.len()] == x);
        }
    }
    lemma_place(s, x);
}

proof fn lemma_contains_before(ids: Seq<DrawableId>, y: DrawableId)
    requires
        ids.len() > 0,
    ensures
        ids.contains(ids.last()),
        y != ids.last() ==> ids.contains(y) == ids.drop_last().contains(y),
{
    let rest = ids.drop_last();
    assert(ids[ids.len() - 1] == ids.last());
    if ids.contains(y) && y != ids.last() {
        let k = choose|k: int| 0 <= k < ids.len() && ids[k] == y;
        assert(rest[k] == y);
    }
    if rest.contains(y) {
        let k = choose|k: int| 0 <= k < rest.len() && rest[k] == y;
        assert(ids[k] == y);
    }
}

/// One more layer moves to the end, where those before it are already.
proof fn lemma_one_more(order: Seq<DrawableId>, ids: Seq<DrawableId>, dir: PanelMoveDir)
    requires
        order.no_duplicates(),
        dir == PanelMoveDir::ToTop || dir == PanelMoveDir::ToBottom,
        ids.len() > 0,
        all_in_order(ids, order, lowest_first(dir)),
    ensures
        ({
            let (x, rest) = (ids.last(), ids.drop_last());
            let top = dir == PanelMoveDir::ToTop;
            moved_layer(among(order, rest, !top) + among(order, rest, top), x, dir) == among(
                order,
                ids,
                !top,
            ) + among(order, ids, top)
        }),
{
    let (x, rest) = (ids.last(), ids.drop_last());
    let top = dir == PanelMoveDir::ToTop;
    lemma_place(order, x);
    if place(order, x) is None {
        lemma_none_more(order, ids, dir, true);
        lemma_none_more(order, ids, dir, false);
    } else {
        let k = place(order, x)->0;
        let (a, b) = (order.take(k), order.skip(k + 1));
        assert(order =~= a + seq![x] + b);
        assert(!a.contains(x)) by {
            if a.contains(x) {
                let i = choose|i: int| 0 <= i < a.len() && a[i] == x;
                assert(order[i] == order[k]);
            }
        }
        assert(!b.contains(x)) by {
            if b.contains(x) {
                let i = choose|i: int| 0 <= i < b.len() && b[i] == x;
                assert(order[i + k + 1] == order[k]);
            }
        }
        assert forall|y: DrawableId| y != x implies #[trigger] ids.contains(y) == rest.contains(
            y,
        ) by {
            lemma_contains_before(ids, y);
        }
        lemma_contains_before(ids, x);
        if top {
            assert forall|i: int| 0 <= i < b.len() implies !rest.contains(#[trigger] b[i]) by {
                lemma_not_beyond(order, ids, dir, k, i + k + 1);
            }
            lemma_one_more_top(a, x, b, rest, ids);
        } else {
            assert forall|i: int| 0 <= i < a.len() implies !rest.contains(#[trigger] a[i]) by {
                lemma_not_beyond(order, ids, dir, k, i);
            }
            lemma_one_more_bottom(a, x, b, rest, ids);
        }
    }
}

/// A layer that would have to move later than the last one has not moved.
proof fn lemma_not_beyond(order: Seq<DrawableId>, ids: Seq<DrawableId>, dir: PanelMoveDir, k: int, j: int)
    requires
        order.no_duplicates(),
        dir == PanelMoveDir::ToTop || dir == PanelMoveDir::ToBottom,
        ids.len() > 0,
        all_in_order(ids, order, lowest_first(dir)),
        place(order, ids.last()) == Some(k),
        0 <= j < order.len(),
        if dir == PanelMoveDir::ToTop {
            j > k
        } else {
            j < k
        },
    ensures
        !ids.drop_last().contains(order[j]),
{
    let rest = ids.drop_last();
    if rest.contains(order[j]) {
        let i = choose|i: int| 0 <= i < rest.len() && rest[i] == order[j];
        assert(in_order(order, lowest_first(dir), ids[i], ids[ids.len() - 1]));
        lemma_place_is(order, order[j], j);
    }
}

proof fn lemma_moved_to_end(order: Seq<DrawableId>, ids: Seq<DrawableId>, dir: PanelMoveDir)
    requires
        order.no_duplicates(),
        dir == PanelMoveDir::ToTop || dir == PanelMoveDir::ToBottom,
        all_in_order(ids, order, lowest_first(dir)),
    ensures
        moved_layers(order, ids, dir) == if dir == PanelMoveDir::ToTop {
            among(order, ids, false) + among(order, ids, true)
        } else {
            among(order, ids, true) + among(order, ids, false)
        },
    decreases ids.len(),
{
    if ids.len() == 0 {
        lemma_among_none(order, ids);
        assert(among(order, ids, false) + among(order, ids, true) =~= order);
        assert(among(order, ids, true) + among(order, ids, false) =~= order);
    } else {
        let rest = ids.drop_last();
        assert forall|i: int, j: int| 0 <= i < j < rest.len() implies in_order(
            order,
            lowest_first(dir),
            #[trigger] rest[i],
            #[trigger] rest[j],
        ) by {
            assert(in_order(order, lowest_first(dir), ids[i], ids[j]));
        }
        lemma_moved_to_end(order, rest, dir);
        lemma_one_more(order, ids, dir);
    }
}

/// A selection that moves to the top, or to the bottom, ends up there in the
/// order it had in the stack, and the other layers keep theirs.
pub proof fn lemma_selection_keeps_its_order(
    sel: Seq<DrawableId>,
    order: Seq<DrawableId>,
    dir: PanelMoveDir,
)
    requires
        order.no_duplicates(),
        dir == PanelMoveDir::ToTop || dir == PanelMoveDir::ToBottom,
    ensures
        moved_layers(order, move_order(sel, order, lowest_first(dir)), dir) == if dir
            == PanelMoveDir::ToTop {
            among(order, sel, false) + among(order, sel, true)
        } else {
            among(order, sel, true) + among(order, sel, false)
        },
{
    broadcast use vstd::seq_lib::group_to_multiset_ensures;

    let ids = move_order(sel, order, lowest_first(dir));
    lemma_move_order(sel, order, lowest_first(dir));
    lemma_moved_to_end(order, ids, dir);
    assert forall|i: int| 0 <= i < order.len() implies ids.contains(#[trigger] order[i])
        == sel.contains(order[i]) by {
        assert(ids.contains(order[i]) <==> ids.to_multiset().count(order[i]) > 0);
        assert(sel.contains(order[i]) <==> sel.to_multiset().count(order[i]) > 0);
    }
    lemma_among_alike(order, ids, sel, true);
    lemma_among_alike(order, ids, sel, false);
}

/// The stack with one layer dropped right above, or right below, another;
/// `None` where that is not to be done.
pub open spec fn dropped(
    order: Seq<DrawableId>,
    src: DrawableId,
    target: DrawableId,
    above: bool,
) -> Option<Seq<DrawableId>> {
    match (place(order, src), place(order, target)) {
        (Some(s), Some(_)) if src != target => {
            let rest = order.remove(s);
            let t = place(rest, target)->0;
            Some(
                rest.insert(
                    if above {
                        t + 1
                    } else {
                        t
                    },
                    src,
                ),
            )
        },
        _ => None,
    }
}

proof fn lemma_place_without(order: Seq<DrawableId>, s: int, t: int, target: DrawableId)
    requires
        0 <= s < order.len(),
        order[s] != target,
        place(order, target) == Some(t),
    ensures
        place(order.remove(s), target) == Some(
            if s < t {
                t - 1
            } else {
                t
            },
        ),
{
    lemma_place(order, target);
    let rest = order.remove(s);
    let k = if s < t {
        t - 1
    } else {
        t
    };
    assert forall|i: int| 0 <= i < k implies #[trigger] rest[i] != target by {
        if i < s {
            assert(rest[i] == order[i]);
        } else {
            assert(rest[i] == order[i + 1]);
        }
    }
    assert(rest[k] == target);
    lemma_place_is(rest, target, k);
}

/// A dropped layer ends up right next to the one it was dropped on, on the
/// side it was dropped on, and the others keep their order.
pub proof fn lemma_drop_lands(order: Seq<DrawableId>, src: DrawableId, target: DrawableId, above: bool)
    requires
        dropped(order, src, target, above) is Some,
    ensures
        ({
            let r = dropped(order, src, target, above)->0;
            let rest = order.remove(place(order, src)->0);
            let t = place(rest, target)->0;
            let at = if above {
                t + 1
            } else {
                t
            };
            &&& 0 <= at < r.len()
            &&& r[at] == src
            &&& r[if above {
                at - 1
            } else {
                at + 1
            }] == target
            &&& r.remove(at) == rest
            &&& r.to_multiset() == order.to_multiset()
        }),
{
    broadcast use vstd::seq_lib::group_to_multiset_ensures;

    lemma_place(order, src);
    lemma_place(order, target);
    let s = place(order, src)->0;
    lemma_place_without(order, s, place(order, target)->0, target);
    let rest = order.remove(s);
    lemma_place(rest, target);
    let t = place(rest, target)->0;
    let at = if above {
        t + 1
    } else {
        t
    };
    let r = rest.insert(at, src);
    assert(r.remove(at) =~= rest);
    assert(order =~= rest.insert(s, src));
    assert(r[at] == src);
    r.to_multiset_ensures();
    order.to_multiset_ensures();
    assert(r.contains(src) && order.contains(src));
    assert(r.to_multiset() =~= rest.to_multiset().insert(src));
    assert(order.to_multiset() =~= rest.to_multiset().insert(src));
}

/// The stack with one layer dropped on another.
pub fn drop_onto(order: &Vec<DrawableId>, src: DrawableId, target: DrawableId, above_target: bool) -> (r:
    Option<Vec<DrawableId>>)
    ensures
        match r {
            Some(v) => dropped(order@, src, target, above_target) == Some(v@),
            None => dropped(order@, src, target, above_target) is None,
        },
{
    if src == target {
        return None;
    }
    let Some(s) = find_place(order, src) else {
        return None;
    };
    let Some(t) = find_place(order, target) else {
        return None;
    };
    proof {
        lemma_place(order@, src);
        lemma_place(order@, target);
        lemma_place_without(order@, s as int, t as int, target);
    }
    let mut moved: Vec<DrawableId> = Vec::new();
    let mut i: usize = 0;
    while i < order.len()
        invariant
            i <= order@.len(),
            moved@ == order@.take(i as int),
        decreases order.len() - i,
    {
        moved.push(order[i]);
        assert(order@.take(i + 1) =~= order@.take(i as int).push(order@[i as int]));
        i = i + 1;
    }
    assert(moved@ =~= order@);
    let item: DrawableId = moved.remove(s);
    let at: usize = if s < t {
        t - 1
    } else {
        t
    };
    if above_target {
        moved.insert(at + 1, item);
    } else {
        moved.insert(at, item);
    }
    Some(moved)
}

/// The name a layer gets from what was typed; none, where that is only white
/// space.
pub fn layer_name(typed: &str) -> (r: Option<String>)
    ensures
        match r {
            Some(s) => s@ == trim_spec(typed@) && s@.len() > 0,
            None => trim_spec(typed@).len() == 0,
        },
{
    let t: &str = trim(typed);
    if t.unicode_len() == 0 {
        None
    } else {
        Some(t.to_owned())
    }
}

/// Where a pasted image goes: shown at its own size, in the middle of the
/// image, but not beyond its left or top edge. Lengths in sub-units.
pub open spec fn paste_place_spec(w: int, h: int, scale: int, img_w: int, img_h: int) -> (
    (int, int),
    (int, int),
) {
    let s = max_spec(scale, 1000);
    let (dw, dh) = (
        div_round_spec(w * UNIT * MICRO, s),
        div_round_spec(h * UNIT * MICRO, s),
    );
    (
        (max_spec((img_w * UNIT - dw) / 2, 0), max_spec((img_h * UNIT - dh) / 2, 0)),
        (dw, dh),
    )
}

/// Works out where a pasted image goes, and how large it is, when the image
/// is shown at `scale` millionths.
pub fn paste_place(w: i32, h: i32, scale: i64, img_w: i32, img_h: i32) -> (r: (Vec2D, Vec2D))
    requires
        0 <= w,
        0 <= h,
        0 <= img_w,
        0 <= img_h,
    ensures
        ((r.0.x as int, r.0.y as int), (r.1.x as int, r.1.y as int)) == paste_place_spec(
            w as int,
            h as int,
            scale as int,
            img_w as int,
            img_h as int,
        ),
{
    let s: i64 = max_len(scale, 1000);
    proof {
        lemma_paste_bound(w as int, s as int);
        lemma_paste_bound(h as int, s as int);
    }
    let dw: i64 = mul_div(px(w), MICRO, s);
    let dh: i64 = mul_div(px(h), MICRO, s);
    let x: i64 = max_len(half(px(img_w) - dw), 0);
    let y: i64 = max_len(half(px(img_h) - dh), 0);
    (Vec2D::new(x, y), Vec2D::new(dw, dh))
}

proof fn lemma_paste_bound(w: int, s: int)
    requires
        0 <= w <= i32::MAX,
        s >= 1000,
    ensures
        0 <= div_round_spec(w * UNIT * MICRO, s) <= 0x8000_0000 * UNIT * 1000 + 1,
        (w * UNIT) * MICRO == w * UNIT * MICRO,
{
    let n = w * UNIT * MICRO;
    assert(0 <= n <= 0x8000_0000 * UNIT * MICRO) by (nonlinear_arith)
        requires
            0 <= w <= 0x7fff_ffff,
            n == w * UNIT * MICRO,
            UNIT == 65536,
            MICRO == 1_000_000,
    ;
    let q = div_round_spec(n, s);
    let m = 2 * n + s;
    vstd::arithmetic::div_mod::lemma_fundamental_div_mod(m, 2 * s);
    assert(q * (2 * s) <= m);
    assert(q >= 0) by {
        vstd::arithmetic::div_mod::lemma_div_pos_is_pos(m, 2 * s);
    }
    let top = 0x8000_0000int * 65536 * 1000 + 1;
    assert(q <= top) by (nonlinear_arith)
        requires
            q * (2 * s) <= 2 * n + s,
            n <= 0x8000_0000int * 65536 * 1_000_000,
            s >= 1000,
            top == 0x8000_0000int * 65536 * 1000 + 1,
    ;
}

/// Width of the layer list at the start: that of the last run, within its
/// limits.
pub fn initial_panel_width(state: &PersistedState) -> (r: i64)
    ensures
        r == match state.layer_panel_width {
            Some(w) => clamp_spec(
                w as int,
                LAYER_PANEL_MIN_WIDTH as int,
                LAYER_PANEL_MAX_WIDTH as int,
            ),
            None => LAYER_PANEL_DEFAULT_WIDTH as int,
        },
{
    match state.layer_panel_width {
        Some(w) => clamp_len(w, LAYER_PANEL_MIN_WIDTH, LAYER_PANEL_MAX_WIDTH),
        None => LAYER_PANEL_DEFAULT_WIDTH,
    }
}

/// What the divider beside the layer list is told when it was moved to `raw`
/// pixels: to go back to a limit, or else nothing, and the width is taken.
pub fn panel_moved(raw: i32) -> (r: Result<i64, i32>)
    ensures
        match r {
            Ok(width) => width == raw * UNIT && LAYER_PANEL_MIN_WIDTH <= width
                <= LAYER_PANEL_MAX_WIDTH,
            Err(back) => back * UNIT == clamp_spec(
                raw * UNIT,
                LAYER_PANEL_MIN_WIDTH as int,
                LAYER_PANEL_MAX_WIDTH as int,
            ) && back != raw,
        },
        r is Ok == (110 <= raw <= 480),
{
    if raw < 110 {
        Err(110)
    } else if raw > 480 {
        Err(480)
    } else {
        Ok(px(raw))
    }
}

impl SketchBoard {
    /// A layer was clicked: it is selected alone or, with `additive`, put
    /// into the selection or taken out of it.
    pub fn panel_select(&mut self, id: DrawableId, additive: bool, out: &mut Vec<Effect>)
        ensures
            final(self).selection@ == if additive {
                toggled(old(self).selection@, id)
            } else {
                seq![id]
            },
            *final(self) == (SketchBoard { selection: final(self).selection, ..*old(self) }),
            final(out)@ == old(out)@.push(Effect::Refresh),
    {
        if additive {
            match find_place(&self.selection, id) {
                Some(k) => {
                    let _ = self.selection.remove(k);
                },
                None => self.selection.push(id),
            }
        } else {
            self.selection = vec![id];
        }
        out.push(Effect::Refresh);
    }

    /// Shows or hides a layer.
    pub fn panel_toggle_visible(&self, id: DrawableId, layers: &Vec<Layer>, out: &mut Vec<Effect>)
        ensures
            final(out)@ == match layer_of(layers@, id) {
                Some(d) => old(out)@ + seq![
                    Effect::SetFlags { id, visible: !d.visible, locked: d.locked },
                    Effect::Refresh,
                ],
                None => old(out)@,
            },
    {
        if let Some(d) = find_layer(layers, id) {
            out.push(Effect::SetFlags { id, visible: !d.visible, locked: d.locked });
            out.push(Effect::Refresh);
            assert(out@ =~= old(out)@ + seq![
                Effect::SetFlags { id, visible: !d.visible, locked: d.locked },
                Effect::Refresh,
            ]);
        }
    }

    fn deselect(&mut self, id: DrawableId)
        ensures
            final(self).selection@ == without(old(self).selection@, id),
            *final(self) == (SketchBoard { selection: final(self).selection, ..*old(self) }),
    {
        let mut kept: Vec<DrawableId> = Vec::new();
        let mut i: usize = 0;
        assert(self.selection@.take(0) =~= Seq::<DrawableId>::empty());
        while i < self.selection.len()
            invariant
                i <= self.selection@.len(),
                kept@ == without(self.selection@.take(i as int), id),
            decreases self.selection.len() - i,
        {
            let x: DrawableId = self.selection[i];
            proof {
                let t = self.selection@.take(i + 1);
                assert(t.drop_last() =~= self.selection@.take(i as int));
                assert(t.last() == x);
            }
            if x != id {
                kept.push(x);
            }
            i = i + 1;
        }
        assert(self.selection@.take(self.selection@.len() as int) =~= self.selection@);
        self.selection = kept;
    }

    /// Locks a layer, which then leaves the selection, or unlocks it.
    pub fn panel_toggle_locked(
        &mut self,
        id: DrawableId,
        layers: &Vec<Layer>,
        out: &mut Vec<Effect>,
    )
        ensures
            *final(self) == (SketchBoard { selection: final(self).selection, ..*old(self) }),
            match layer_of(layers@, id) {
                Some(d) => {
                    &&& final(self).selection@ == if d.locked {
                        old(self).selection@
                    } else {
                        without(old(self).selection@, id)
                    }
                    &&& final(out)@ == old(out)@ + seq![
                        Effect::SetFlags { id, visible: d.visible, locked: !d.locked },
                        Effect::Refresh,
                    ]
                },
                None => final(self).selection@ == old(self).selection@ && final(out)@ == old(out)@,
            },
    {
        if let Some(d) = find_layer(layers, id) {
            out.push(Effect::SetFlags { id, visible: d.visible, locked: !d.locked });
            if !d.locked {
                self.deselect(id);
            }
            out.push(Effect::Refresh);
            assert(out@ =~= old(out)@ + seq![
                Effect::SetFlags { id, visible: d.visible, locked: !d.locked },
                Effect::Refresh,
            ]);
        }
    }

    /// Moves one layer.
    pub fn panel_move(&self, id: DrawableId, dir: PanelMoveDir, out: &mut Vec<Effect>)
        ensures
            final(out)@ == old(out)@ + move_effects(seq![id], dir),
    {
        out.push(Effect::MoveLayer(id, dir));
        out.push(Effect::RefreshIfMoved);
        assert(out@ =~= old(out)@ + move_effects(seq![id], dir));
    }

    /// Moves all selected layers.
    pub fn panel_move_selected(
        &self,
        dir: PanelMoveDir,
        order: &Vec<DrawableId>,
        out: &mut Vec<Effect>,
    )
        ensures
            final(out)@ == if self.selection@.len() == 0 {
                old(out)@
            } else {
                old(out)@ + move_effects(
                    move_order(self.selection@, order@, lowest_first(dir)),
                    dir,
                )
            },
    {
        if self.selection.len() == 0 {
            return ;
        }
        let ids = order_of_moves(&self.selection, order, dir);
        let mut i: usize = 0;
        assert(old(out)@ + Seq::<Effect>::empty() =~= out@);
        while i < ids.len()
            invariant
                i <= ids@.len(),
                out@.len() == old(out)@.len() + i,
                forall|k: int| 0 <= k < old(out)@.len() ==> #[trigger] out@[k] == old(out)@[k],
                forall|k: int|
                    0 <= k < i ==> #[trigger] out@[old(out)@.len() + k] == Effect::MoveLayer(
                        ids@[k],
                        dir,
                    ),
            decreases ids.len() - i,
        {
            out.push(Effect::MoveLayer(ids[i], dir));
            i = i + 1;
        }
        out.push(Effect::RefreshIfMoved);
        proof {
            let want = old(out)@ + move_effects(ids@, dir);
            let n = old(out)@.len();
            assert forall|k: int| 0 <= k < want.len() implies out@[k] == want[k] by {
                if n <= k < n + ids@.len() {
                    assert(out@[n + (k - n)] == Effect::MoveLayer(ids@[k - n], dir));
                }
            }
            assert(out@ =~= want);
        }
    }

    /// Gives a drawable another color.
    pub fn panel_set_color(
        &self,
        id: DrawableId,
        color: Color,
        layers: &Vec<Layer>,
        out: &mut Vec<Effect>,
    )
        ensures
            final(out)@ == match layer_of(layers@, id) {
                Some(Layer { style: Some(s), .. }) => old(out)@ + seq![
                    Effect::Modify(id, LayerEdit::Style(Style { color, ..s })),
                    Effect::Refresh,
                ],
                _ => old(out)@,
            },
    {
        if let Some(d) = find_layer(layers, id) {
            if let Some(s) = d.style {
                out.push(Effect::Modify(id, LayerEdit::Style(Style { color, ..s })));
                out.push(Effect::Refresh);
                assert(out@ =~= old(out)@ + seq![
                    Effect::Modify(id, LayerEdit::Style(Style { color, ..s })),
                    Effect::Refresh,
                ]);
            }
        }
    }

    /// Takes another width of the layer list, and keeps it, unless it is the
    /// same to half a pixel.
    pub fn panel_width_changed(&mut self, width: i64, state: &mut PersistedState)
        ensures
            if abs_spec(old(self).layer_panel_width - width) > UNIT / 2 {
                &&& *final(self) == (SketchBoard { layer_panel_width: width, ..*old(self) })
                &&& *final(state) == (PersistedState {
                    layer_panel_width: Some(width),
                    ..*old(state)
                })
            } else {
                *final(self) == *old(self) && *final(state) == *old(state)
            },
    {
        let d: i128 = self.layer_panel_width as i128 - width as i128;
        let half_px: i128 = UNIT as i128 / 2;
        if d > half_px || d < -half_px {
            self.layer_panel_width = width;
            save_layer_panel_width(state, width);
        }
    }

    /// Shows or hides the layer list.
    pub fn toggle_layer_panel(&mut self, out: &mut Vec<Effect>)
        ensures
            *final(self) == (SketchBoard {
                layer_panel_open: !old(self).layer_panel_open,
                ..*old(self)
            }),
            final(out)@ == old(out)@ + (if old(self).layer_panel_open {
                seq![Effect::PanelVisible(false)]
            } else {
                seq![
                    Effect::PanelVisible(true),
                    Effect::PanelPosition(old(self).layer_panel_width),
                    Effect::RebuildRows,
                ]
            }),
    {
        self.layer_panel_open = !self.layer_panel_open;
        out.push(Effect::PanelVisible(self.layer_panel_open));
        if self.layer_panel_open {
            out.push(Effect::PanelPosition(self.layer_panel_width));
            out.push(Effect::RebuildRows);
        }
        assert(out@ =~= old(out)@ + (if old(self).layer_panel_open {
            seq![Effect::PanelVisible(false)]
        } else {
            seq![
                Effect::PanelVisible(true),
                Effect::PanelPosition(old(self).layer_panel_width),
                Effect::RebuildRows,
            ]
        }));
    }

    /// Deletes the selected drawables; locked ones stay, and stay selected.
    pub fn delete_selection(&mut self, layers: &Vec<Layer>) -> (r: ToolUpdateResult<LayerEdit>)
        ensures
            *final(self) == (SketchBoard { selection: final(self).selection, ..*old(self) }),
            final(self).selection@ == with_lock(old(self).selection@, layers@, true),
            deletes(r, with_lock(old(self).selection@, layers@, false)),
    {
        let mut doomed: Vec<DrawableId> = Vec::new();
        let mut kept: Vec<DrawableId> = Vec::new();
        let mut i: usize = 0;
        assert(self.selection@.take(0) =~= Seq::<DrawableId>::empty());
        while i < self.selection.len()
            invariant
                i <= self.selection@.len(),
                doomed@ == with_lock(self.selection@.take(i as int), layers@, false),
                kept@ == with_lock(self.selection@.take(i as int), layers@, true),
            decreases self.selection.len() - i,
        {
            let id: DrawableId = self.selection[i];
            proof {
                let t = self.selection@.take(i + 1);
                assert(t.drop_last() =~= self.selection@.take(i as int));
                assert(t.last() == id);
            }
            let locked: bool = match find_layer(layers, id) {
                Some(d) => d.locked,
                None => false,
            };
            if locked {
                kept.push(id);
            } else {
                doomed.push(id);
            }
            i = i + 1;
        }
        assert(self.selection@.take(self.selection@.len() as int) =~= self.selection@);
        self.selection = kept;
        if doomed.len() == 0 {
            ToolUpdateResult::Unmodified
        } else if doomed.len() == 1 {
            ToolUpdateResult::DeleteDrawable(doomed[0])
        } else {
            ToolUpdateResult::DeleteDrawables(doomed)
        }
    }

    /// Which drawables are duplicated, and how far each copy is moved.
    pub fn duplicate_selection(&self, layers: &Vec<Layer>, img_w: i32, img_h: i32) -> (r: Vec<
        (DrawableId, Vec2D),
    >)
        requires
            layers_ok(layers@),
        ensures
            r@ == copies(self.selection@, layers@, img_w * UNIT, img_h * UNIT),
    {
        let mut plan: Vec<(DrawableId, Vec2D)> = Vec::new();
        let mut i: usize = 0;
        assert(self.selection@.take(0) =~= Seq::<DrawableId>::empty());
        while i < self.selection.len()
            invariant
                layers_ok(layers@),
                i <= self.selection@.len(),
                plan@ == copies(
                    self.selection@.take(i as int),
                    layers@,
                    img_w * UNIT,
                    img_h * UNIT,
                ),
            decreases self.selection.len() - i,
        {
            let id: DrawableId = self.selection[i];
            proof {
                let t = self.selection@.take(i + 1);
                assert(t.drop_last() =~= self.selection@.take(i as int));
                assert(t.last() == id);
                lemma_layer_ok(layers@, id);
            }
            if let Some(d) = find_layer(layers, id) {
                plan.push((id, offset_of_copy(d.bounds, img_w, img_h)));
            }
            i = i + 1;
        }
        assert(self.selection@.take(self.selection@.len() as int) =~= self.selection@);
        plan
    }

    /// Selects the copies, once they are on the stack.
    pub fn finish_duplicate(
        &mut self,
        new_ids: Vec<DrawableId>,
        config: &BoardConfig,
        out: &mut Vec<Effect>,
    )
        ensures
            if new_ids@.len() == 0 {
                *final(self) == *old(self) && final(out)@ == old(out)@
            } else {
                &&& *final(self) == (SketchBoard { selection: new_ids, ..*old(self) })
                &&& final(out)@ == old(out)@ + (if config.auto_copy {
                    seq![Effect::Render(Some(Action::SaveToClipboard))]
                } else {
                    Seq::empty()
                }) + seq![Effect::Refresh, Effect::SyncToolbar]
            },
    {
        if new_ids.len() == 0 {
            return ;
        }
        self.selection = new_ids;
        if config.auto_copy {
            out.push(Effect::Render(Some(Action::SaveToClipboard)));
        }
        out.push(Effect::Refresh);
        out.push(Effect::SyncToolbar);
        assert(out@ =~= old(out)@ + (if config.auto_copy {
            seq![Effect::Render(Some(Action::SaveToClipboard))]
        } else {
            Seq::empty()
        }) + seq![Effect::Refresh, Effect::SyncToolbar]);
    }

    /// Selects an image that was pasted, once it is on the stack.
    pub fn finish_paste(&mut self, id: DrawableId, out: &mut Vec<Effect>)
        ensures
            *final(self) == (SketchBoard { selection: final(self).selection, ..*old(self) }),
            final(self).selection@ == seq![id],
            final(out)@ == old(out)@.push(Effect::Refresh),
    {
        self.selection = vec![id];
        out.push(Effect::Refresh);
    }
}

/// The effects of moving some layers, one after the other.
pub open spec fn move_effects(ids: Seq<DrawableId>, dir: PanelMoveDir) -> Seq<Effect> {
    ids.map_values(|id: DrawableId| Effect::MoveLayer(id, dir)).push(Effect::RefreshIfMoved)
}

proof fn lemma_without(sel: Seq<DrawableId>, id: DrawableId)
    ensures
        !without(sel, id).contains(id),
        forall|x: DrawableId| x != id && sel.contains(x) ==> #[trigger] without(sel, id).contains(x),
    decreases sel.len(),
{
    if sel.len() > 0 {
        let rest = sel.drop_last();
        lemma_without(rest, id);
        let r = without(sel, id);
        if r.contains(id) {
            let k = choose|k: int| 0 <= k < r.len() && r[k] == id;
            if sel.last() != id && k < r.len() - 1 {
                assert(without(rest, id)[k] == id);
            } else if sel.last() == id {
                assert(without(rest, id)[k] == id);
            }
        }
        assert forall|x: DrawableId| x != id && sel.contains(x) implies #[trigger] r.contains(x) by {
            let k = choose|k: int| 0 <= k < sel.len() && sel[k] == x;
            if k < rest.len() {
                assert(rest[k] == x);
                assert(without(rest, id).contains(x));
                let m = choose|m: int|
                    0 <= m < without(rest, id).len() && without(rest, id)[m] == x;
                assert(r[m] == x);
            } else {
                assert(r[r.len() - 1] == x);
            }
        }
    }
}

/// A layer that gets locked is no longer selected; the others stay.
pub proof fn lemma_locked_is_not_selected(sel: Seq<DrawableId>, id: DrawableId)
    ensures
        !without(sel, id).contains(id),
        forall|x: DrawableId| x != id && sel.contains(x) ==> without(sel, id).contains(x),
{
    lemma_without(sel, id);
}

/// Deleting takes no locked drawable, and every selected drawable is either
/// deleted or still selected.
pub proof fn lemma_locked_survive(sel: Seq<DrawableId>, layers: Seq<Layer>)
    ensures
        with_lock(sel, layers, true).len() + with_lock(sel, layers, false).len() == sel.len(),
        forall|i: int, locked: bool|
            0 <= i < with_lock(sel, layers, locked).len() ==> is_locked(
                layers,
                #[trigger] with_lock(sel, layers, locked)[i],
            ) == locked,
    decreases sel.len(),
{
    if sel.len() > 0 {
        lemma_locked_survive(sel.drop_last(), layers);
        assert forall|i: int, locked: bool|
            0 <= i < with_lock(sel, layers, locked).len() implies is_locked(
            layers,
            #[trigger] with_lock(sel, layers, locked)[i],
        ) == locked by {
            let rest = with_lock(sel.drop_last(), layers, locked);
            if i < rest.len() {
                assert(with_lock(sel, layers, locked)[i] == rest[i]);
            }
        }
    }
}

} // verus!
