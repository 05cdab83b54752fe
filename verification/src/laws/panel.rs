//! What the layer list comes to.
use vstd::prelude::*;
use crate::board::layers::{layer_of, Layer};
use crate::board::messages::PanelMoveDir;
use crate::board::panel::{
    copies, copy_offset, dropped, lemma_place, lowest_first, move_effects, moved_layer,
    paste_place_spec, place, toggled, with_lock, without,
};
use crate::board::Effect;
use crate::math::Rect;
use crate::tools::DrawableId;
use crate::units::{MICRO, UNIT};

verus! {

/// Moving a layer by one swaps it with its neighbor, the one above for up and
/// the one below for down. To the top it goes above all, to the bottom below
/// all. The others keep their order, and at the end of the stack it stays.
pub proof fn lemma_layer_moves(order: Seq<DrawableId>, k: int, dir: PanelMoveDir)
    requires
        0 <= k < order.len(),
        forall|i: int| 0 <= i < k ==> order[i] != order[k],
    ensures
        ({
            let id = order[k];
            let r = moved_layer(order, id, dir);
            let top = order.len() - 1;
            let to = match dir {
                PanelMoveDir::ToTop => top,
                PanelMoveDir::ToBottom => 0,
                PanelMoveDir::Up => if k < top {
                    k + 1
                } else {
                    k
                },
                PanelMoveDir::Down => if k > 0 {
                    k - 1
                } else {
                    k
                },
            };
            &&& r.len() == order.len()
            &&& r[to] == id
            &&& r.remove(to) == order.remove(k)
        }),
{
    let id = order[k];
    lemma_place(order, id);
    assert(order.contains(id));
    let j = place(order, id)->0;
    assert(j == k) by {
        if j < k {
            assert(order[j] == id);
        }
    }
    let r = moved_layer(order, id, dir);
    let rest = order.remove(k);
    let top = order.len() - 1;
    let to = match dir {
        PanelMoveDir::ToTop => top,
        PanelMoveDir::ToBottom => 0,
        PanelMoveDir::Up => if k < top {
            k + 1
        } else {
            k
        },
        PanelMoveDir::Down => if k > 0 {
            k - 1
        } else {
            k
        },
    };
    assert(r.remove(to) =~= rest);
}

/// Where several layers move, those that would be in the way go first.
pub proof fn lemma_leading_layer_goes_first()
    ensures
        lowest_first(PanelMoveDir::Down),
        !lowest_first(PanelMoveDir::Up),
        lowest_first(PanelMoveDir::ToTop),
        !lowest_first(PanelMoveDir::ToBottom),
{
}

/// Every layer is moved, one after the other, the same way.
pub proof fn lemma_all_layers_are_moved(ids: Seq<DrawableId>, dir: PanelMoveDir, i: int)
    requires
        0 <= i < ids.len(),
    ensures
        move_effects(ids, dir).len() == ids.len() + 1,
        move_effects(ids, dir)[i] == Effect::MoveLayer(ids[i], dir),
        move_effects(ids, dir).last() == Effect::RefreshIfMoved,
{
}

/// Toggling takes out a layer that is in, and adds one that is not, at the
/// end; the others stay.
pub proof fn lemma_toggling_switches(sel: Seq<DrawableId>, id: DrawableId)
    requires
        sel.no_duplicates(),
    ensures
        toggled(sel, id).contains(id) <==> !sel.contains(id),
        forall|x: DrawableId| x != id ==> (#[trigger] toggled(sel, id).contains(x) <==> sel.contains(x)),
        !sel.contains(id) ==> toggled(sel, id).last() == id,
{
    lemma_place(sel, id);
    let r = toggled(sel, id);
    match place(sel, id) {
        Some(k) => {
            assert(sel.contains(id));
            assert forall|i: int| 0 <= i < r.len() implies #[trigger] r[i] != id by {
                let j = if i < k {
                    i
                } else {
                    i + 1
                };
                assert(r[i] == sel[j] && j != k);
            }
            assert forall|x: DrawableId| x != id implies (#[trigger] r.contains(x) <==> sel.contains(
                x,
            )) by {
                if sel.contains(x) {
                    let j = choose|j: int| 0 <= j < sel.len() && sel[j] == x;
                    if j < k {
                        assert(r[j] == x);
                    } else {
                        assert(r[j - 1] == x);
                    }
                }
                if r.contains(x) {
                    let i = choose|i: int| 0 <= i < r.len() && r[i] == x;
                    if i < k {
                        assert(sel[i] == x);
                    } else {
                        assert(sel[i + 1] == x);
                    }
                }
            }
        },
        None => {
            assert(r[sel.len() as int] == id);
            assert forall|x: DrawableId| x != id implies (#[trigger] r.contains(x) <==> sel.contains(
                x,
            )) by {
                if sel.contains(x) {
                    let j = choose|j: int| 0 <= j < sel.len() && sel[j] == x;
                    assert(r[j] == x);
                }
                if r.contains(x) {
                    let i = choose|i: int| 0 <= i < r.len() && r[i] == x;
                    assert(sel[i] == x);
                }
            }
        },
    }
}

/// A copy lies a hundred pixels to the left of its original and a hundred
/// below. It lies to the right where there is room only there, and above where
/// there is room only there.
pub proof fn lemma_copies_lie_beside(b: Rect, img_w: int, img_h: int)
    ensures
        ({
            let (x, y) = copy_offset(Some(b), img_w, img_h);
            let d = 100 * UNIT;
            let (left, top) = (b.pos.x as int, b.pos.y as int);
            let (right, bottom) = (b.pos.x + b.size.x, b.pos.y + b.size.y);
            &&& left >= d || right > img_w - d ==> x == -d
            &&& left < d && right <= img_w - d ==> x == d
            &&& bottom <= img_h - d || top < d ==> y == d
            &&& bottom > img_h - d && top >= d ==> y == -d
        }),
        copy_offset(None, img_w, img_h) == (-100 * UNIT, 100 * UNIT),
{
}

/// Every selected layer that exists is copied once, in the order of the
/// selection.
pub proof fn lemma_existing_layers_are_copied(
    sel: Seq<DrawableId>,
    layers: Seq<Layer>,
    img_w: int,
    img_h: int,
)
    requires
        forall|i: int| 0 <= i < sel.len() ==> layer_of(layers, #[trigger] sel[i]) is Some,
    ensures
        copies(sel, layers, img_w, img_h).len() == sel.len(),
        forall|i: int|
            0 <= i < sel.len() ==> {
                let (x, y) = copy_offset(layer_of(layers, sel[i])->0.bounds, img_w, img_h);
                let c = #[trigger] copies(sel, layers, img_w, img_h)[i];
                c.0 == sel[i] && c.1.x == x && c.1.y == y
            },
    decreases sel.len(),
{
    if sel.len() > 0 {
        let rest = sel.drop_last();
        assert forall|i: int| 0 <= i < rest.len() implies layer_of(layers, #[trigger] rest[i])
            is Some by {
            assert(rest[i] == sel[i]);
        }
        lemma_existing_layers_are_copied(rest, layers, img_w, img_h);
        let all = copies(sel, layers, img_w, img_h);
        assert(layer_of(layers, sel[sel.len() - 1]) is Some);
        assert forall|i: int| 0 <= i < sel.len() implies {
            let (x, y) = copy_offset(layer_of(layers, sel[i])->0.bounds, img_w, img_h);
            let c = #[trigger] all[i];
            c.0 == sel[i] && c.1.x == x && c.1.y == y
        } by {
            if i < rest.len() {
                assert(all[i] == copies(rest, layers, img_w, img_h)[i]);
                assert(rest[i] == sel[i]);
            }
        }
    }
}

/// A dropped layer leaves its place and comes to lie right above or right
/// below the other; nothing is dropped on itself or on a layer that is gone.
pub proof fn lemma_dropped_layer_lands_beside(
    order: Seq<DrawableId>,
    s: int,
    t: int,
    above: bool,
)
    requires
        order.no_duplicates(),
        0 <= s < order.len(),
        0 <= t < order.len(),
        s != t,
    ensures
        dropped(order, order[s], order[s], above) is None,
        dropped(order, order[s], order[t], above) is Some,
        ({
            let r = dropped(order, order[s], order[t], above)->0;
            let rest = order.remove(s);
            let u = if s < t {
                t - 1
            } else {
                t
            };
            &&& r.len() == order.len()
            &&& above ==> r[u] == order[t] && r[u + 1] == order[s] && r.remove(u + 1) == rest
            &&& !above ==> r[u + 1] == order[t] && r[u] == order[s] && r.remove(u) == rest
        }),
{
    let (src, target) = (order[s], order[t]);
    lemma_place(order, src);
    lemma_place(order, target);
    assert(order.contains(src) && order.contains(target));
    let rest = order.remove(s);
    let u = if s < t {
        t - 1
    } else {
        t
    };
    assert(rest[u] == target);
    assert(rest.contains(target));
    lemma_place(rest, target);
    let v = place(rest, target)->0;
    assert(v == u) by {
        let w = if v < s {
            v
        } else {
            v + 1
        };
        assert(rest[v] == order[w]);
    }
    let r = dropped(order, src, target, above)->0;
    if above {
        assert(r.remove(u + 1) =~= rest);
    } else {
        assert(r.remove(u) =~= rest);
    }
}

/// Taking a layer out of the selection takes out that one alone, and keeping
/// the locked ones, or the others, keeps each of them.
pub proof fn lemma_selection_is_sorted_out(
    sel: Seq<DrawableId>,
    layers: Seq<Layer>,
    id: DrawableId,
    x: DrawableId,
)
    ensures
        without(sel, id).contains(x) <==> sel.contains(x) && x != id,
        with_lock(sel, layers, true).contains(x) <==> sel.contains(x) && is_locked_layer(layers, x),
        with_lock(sel, layers, false).contains(x) <==> sel.contains(x) && !is_locked_layer(
            layers,
            x,
        ),
    decreases sel.len(),
{
    if sel.len() > 0 {
        let rest = sel.drop_last();
        lemma_selection_is_sorted_out(rest, layers, id, x);
        assert(sel =~= rest.push(sel.last()));
        lemma_push_contains(rest, sel.last(), x);
        lemma_push_contains(without(rest, id), sel.last(), x);
        lemma_push_contains(with_lock(rest, layers, true), sel.last(), x);
        lemma_push_contains(with_lock(rest, layers, false), sel.last(), x);
    }
}

/// The layer exists and is locked.
pub open spec fn is_locked_layer(layers: Seq<Layer>, id: DrawableId) -> bool {
    layer_of(layers, id) is Some && layer_of(layers, id)->0.locked
}

proof fn lemma_push_contains(s: Seq<DrawableId>, last: DrawableId, x: DrawableId)
    ensures
        s.push(last).contains(x) <==> s.contains(x) || x == last,
{
    let r = s.push(last);
    if s.contains(x) {
        let i = choose|i: int| 0 <= i < s.len() && s[i] == x;
        assert(r[i] == x);
    }
    assert(r[s.len() as int] == last);
    if r.contains(x) {
        let i = choose|i: int| 0 <= i < r.len() && r[i] == x;
        if i < s.len() {
            assert(s[i] == x);
        }
    }
}

/// A pasted image is as large on screen as it is in pixels, and lies in the
/// middle of the image, or at its edge where it is larger.
pub proof fn lemma_pasted_image_lies_in_the_middle(w: int, h: int, scale: int, img_w: int, img_h: int)
    requires
        scale >= 1000,
    ensures
        ({
            let ((x, y), (dw, dh)) = paste_place_spec(w, h, scale, img_w, img_h);
            &&& -scale <= 2 * (dw * scale - w * UNIT * MICRO) <= scale
            &&& -scale <= 2 * (dh * scale - h * UNIT * MICRO) <= scale
            &&& dw <= img_w * UNIT ==> 0 <= (img_w * UNIT - (x + dw)) - x <= 1
            &&& dh <= img_h * UNIT ==> 0 <= (img_h * UNIT - (y + dh)) - y <= 1
            &&& dw > img_w * UNIT ==> x == 0
            &&& dh > img_h * UNIT ==> y == 0
        }),
{
    crate::units::lemma_div_round_near(w * UNIT * MICRO, scale);
    crate::units::lemma_div_round_near(h * UNIT * MICRO, scale);
}

} // verus!
