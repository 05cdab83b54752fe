//! What names and shortcuts come to.
use vstd::prelude::*;
use crate::board::rows::{
    dark_tile, preview_shape_spec, tiles_over, PreviewShape, RowSpan, StackEntry,
};
use crate::board::shortcut::{key_name, modifiers_of, parts_of, tokens, with_modifier};
use crate::input::Modifiers;
use crate::text::{decimal_spec, digit_spec, trim_spec, value_of, white_spec};
use crate::tools::{DrawableId, PanelPreview};
use crate::units::UNIT;

verus! {

/// Numbers are written digit by digit in tens, and read the same way.
pub proof fn lemma_numbers_are_decimal(n: nat, d: nat, s: Seq<char>, c: char)
    requires
        d < 10,
        digit_spec(c),
    ensures
        decimal_spec(d).len() == 1,
        decimal_spec(d)[0] as int == 48 + d,
        n > 0 ==> decimal_spec(10 * n + d) == decimal_spec(n) + decimal_spec(d),
        value_of(s.push(c)) == 10 * value_of(s) + (c as int - 48),
        value_of(Seq::empty()) == 0,
{
    if n > 0 {
        assert((10 * n + d) / 10 == n && (10 * n + d) % 10 == d);
        assert(decimal_spec(10 * n + d) =~= decimal_spec(n) + decimal_spec(d));
    }
    assert(s.push(c).drop_last() =~= s);
}

/// White space is cut off in front and behind, and nothing else is.
pub proof fn lemma_trimmed_text(a: Seq<char>, s: Seq<char>, b: Seq<char>)
    requires
        s.len() > 0,
        !white_spec(s[0]),
        !white_spec(s.last()),
        forall|i: int| 0 <= i < a.len() ==> white_spec(#[trigger] a[i]),
        forall|i: int| 0 <= i < b.len() ==> white_spec(#[trigger] b[i]),
    ensures
        trim_spec(a + s + b) == s,
        white_spec(' ') && white_spec('\t') && white_spec('\n'),
        !white_spec('a') && !white_spec('0') && !white_spec('-') && !white_spec('_'),
{
    lemma_start_is_cut(a, s + b);
    assert(a + s + b =~= a + (s + b));
    assert((s + b)[0] == s[0]);
    lemma_end_is_cut(s, b);
}

proof fn lemma_start_is_cut(a: Seq<char>, s: Seq<char>)
    requires
        s.len() > 0,
        !white_spec(s[0]),
        forall|i: int| 0 <= i < a.len() ==> white_spec(#[trigger] a[i]),
    ensures
        crate::text::trim_start_spec(a + s) == s,
    decreases a.len(),
{
    if a.len() == 0 {
        assert(a + s =~= s);
    } else {
        let rest = a.drop_first();
        assert((a + s)[0] == a[0]);
        assert((a + s).drop_first() =~= rest + s);
        assert forall|i: int| 0 <= i < rest.len() implies white_spec(#[trigger] rest[i]) by {
            assert(rest[i] == a[i + 1]);
        }
        lemma_start_is_cut(rest, s);
    }
}

proof fn lemma_end_is_cut(s: Seq<char>, b: Seq<char>)
    requires
        s.len() > 0,
        !white_spec(s.last()),
        forall|i: int| 0 <= i < b.len() ==> white_spec(#[trigger] b[i]),
    ensures
        crate::text::trim_end_spec(s + b) == s,
    decreases b.len(),
{
    if b.len() == 0 {
        assert(s + b =~= s);
    } else {
        let rest = b.drop_last();
        assert((s + b).last() == b[b.len() - 1]);
        assert((s + b).drop_last() =~= s + rest);
        assert forall|i: int| 0 <= i < rest.len() implies white_spec(#[trigger] rest[i]) by {
            assert(rest[i] == b[i]);
        }
        lemma_end_is_cut(s, rest);
    }
}

/// A shortcut is cut at its plus signs.
pub proof fn lemma_shortcut_is_cut_at_plus(a: Seq<char>, part: Seq<char>)
    requires
        forall|i: int| 0 <= i < part.len() ==> #[trigger] part[i] != '+',
    ensures
        tokens(part) == seq![part],
        tokens(a + seq!['+'] + part) == tokens(a).push(part),
    decreases part.len(),
{
    let whole = a + seq!['+'] + part;
    if part.len() == 0 {
        assert(whole =~= a.push('+'));
        assert(whole.drop_last() =~= a);
        assert(part =~= Seq::empty());
    } else {
        let rest = part.drop_last();
        assert forall|i: int| 0 <= i < rest.len() implies #[trigger] rest[i] != '+' by {
            assert(rest[i] == part[i]);
        }
        lemma_shortcut_is_cut_at_plus(a, rest);
        assert(whole.drop_last() =~= a + seq!['+'] + rest);
        assert(whole.last() == part[part.len() - 1]);
        assert(part =~= rest.push(part.last()));
        assert(tokens(part) =~= seq![part]);
        assert(tokens(whole) =~= tokens(a).push(part));
    }
}

/// The modifiers go by their names.
pub proof fn lemma_modifiers_go_by_name(m: Modifiers)
    ensures
        with_modifier(m, "ctrl"@) == Some(Modifiers { control: true, ..m }),
        with_modifier(m, "control"@) == Some(Modifiers { control: true, ..m }),
        with_modifier(m, "shift"@) == Some(Modifiers { shift: true, ..m }),
        with_modifier(m, "alt"@) == Some(Modifiers { alt: true, ..m }),
        with_modifier(m, "super"@) == Some(Modifiers { super_key: true, ..m }),
        with_modifier(m, "meta"@) == Some(Modifiers { super_key: true, ..m }),
{
    reveal_strlit("ctrl");
    reveal_strlit("control");
    reveal_strlit("shift");
    reveal_strlit("alt");
    reveal_strlit("super");
    reveal_strlit("meta");
    assert("shift"@[0] == 's' && "ctrl"@[0] == 'c' && "control"@[0] == 'c' && "alt"@[0] == 'a'
        && "meta"@[0] == 'm' && "super"@[1] == 'u' && "shift"@[1] == 'h' && "super"@[0] == 's');
}

/// A shortcut is its modifiers and its key; without a key, or with a part that
/// is no modifier, it is none.
pub proof fn lemma_shortcut_has_its_parts(parts: Seq<Seq<char>>, r: (Modifiers, Seq<char>))
    requires
        parts.len() > 0,
        parts_of(parts) == Some(r),
    ensures
        modifiers_of(parts.drop_last()) == Some(r.0),
        key_name(crate::board::shortcut::lowered(trim_spec(parts.last()))) == Some(r.1),
{
}

/// A key goes by its character, a function key by its number.
pub proof fn lemma_keys_go_by_name(name: Seq<char>)
    ensures
        name.len() == 1 ==> key_name(name) == Some(name),
        name.len() == 2 && name[0] == 'f' && '1' <= name[1] <= '9' ==> key_name(name) == Some(
            seq!['F', name[1]],
        ),
        name.len() == 3 && name[0] == 'f' && name[1] == '1' && '0' <= name[2] <= '9' ==> key_name(
            name,
        ) == Some(seq!['F', name[1], name[2]]),
        name.len() == 3 && name[0] == 'f' && name[1] == '2' && '0' <= name[2] <= '4' ==> key_name(
            name,
        ) == Some(seq!['F', name[1], name[2]]),
        name.len() == 3 && name[0] == 'f' && name[1] == '2' && name[2] >= '5' ==> key_name(name)
            is None,
        name.len() == 0 || name.len() > 3 ==> key_name(name) is None,
{
    if name.len() == 2 {
        assert(seq!['F'] + name.skip(1) =~= seq!['F', name[1]]);
    }
    if name.len() == 3 {
        assert(seq!['F'] + name.skip(1) =~= seq!['F', name[1], name[2]]);
    }
}

/// A row shows its layer as visible and free where nothing else is known, and
/// as selected when it is.
pub proof fn lemma_row_shows_its_layer(e: StackEntry, selection: Seq<DrawableId>)
    requires
        e.kind is Some,
    ensures
        e.row(selection) is Some,
        ({
            let r = e.row(selection)->0;
            &&& r.id == e.id
            &&& r.selected == selection.contains(e.id)
            &&& e.flags is None ==> r.visible && !r.locked
            &&& e.flags matches Some((visible, locked)) ==> r.visible == visible && r.locked
                == locked
            &&& e.custom is Some ==> r.label == e.custom->0@
        }),
{
}

/// A drop in the upper half of a row goes above it.
pub proof fn lemma_upper_half_of_a_row(r: RowSpan, y: int)
    ensures
        r.above_middle(y) <==> y - r.top < r.top + r.height - y,
{
}

/// The picture of a shape keeps off the edges of its slot on all sides alike.
pub proof fn lemma_pictures_keep_off_the_edges(filled: bool, w: int, h: int)
    requires
        6 * UNIT <= w <= 0x7fff_ffff * UNIT,
        6 * UNIT <= h <= 0x7fff_ffff * UNIT,
    ensures
        preview_shape_spec(PanelPreview::Rectangle { filled }, w, h) matches PreviewShape::RoundRect {
            x,
            y,
            width,
            height,
            radius,
            filled: f,
        } && 2 * x == 5 * UNIT && w - (x + width) == x && 2 * y == 5 * UNIT && h - (y + height) == y
            && radius == 2 * UNIT && f == filled,
        preview_shape_spec(PanelPreview::Ellipse { filled }, w, h) matches PreviewShape::Oval {
            cx,
            cy,
            rx,
            ry,
            filled: f,
        } && 2 * (cx - rx) == 3 * UNIT && 3 * UNIT <= 2 * (w - (cx + rx)) <= 3 * UNIT + 2 && 2 * (cy
            - ry) == 3 * UNIT && 3 * UNIT <= 2 * (h - (cy + ry)) <= 3 * UNIT + 2 && f == filled,
        preview_shape_spec(PanelPreview::Line, w, h) matches PreviewShape::Stroke { x0, x1, y } && x0
            == 2 * UNIT && w - x1 == 2 * UNIT && h - 1 <= 2 * y <= h,
{
}

/// Neighbors on a checkerboard differ, the first tile is light, and the tiles
/// cover the length.
pub proof fn lemma_checkerboard(tx: int, ty: int, len: int, tile: int)
    requires
        tile > 0,
        len >= 0,
    ensures
        dark_tile(tx + 1, ty) != dark_tile(tx, ty),
        dark_tile(tx, ty + 1) != dark_tile(tx, ty),
        !dark_tile(0, 0),
        (tiles_over(len, tile) - 1) * tile >= len,
        (tiles_over(len, tile) - 2) * tile < len,
{
    let t = len + tile - 1;
    let q = t / tile;
    vstd::arithmetic::div_mod::lemma_fundamental_div_mod(t, tile);
    assert(q * tile == tile * q && (q - 1) * tile == tile * q - tile) by (nonlinear_arith);
}

} // verus!
