//! What the tools make of presses, drags and keys, and how edits are handed on.
use vstd::prelude::*;
use crate::board::layers::{edits_result, LayerEdit};
use crate::board::{emit_edits, Effect};
use crate::input::{KeyEventMsg, Modifiers, MouseButton, MouseEventMsg, MouseEventType, KEY_ESCAPE};
use crate::math::Vec2D;
use crate::state::PersistedState;
use crate::text::number;
use crate::tools::arrow::{Arrow, ArrowTool};
use crate::tools::blur::{Blur, BlurTool};
use crate::tools::crop::overlay::CropOverlay;
use crate::tools::crop::Crop;
use crate::tools::ellipse::{Ellipse, EllipseTool};
use crate::tools::line::{Line, LineTool};
use crate::tools::marker::Marker;
use crate::tools::{DrawableId, Handle, HandleId, ToolUpdateResult};

verus! {

/// The middle button is for the view: no tool draws with it.
pub proof fn lemma_middle_button(
    a: &mut ArrowTool,
    b: &mut BlurTool,
    e: &mut EllipseTool,
    l: &mut LineTool,
    event: MouseEventMsg,
    snapped: Vec2D,
    ra: ToolUpdateResult<Arrow>,
    rb: ToolUpdateResult<Blur>,
    re: ToolUpdateResult<Ellipse>,
    rl: ToolUpdateResult<Line>,
)
    requires
        event.button == MouseButton::Middle,
        call_ensures(ArrowTool::handle_mouse_event, (a, event, snapped), ra),
        call_ensures(BlurTool::handle_mouse_event, (b, event), rb),
        call_ensures(EllipseTool::handle_mouse_event, (e, event), re),
        call_ensures(LineTool::handle_mouse_event, (l, event, snapped), rl),
    ensures
        *final(a) == *old(a) && ra is Unmodified,
        *final(b) == *old(b) && rb is Unmodified,
        *final(e) == *old(e) && re is Unmodified,
        *final(l) == *old(l) && rl is Unmodified,
{
}

/// A release where the press was draws nothing, and what was begun is gone.
pub proof fn lemma_drag_of_no_length(
    a: &mut ArrowTool,
    b: &mut BlurTool,
    e: &mut EllipseTool,
    l: &mut LineTool,
    event: MouseEventMsg,
    snapped: Vec2D,
    ra: ToolUpdateResult<Arrow>,
    rb: ToolUpdateResult<Blur>,
    re: ToolUpdateResult<Ellipse>,
    rl: ToolUpdateResult<Line>,
)
    requires
        event.button != MouseButton::Middle,
        event.type_ == MouseEventType::EndDrag,
        event.pos.x == 0,
        event.pos.y == 0,
        old(a).arrow is Some,
        old(b).blur is Some,
        old(e).ellipse is Some,
        old(l).line is Some,
        call_ensures(ArrowTool::handle_mouse_event, (a, event, snapped), ra),
        call_ensures(BlurTool::handle_mouse_event, (b, event), rb),
        call_ensures(EllipseTool::handle_mouse_event, (e, event), re),
        call_ensures(LineTool::handle_mouse_event, (l, event, snapped), rl),
    ensures
        final(a).arrow is None && ra is Redraw,
        final(b).blur is None && rb is Redraw,
        final(e).ellipse is None && re is Redraw,
        final(l).line is None && rl is Redraw,
{
}

/// A release elsewhere commits what was begun, at the place where it was
/// pressed and in the style of the tool at that time.
pub proof fn lemma_release_commits(
    a: &mut ArrowTool,
    b: &mut BlurTool,
    l: &mut LineTool,
    event: MouseEventMsg,
    snapped: Vec2D,
    ra: ToolUpdateResult<Arrow>,
    rb: ToolUpdateResult<Blur>,
    rl: ToolUpdateResult<Line>,
)
    requires
        event.button != MouseButton::Middle,
        event.type_ == MouseEventType::EndDrag,
        event.pos.x != 0 || event.pos.y != 0,
        old(a).arrow is Some,
        old(b).blur is Some,
        old(l).line is Some,
        call_ensures(ArrowTool::handle_mouse_event, (a, event, snapped), ra),
        call_ensures(BlurTool::handle_mouse_event, (b, event), rb),
        call_ensures(LineTool::handle_mouse_event, (l, event, snapped), rl),
    ensures
        ra matches ToolUpdateResult::Commit(d) && d.start == old(a).arrow->0.start && d.style
            == old(a).arrow->0.style && d.arrow_style == old(a).arrow->0.arrow_style && d.end
            is Some,
        rb matches ToolUpdateResult::Commit(d) && d.top_left == old(b).blur->0.top_left && d.size
            == Some(event.pos) && !d.editing,
        rl matches ToolUpdateResult::Commit(d) && d.start == old(l).line->0.start && d.direction
            is Some,
        final(a).arrow is None && final(b).blur is None && final(l).line is None,
{
}

/// Escape drops what is being drawn.
pub proof fn lemma_escape_drops(l: &mut LineTool, event: KeyEventMsg, r: ToolUpdateResult<Line>)
    requires
        call_ensures(LineTool::handle_key_event, (l, event), r),
    ensures
        event.key.0 == KEY_ESCAPE && old(l).line is Some ==> final(l).line is None && r is Redraw,
        event.key.0 != KEY_ESCAPE || old(l).line is None ==> *final(l) == *old(l) && r
            is Unmodified,
{
}

/// The handles of a badge are the corners of its box.
pub proof fn lemma_badge_handles(m: Marker, hit: i64, r: Vec<Handle>, radius: i64)
    requires
        call_ensures(Marker::handles, (&m, hit), r),
        call_ensures(Marker::approx_radius, (&m,), radius),
    ensures
        r@.len() == 4,
        r@[0].id == HandleId::TopLeft && r@[0].pos.x + radius == m.pos.x && r@[0].pos.y + radius
            == m.pos.y,
        r@[1].id == HandleId::TopRight && r@[1].pos.x - radius == m.pos.x && r@[1].pos.y + radius
            == m.pos.y,
        r@[2].id == HandleId::BottomLeft && r@[2].pos.x + radius == m.pos.x && r@[2].pos.y - radius
            == m.pos.y,
        r@[3].id == HandleId::BottomRight && r@[3].pos.x - radius == m.pos.x && r@[3].pos.y
            - radius == m.pos.y,
        r@[0].hit_radius == hit && r@[3].hit_radius == hit,
{
    let n = m.number as int;
    let ts = m.text_size();
    let q = choose|q: int| #[trigger]
        crate::tools::marker::is_radius(ts, n, q) && crate::tools::marker::is_corner_handles(
            m.pos,
            q,
            hit,
            r@,
        );
    crate::tools::marker::lemma_radius_unique(ts, n, q, radius as int);
}

/// No edit is nothing to do, one is one change, and several are one step
/// together.
pub proof fn lemma_edits_are_handed_on(
    updates: Vec<(DrawableId, LayerEdit)>,
    out: &mut Vec<Effect>,
    r: ToolUpdateResult<LayerEdit>,
    i: int,
)
    requires
        call_ensures(emit_edits, (&updates, out), ()),
        call_ensures(edits_result, (updates,), r),
    ensures
        updates@.len() == 0 ==> final(out)@ == old(out)@ && r is Unmodified,
        updates@.len() == 1 ==> final(out)@ == old(out)@.push(
            Effect::Modify(updates@[0].0, updates@[0].1),
        ) && r == ToolUpdateResult::ModifyDrawable(updates@[0].0, updates@[0].1),
        updates@.len() > 1 ==> {
            &&& final(out)@.len() == old(out)@.len() + 1 + updates@.len()
            &&& final(out)@[old(out)@.len() as int] is ModifyMany
            &&& 0 <= i < updates@.len() ==> final(out)@[old(out)@.len() + 1 + i] == Effect::Edit(
                updates@[i].0,
                updates@[i].1,
            )
            &&& r matches ToolUpdateResult::ModifyDrawables(v) && v@ == updates@
        },
{
}

/// A crop is drawn over the image while it is being edited, and then only.
pub proof fn lemma_overlay_is_shown(c: Crop, scale: i64, r: Option<CropOverlay>)
    requires
        call_ensures(Crop::overlay, (&c, scale), r),
    ensures
        r is Some <==> c.active && !c.committed,
{
}

/// Without digits there is no number.
pub proof fn lemma_no_digits_no_number(s: &str, r: Option<u64>)
    requires
        s@.len() == 0,
        call_ensures(number, (s,), r),
    ensures
        r is None,
{
}

/// Each part of a shortcut adds its modifier.
pub proof fn lemma_modifiers_add_up(parts: Seq<Seq<char>>, m: Modifiers, p: Seq<char>)
    requires
        crate::board::shortcut::modifiers_of(parts) == Some(m),
        crate::board::shortcut::lowered(crate::text::trim_spec(p)) == "shift"@,
    ensures
        crate::board::shortcut::modifiers_of(parts.push(p)) == Some(Modifiers { shift: true, ..m }),
{
    assert(parts.push(p).drop_last() =~= parts);
    crate::laws::text::lemma_modifiers_go_by_name(m);
}

/// A state that was never saved holds no choice.
pub proof fn lemma_fresh_state(s: PersistedState)
    requires
        s.is_fresh(),
    ensures
        s.last_color is None && s.saved_custom_colors@.len() == 0,
        s.arrow_style is None && s.blur_style is None && s.text_background is None,
        s.highlighter_style is None && s.highlighter_opacity is None,
        s.spotlight_darkness is None && s.spotlight_magnification is None,
        s.layer_panel_width is None && s.snap_to_edges is None,
        s.fill_per_tool@ == Map::<crate::tools::Tools, bool>::empty(),
        s.size_per_tool@ == Map::<crate::tools::Tools, crate::style::Size>::empty(),
{
}

} // verus!
