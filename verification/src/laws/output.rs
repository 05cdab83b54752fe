//! What saving, copying and pointing come to.
use vstd::prelude::*;
use crate::board::messages::Action;
use crate::board::output::{
    home_rest, initial_dir_spec, plan_of, target_spec, wants_pixels, DirCandidate, Job, SaveTarget,
};
use crate::board::pointer::{
    band_cursor_spec, canvas_effects, crop_cursor, handle_at, handle_cursor, in_editing_body,
    on_handle,
};
use crate::board::{BoardConfig, Effect};
use crate::input::{MouseButton, MouseEventMsg, MouseEventType};
use crate::math::{Rect, Vec2D};
use crate::text_bands::TextBand;
use crate::tools::crop::CropHandle;
use crate::tools::{Handle, HandleId};

verus! {

/// Leaving leaves at once. Copying and saving do their part and leave where
/// that is configured, but copying does not while every change is copied.
/// Otherwise the next action follows.
pub proof fn lemma_actions_follow_each_other(actions: Seq<Action>, config: BoardConfig)
    requires
        actions.len() > 0,
    ensures
        ({
            let p = plan_of(actions, true, config);
            let next = plan_of(actions.drop_first(), true, config);
            match actions[0] {
                Action::Exit => p.jobs == seq![Job::Quit] && p.later.len() == 0,
                Action::SaveToClipboard => if config.close_on_copy && !config.auto_copy {
                    p.jobs == seq![Job::Copy, Job::Quit] && p.later.len() == 0
                } else {
                    p.jobs == seq![Job::Copy] + next.jobs && p.later == next.later
                },
                Action::SaveToFile => if config.close_on_save {
                    p.jobs == seq![Job::Save, Job::Quit] && p.later.len() == 0
                } else {
                    p.jobs == seq![Job::Save] + next.jobs && p.later == next.later
                },
                Action::CopyFilepathToClipboard => {
                    p.jobs == seq![Job::CopyPath] + next.jobs && p.later == next.later
                },
                Action::SaveToFileAs => {
                    &&& p.jobs == seq![
                        Job::SaveAs { modal: config.early_exit_save_as || actions.len() > 1 },
                    ]
                    &&& p.later == actions.drop_first()
                },
            }
        }),
{
    let p = plan_of(actions, true, config);
    assert(Seq::<Job>::empty().push(Job::Quit) =~= seq![Job::Quit]);
    assert(seq![Job::Copy].push(Job::Quit) =~= seq![Job::Copy, Job::Quit]);
    assert(seq![Job::Save].push(Job::Quit) =~= seq![Job::Save, Job::Quit]);
}

/// Without pixels nothing is copied or saved.
pub proof fn lemma_no_pixels_no_picture(actions: Seq<Action>, config: BoardConfig, i: int)
    requires
        0 <= i < plan_of(actions, false, config).jobs.len(),
    ensures
        ({
            let j = plan_of(actions, false, config).jobs[i];
            j == Job::CopyPath || j == Job::Quit
        }),
    decreases actions.len(),
{
    if actions.len() > 0 && actions[0] != Action::SaveToFileAs {
        let p = plan_of(actions, false, config);
        let rest = plan_of(actions.drop_first(), false, config);
        if actions[0] == Action::CopyFilepathToClipboard {
            if i > 0 {
                assert(p.jobs[i] == rest.jobs[i - 1]);
                lemma_no_pixels_no_picture(actions.drop_first(), config, i - 1);
            }
        } else if actions[0] != Action::Exit {
            assert(p.jobs[i] == rest.jobs[i]);
            lemma_no_pixels_no_picture(actions.drop_first(), config, i);
        }
    }
}

/// Pixels are needed to copy the picture and to save it.
pub proof fn lemma_who_needs_pixels(a: Action)
    ensures
        wants_pixels(a) <==> a != Action::CopyFilepathToClipboard && a != Action::Exit,
{
}

/// A dash is for the standard output; a name that ends in `.png` is for a
/// file; nothing else is written.
pub proof fn lemma_names_tell_where(name: Seq<char>)
    ensures
        name.len() == 1 && name[0] == '-' ==> target_spec(name) == SaveTarget::Stdout,
        name.len() >= 4 && name[name.len() - 4] == '.' && name[name.len() - 3] == 'p'
            && name[name.len() - 2] == 'n' && name[name.len() - 1] == 'g' ==> target_spec(name)
            == SaveTarget::File,
        target_spec(name) == SaveTarget::Stdout ==> name.len() == 1 && name[0] == '-',
        target_spec(name) == SaveTarget::File ==> name.len() >= 4 && name[name.len() - 4] == '.'
            && name[name.len() - 3] == 'p' && name[name.len() - 2] == 'n' && name[name.len() - 1]
            == 'g',
{
    reveal_strlit("-");
    reveal_strlit(".png");
    if name.len() == 1 && name[0] == '-' {
        assert(name =~= "-"@);
    }
    if name.len() >= 4 {
        let end = name.skip(name.len() - 4);
        assert(end[0] == name[name.len() - 4] && end[1] == name[name.len() - 3] && end[2]
            == name[name.len() - 2] && end[3] == name[name.len() - 1]);
        if end[0] == '.' && end[1] == 'p' && end[2] == 'n' && end[3] == 'g' {
            assert(end =~= ".png"@);
        }
    }
}

/// A tilde and a slash stand for the home directory.
pub proof fn lemma_tilde_is_home(name: Seq<char>, rest: Seq<char>)
    ensures
        home_rest(name) == Some(rest) <==> name == seq!['~', '/'] + rest,
{
    if name == seq!['~', '/'] + rest {
        assert(name.skip(2) =~= rest);
    }
    if home_rest(name) == Some(rest) {
        assert(name =~= seq!['~', '/'] + rest);
    }
}

/// The save dialog opens where a file was saved last, if that is still there.
pub proof fn lemma_dialog_opens_where_last_saved(
    last: Option<DirCandidate>,
    configured: Option<DirCandidate>,
)
    ensures
        ({
            let l = last is Some && last->0.is_dir;
            let c = configured is Some && configured->0.is_dir;
            &&& l ==> initial_dir_spec(last, configured) == Some(last->0.path@)
            &&& !l && c ==> initial_dir_spec(last, configured) == Some(configured->0.path@)
            &&& !l && !c ==> initial_dir_spec(last, configured) is None
        }),
{
}

/// Over a handle the cursor shows the way that the handle can be dragged:
/// along the falling or the rising diagonal, upright or level.
pub proof fn lemma_cursors_show_the_way()
    ensures
        handle_cursor(HandleId::TopLeft) == "nwse-resize",
        handle_cursor(HandleId::BottomRight) == "nwse-resize",
        handle_cursor(HandleId::TopRight) == "nesw-resize",
        handle_cursor(HandleId::BottomLeft) == "nesw-resize",
        handle_cursor(HandleId::Top) == "ns-resize",
        handle_cursor(HandleId::Bottom) == "ns-resize",
        handle_cursor(HandleId::Left) == "ew-resize",
        handle_cursor(HandleId::Right) == "ew-resize",
        handle_cursor(HandleId::Start) == "move",
        handle_cursor(HandleId::End) == "move",
        handle_cursor(HandleId::Control) == "move",
        crop_cursor(CropHandle::TopLeftCorner) == "nwse-resize",
        crop_cursor(CropHandle::BottomRightCorner) == "nwse-resize",
        crop_cursor(CropHandle::TopRightCorner) == "nesw-resize",
        crop_cursor(CropHandle::BottomLeftCorner) == "nesw-resize",
        crop_cursor(CropHandle::TopEdge) == "ns-resize",
        crop_cursor(CropHandle::BottomEdge) == "ns-resize",
        crop_cursor(CropHandle::LeftEdge) == "ew-resize",
        crop_cursor(CropHandle::RightEdge) == "ew-resize",
{
}

/// A handle is grabbed within its radius; of several, the first is.
pub proof fn lemma_first_handle_in_reach(handles: Seq<Handle>, p: Vec2D, k: int)
    requires
        0 <= k < handles.len(),
        forall|i: int| 0 <= i < k ==> !on_handle(#[trigger] handles[i], p),
        handles[k].hit_radius >= 0,
        ({
            let (dx, dy) = (handles[k].pos.x - p.x, handles[k].pos.y - p.y);
            dx * dx + dy * dy <= handles[k].hit_radius * handles[k].hit_radius
        }),
    ensures
        handle_at(handles, p) == Some(handles[k].id),
    decreases handles.len(),
{
    if k > 0 {
        assert(!on_handle(handles[0], p));
        let rest = handles.drop_first();
        assert forall|i: int| 0 <= i < k - 1 implies !on_handle(#[trigger] rest[i], p) by {
            assert(rest[i] == handles[i + 1]);
        }
        lemma_first_handle_in_reach(rest, p, k - 1);
    }
}

/// Out of reach of all handles none is grabbed.
pub proof fn lemma_no_handle_in_reach(handles: Seq<Handle>, p: Vec2D)
    requires
        forall|i: int| #![trigger handles[i]]
            0 <= i < handles.len() ==> {
                let (dx, dy) = (handles[i].pos.x - p.x, handles[i].pos.y - p.y);
                dx * dx + dy * dy > handles[i].hit_radius * handles[i].hit_radius
            },
    ensures
        handle_at(handles, p) is None,
    decreases handles.len(),
{
    if handles.len() > 0 {
        assert(!on_handle(handles[0], p));
        let rest = handles.drop_first();
        assert forall|i: int| #![trigger rest[i]] 0 <= i < rest.len() implies {
            let (dx, dy) = (rest[i].pos.x - p.x, rest[i].pos.y - p.y);
            dx * dx + dy * dy > rest[i].hit_radius * rest[i].hit_radius
        } by {
            assert(rest[i] == handles[i + 1]);
        }
        lemma_no_handle_in_reach(rest, p);
    }
}

/// The cursor over a line of text is a tenth higher than the line, and its
/// middle is that of the line.
pub proof fn lemma_text_cursor_covers_line(band: TextBand, y: int)
    requires
        band.wf(),
    ensures
        ({
            let h = band.y_end - band.y_start;
            let (height, down) = band_cursor_spec(band, y);
            &&& -5 <= 10 * height - 11 * h <= 5
            &&& -1 <= 2 * (y + down) - (band.y_start + band.y_end) <= 0
        }),
{
    let h = band.y_end - band.y_start;
    crate::units::lemma_div_round_near(h * 100_000, 1_000_000);
}

/// The middle button drags the view along with the pointer, and the wheel
/// moves it by 48 pixels for a notch.
pub proof fn lemma_canvas_is_panned(me: MouseEventMsg)
    requires
        me.pos.ok(),
    ensures
        me.type_ == MouseEventType::UpdateDrag && me.button == MouseButton::Middle
            ==> canvas_effects(me)[0] == Effect::PanBy(me.pos),
        me.type_ == MouseEventType::EndDrag && me.button == MouseButton::Middle ==> canvas_effects(
            me,
        )[0] == Effect::PanBy(me.pos) && canvas_effects(me).contains(Effect::StorePan),
        me.type_ == MouseEventType::PanScroll ==> {
            &&& canvas_effects(me).len() == 1
            &&& canvas_effects(me)[0] matches Effect::PanByPixels(d)
            &&& d.x == 48 * me.pos.x && d.y == 48 * me.pos.y
        },
        me.type_ == MouseEventType::PointerPos ==> canvas_effects(me) == seq![
            Effect::PointerAt(me.pos),
        ],
        me.button != MouseButton::Middle && (me.type_ == MouseEventType::UpdateDrag || me.type_
            == MouseEventType::EndDrag) ==> canvas_effects(me).len() == 0,
{
    if me.type_ == MouseEventType::EndDrag && me.button == MouseButton::Middle {
        assert(canvas_effects(me)[2] == Effect::StorePan);
    }
}

/// Presses inside what is being edited are kept for it.
pub proof fn lemma_edited_text_keeps_presses(me: MouseEventMsg, b: Rect)
    ensures
        in_editing_body(me, Some(b)) <==> {
            &&& me.type_ == MouseEventType::Click || me.type_ == MouseEventType::BeginDrag
            &&& b.pos.x <= me.pos.x && me.pos.x <= b.pos.x + b.size.x
            &&& b.pos.y <= me.pos.y && me.pos.y <= b.pos.y + b.size.y
        },
        !in_editing_body(me, None),
{
}

} // verus!
