//! What the functions of keys, pointing and saving give back.
use vstd::prelude::*;
use crate::board::keys::{escape_actions, key_command, KeyCommand, KeyStep};
use crate::board::messages::{Action, SketchBoardOutput, ZoomCommand};
use crate::board::output::{
    after_save_as, below_home, handle_render_result, may_hold_dir, needs_pixels, save_target,
    AfterSaveAs, DirCandidate, Job, SaveTarget,
};
use crate::board::pointer::{
    band_cursor, cursor_for_handle, handle_mouse_event, on_handle, place_kind, BandWanted, Cursor,
    Hover, PlaceKind,
};
use crate::board::{BoardConfig, Effect, Shortcut, SketchBoard};
use crate::input::{KeyEventMsg, MouseButton, MouseEventMsg, MouseEventType};
use crate::laws::keys::{held, is_key, is_shortcut_key};
use crate::text_bands::TextBand;
use crate::tools::crop::Crop;
use crate::tools::highlight::HighlighterStyle;
use crate::tools::{HandleId, Tools};
use crate::units::{MICRO, UNIT};

verus! {

/// One action at a time: what is done, and what waits for it.
pub proof fn lemma_one_action(
    a: Action,
    actions: Vec<Action>,
    config: BoardConfig,
    r: (Vec<Job>, Vec<Action>),
)
    requires
        actions@ == seq![a],
        call_ensures(handle_render_result, (&actions, true, &config), r),
    ensures
        a == Action::Exit ==> r.0@ == seq![Job::Quit],
        a == Action::SaveToClipboard && config.close_on_copy && !config.auto_copy ==> r.0@ == seq![
            Job::Copy,
            Job::Quit,
        ],
        a == Action::SaveToClipboard && (config.auto_copy || !config.close_on_copy) ==> r.0@
            == seq![Job::Copy],
        a == Action::SaveToFile && config.close_on_save ==> r.0@ == seq![Job::Save, Job::Quit],
        a == Action::SaveToFile && !config.close_on_save ==> r.0@ == seq![Job::Save],
        a == Action::CopyFilepathToClipboard ==> r.0@ == seq![Job::CopyPath],
        a == Action::SaveToFileAs ==> r.0@ == seq![
            Job::SaveAs { modal: config.early_exit_save_as },
        ],
        r.1@.len() == 0,
{
    crate::laws::output::lemma_actions_follow_each_other(actions@, config);
    let rest = actions@.drop_first();
    assert(rest =~= Seq::empty());
    assert(crate::board::output::plan_of(rest, true, config).jobs =~= Seq::empty());
    assert(seq![Job::Copy] + Seq::<Job>::empty() =~= seq![Job::Copy]);
    assert(seq![Job::Save] + Seq::<Job>::empty() =~= seq![Job::Save]);
    assert(seq![Job::CopyPath] + Seq::<Job>::empty() =~= seq![Job::CopyPath]);
}

/// What comes after saving under another name waits until that is done.
pub proof fn lemma_rest_waits(
    a: Action,
    actions: Vec<Action>,
    config: BoardConfig,
    r: (Vec<Job>, Vec<Action>),
)
    requires
        actions@ == seq![Action::SaveToFileAs, a],
        call_ensures(handle_render_result, (&actions, true, &config), r),
    ensures
        r.0@ == seq![Job::SaveAs { modal: true }],
        r.1@ == seq![a],
{
    crate::laws::output::lemma_actions_follow_each_other(actions@, config);
    assert(actions@.drop_first() =~= seq![a]);
}

/// Without pixels nothing is copied or saved, and for nothing else are they
/// needed.
pub proof fn lemma_pixels(
    actions: Vec<Action>,
    config: BoardConfig,
    r: (Vec<Job>, Vec<Action>),
    i: int,
    needed: bool,
)
    requires
        call_ensures(handle_render_result, (&actions, false, &config), r),
        call_ensures(needs_pixels, (&actions,), needed),
    ensures
        0 <= i < r.0@.len() ==> r.0@[i] == Job::CopyPath || r.0@[i] == Job::Quit,
        (forall|k: int|
            0 <= k < actions@.len() ==> #[trigger] actions@[k] == Action::Exit || actions@[k]
                == Action::CopyFilepathToClipboard) ==> !needed,
{
    if 0 <= i < r.0@.len() {
        crate::laws::output::lemma_no_pixels_no_picture(actions@, config, i);
    }
}

/// A dash is for the standard output, `.png` for a file, and a tilde with a
/// slash for the home directory.
pub proof fn lemma_names(name: &str, t: SaveTarget, rest: Option<&str>)
    requires
        call_ensures(save_target, (name,), t),
        call_ensures(below_home, (name,), rest),
    ensures
        ({
            let n = name@.len();
            let png = n >= 4 && name@[n - 4] == '.' && name@[n - 3] == 'p' && name@[n - 2] == 'n'
                && name@[n - 1] == 'g';
            &&& t == SaveTarget::Stdout <==> n == 1 && name@[0] == '-'
            &&& t == SaveTarget::File <==> png
            &&& rest is Some <==> n >= 2 && name@[0] == '~' && name@[1] == '/'
            &&& rest is Some ==> name@ == seq!['~', '/'] + rest->0@
        }),
{
    crate::laws::output::lemma_names_tell_where(name@);
    let tail = name@.skip(2);
    crate::laws::output::lemma_tilde_is_home(name@, tail);
    if rest is Some {
        crate::laws::output::lemma_tilde_is_home(name@, rest->0@);
    }
    if name@.len() >= 2 && name@[0] == '~' && name@[1] == '/' {
        assert(name@ =~= seq!['~', '/'] + tail);
    }
}

/// The dialog opens where a file was saved last, if that is still there.
pub proof fn lemma_initial_dir(
    last: Option<DirCandidate>,
    configured: Option<DirCandidate>,
    r: Option<String>,
)
    requires
        call_ensures(SketchBoard::save_as_initial_dir, (last, configured), r),
    ensures
        ({
            let l = last is Some && last->0.is_dir;
            let c = configured is Some && configured->0.is_dir;
            &&& l ==> r is Some && r->0@ == last->0.path@
            &&& !l && c ==> r is Some && r->0@ == configured->0.path@
            &&& !l && !c ==> r is None
        }),
{
}

/// Leaving comes after saving where that is set; otherwise what waits goes on.
pub proof fn lemma_after_save_as(saved: bool, config: BoardConfig, waiting: usize, r: AfterSaveAs)
    requires
        call_ensures(after_save_as, (saved, &config, waiting), r),
    ensures
        r == AfterSaveAs::Exit <==> saved && config.early_exit_save_as,
        !saved && waiting == 0 ==> r == AfterSaveAs::Nothing,
        !saved && waiting > 0 ==> r == AfterSaveAs::Followup,
        saved && !config.early_exit_save_as ==> r == AfterSaveAs::Followup,
{
}

/// The file that remembers a directory is a small one.
pub proof fn lemma_small_file(is_file: bool, bytes: u64, r: bool)
    requires
        call_ensures(may_hold_dir, (is_file, bytes), r),
    ensures
        r <==> is_file && bytes <= 10_000,
{
}

/// Escape leaves at last where that is set, once.
pub proof fn lemma_escape(actions: Vec<Action>, exit: bool, r: Vec<Action>)
    requires
        call_ensures(escape_actions, (actions, exit), r),
    ensures
        !exit ==> r@ == actions@,
        exit ==> r@.contains(Action::Exit),
        r@.len() <= actions@.len() + 1,
        forall|i: int| 0 <= i < actions@.len() ==> r@[i] == #[trigger] actions@[i],
        actions@.contains(Action::Exit) ==> r@ == actions@,
{
    if exit && !actions@.contains(Action::Exit) {
        assert(r@.last() == Action::Exit);
    }
}

/// The keys of the board, those with Control first.
pub proof fn lemma_key_command(ke: KeyEventMsg, panel: Option<Shortcut>, r: KeyCommand)
    requires
        panel != Some(Shortcut { key: ke.key, modifier: ke.modifier }),
        call_ensures(key_command, (&ke, panel), r),
    ensures
        held(ke.modifier, true, false, false) ==> {
            &&& is_shortcut_key(ke, 0x7a, 0x2c) ==> r == KeyCommand::Undo
            &&& is_shortcut_key(ke, 0x79, 0x15) ==> r == KeyCommand::Redo
            &&& is_shortcut_key(ke, 0x76, 0x2f) ==> r == KeyCommand::Paste
            &&& is_shortcut_key(ke, 0x64, 0x20) ==> r == KeyCommand::DeleteSelection
            &&& is_shortcut_key(ke, 0x74, 0x14) ==> r == KeyCommand::ToggleToolbars
            &&& is_shortcut_key(ke, 0x73, 0x1f) ==> r == KeyCommand::Render(Action::SaveToFile)
            &&& is_shortcut_key(ke, 0x63, 0x2e) ==> r == KeyCommand::Render(Action::SaveToClipboard)
            &&& is_shortcut_key(ke, 0x2d, 0x0c) ==> r == KeyCommand::Zoom(ZoomCommand::Out)
            &&& is_shortcut_key(ke, 0x3d, 0x0d) ==> r == KeyCommand::Zoom(ZoomCommand::In)
            &&& is_shortcut_key(ke, 0x30, 0x0b) ==> r == KeyCommand::Zoom(
                ZoomCommand::Abs(1_000_000),
            )
            &&& is_shortcut_key(ke, 0x31, 0x02) ==> r == KeyCommand::Zoom(ZoomCommand::FitCanvas)
        },
        held(ke.modifier, false, false, true) ==> {
            &&& is_shortcut_key(ke, 0x64, 0x20) ==> r == KeyCommand::Duplicate
            &&& is_key(ke, 0xff51, 0x69) || is_key(ke, 0xff53, 0x6a) ==> r == KeyCommand::Pan
        },
        held(ke.modifier, true, true, false) && is_shortcut_key(ke, 0x73, 0x1f) ==> r
            == KeyCommand::Render(Action::SaveToFileAs),
        held(ke.modifier, false, false, false) ==> {
            &&& ke.key.0 == 0xffff ==> r == KeyCommand::Reset
            &&& ke.key.0 == 0xff1b ==> r == KeyCommand::Escape
            &&& ke.key.0 == 0xff0d || ke.key.0 == 0xff8d ==> r == KeyCommand::Enter
        },
{
    if held(ke.modifier, true, false, false) {
        crate::laws::keys::lemma_control_letters(ke, panel);
        crate::laws::keys::lemma_control_digits(ke, panel);
    }
    crate::laws::keys::lemma_other_commands(ke, panel);
}

/// What the board does on a key of its own: it pans the way of the arrow, acts
/// on Escape and Enter when no tool is busy, and leaves the rest to be done.
pub proof fn lemma_handle_key(
    b: SketchBoard,
    ke: KeyEventMsg,
    idle: bool,
    pan: i64,
    config: BoardConfig,
    out: &mut Vec<Effect>,
    step: KeyStep,
)
    requires
        pan > i64::MIN,
        b.layer_panel_shortcut is None,
        call_ensures(SketchBoard::handle_key, (&b, &ke, idle, pan, &config, out), step),
    ensures
        held(ke.modifier, true, false, false) && is_shortcut_key(ke, 0x7a, 0x2c) ==> step
            == KeyStep::Undo && final(out)@ == old(out)@,
        held(ke.modifier, true, false, false) && is_shortcut_key(ke, 0x79, 0x15) ==> step
            == KeyStep::Redo && final(out)@ == old(out)@,
        held(ke.modifier, true, false, false) && is_shortcut_key(ke, 0x73, 0x1f) ==> final(out)@
            == old(out)@.push(Effect::Render(Some(Action::SaveToFile))),
        held(ke.modifier, false, false, true) && is_key(ke, 0xff53, 0x6a) ==> {
            &&& final(out)@.len() == old(out)@.len() + 3
            &&& final(out)@[old(out)@.len() as int] matches Effect::PanBy(d)
            &&& d.x == pan && d.y == 0
        },
        held(ke.modifier, false, false, true) && is_key(ke, 0xff54, 0x6c) ==> {
            &&& final(out)@.len() == old(out)@.len() + 3
            &&& final(out)@[old(out)@.len() as int] matches Effect::PanBy(d)
            &&& d.x == 0 && d.y == pan
        },
        held(ke.modifier, false, false, false) && ke.key.0 == 0xff1b ==> step == KeyStep::Pass
            && final(out)@ == if idle {
            old(out)@.push(Effect::RenderOnEscape { exit: config.close_on_esc })
        } else {
            old(out)@
        },
        held(ke.modifier, false, false, false) && ke.key.0 == 0xff0d ==> step == KeyStep::Pass
            && final(out)@ == if idle {
            old(out)@.push(Effect::RenderOnEnter)
        } else {
            old(out)@
        },
        held(ke.modifier, false, false, false) && ke.key.0 == 0xff09 ==> final(out)@ == old(out)@.push(Effect::Output(SketchBoardOutput::FocusTopBarStart)),
{
    if held(ke.modifier, true, false, false) {
        crate::laws::keys::lemma_control_letters(ke, None);
    }
    crate::laws::keys::lemma_other_commands(ke, None);
    if is_key(ke, 0xff53, 0x6a) || is_key(ke, 0xff54, 0x6c) {
        crate::laws::keys::lemma_arrows_pan_where_they_point(ke.key, pan);
    }
}

/// Over a handle the cursor shows the way that it can be dragged.
pub proof fn lemma_cursor(h: HandleId, r: &'static str)
    requires
        call_ensures(cursor_for_handle, (h,), r),
    ensures
        h == HandleId::TopLeft || h == HandleId::BottomRight ==> r == "nwse-resize",
        h == HandleId::TopRight || h == HandleId::BottomLeft ==> r == "nesw-resize",
        h == HandleId::Top || h == HandleId::Bottom ==> r == "ns-resize",
        h == HandleId::Left || h == HandleId::Right ==> r == "ew-resize",
        h == HandleId::Start || h == HandleId::End || h == HandleId::Control ==> r == "move",
{
}

/// What the cursor is over the image: hidden while something is resized, that
/// of a handle in reach, a hand over what can be dragged, else that of the
/// tool.
pub proof fn lemma_hover(
    b: &mut SketchBoard,
    h: Hover,
    config: BoardConfig,
    r: Cursor,
)
    requires
        old(b).active_tool != Tools::Crop,
        call_ensures(SketchBoard::update_hover_cursor, (b, &h, &config), r),
    ensures
        final(b).last_hover_image_pos == Some(h.pos),
        h.dragging && h.resizing ==> r == Cursor::Hidden,
        h.dragging && !h.resizing ==> r == Cursor::Unchanged,
        !h.dragging && h.selected_handles@.len() > 0 && on_handle(h.selected_handles@[0], h.pos)
            && h.selected_handles@[0].id == HandleId::TopLeft ==> r == Cursor::Named("nwse-resize"),
        !h.dragging && h.selected_handles@.len() > 0 && on_handle(h.selected_handles@[0], h.pos)
            && h.selected_handles@[0].id == HandleId::Left ==> r == Cursor::Named("ew-resize"),
        !h.dragging && h.selected_handles@.len() == 0 && h.editing_handles@.len() == 0
            && h.editing_body is None ==> {
            &&& h.hit is None ==> r == Cursor::Drawing
            &&& h.hit == Some(Some(old(b).active_tool)) ==> r == Cursor::Named("grab")
            &&& h.hit is Some && old(b).active_tool == Tools::Pointer ==> r == Cursor::Named("grab")
            &&& h.hit == Some(None::<Tools>) && old(b).active_tool != Tools::Pointer ==> r
                == if config.select_any_annotation {
                Cursor::Named("pointer")
            } else {
                Cursor::Drawing
            }
        },
{
}

/// Over a crop that is being edited the cursor is a hand inside, and shows the
/// way of the edge on an edge.
pub proof fn lemma_hover_crop(
    b: &mut SketchBoard,
    h: Hover,
    config: BoardConfig,
    r: Cursor,
    c: Crop,
)
    requires
        old(b).active_tool == Tools::Crop,
        old(b).crop_tool.crop == Some(c),
        !c.committed,
        !h.dragging,
        h.render_scale == MICRO,
        c.size.x > 80 * UNIT,
        c.size.y > 80 * UNIT,
        call_ensures(SketchBoard::update_hover_cursor, (b, &h, &config), r),
    ensures
        ({
            let (l, t) = (c.pos.x as int, c.pos.y as int);
            let (right, bottom) = (l + c.size.x, t + c.size.y);
            let tol = 20 * UNIT;
            let p = h.pos;
            let along_x = l + tol < p.x < right - tol;
            let along_y = t + tol < p.y < bottom - tol;
            &&& along_x && along_y ==> r == Cursor::Named("grab")
            &&& along_x && (t - tol <= p.y <= t + tol || bottom - tol <= p.y <= bottom + tol) ==> r
                == Cursor::Named("ns-resize")
            &&& along_y && (l - tol <= p.x <= l + tol || right - tol <= p.x <= right + tol) ==> r
                == Cursor::Named("ew-resize")
        }),
{
    crate::laws::crop::lemma_edges_and_body_are_told_apart(c, h.pos);
}

/// Tools for drawing have a cross; pointing and cropping have none of their
/// own.
pub proof fn lemma_idle_cursor(b: SketchBoard, r: Option<&'static str>)
    requires
        call_ensures(SketchBoard::idle_cursor_for_active_tool, (&b,), r),
    ensures
        r is None <==> b.active_tool == Tools::Pointer || b.active_tool == Tools::Crop,
        r is Some ==> r == Some("crosshair"),
{
}

/// A line of text is looked for only when highlights lock to text.
pub proof fn lemma_wanted_band(b: SketchBoard, locked: Option<TextBand>, r: BandWanted)
    requires
        call_ensures(SketchBoard::wanted_band, (&b, locked), r),
    ensures
        b.active_tool != Tools::Highlighter ==> r == BandWanted::Nothing,
        b.active_tool == Tools::Highlighter && locked is Some ==> r == BandWanted::Known(locked->0),
        b.active_tool == Tools::Highlighter && locked is None ==> (r == BandWanted::Detect
            <==> b.highlighter_style == HighlighterStyle::TextLocked),
{
}

/// The cursor over a line of text is a tenth higher than it, around its middle.
pub proof fn lemma_band_cursor(band: TextBand, y: i64, r: (i64, i64))
    requires
        band.wf(),
        call_ensures(band_cursor, (&band, y), r),
    ensures
        -5 <= 10 * r.0 - 11 * (band.y_end - band.y_start) <= 5,
        -1 <= 2 * (y + r.1) - (band.y_start + band.y_end) <= 0,
{
    crate::laws::output::lemma_text_cursor_covers_line(band, y as int);
}

/// Presses have a place, drags an offset.
pub proof fn lemma_places(e: MouseEventType, r: PlaceKind)
    requires
        call_ensures(place_kind, (e,), r),
    ensures
        e == MouseEventType::Click || e == MouseEventType::BeginDrag || e == MouseEventType::Release
            ==> r == PlaceKind::Point,
        e == MouseEventType::UpdateDrag || e == MouseEventType::EndDrag ==> r == PlaceKind::Offset,
        e == MouseEventType::PanScroll || e == MouseEventType::PointerPos ==> r == PlaceKind::AsIs,
{
}

/// The middle button drags the view along, and the wheel moves it by 48
/// pixels for a notch.
pub proof fn lemma_canvas_mouse(me: MouseEventMsg, out: &mut Vec<Effect>, r: bool)
    requires
        me.pos.ok(),
        call_ensures(handle_mouse_event, (&me, out), r),
    ensures
        ({
            let n = old(out)@.len() as int;
            &&& (me.type_ == MouseEventType::UpdateDrag || me.type_ == MouseEventType::EndDrag)
                && me.button == MouseButton::Middle ==> final(out)@[n] == Effect::PanBy(me.pos)
            &&& (me.type_ == MouseEventType::UpdateDrag || me.type_ == MouseEventType::EndDrag)
                && me.button != MouseButton::Middle ==> final(out)@ == old(out)@
            &&& me.type_ == MouseEventType::PanScroll ==> r && (final(out)@[n]
                matches Effect::PanByPixels(d) && d.x == 48 * me.pos.x && d.y == 48 * me.pos.y)
            &&& me.type_ == MouseEventType::Click && me.button == MouseButton::Secondary
                ==> final(out)@ == old(out)@.push(Effect::RenderOnRightClick)
        }),
{
    crate::laws::output::lemma_canvas_is_panned(me);
}

} // verus!
