//! The layer list.
use tensaku::board::canvas::Dims;
use tensaku::board::layers::{Layer, LayerEdit};
use tensaku::board::messages::{PanelMoveDir, SketchBoardInput};
use tensaku::board::panel::{
    drop_onto, find_place, initial_panel_width, layer_name, order_of_moves, panel_moved,
    paste_place,
};
use tensaku::board::rows::{
    checker_tiles, drop_target_row, footer_buttons, layer_label, preview_shape, preview_slot,
    row_id, LayerRow, PreviewShape, RowSpan, StackEntry,
};
use tensaku::board::{BoardConfig, Effect, SketchBoard};
use tensaku::math::{Rect, Vec2D};
use tensaku::state::PersistedState;
use tensaku::style::{Color, Size, Style};
use tensaku::tools::arrow::ArrowStyle;
use tensaku::tools::{DrawableId, PanelPreview, ToolUpdateResult, Tools};
use tensaku::units::{MICRO, UNIT};

fn style() -> Style {
    Style {
        color: Color::red(),
        size: Size::Medium,
        fill: false,
        annotation_size_factor: MICRO,
        spotlight_darkness: 600_000,
        highlighter_opacity: 400_000,
    }
}

fn config(auto_copy: bool) -> BoardConfig {
    BoardConfig {
        auto_copy,
        close_on_copy: false,
        close_on_save: false,
        close_on_esc: false,
        early_exit_save_as: false,
        sticky_session_defaults: false,
        select_any_annotation: false,
        save_after_copy: false,
        brush_post_smooth_iterations: 2,
        annotation_size_factor: MICRO,
        palette_len: 8,
    }
}

fn board() -> SketchBoard {
    let mut out = Vec::new();
    SketchBoard::init(
        Dims { w: 800, h: 600 },
        Tools::Pointer,
        style(),
        None,
        &PersistedState::default(),
        &mut out,
    )
}

fn at(x: i64, y: i64, w: i64, h: i64) -> Rect {
    Rect::new(
        Vec2D::new(x * UNIT, y * UNIT),
        Vec2D::new(w * UNIT, h * UNIT),
    )
}

fn layer(id: u64, locked: bool, bounds: Option<Rect>) -> Layer {
    Layer {
        id: DrawableId(id),
        tool_type: Some(Tools::Line),
        style: Some(style()),
        smooth_level: None,
        arrow_style: None,
        blur_style: None,
        text_background: None,
        bounds,
        visible: true,
        locked,
    }
}

fn ids(v: &[u64]) -> Vec<DrawableId> {
    v.iter().map(|n| DrawableId(*n)).collect()
}

#[test]
fn the_first_place_is_found() {
    assert_eq!(find_place(&ids(&[4, 7, 4]), DrawableId(4)), Some(0));
    assert_eq!(find_place(&ids(&[4, 7, 4]), DrawableId(5)), None);
}

#[test]
fn a_layer_is_selected_alone_or_in_addition() {
    let mut b = board();
    let mut out = Vec::new();
    b.panel_select(DrawableId(3), false, &mut out);
    assert_eq!(b.selection, ids(&[3]));
    b.panel_select(DrawableId(5), true, &mut out);
    assert_eq!(b.selection, ids(&[3, 5]));
    b.panel_select(DrawableId(5), true, &mut out);
    assert_eq!(b.selection, ids(&[3]));
    b.panel_select(DrawableId(9), false, &mut out);
    assert_eq!(b.selection, ids(&[9]));
    assert_eq!(out.len(), 4);
}

#[test]
fn a_locked_layer_leaves_the_selection() {
    let mut b = board();
    b.selection = ids(&[1, 2, 1]);
    let layers = vec![layer(1, false, None), layer(2, true, None)];
    let mut out = Vec::new();
    b.panel_toggle_locked(DrawableId(1), &layers, &mut out);
    assert_eq!(b.selection, ids(&[2]));
    assert_eq!(
        out[0],
        Effect::SetFlags {
            id: DrawableId(1),
            visible: true,
            locked: true
        }
    );
    b.panel_toggle_locked(DrawableId(2), &layers, &mut out);
    assert_eq!(b.selection, ids(&[2]));
    out.clear();
    b.panel_toggle_visible(DrawableId(2), &layers, &mut out);
    assert_eq!(
        out,
        vec![
            Effect::SetFlags {
                id: DrawableId(2),
                visible: false,
                locked: true
            },
            Effect::Refresh
        ]
    );
    out.clear();
    b.panel_toggle_visible(DrawableId(8), &layers, &mut out);
    assert!(out.is_empty());
}

#[test]
fn deleting_spares_locked_layers() {
    let mut b = board();
    b.selection = ids(&[1, 2, 3, 4]);
    let layers = vec![layer(1, false, None), layer(2, true, None), layer(3, false, None)];
    match b.delete_selection(&layers) {
        ToolUpdateResult::DeleteDrawables(v) => assert_eq!(v, ids(&[1, 3, 4])),
        other => panic!("{other:?}"),
    }
    assert_eq!(b.selection, ids(&[2]));
    assert!(matches!(b.delete_selection(&layers), ToolUpdateResult::Unmodified));
    b.selection = ids(&[3]);
    assert!(matches!(
        b.delete_selection(&layers),
        ToolUpdateResult::DeleteDrawable(DrawableId(3))
    ));
}

#[test]
fn copies_go_down_left_or_where_there_is_room() {
    let mut b = board();
    b.selection = ids(&[1, 2, 3, 9]);
    let layers = vec![
        layer(1, false, Some(at(300, 100, 50, 50))),
        layer(2, false, Some(at(10, 540, 50, 50))),
        layer(3, false, None),
    ];
    let plan = b.duplicate_selection(&layers, 800, 600);
    let d = 100 * UNIT;
    assert_eq!(
        plan,
        vec![
            (DrawableId(1), Vec2D::new(-d, d)),
            (DrawableId(2), Vec2D::new(d, -d)),
            (DrawableId(3), Vec2D::new(-d, d)),
        ]
    );
    let mut out = Vec::new();
    b.finish_duplicate(ids(&[11, 12, 13]), &config(true), &mut out);
    assert_eq!(b.selection, ids(&[11, 12, 13]));
    assert_eq!(out.len(), 3);
    out.clear();
    b.finish_duplicate(Vec::new(), &config(true), &mut out);
    assert_eq!(b.selection, ids(&[11, 12, 13]));
    assert!(out.is_empty());
}

#[test]
fn layers_are_moved_one_after_the_other() {
    let order = ids(&[1, 2, 3, 4, 5]);
    let sel = ids(&[2, 5, 3]);
    assert_eq!(order_of_moves(&sel, &order, PanelMoveDir::Up), ids(&[5, 3, 2]));
    assert_eq!(order_of_moves(&sel, &order, PanelMoveDir::ToTop), ids(&[2, 3, 5]));
    assert_eq!(order_of_moves(&sel, &order, PanelMoveDir::Down), ids(&[2, 3, 5]));
    assert_eq!(order_of_moves(&sel, &order, PanelMoveDir::ToBottom), ids(&[5, 3, 2]));
    let mut b = board();
    b.selection = ids(&[2, 5]);
    let mut out = Vec::new();
    b.panel_move_selected(PanelMoveDir::Down, &order, &mut out);
    assert_eq!(
        out,
        vec![
            Effect::MoveLayer(DrawableId(2), PanelMoveDir::Down),
            Effect::MoveLayer(DrawableId(5), PanelMoveDir::Down),
            Effect::RefreshIfMoved
        ]
    );
}

#[test]
fn a_selection_keeps_its_order_on_the_way_to_an_end() {
    let order = ids(&[1, 2, 3, 4]);
    let run = |dir: PanelMoveDir, sel: &[u64]| {
        let mut stack = order.clone();
        for id in order_of_moves(&ids(sel), &order, dir) {
            stack.retain(|x| *x != id);
            let at = if dir == PanelMoveDir::ToTop { stack.len() } else { 0 };
            stack.insert(at, id);
        }
        stack
    };
    assert_eq!(run(PanelMoveDir::ToTop, &[1, 2]), ids(&[3, 4, 1, 2]));
    assert_eq!(run(PanelMoveDir::ToTop, &[3, 1]), ids(&[2, 4, 1, 3]));
    assert_eq!(run(PanelMoveDir::ToBottom, &[4, 2]), ids(&[2, 4, 1, 3]));
}

#[test]
fn a_drop_lands_beside_its_target() {
    let order = ids(&[1, 2, 3, 4]);
    assert_eq!(
        drop_onto(&order, DrawableId(1), DrawableId(3), true),
        Some(ids(&[2, 3, 1, 4]))
    );
    assert_eq!(
        drop_onto(&order, DrawableId(1), DrawableId(3), false),
        Some(ids(&[2, 1, 3, 4]))
    );
    assert_eq!(
        drop_onto(&order, DrawableId(4), DrawableId(2), true),
        Some(ids(&[1, 2, 4, 3]))
    );
    assert_eq!(
        drop_onto(&order, DrawableId(4), DrawableId(1), false),
        Some(ids(&[4, 1, 2, 3]))
    );
    assert_eq!(drop_onto(&order, DrawableId(2), DrawableId(2), true), None);
    assert_eq!(drop_onto(&order, DrawableId(9), DrawableId(2), true), None);
    assert_eq!(drop_onto(&order, DrawableId(2), DrawableId(9), true), None);
}

#[test]
fn names_are_trimmed() {
    assert_eq!(layer_name("  Sky \u{3000}\n"), Some("Sky".to_string()));
    assert_eq!(layer_name(" \t\u{a0} "), None);
    assert_eq!(layer_name("a b"), Some("a b".to_string()));
}

#[test]
fn the_panel_keeps_its_width() {
    let mut b = board();
    let mut state = PersistedState::default();
    assert_eq!(b.layer_panel_width, 140 * UNIT);
    b.panel_width_changed(140 * UNIT + UNIT / 2, &mut state);
    assert_eq!(state.layer_panel_width, None);
    b.panel_width_changed(141 * UNIT, &mut state);
    assert_eq!(state.layer_panel_width, Some(141 * UNIT));
    state.layer_panel_width = Some(900 * UNIT);
    assert_eq!(initial_panel_width(&state), 480 * UNIT);
    assert_eq!(panel_moved(90), Err(110));
    assert_eq!(panel_moved(500), Err(480));
    assert_eq!(panel_moved(200), Ok(200 * UNIT));
}

#[test]
fn the_panel_opens_at_its_width() {
    let mut b = board();
    let mut out = Vec::new();
    b.toggle_layer_panel(&mut out);
    assert_eq!(
        out,
        vec![
            Effect::PanelVisible(true),
            Effect::PanelPosition(140 * UNIT),
            Effect::RebuildRows
        ]
    );
    out.clear();
    b.toggle_layer_panel(&mut out);
    assert_eq!(out, vec![Effect::PanelVisible(false)]);
}

#[test]
fn a_pasted_image_is_centered() {
    let (pos, size) = paste_place(200, 100, 2 * MICRO, 800, 600);
    assert_eq!(size, Vec2D::new(100 * UNIT, 50 * UNIT));
    assert_eq!(pos, Vec2D::new(350 * UNIT, 275 * UNIT));
    let (pos, size) = paste_place(2000, 100, MICRO, 800, 600);
    assert_eq!(size, Vec2D::new(2000 * UNIT, 100 * UNIT));
    assert_eq!(pos, Vec2D::new(0, 250 * UNIT));
    let (_, size) = paste_place(1, 1, 0, 800, 600);
    assert_eq!(size, Vec2D::new(1000 * UNIT, 1000 * UNIT));
}

#[test]
fn a_color_is_set() {
    let b = board();
    let mut out = Vec::new();
    let green = Color {
        r: 0,
        g: 255,
        b: 0,
        a: 255,
    };
    b.panel_set_color(DrawableId(1), green, &vec![layer(1, false, None)], &mut out);
    assert_eq!(
        out[0],
        Effect::Modify(
            DrawableId(1),
            LayerEdit::Style(Style {
                color: green,
                ..style()
            })
        )
    );
}

fn row(selected: bool, visible: bool, locked: bool) -> LayerRow {
    LayerRow {
        id: DrawableId(42),
        label: "Line 1".to_string(),
        selected,
        visible,
        locked,
    }
}

#[test]
fn rows_show_their_layer() {
    assert_eq!(row(false, true, false).classes(), vec!["layer_row"]);
    assert_eq!(
        row(true, false, false).classes(),
        vec!["layer_row", "selected", "hidden_layer"]
    );
    assert_eq!(row(true, true, false).eye(), ("eye-regular", "Hide layer"));
    assert_eq!(row(true, false, false).eye(), ("eye-off-regular", "Show layer"));
    assert_eq!(row(true, true, true).lock(), ("lock-closed-regular", "Unlock layer"));
    assert_eq!(row(true, true, false).lock(), ("lock-open-regular", "Lock layer"));
}

#[test]
fn a_click_selects_or_renames() {
    assert!(row(true, true, false).clicked(false).is_none());
    assert!(matches!(
        row(true, true, false).clicked(true),
        Some(SketchBoardInput::PanelSelectDrawable {
            id: DrawableId(42),
            additive: true
        })
    ));
    assert!(matches!(
        row(false, true, false).clicked(false),
        Some(SketchBoardInput::PanelSelectDrawable {
            additive: false,
            ..
        })
    ));
}

#[test]
fn a_row_is_found_by_its_name() {
    let name = row(true, true, false).widget_name();
    assert_eq!(name, "layer-row-42");
    assert_eq!(row_id(&name), Some(DrawableId(42)));
    assert_eq!(
        row_id("layer-row-18446744073709551615"),
        Some(DrawableId(u64::MAX))
    );
    assert_eq!(row_id("layer-row-18446744073709551616"), None);
    assert_eq!(row_id("layer-row-"), None);
    assert_eq!(row_id("layer-row-4x"), None);
    assert_eq!(row_id("row-4"), None);
}

#[test]
fn labels_count_by_kind() {
    assert_eq!(layer_label(None, "Curved Arrow", Some(12)), "Curved Arrow 12");
    assert_eq!(layer_label(None, "Line", None), "Line 0");
    assert_eq!(layer_label(Some("Sky".to_string()), "Line", Some(3)), "Sky");
}

fn entry(id: u64, kind: Option<&str>) -> StackEntry {
    StackEntry {
        id: DrawableId(id),
        kind: kind.map(str::to_string),
        custom: None,
        index: Some(id),
        flags: None,
    }
}

#[test]
fn rows_go_from_the_top_down() {
    let mut board = board();
    board.layer_panel_open = true;
    board.selection = ids(&[2]);
    let mut named = entry(4, Some("Line"));
    named.custom = Some("Sky".to_string());
    named.flags = Some((false, true));
    let stack = vec![entry(1, Some("Line")), entry(2, Some("Arrow")), entry(3, None), named];
    let rows = board.layer_rows(stack).unwrap();
    let seen: Vec<_> = rows
        .iter()
        .map(|r| (r.id.0, r.label.as_str(), r.selected, r.visible, r.locked))
        .collect();
    assert_eq!(
        seen,
        vec![
            (4, "Sky", false, false, true),
            (2, "Arrow 2", true, true, false),
            (1, "Line 1", false, true, false),
        ]
    );
    assert!(board.layer_rows(Vec::new()).unwrap().is_empty());
}

#[test]
fn a_closed_list_has_no_rows() {
    let mut board = board();
    board.layer_panel_open = false;
    assert!(board.layer_rows(vec![entry(1, Some("Line"))]).is_none());
}

#[test]
fn a_drop_goes_by_the_middle_of_the_row() {
    let rows = vec![
        RowSpan { top: 0, height: 20 },
        RowSpan { top: 20, height: 20 },
    ];
    assert_eq!(drop_target_row(&rows, 9), Some((0, true)));
    assert_eq!(drop_target_row(&rows, 10), Some((1, true)));
    assert_eq!(drop_target_row(&rows, 29), Some((1, true)));
    assert_eq!(drop_target_row(&rows, 30), Some((1, false)));
    assert_eq!(drop_target_row(&Vec::new(), 30), None);
}

#[test]
fn the_footer_moves_layers() {
    let b = footer_buttons();
    assert_eq!(b.len(), 4);
    assert_eq!(b[0].dir, PanelMoveDir::ToTop);
    assert_eq!(b[3].tip, "Send to back");
}

#[test]
fn pictures_fit_their_slot() {
    assert_eq!(preview_slot(PanelPreview::Icon), None);
    assert_eq!(preview_slot(PanelPreview::Arrow(ArrowStyle::Double)), Some((28, 14)));
    assert_eq!(preview_slot(PanelPreview::Line), Some((18, 14)));
    assert_eq!(
        preview_shape(PanelPreview::Line, 18, 14),
        PreviewShape::Stroke {
            x0: 2 * UNIT,
            x1: 16 * UNIT,
            y: 7 * UNIT
        }
    );
    assert_eq!(
        preview_shape(PanelPreview::Rectangle { filled: true }, 18, 14),
        PreviewShape::RoundRect {
            x: 5 * UNIT / 2,
            y: 5 * UNIT / 2,
            width: 13 * UNIT,
            height: 9 * UNIT,
            radius: 2 * UNIT,
            filled: true
        }
    );
    assert_eq!(
        preview_shape(PanelPreview::Ellipse { filled: false }, 18, 14),
        PreviewShape::Oval {
            cx: 9 * UNIT,
            cy: 7 * UNIT,
            rx: 15 * UNIT / 2,
            ry: 11 * UNIT / 2,
            filled: false
        }
    );
}

#[test]
fn the_checkerboard_alternates() {
    let (tile, dark) = checker_tiles(14, 14);
    assert_eq!(tile, 7 * UNIT);
    assert_eq!(dark, vec![(1, 0), (0, 1), (2, 1), (1, 2)]);
}
