//! The board's view, tools, toolbars and messages.
use tensaku::board::canvas::{find_hull, Dims, Growth, Hull};
use tensaku::board::layers::{Layer, LayerEdit};
use tensaku::board::messages::{
    Action, InputEvent, PanelMoveDir, SketchBoardInput, SketchBoardOutput, SmoothLevelMulti, Toast,
    ToolbarEvent, ZoomCommand,
};
use tensaku::board::pointer::{
    band_cursor, cursor_for_handle, handle_mouse_event, place_kind, BandWanted, Cursor, Hover,
    PlaceKind,
};
use tensaku::board::sync::present_layers;
use tensaku::board::toolbar::ToolbarStep;
use tensaku::board::update::{Context, UpdateStep};
use tensaku::board::{
    changed_result, history_route, reset_result, BoardConfig, Effect, HistoryRoute, SketchBoard,
};
use tensaku::input::{Modifiers, MouseButton, MouseEventMsg, MouseEventType};
use tensaku::math::{Rect, Vec2D};
use tensaku::state::{save_fill_for_tool, save_highlighter_opacity, PersistedState};
use tensaku::style::{Color, Size, Style};
use tensaku::text_bands::TextBand;
use tensaku::tools::arrow::ArrowStyle;
use tensaku::tools::blur::BlurStyle;
use tensaku::tools::crop::{CropBgColor, CropMessage};
use tensaku::tools::highlight::HighlighterStyle;
use tensaku::tools::{
    CanvasTransform, DrawableId, HandleId, TextBackground, ToolUpdateResult, Tools,
};
use tensaku::units::{MICRO, UNIT};

fn style() -> Style {
    Style {
        color: Color::red(),
        size: Size::Medium,
        fill: false,
        annotation_size_factor: MICRO,
        spotlight_darkness: 600_000,
        highlighter_opacity: 400_000,
    }
}

fn config() -> BoardConfig {
    BoardConfig {
        auto_copy: false,
        close_on_copy: false,
        close_on_save: false,
        close_on_esc: false,
        early_exit_save_as: false,
        sticky_session_defaults: false,
        select_any_annotation: false,
        save_after_copy: false,
        brush_post_smooth_iterations: 2,
        annotation_size_factor: MICRO,
        palette_len: 8,
    }
}

const DIMS: Dims = Dims { w: 800, h: 600 };

fn board(tool: Tools) -> SketchBoard {
    let mut out = Vec::new();
    SketchBoard::init(DIMS, tool, style(), None, &PersistedState::default(), &mut out)
}

fn p(x: i64, y: i64) -> Vec2D {
    Vec2D::new(x * UNIT, y * UNIT)
}

fn hull(left: i64, top: i64, right: i64, bottom: i64) -> Hull {
    Hull {
        left: left * UNIT,
        top: top * UNIT,
        right: right * UNIT,
        bottom: bottom * UNIT,
    }
}

/// A board with an applied crop.
fn cropped() -> SketchBoard {
    let mut b = board(Tools::Line);
    let mut msgs = Vec::new();
    b.crop_tool.set_sender();
    b.crop_tool.set_image_bounds(DIMS.size());
    b.crop_tool.handle_activated(&mut msgs);
    b.crop_tool.set_dimensions(400 * UNIT, 300 * UNIT, &mut msgs);
    b.crop_tool.commit(&mut msgs);
    b.crop_tool.set_committed_rect(p(100, 100), p(400, 300));
    b
}

fn layer(id: u64, tool: Tools, bounds: Option<Rect>) -> Layer {
    Layer {
        id: DrawableId(id),
        tool_type: Some(tool),
        style: Some(style()),
        smooth_level: if tool == Tools::Brush { Some(3) } else { None },
        arrow_style: if tool == Tools::Arrow { Some(ArrowStyle::Curved) } else { None },
        blur_style: None,
        text_background: None,
        bounds,
        visible: true,
        locked: false,
    }
}

fn ids(v: &[u64]) -> Vec<DrawableId> {
    v.iter().map(|n| DrawableId(*n)).collect()
}

#[test]
fn a_hull_covers_what_exists() {
    let layers = vec![
        layer(1, Tools::Line, Some(Rect::new(p(10, 20), p(5, 5)))),
        layer(2, Tools::Line, None),
        layer(3, Tools::Line, Some(Rect::new(p(-10, 30), p(5, 50)))),
    ];
    assert_eq!(find_hull(&ids(&[1, 2, 3, 9]), &layers), Some(hull(-10, 20, 15, 80)));
    assert_eq!(find_hull(&ids(&[2, 9]), &layers), None);
}

#[test]
fn drawings_make_the_image_or_the_crop_grow() {
    let inside = vec![layer(1, Tools::Line, Some(Rect::new(p(150, 150), p(50, 50))))];
    let outside = vec![layer(1, Tools::Line, Some(Rect::new(p(50, 150), p(100, 50))))];
    assert_eq!(board(Tools::Line).growth(&ids(&[1]), &outside), Growth::Image);
    assert_eq!(board(Tools::Crop).growth(&ids(&[1]), &outside), Growth::Nothing);
    assert_eq!(cropped().growth(&ids(&[1]), &inside), Growth::Nothing);
    assert_eq!(
        cropped().growth(&ids(&[1]), &outside),
        Growth::Crop {
            crop: hull(100, 100, 500, 400),
            touched: hull(50, 150, 150, 200)
        }
    );
}

#[test]
fn a_crop_grows_as_far_as_the_image_goes() {
    let mut b = cropped();
    let mut out = Vec::new();
    b.auto_grow_crop(hull(100, 100, 500, 400), hull(-50, 150, 150, 900), p(0, 0), DIMS, &mut out);
    assert_eq!(b.crop_tool.get_committed_rect(), Some((p(0, 100), p(500, 500))));
    assert_eq!(
        out,
        vec![
            Effect::Output(SketchBoardOutput::ImageDimensionsChanged { width: 800, height: 600 }),
            Effect::Output(SketchBoardOutput::ContentSizeChanged {
                width: 500 * UNIT,
                height: 500 * UNIT
            }),
            Effect::GrabFocus
        ]
    );
}

#[test]
fn a_grown_image_is_told_of() {
    let mut b = board(Tools::Line);
    let mut out = Vec::new();
    b.auto_resize_canvas(None, &mut out);
    assert!(out.is_empty());
    b.auto_resize_canvas(Some(Dims { w: 900, h: 700 }), &mut out);
    assert_eq!(out[0], Effect::ResetSize(0));
    assert_eq!(b.crop_tool.image_bounds, Some(p(900, 700)));
}

#[test]
fn a_smaller_image_cuts_the_crop() {
    let mut b = cropped();
    let mut out = Vec::new();
    b.refit_after_dims_change(Dims { w: 300, h: 600 }, &mut out);
    assert_eq!(b.crop_tool.get_committed_rect(), Some((p(100, 100), p(200, 300))));
    assert_eq!(out[0], Effect::ResetSize(MICRO));
}

#[test]
fn a_flip_mirrors_the_crop() {
    let mut b = cropped();
    let mut msgs = Vec::new();
    b.image_flipped(DIMS, Some(DIMS), &mut msgs);
    assert_eq!(b.crop_tool.get_committed_rect(), Some((p(300, 100), p(400, 300))));
    b.image_flipped(DIMS, None, &mut msgs);
    assert_eq!(b.crop_tool.get_committed_rect(), Some((p(300, 100), p(400, 300))));
}

#[test]
fn a_turn_takes_the_crop_along() {
    let mut b = cropped();
    let (mut msgs, mut out) = (Vec::new(), Vec::new());
    b.image_rotated(DIMS, Some(Dims { w: 600, h: 800 }), MICRO, &mut msgs, &mut out);
    assert_eq!(b.crop_tool.get_committed_rect(), Some((p(100, 300), p(300, 400))));
    assert!(out.contains(&Effect::ResetSize(MICRO)));
}

#[test]
fn undoing_a_turn_brings_the_crop_back() {
    let mut b = cropped();
    let (mut msgs, mut out) = (Vec::new(), Vec::new());
    let turned = Dims { w: 600, h: 800 };
    b.image_rotated(DIMS, Some(turned), MICRO, &mut msgs, &mut out);
    b.after_history_step(
        turned,
        DIMS,
        Some((CanvasTransform::RotateCw, turned)),
        &mut msgs,
        &mut out,
    );
    assert_eq!(b.crop_tool.get_committed_rect(), Some((p(100, 100), p(400, 300))));
    assert_eq!(b.crop_tool.image_bounds, Some(DIMS.size()));
}

#[test]
fn a_scaled_image_scales_the_crop() {
    let mut b = cropped();
    let (mut msgs, mut out) = (Vec::new(), Vec::new());
    b.image_resized(DIMS, Some(Dims { w: 400, h: 300 }), &mut msgs, &mut out);
    assert_eq!(b.crop_tool.get_committed_rect(), Some((p(50, 50), p(200, 150))));
}

#[test]
fn zooming_is_asked_for() {
    let mut out = Vec::new();
    board(Tools::Line).handle_zoom_command(ZoomCommand::Abs(2 * MICRO), &mut out);
    assert_eq!(out, vec![Effect::ResetSize(2 * MICRO), Effect::Render(None)]);
    out.clear();
    board(Tools::Line).handle_pinch(MICRO, &mut out);
    board(Tools::Line).handle_pinch(0, &mut out);
    assert!(out.is_empty());
    board(Tools::Line).handle_pinch(1_200_000, &mut out);
    assert_eq!(out, vec![Effect::ZoomBy(1_200_000), Effect::Render(None)]);
}

fn toolbar(b: &mut SketchBoard, e: ToolbarEvent, layers: &Vec<Layer>) -> (ToolbarStep, Vec<Effect>, PersistedState) {
    let mut state = PersistedState::default();
    let (mut msgs, mut out): (Vec<CropMessage>, Vec<Effect>) = (Vec::new(), Vec::new());
    let step = b.handle_toolbar_event(e, layers, &mut state, &mut config(), &mut msgs, &mut out);
    (step, out, state)
}

#[test]
fn filling_toggles_back() {
    let mut b = board(Tools::Ellipse);
    let (step, out, _) = toolbar(&mut b, ToolbarEvent::ToggleFill, &vec![]);
    assert!(b.style.fill);
    assert_eq!(b.session_fill_ellipse, Some(true));
    assert!(matches!(step, ToolbarStep::Done(ToolUpdateResult::Unmodified)));
    assert_eq!(out[0], Effect::Output(SketchBoardOutput::ShowCycleToast(Toast::Fill(true))));
    toolbar(&mut b, ToolbarEvent::ToggleFill, &vec![]);
    assert!(!b.style.fill);
    let mut line = board(Tools::Line);
    let (_, out, _) = toolbar(&mut line, ToolbarEvent::ToggleFill, &vec![]);
    assert!(out.is_empty());
}

#[test]
fn filling_goes_by_the_selection() {
    let mut b = board(Tools::Pointer);
    b.selection = ids(&[1, 2]);
    let layers = vec![layer(1, Tools::Line, None), layer(2, Tools::Ellipse, None)];
    let (step, _, _) = toolbar(&mut b, ToolbarEvent::ToggleFill, &layers);
    assert!(b.style.fill);
    match step {
        ToolbarStep::Done(ToolUpdateResult::ModifyDrawable(id, LayerEdit::Style(s))) => {
            assert_eq!(id, DrawableId(2));
            assert!(s.fill);
        }
        other => panic!("{other:?}"),
    }
}

#[test]
fn a_chosen_look_is_remembered() {
    let mut b = board(Tools::Pointer);
    b.selection = ids(&[1]);
    let layers = vec![layer(1, Tools::Arrow, None)];
    let (step, out, state) = toolbar(
        &mut b,
        ToolbarEvent::ArrowStyleSelected(ArrowStyle::Pointy),
        &layers,
    );
    assert_eq!(state.arrow_style, Some(ArrowStyle::Pointy));
    assert_eq!(out[0], Effect::ToolArrowStyle(ArrowStyle::Pointy));
    assert!(matches!(
        step,
        ToolbarStep::Done(ToolUpdateResult::ModifyDrawable(
            DrawableId(1),
            LayerEdit::Arrow(ArrowStyle::Pointy)
        ))
    ));
    let (step, _, state) = toolbar(
        &mut b,
        ToolbarEvent::TextBackgroundSelected(TextBackground::Rounded),
        &vec![],
    );
    assert_eq!(state.text_background, Some(TextBackground::Rounded));
    assert!(matches!(step, ToolbarStep::Done(ToolUpdateResult::Redraw)));
}

#[test]
fn commands_are_handed_on() {
    let mut b = board(Tools::Line);
    b.selection = ids(&[1]);
    let (step, _, _) = toolbar(&mut b, ToolbarEvent::ToolSelected(Tools::Blur), &vec![]);
    assert!(matches!(
        step,
        ToolbarStep::SwitchTool { tool: Tools::Blur, had_selection: true }
    ));
    assert!(b.selection.is_empty());
    let (step, _, _) = toolbar(&mut b, ToolbarEvent::SaveFileAs, &vec![]);
    assert!(matches!(step, ToolbarStep::Act(Action::SaveToFileAs)));
    let (step, _, _) = toolbar(&mut b, ToolbarEvent::ResizeImage { width: 3, height: 4 }, &vec![]);
    assert!(matches!(step, ToolbarStep::Resize { width: 3, height: 4 }));
    let (step, _, _) = toolbar(&mut b, ToolbarEvent::SizeSelected(Size::Large), &vec![]);
    assert!(matches!(step, ToolbarStep::StyleChanged));
    assert_eq!(b.style.size, Size::Large);
    let (_, out, _) = toolbar(&mut b, ToolbarEvent::ToggleLayerPanel, &vec![]);
    assert_eq!(out, vec![Effect::PanelVisible(true), Effect::RebuildRows]);
    toolbar(&mut b, ToolbarEvent::CropBgColorChanged(CropBgColor::White), &vec![]);
    assert_eq!(b.crop_tool.bg_color(), CropBgColor::White);
}

#[test]
fn smoothing_is_for_the_selection_or_the_brush() {
    let mut b = board(Tools::Brush);
    let mut conf = config();
    b.change_brush_smooth(5, &vec![], &mut conf);
    assert_eq!(conf.brush_post_smooth_iterations, 5);
    assert_eq!(b.session_brush_smooth, Some(5));
    b.selection = ids(&[1]);
    let layers = vec![layer(1, Tools::Brush, None)];
    assert!(matches!(
        b.change_brush_smooth(1, &layers, &mut conf),
        ToolUpdateResult::ModifyDrawable(DrawableId(1), LayerEdit::Smooth(1))
    ));
    assert_eq!(conf.brush_post_smooth_iterations, 5);
}

#[test]
fn a_tool_starts_with_what_is_remembered() {
    let mut b = board(Tools::Line);
    let mut state = PersistedState::default();
    save_highlighter_opacity(&mut state, 250_000);
    save_fill_for_tool(&mut state, Tools::Ellipse, true);
    let mut out = Vec::new();
    b.begin_switch(Tools::Highlighter, &vec![], &state, &mut config(), &mut out);
    assert_eq!(b.style.highlighter_opacity, 250_000);
    assert_eq!(
        out,
        vec![
            Effect::Output(SketchBoardOutput::HighlighterOpacityReset(250_000)),
            Effect::Output(SketchBoardOutput::ToolSwitchShortcut(Tools::Highlighter)),
            Effect::Deactivate(Tools::Line),
        ]
    );
    b.finish_switch(Tools::Highlighter, false, &config(), &mut out);
    assert_eq!(b.active_tool, Tools::Highlighter);
    b.begin_switch(Tools::Ellipse, &vec![], &state, &mut config(), &mut out);
    assert!(b.style.fill);
}

#[test]
fn cropping_leads_back() {
    let mut b = board(Tools::Blur);
    let mut out = Vec::new();
    assert_eq!(b.tool_after_crop(), Tools::Pointer);
    b.begin_switch(Tools::Crop, &vec![], &PersistedState::default(), &mut config(), &mut out);
    b.finish_switch(Tools::Crop, false, &config(), &mut out);
    assert_eq!(b.tool_after_crop(), Tools::Blur);
    assert_eq!(out.last(), Some(&Effect::SyncRenderScale));
}

#[test]
fn styles_cycle_from_the_selection() {
    let mut b = board(Tools::Arrow);
    b.selection = ids(&[1]);
    let layers = vec![layer(1, Tools::Arrow, None)];
    let mut state = PersistedState::default();
    let mut out = Vec::new();
    b.cycle_tool_style(Tools::Arrow, &layers, &mut state, &mut out);
    assert_eq!(state.arrow_style, Some(ArrowStyle::Curved.next()));
    b.cycle_tool_style(Tools::Blur, &layers, &mut state, &mut out);
    assert_eq!(state.blur_style, Some(BlurStyle::BlackOut));
    b.cycle_tool_style(Tools::Blur, &layers, &mut state, &mut out);
    assert_eq!(state.blur_style, Some(BlurStyle::Pixelate));
    let before = out.len();
    b.cycle_tool_style(Tools::Line, &layers, &mut state, &mut out);
    assert_eq!(out.len(), before);
}

#[test]
fn the_toolbar_follows_the_selection() {
    let mut b = board(Tools::Pointer);
    b.selection = ids(&[1, 2, 7]);
    let layers = vec![layer(1, Tools::Brush, None), layer(2, Tools::Line, None)];
    assert_eq!(present_layers(&b.selection, &layers).len(), 2);
    let mut out = Vec::new();
    b.sync_toolbar_to_selection(&layers, &mut out);
    assert!(out.contains(&Effect::Output(SketchBoardOutput::SelectionMultiAgreement {
        size: Some(Size::Medium),
        smooth: SmoothLevelMulti::NotApplicable
    })));
}

#[test]
fn a_tool_at_work_undoes_its_own_steps() {
    assert_eq!(history_route(true), HistoryRoute::Tool);
    assert_eq!(history_route(false), HistoryRoute::Canvas);
    assert!(matches!(changed_result::<Rect>(true), ToolUpdateResult::Redraw));
    assert!(matches!(changed_result::<Rect>(false), ToolUpdateResult::Unmodified));
    assert!(matches!(reset_result::<Rect>(true, false), ToolUpdateResult::Redraw));
    assert!(matches!(reset_result::<Rect>(false, true), ToolUpdateResult::Redraw));
    assert!(matches!(reset_result::<Rect>(false, false), ToolUpdateResult::Unmodified));
}

#[test]
fn a_new_size_factor_is_told() {
    let mut b = board(Tools::Line);
    b.selection = ids(&[1]);
    let mut layers = vec![layer(1, Tools::Line, None)];
    let mut out = Vec::new();
    b.sync_toolbar_to_selection(&layers, &mut out);
    let told = Effect::Output(SketchBoardOutput::SelectionStyleChanged(layers[0].style));
    assert!(out.contains(&told));
    out.clear();
    b.sync_toolbar_to_selection(&layers, &mut out);
    assert!(!out.contains(&told));
    let mut style = layers[0].style.unwrap();
    style.annotation_size_factor *= 2;
    layers[0].style = Some(style);
    b.sync_toolbar_to_selection(&layers, &mut out);
    assert!(out.contains(&Effect::Output(SketchBoardOutput::SelectionStyleChanged(Some(style)))));
}

fn tell(b: &mut SketchBoard, msg: SketchBoardInput) -> (UpdateStep, Vec<Effect>) {
    let ctx = Context {
        layers: vec![layer(1, Tools::Line, None), layer(2, Tools::Line, None)],
        order: ids(&[1, 2]),
        text_enabled: false,
        bound: None,
        now_ms: 0,
    };
    let mut state = PersistedState::default();
    let (mut msgs, mut out): (Vec<CropMessage>, Vec<Effect>) = (Vec::new(), Vec::new());
    let step = b.update(&msg, &ctx, &mut state, &mut config(), &mut msgs, &mut out);
    (step, out)
}

#[test]
fn messages_are_sorted_out() {
    let mut b = board(Tools::Line);
    assert!(matches!(tell(&mut b, SketchBoardInput::Exit).0, UpdateStep::Quit));
    assert!(matches!(
        tell(&mut b, SketchBoardInput::Refresh).0,
        UpdateStep::Done(ToolUpdateResult::Redraw)
    ));
    let (step, _) = tell(
        &mut b,
        SketchBoardInput::PanelDropOnto { src: DrawableId(2), target: DrawableId(1), above_target: false },
    );
    assert!(matches!(step, UpdateStep::Reorder(v) if v == ids(&[2, 1])));
    let (step, _) = tell(
        &mut b,
        SketchBoardInput::PanelRename { id: DrawableId(1), name: "  top ".to_string() },
    );
    assert!(matches!(step, UpdateStep::Rename(DrawableId(1), Some(n)) if n == "top"));
    let (step, _) = tell(&mut b, SketchBoardInput::PanelEditColor(DrawableId(2)));
    assert!(matches!(step, UpdateStep::PickColor(DrawableId(2), c) if c == Color::red()));
    let (_, out) = tell(
        &mut b,
        SketchBoardInput::PanelMoveDrawable { id: DrawableId(1), direction: PanelMoveDir::Up },
    );
    assert_eq!(out[0], Effect::MoveLayer(DrawableId(1), PanelMoveDir::Up));
    let (_, out) = tell(&mut b, SketchBoardInput::ScrollbarSet(true, 5));
    assert_eq!(out, vec![Effect::PanTo { horizontal: true, value: 5 }]);
    let (_, out) = tell(&mut b, SketchBoardInput::SetAnnotationFactor(2 * MICRO));
    assert_eq!(out.len(), 2);
    assert_eq!(b.style.annotation_size_factor, 2 * MICRO);
    let (_, out) = tell(&mut b, SketchBoardInput::SetAnnotationFactor(2 * MICRO));
    assert!(out.is_empty());
}

fn event(type_: MouseEventType, button: MouseButton) -> MouseEventMsg {
    MouseEventMsg {
        type_,
        button,
        modifier: Modifiers {
            shift: false,
            control: false,
            alt: false,
            super_key: false,
            other: 0,
        },
        pos: p(10, 20),
        n_pressed: 1,
        release: false,
    }
}

#[test]
fn the_canvas_pans_with_the_middle_button() {
    let mut out = Vec::new();
    assert!(!handle_mouse_event(&event(MouseEventType::EndDrag, MouseButton::Middle), &mut out));
    assert_eq!(
        out,
        vec![
            Effect::PanBy(p(10, 20)),
            Effect::PanDragging(true),
            Effect::StorePan,
            Effect::PanDragging(false),
            Effect::Render(None)
        ]
    );
    out.clear();
    assert!(handle_mouse_event(&event(MouseEventType::PanScroll, MouseButton::Primary), &mut out));
    assert_eq!(out, vec![Effect::PanByPixels(p(480, 960))]);
    assert_eq!(place_kind(MouseEventType::Click), PlaceKind::Point);
    assert_eq!(place_kind(MouseEventType::UpdateDrag), PlaceKind::Offset);
}

#[test]
fn the_cursor_tells_what_a_press_does() {
    let mut b = board(Tools::Line);
    let mut h = Hover {
        pos: p(10, 10),
        dragging: false,
        resizing: false,
        render_scale: MICRO,
        selected_handles: Vec::new(),
        editing_handles: Vec::new(),
        editing_body: None,
        hit: Some(Some(Tools::Line)),
    };
    assert_eq!(b.update_hover_cursor(&h, &config()), Cursor::Named("grab"));
    assert_eq!(b.last_hover_image_pos, Some(p(10, 10)));
    h.hit = Some(Some(Tools::Blur));
    assert_eq!(b.update_hover_cursor(&h, &config()), Cursor::Drawing);
    h.editing_body = Some(Rect::new(p(0, 0), p(20, 20)));
    assert_eq!(b.update_hover_cursor(&h, &config()), Cursor::Named("text"));
    h.dragging = true;
    assert_eq!(b.update_hover_cursor(&h, &config()), Cursor::Unchanged);
    h.resizing = true;
    assert_eq!(b.update_hover_cursor(&h, &config()), Cursor::Hidden);
    assert_eq!(cursor_for_handle(HandleId::TopLeft), "nwse-resize");
    assert_eq!(b.idle_cursor_for_active_tool(), Some("crosshair"));
}

#[test]
fn a_press_in_the_text_is_for_the_text() {
    let b = board(Tools::Text);
    let body = Some(Rect::new(p(0, 0), p(30, 30)));
    let click = InputEvent::Mouse(event(MouseEventType::Click, MouseButton::Primary));
    let moved = InputEvent::Mouse(event(MouseEventType::UpdateDrag, MouseButton::Primary));
    assert!(!b.pointer_goes_first(&click, body));
    assert!(b.pointer_goes_first(&click, None));
    assert!(b.pointer_goes_first(&moved, body));
    assert!(!board(Tools::Pointer).pointer_goes_first(&click, None));
}

#[test]
fn the_highlighter_cursor_is_as_high_as_the_line() {
    let mut b = board(Tools::Highlighter);
    b.highlighter_style = HighlighterStyle::TextLocked;
    let band = TextBand { y_start: 100 * UNIT, y_end: 120 * UNIT };
    assert_eq!(b.wanted_band(Some(band)), BandWanted::Known(band));
    assert_eq!(b.wanted_band(None), BandWanted::Detect);
    b.highlighter_style = HighlighterStyle::Normal;
    assert_eq!(b.wanted_band(None), BandWanted::Nothing);
    let (height, below) = band_cursor(&band, 105 * UNIT);
    assert!(height > 20 * UNIT);
    assert_eq!(below, 5 * UNIT);
}
