//! Scrolling over the canvas.
use tensaku::board::canvas::Dims;
use tensaku::board::layers::{Layer, LayerEdit};
use tensaku::board::messages::{SketchBoardOutput, Toast};
use tensaku::board::scroll::{
    apply_size_steps, drain_scroll_resize_steps, slide_darkness, slide_factor, slide_opacity,
    slide_smooth, step_arrow, step_blur, step_text, wrap_cycle,
};
use tensaku::board::scrolling::ScrollRoute;
use tensaku::board::{BoardConfig, Effect, SketchBoard};
use tensaku::input::Modifiers;
use tensaku::state::PersistedState;
use tensaku::style::{Color, Size, Style};
use tensaku::tools::arrow::ArrowStyle;
use tensaku::tools::blur::BlurStyle;
use tensaku::tools::{DrawableId, TextBackground, Tools};
use tensaku::units::{MICRO, UNIT};

fn style() -> Style {
    Style {
        color: Color::red(),
        size: Size::Medium,
        fill: false,
        annotation_size_factor: MICRO,
        spotlight_darkness: 600_000,
        highlighter_opacity: 400_000,
    }
}

fn config() -> BoardConfig {
    BoardConfig {
        auto_copy: false,
        close_on_copy: false,
        close_on_save: false,
        close_on_esc: false,
        early_exit_save_as: false,
        sticky_session_defaults: false,
        select_any_annotation: false,
        save_after_copy: false,
        brush_post_smooth_iterations: 2,
        annotation_size_factor: MICRO,
        palette_len: 8,
    }
}

fn board(tool: Tools) -> SketchBoard {
    let mut out = Vec::new();
    SketchBoard::init(
        Dims { w: 800, h: 600 },
        tool,
        style(),
        None,
        &PersistedState::default(),
        &mut out,
    )
}

fn layer(id: u64, tool: Tools) -> Layer {
    Layer {
        id: DrawableId(id),
        tool_type: Some(tool),
        style: Some(style()),
        smooth_level: if tool == Tools::Brush { Some(3) } else { None },
        arrow_style: None,
        blur_style: None,
        text_background: None,
        bounds: None,
        visible: true,
        locked: false,
    }
}

fn held(control: bool, shift: bool, alt: bool) -> Modifiers {
    Modifiers {
        shift,
        control,
        alt,
        super_key: false,
        other: 0,
    }
}

#[test]
fn cycles_wrap_both_ways() {
    let (a, b, c) = (BlurStyle::Pixelate, BlurStyle::Gaussian, BlurStyle::BlackOut);
    let order = vec![a, b, c];
    assert_eq!(wrap_cycle(&order, c, 1), a);
    assert_eq!(wrap_cycle(&order, a, -1), c);
    assert_eq!(wrap_cycle(&order, b, 7), c);
    assert_eq!(wrap_cycle(&order, b, -7), a);
    assert_eq!(wrap_cycle(&order, wrap_cycle(&order, b, 5), -5), b);
    assert_eq!(wrap_cycle(&order, BlurStyle::SecureBlur, 2), BlurStyle::SecureBlur);
    assert_eq!(wrap_cycle(&Vec::new(), b, 2), b);
    assert_eq!(step_arrow(ArrowStyle::Double, 1), ArrowStyle::Standard);
    assert_eq!(step_blur(BlurStyle::Pixelate, -1), BlurStyle::BlackOut);
    assert_eq!(step_text(TextBackground::Plain, 3), TextBackground::Rounded);
    assert_eq!(step_arrow(step_arrow(ArrowStyle::Curved, 3), -3), ArrowStyle::Curved);
}

#[test]
fn sizes_stop_at_the_ends() {
    assert_eq!(apply_size_steps(Size::Medium, 1), Size::Large);
    assert_eq!(apply_size_steps(Size::Medium, 100), Size::XXLarge);
    assert_eq!(apply_size_steps(Size::Small, -4), Size::XSmall);
    assert_eq!(apply_size_steps(Size::Small, 0), Size::Small);
}

#[test]
fn half_notches_add_up() {
    let mut accum = 0;
    assert_eq!(drain_scroll_resize_steps(&mut accum, -UNIT / 2), 0);
    assert_eq!(accum, UNIT / 2);
    assert_eq!(drain_scroll_resize_steps(&mut accum, -UNIT / 2), 1);
    assert_eq!(accum, 0);
    assert_eq!(drain_scroll_resize_steps(&mut accum, 5 * UNIT / 2), -2);
    assert_eq!(accum, -UNIT / 2);
}

#[test]
fn standing_still_keeps_the_rest() {
    let mut accum = UNIT / 2;
    assert_eq!(drain_scroll_resize_steps(&mut accum, 0), 0);
    assert_eq!(accum, UNIT / 2);
    accum = -UNIT / 2;
    assert_eq!(drain_scroll_resize_steps(&mut accum, 0), 0);
    assert_eq!(accum, -UNIT / 2);
}

#[test]
fn turning_around_forgets_the_rest() {
    let mut accum = UNIT / 2;
    assert_eq!(drain_scroll_resize_steps(&mut accum, UNIT / 4), 0);
    assert_eq!(accum, -UNIT / 4);
}

#[test]
fn sliders_move_and_stop() {
    assert_eq!(slide_smooth(2, 1), 3);
    assert_eq!(slide_smooth(2, -9), 0);
    assert_eq!(slide_smooth(2, 9), 6);
    assert_eq!(slide_darkness(600_000, 2), 700_000);
    assert_eq!(slide_darkness(600_000, 20), 900_000);
    assert_eq!(slide_opacity(600_000, 20), 1_000_000);
    assert_eq!(slide_opacity(600_000, -20), 100_000);
    assert_eq!(slide_factor(1_000_000, 1), 1_100_000);
    assert_eq!(slide_factor(1_040_000, 0), 1_000_000);
    assert_eq!(slide_factor(1_000_000, 1000), 10_000_000);
    assert_eq!(slide_darkness(slide_darkness(500_000, 3), -3), 500_000);
}

#[test]
fn what_a_scroll_is_for() {
    let b = board(Tools::Line);
    assert_eq!(b.scroll_route(held(true, true, false)), ScrollRoute::AltSlider);
    assert_eq!(b.scroll_route(held(false, true, true)), ScrollRoute::Factor);
    assert_eq!(b.scroll_route(held(false, false, true)), ScrollRoute::ToolSize);
    assert_eq!(b.scroll_route(held(true, false, false)), ScrollRoute::Zoom);
    assert_eq!(b.scroll_route(held(false, false, false)), ScrollRoute::Pass);
    let s = board(Tools::Spotlight);
    assert_eq!(s.scroll_route(held(false, false, false)), ScrollRoute::AltSlider);
    let c = board(Tools::Crop);
    assert_eq!(c.scroll_route(held(true, false, false)), ScrollRoute::Pass);
}

#[test]
fn scrolling_over_a_selection_resizes_it() {
    let mut b = board(Tools::Pointer);
    b.selection = vec![DrawableId(1), DrawableId(9)];
    let layers = vec![layer(1, Tools::Line)];
    let (mut state, mut cfg, mut out) = (PersistedState::default(), config(), Vec::new());
    let r = b.handle_scroll(-UNIT, held(false, false, false), &layers, &mut state, &mut cfg, &mut out);
    assert_eq!(r, ScrollRoute::Selection);
    let larger = Style {
        size: Size::Large,
        ..style()
    };
    assert_eq!(
        out,
        vec![
            Effect::Modify(DrawableId(1), LayerEdit::Style(larger)),
            Effect::Refresh,
            Effect::SyncToolbar
        ]
    );
}

#[test]
fn a_plain_scroll_starts_over() {
    let mut b = board(Tools::Line);
    b.scroll_resize_accum = UNIT / 2;
    let (mut state, mut cfg, mut out) = (PersistedState::default(), config(), Vec::new());
    let r = b.handle_scroll(UNIT, held(false, false, false), &Vec::new(), &mut state, &mut cfg, &mut out);
    assert_eq!(r, ScrollRoute::Pass);
    assert_eq!(b.scroll_resize_accum, 0);
    assert!(out.is_empty());
}

#[test]
fn the_factor_is_kept_and_told() {
    let mut b = board(Tools::Line);
    let (mut state, mut cfg, mut out) = (PersistedState::default(), config(), Vec::new());
    b.handle_scroll(-2 * UNIT, held(false, true, true), &Vec::new(), &mut state, &mut cfg, &mut out);
    assert_eq!(state.annotation_size_factor, Some(1_200_000));
    assert_eq!(cfg.annotation_size_factor, 1_200_000);
    assert_eq!(b.style.annotation_size_factor, 1_200_000);
    assert!(out.contains(&Effect::Output(SketchBoardOutput::ShowCycleToast(
        Toast::AnnotationSize(12)
    ))));
    assert_eq!(Toast::AnnotationSize(12).text(), "Annotation size: 1.2\u{d7}");
}

#[test]
fn the_slider_goes_by_what_is_selected() {
    let mut b = board(Tools::Line);
    let layers = vec![layer(1, Tools::Brush), layer(2, Tools::Brush), layer(3, Tools::Line)];
    assert_eq!(b.alt_slider_target_tool(&layers), Some(Tools::Line));
    b.selection = vec![DrawableId(1), DrawableId(2)];
    assert_eq!(b.alt_slider_target_tool(&layers), Some(Tools::Brush));
    b.selection = vec![DrawableId(1), DrawableId(3)];
    assert_eq!(b.alt_slider_target_tool(&layers), Some(Tools::Line));
    b.selection = vec![DrawableId(7)];
    assert_eq!(b.alt_slider_target_tool(&layers), None);
}

#[test]
fn smoothing_goes_to_the_selection_or_else_to_the_brush() {
    let layers = vec![layer(1, Tools::Brush), layer(2, Tools::Brush)];
    let (state, mut cfg, mut out) = (PersistedState::default(), config(), Vec::new());
    let mut b = board(Tools::Brush);
    b.scroll_alt_slider(-UNIT, &layers, &state, &mut cfg, &mut out);
    assert_eq!(cfg.brush_post_smooth_iterations, 3);
    assert_eq!(b.session_brush_smooth, Some(3));
    assert_eq!(
        out,
        vec![
            Effect::Output(SketchBoardOutput::BrushPostSmoothReset(3)),
            Effect::Refresh
        ]
    );
    out.clear();
    b.selection = vec![DrawableId(1), DrawableId(2)];
    b.scroll_alt_slider(-UNIT, &layers, &state, &mut cfg, &mut out);
    assert_eq!(cfg.brush_post_smooth_iterations, 3);
    assert_eq!(
        out,
        vec![
            Effect::ModifyMany(2),
            Effect::Edit(DrawableId(1), LayerEdit::Smooth(4)),
            Effect::Edit(DrawableId(2), LayerEdit::Smooth(4)),
            Effect::Output(SketchBoardOutput::BrushPostSmoothReset(4)),
            Effect::Refresh
        ]
    );
}

#[test]
fn the_highlighter_and_the_spotlight_slide() {
    let (state, mut cfg, mut out) = (PersistedState::default(), config(), Vec::new());
    let mut b = board(Tools::Highlighter);
    b.scroll_alt_slider(UNIT, &Vec::new(), &state, &mut cfg, &mut out);
    assert_eq!(b.style.highlighter_opacity, 350_000);
    assert_eq!(b.session_highlighter_opacity, Some(350_000));
    let mut s = board(Tools::Spotlight);
    out.clear();
    s.scroll_alt_slider(-UNIT, &Vec::new(), &state, &mut cfg, &mut out);
    assert_eq!(s.style.spotlight_darkness, 650_000);
    assert_eq!(
        out,
        vec![
            Effect::SpotlightDarkness(650_000),
            Effect::Output(SketchBoardOutput::SpotlightDarknessReset(650_000)),
            Effect::Refresh
        ]
    );
}

#[test]
fn scrolling_fills_a_shape_and_empties_it() {
    let (state, mut cfg, mut out) = (PersistedState::default(), config(), Vec::new());
    let mut b = board(Tools::Ellipse);
    b.scroll_alt_slider(UNIT, &Vec::new(), &state, &mut cfg, &mut out);
    assert!(!b.style.fill);
    assert!(out.is_empty());
    b.scroll_alt_slider(-UNIT, &Vec::new(), &state, &mut cfg, &mut out);
    assert!(b.style.fill);
    assert_eq!(b.session_fill_ellipse, Some(true));
}

#[test]
fn choices_step_through_their_order() {
    let (state, mut cfg, mut out) = (PersistedState::default(), config(), Vec::new());
    let mut b = board(Tools::Arrow);
    b.scroll_alt_slider(-UNIT, &Vec::new(), &state, &mut cfg, &mut out);
    assert_eq!(
        out,
        vec![Effect::Output(SketchBoardOutput::ArrowStyleCycled(
            ArrowStyle::Pointy
        ))]
    );
}

#[test]
fn the_tool_size_is_told() {
    let mut b = board(Tools::Brush);
    let mut out = Vec::new();
    b.scroll_resize_tool_size(-UNIT, &mut out);
    assert_eq!(b.style.size, Size::Large);
    assert_eq!(
        out,
        vec![
            Effect::ToolStyle(Tools::Pointer, b.style),
            Effect::ToolStyle(Tools::Brush, b.style),
            Effect::IdleCursor,
            Effect::Output(SketchBoardOutput::ToolSizeChanged(Size::Large))
        ]
    );
}
