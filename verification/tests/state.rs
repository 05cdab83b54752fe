//! What the state file remembers.
use hex_color::HexColor;
use tensaku::state::{
    append_custom_color, initial_color, load_arrow_style, load_blur_style,
    load_brush_post_smooth_iterations, load_custom_colors, load_fill_for_tool,
    load_highlighter_opacity, load_highlighter_style, load_last_color, load_layer_panel_width,
    load_legacy_preferences, load_scroll_capture_last_region, load_scroll_capture_shortcut,
    load_size_for_tool, load_snap_to_edges, load_spotlight_darkness, load_spotlight_magnification,
    load_text_background, save_annotation_size_factor, save_arrow_style, save_blur_style,
    save_brush_post_smooth_iterations, save_custom_colors, save_fill_for_tool,
    save_highlighter_opacity, save_highlighter_style, save_last_color, save_layer_panel_width,
    save_scroll_capture_last_region, save_scroll_capture_shortcut, save_size_for_tool,
    save_snap_to_edges, save_spotlight_darkness, save_spotlight_magnification,
    save_text_background, PersistedState,
};
use tensaku::style::{Color, Size};
use tensaku::tools::arrow::ArrowStyle;
use tensaku::tools::blur::BlurStyle;
use tensaku::tools::highlight::HighlighterStyle;
use tensaku::tools::{TextBackground, Tools};

fn color(r: u8, g: u8, b: u8) -> Color {
    Color { r, g, b, a: 255 }
}

#[test]
fn a_first_launch_starts_red() {
    let state = PersistedState::default();
    assert_eq!(load_last_color(&state), None);
    assert_eq!(initial_color(&state), Color::red());
}

#[test]
fn the_last_color_comes_back() {
    let mut state = PersistedState::default();
    let teal = Color { r: 1, g: 128, b: 129, a: 77 };
    save_last_color(&mut state, teal);
    assert_eq!(state.last_color, Some(HexColor::rgba(1, 128, 129, 77)));
    assert_eq!(load_last_color(&state), Some(teal));
    assert_eq!(initial_color(&state), teal);
}

#[test]
fn gaps_between_colors_survive() {
    let mut state = PersistedState::default();
    let slots = vec![Some(color(1, 2, 3)), None, Some(color(4, 5, 6)), None, None];
    save_custom_colors(&mut state, &slots);
    assert_eq!(state.saved_custom_colors.len(), 3);
    assert_eq!(state.saved_custom_colors[1], HexColor::rgba(0, 0, 0, 0));
    assert_eq!(load_custom_colors(&state), slots[..3].to_vec());
}

#[test]
fn a_new_color_takes_the_first_gap() {
    let mut state = PersistedState::default();
    assert_eq!(append_custom_color(&mut state, color(1, 1, 1)), vec![Some(color(1, 1, 1))]);
    save_custom_colors(&mut state, &vec![Some(color(1, 1, 1)), None, Some(color(3, 3, 3))]);
    assert_eq!(
        append_custom_color(&mut state, color(2, 2, 2)),
        vec![Some(color(1, 1, 1)), Some(color(2, 2, 2)), Some(color(3, 3, 3))]
    );
    append_custom_color(&mut state, color(4, 4, 4));
    assert_eq!(load_custom_colors(&state)[3], Some(color(4, 4, 4)));
}

#[test]
fn transparent_black_marks_an_empty_slot() {
    let mut state = PersistedState::default();
    let nothing = Color { r: 0, g: 0, b: 0, a: 0 };
    save_custom_colors(&mut state, &vec![Some(nothing), Some(color(1, 1, 1))]);
    assert_eq!(load_custom_colors(&state), vec![None, Some(color(1, 1, 1))]);
}

#[test]
fn tools_keep_their_own_size_and_fill() {
    let mut state = PersistedState::default();
    assert_eq!(load_size_for_tool(&state, Tools::Arrow), None);
    save_size_for_tool(&mut state, Tools::Arrow, Size::XLarge);
    save_size_for_tool(&mut state, Tools::Line, Size::Small);
    save_size_for_tool(&mut state, Tools::Arrow, Size::Large);
    assert_eq!(load_size_for_tool(&state, Tools::Arrow), Some(Size::Large));
    assert_eq!(load_size_for_tool(&state, Tools::Line), Some(Size::Small));
    assert_eq!(load_size_for_tool(&state, Tools::Blur), None);
    save_fill_for_tool(&mut state, Tools::Ellipse, true);
    assert_eq!(load_fill_for_tool(&state, Tools::Ellipse), Some(true));
    assert_eq!(load_fill_for_tool(&state, Tools::Rectangle), None);
}

#[test]
fn single_values_come_back() {
    let mut s = PersistedState::default();
    save_spotlight_darkness(&mut s, 700_000);
    save_highlighter_opacity(&mut s, 300_000);
    save_spotlight_magnification(&mut s, 1_500_000);
    save_snap_to_edges(&mut s, false);
    save_arrow_style(&mut s, ArrowStyle::Pointy);
    save_blur_style(&mut s, BlurStyle::Pixelate);
    save_text_background(&mut s, TextBackground::Rounded);
    save_highlighter_style(&mut s, HighlighterStyle::Normal);
    save_brush_post_smooth_iterations(&mut s, 3);
    save_layer_panel_width(&mut s, 220);
    save_scroll_capture_last_region(&mut s, [1, 2, 3, 4]);
    save_scroll_capture_shortcut(&mut s, Some("ALT+PRINT".to_string()));
    assert_eq!(load_spotlight_darkness(&s), Some(700_000));
    assert_eq!(load_highlighter_opacity(&s), Some(300_000));
    assert_eq!(load_spotlight_magnification(&s), Some(1_500_000));
    assert_eq!(load_snap_to_edges(&s), Some(false));
    assert_eq!(load_arrow_style(&s), Some(ArrowStyle::Pointy));
    assert_eq!(load_blur_style(&s), Some(BlurStyle::Pixelate));
    assert_eq!(load_text_background(&s), Some(TextBackground::Rounded));
    assert_eq!(load_highlighter_style(&s), Some(HighlighterStyle::Normal));
    assert_eq!(load_brush_post_smooth_iterations(&s), Some(3));
    assert_eq!(load_layer_panel_width(&s), Some(220));
    assert_eq!(load_scroll_capture_last_region(&s), Some([1, 2, 3, 4]));
    assert_eq!(load_scroll_capture_shortcut(&s), Some("ALT+PRINT".to_string()));
    save_scroll_capture_shortcut(&mut s, None);
    assert_eq!(load_scroll_capture_shortcut(&s), None);
}

#[test]
fn old_preferences_are_collected() {
    assert!(load_legacy_preferences(PersistedState::default(), None).is_empty());
    let window = load_legacy_preferences(PersistedState::default(), Some(true));
    assert!(!window.is_empty());
    assert_eq!(window.keep_window_size_on_crop, Some(true));
    let mut s = PersistedState::default();
    save_annotation_size_factor(&mut s, 1_500_000);
    s.close_on_esc = Some(false);
    let p = load_legacy_preferences(s, None);
    assert_eq!(p.annotation_size_factor, Some(1_500_000));
    assert_eq!(p.close_on_esc, Some(false));
    assert_eq!(p.close_on_copy, None);
    assert!(!p.is_empty());
}
