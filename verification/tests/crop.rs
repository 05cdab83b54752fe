//! The crop tool.
use tensaku::input::{
    Key, KeyEventMsg, Modifiers, MouseButton, MouseEventMsg, MouseEventType, KEY_RETURN,
    KEY_RIGHT,
};
use tensaku::math::Vec2D;
use tensaku::tools::crop::{
    AspectRatio, Crop, CropBgColor, CropHandle, CropHit, CropMessage, CropTool,
};
use tensaku::tools::{CanvasTransform, Ratio, ToolUpdateResult, Tools};
use tensaku::units::{MICRO, UNIT};

fn p(x: i64, y: i64) -> Vec2D {
    Vec2D::new(x * UNIT, y * UNIT)
}

fn tool() -> CropTool {
    let mut t = CropTool::default();
    t.set_sender();
    t.set_input_enabled(true);
    t.set_image_bounds(p(800, 600));
    t
}

fn held(shift: bool, alt: bool) -> Modifiers {
    Modifiers {
        shift,
        control: false,
        alt,
        super_key: false,
        other: 0,
    }
}

fn mouse(type_: MouseEventType, pos: Vec2D) -> MouseEventMsg {
    MouseEventMsg {
        type_,
        button: MouseButton::Primary,
        modifier: held(false, true),
        pos,
        n_pressed: 1,
        release: false,
    }
}

fn rect(t: &CropTool) -> (Vec2D, Vec2D) {
    t.get_crop().unwrap().get_rectangle()
}

#[test]
fn entering_the_tool_frames_the_image() {
    let mut t = tool();
    let mut out = Vec::new();
    t.handle_activated(&mut out);
    assert_eq!(rect(&t), (p(0, 0), p(800, 600)));
    assert!(t.is_active_edit());
    assert!(t.is_full_image_crop());
    assert_eq!(t.get_committed_rect(), None);
}

#[test]
fn a_crop_is_applied_and_reverted() {
    let mut t = tool();
    let mut out = Vec::new();
    t.handle_activated(&mut out);
    t.set_dimensions(400 * UNIT, 300 * UNIT, &mut out);
    assert!(matches!(t.commit(&mut out), ToolUpdateResult::Redraw));
    let (pos, size) = t.get_committed_rect().unwrap();
    assert_eq!(size, p(400, 300));
    assert!(pos.x >= 0 && pos.y >= 0);
    assert!(!t.is_active_edit());
    assert!(out.contains(&CropMessage::DimensionsUpdate(Some((400, 300)))));
    t.revert(&mut out);
    assert_eq!(t.get_committed_rect(), None);
    assert!(out.contains(&CropMessage::DimensionsUpdate(None)));
}

#[test]
fn cancelling_returns_to_what_was_applied() {
    let mut t = tool();
    let mut out = Vec::new();
    t.handle_activated(&mut out);
    t.set_dimensions(400 * UNIT, 300 * UNIT, &mut out);
    t.commit(&mut out);
    let applied = t.get_committed_rect();
    t.handle_activated(&mut out);
    t.set_dimensions(100 * UNIT, 100 * UNIT, &mut out);
    t.cancel(&mut out);
    assert!(out.contains(&CropMessage::ExitCropToPreviousTool));
    t.handle_deactivated(&mut out);
    assert_eq!(t.get_committed_rect(), applied);
}

#[test]
fn a_corner_is_dragged() {
    let mut t = tool();
    let mut out = Vec::new();
    t.handle_activated(&mut out);
    t.handle_mouse_event(mouse(MouseEventType::BeginDrag, p(800, 600)), &mut out);
    t.handle_mouse_event(mouse(MouseEventType::UpdateDrag, p(-200, -100)), &mut out);
    assert_eq!(rect(&t), (p(0, 0), p(600, 500)));
    t.handle_mouse_event(mouse(MouseEventType::EndDrag, p(-300, -100)), &mut out);
    assert_eq!(rect(&t), (p(0, 0), p(500, 500)));
    assert!(t.action.is_none());
}

#[test]
fn a_drag_stays_inside_the_image() {
    let mut t = tool();
    let mut out = Vec::new();
    t.handle_activated(&mut out);
    t.handle_mouse_event(mouse(MouseEventType::BeginDrag, p(800, 300)), &mut out);
    t.handle_mouse_event(mouse(MouseEventType::UpdateDrag, p(500, 0)), &mut out);
    assert_eq!(rect(&t), (p(0, 0), p(800, 600)));
}

#[test]
fn a_ratio_is_kept() {
    let mut t = tool();
    let mut out = Vec::new();
    t.handle_activated(&mut out);
    t.set_aspect_ratio(AspectRatio::Square, &mut out);
    let (_, size) = rect(&t);
    assert_eq!(size.x, size.y);
    assert_eq!(size.x, 600 * UNIT);
    assert_eq!(AspectRatio::SixteenNine.ratio_components(None), Some((16, 9)));
    assert_eq!(AspectRatio::Original.ratio_components(Some(p(8, 6))), Some((8 * UNIT, 6 * UNIT)));
    assert_eq!(AspectRatio::Freeform.ratio_components(Some(p(8, 6))), None);
    for i in 0..8 {
        assert_eq!(AspectRatio::from_index(i).to_index(), i);
    }
}

#[test]
fn backgrounds_are_listed() {
    for i in 0..5 {
        assert_eq!(CropBgColor::from_index(i).to_index(), i);
        assert!(CropBgColor::label(i).is_some());
    }
    assert_eq!(CropBgColor::White.paint_color().3, MICRO);
}

fn crop() -> Crop {
    Crop {
        size: p(100, 80),
        ..Crop::new(p(100, 100), CropBgColor::Auto)
    }
}

#[test]
fn handles_are_hit_near_them() {
    let c = crop();
    assert_eq!(Crop::get_handle_pos(c.pos, c.size, CropHandle::RightEdge), p(200, 140));
    assert_eq!(c.hit_handle(p(205, 143), 10 * UNIT), Some(CropHandle::RightEdge));
    assert_eq!(c.hit_handle(p(150, 140), 10 * UNIT), None);
    assert_eq!(c.get_closest_handle(p(195, 185)).0, CropHandle::BottomRightCorner);
    assert_eq!(c.hit_kind(p(150, 140), MICRO), Some(CropHit::Body));
    assert_eq!(c.hit_kind(p(400, 400), MICRO), None);
    assert_eq!(CropHandle::TopEdge.resize_cursor(), "ns-resize");
}

#[test]
fn the_overlay_keeps_its_size_on_screen() {
    let mut c = crop();
    c.active = true;
    let one = c.overlay(MICRO).unwrap();
    let two = c.overlay(2 * MICRO).unwrap();
    assert_eq!(one.handle_width, 5 * UNIT);
    assert_eq!(two.handle_width, 5 * UNIT / 2);
    assert_eq!(one.grid.len(), 4);
    assert_eq!(one.brackets.len(), 4);
    assert_eq!(one.bars.len(), 4);
    assert_eq!(one.border.top_left(), p(100, 100));
    assert_eq!(one.matte, Some(CropBgColor::Auto));
    c.bg_color = CropBgColor::Transparent;
    assert_eq!(c.overlay(MICRO).unwrap().matte, None);
}

#[test]
fn a_crop_follows_the_image_and_back() {
    let mut t = tool();
    let mut out = Vec::new();
    t.handle_activated(&mut out);
    t.set_dimensions(400 * UNIT, 300 * UNIT, &mut out);
    t.commit(&mut out);
    t.set_committed_rect(p(10, 20), p(400, 300));
    t.apply_canvas_transform(CanvasTransform::RotateCcw, 800 * UNIT, 600 * UNIT, &mut out);
    assert_eq!(t.get_committed_rect(), Some((p(20, 390), p(300, 400))));
    t.apply_canvas_transform(CanvasTransform::RotateCw, 600 * UNIT, 800 * UNIT, &mut out);
    assert_eq!(t.get_committed_rect(), Some((p(10, 20), p(400, 300))));
}

#[test]
fn keys_end_the_edit() {
    let mut t = tool();
    let mut out = Vec::new();
    t.handle_activated(&mut out);
    t.set_dimensions(400 * UNIT, 300 * UNIT, &mut out);
    t.handle_key_event(KeyEventMsg::new(Key(KEY_RETURN), 36, held(false, false)), &mut out);
    assert!(t.get_committed_rect().is_some());
    assert!(out.contains(&CropMessage::ToolSelected(Tools::Pointer)));
}

#[test]
fn a_crop_grows_about_its_middle() {
    let mut t = tool();
    let mut out = Vec::new();
    t.handle_activated(&mut out);
    t.set_dimensions(400 * UNIT, 300 * UNIT, &mut out);
    let (pos, size) = rect(&t);
    t.resize_symmetric(20 * UNIT, 0, &mut out);
    let (after, wide) = rect(&t);
    assert_eq!(wide.x, size.x + 20 * UNIT);
    assert_eq!(after.x, pos.x - 10 * UNIT);
    t.resize_proportional(2 * MICRO, &mut out);
    assert!(rect(&t).1.x <= 800 * UNIT);
}

#[test]
fn a_quarter_is_picked() {
    let mut t = tool();
    let mut out = Vec::new();
    t.handle_activated(&mut out);
    assert!(t.apply_quadrant_preset(1, &mut out));
    let (_, size) = rect(&t);
    assert!(size.x < 800 * UNIT || size.y < 600 * UNIT);
    assert!(!t.apply_quadrant_preset(99, &mut out));
}

#[test]
fn a_crop_is_asked_before_it_is_transformed() {
    let mut t = tool();
    let mut out = Vec::new();
    assert!(t.can_survive(CanvasTransform::RotateCcw, 800 * UNIT, 600 * UNIT));
    t.handle_activated(&mut out);
    assert!(t.can_survive(CanvasTransform::RotateCcw, 800 * UNIT, 600 * UNIT));
    let huge = CanvasTransform::Scale {
        sx: Ratio { num: 1 << 31, den: 1 },
        sy: Ratio { num: 1, den: 1 },
    };
    assert!(huge.can_map(p(0, 0)));
    assert!(!huge.can_map(p(800, 0)));
    assert!(!t.can_survive(huge, 800 * UNIT, 600 * UNIT));
}

#[test]
fn a_crop_is_asked_before_an_arrow_key() {
    let mut t = tool();
    let key = KeyEventMsg::new(Key(KEY_RIGHT), 0, held(false, false));
    assert!(t.can_take_key(&key));
    t.handle_activated(&mut Vec::new());
    assert!(t.can_take_key(&key));
    t.crop = Some(Crop {
        pos: p(800, 10),
        ..t.crop.unwrap()
    });
    assert!(!t.can_take_key(&key));
    assert!(t.can_take_key(&KeyEventMsg::new(Key(KEY_RETURN), 0, held(false, false))));
    let mut alt = key;
    alt.modifier.alt = true;
    assert!(t.can_take_key(&alt));
    t.aspect_ratio = AspectRatio::Square;
    assert!(t.can_take_key(&key));
    assert!(t.is_near_image());
    t.crop = Some(Crop {
        pos: p(1 << 34, 0),
        ..t.crop.unwrap()
    });
    assert!(!t.is_near_image());
}

#[test]
fn only_an_applied_crop_is_grown() {
    let mut t = tool();
    let mut out = Vec::new();
    t.set_committed_rect(p(10, 10), p(20, 20));
    assert!(t.get_crop().is_none());
    t.handle_activated(&mut out);
    t.set_committed_rect(p(10, 10), p(20, 20));
    assert_eq!(rect(&t), (p(0, 0), p(800, 600)));
    t.commit(&mut out);
    t.set_committed_rect(p(10, 10), p(20, 20));
    assert_eq!(t.get_committed_rect(), Some((p(10, 10), p(20, 20))));
    t.handle_activated(&mut out);
    t.set_committed_rect(p(0, 0), p(1, 1));
    assert_eq!(rect(&t), (p(10, 10), p(20, 20)));
}

#[test]
fn edits_that_are_not_applied_are_rolled_back() {
    let mut t = tool();
    let mut out = Vec::new();
    t.handle_activated(&mut out);
    t.set_dimensions(400 * UNIT, 300 * UNIT, &mut out);
    t.commit(&mut out);
    let applied = t.get_committed_rect();
    assert!(applied.is_some());
    t.handle_activated(&mut out);
    t.apply_quadrant_preset(4, &mut out);
    t.set_aspect_ratio(AspectRatio::Square, &mut out);
    t.resize_symmetric(10 * UNIT, 20 * UNIT, &mut out);
    t.handle_mouse_event(mouse(MouseEventType::BeginDrag, p(600, 450)), &mut out);
    t.handle_mouse_event(mouse(MouseEventType::EndDrag, p(-30, -20)), &mut out);
    assert_ne!(rect(&t), applied.unwrap());
    t.handle_deactivated(&mut out);
    assert_eq!(t.get_committed_rect(), applied);
    assert!(!t.is_active_edit());
}
