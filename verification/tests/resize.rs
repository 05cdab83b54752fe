//! Dragging the handles of a box.
use tensaku::math::{Rect, Vec2D};
use tensaku::tools::{aspect_lock_corner_target, bbox_resize, mirror_side_target, HandleId};
use tensaku::units::UNIT;

fn vec(x: f64, y: f64) -> Vec2D {
    let unit = UNIT as f64;
    Vec2D::new((x * unit).round() as i64, (y * unit).round() as i64)
}

fn rect(x: f64, y: f64, w: f64, h: f64) -> Rect {
    Rect::new(vec(x, y), vec(w, h))
}

fn approx(a: Vec2D, b: Vec2D) {
    let slack = UNIT / 10_000;
    assert!(
        (a.x - b.x).abs() <= slack && (a.y - b.y).abs() <= slack,
        "expected {:?}, got {:?}",
        b,
        a
    );
}

#[test]
fn aspect_lock_grows_dominant_axis() {
    let r = rect(0.0, 0.0, 100.0, 100.0);
    let got = aspect_lock_corner_target(r, HandleId::BottomRight, vec(200.0, 110.0));
    approx(got, vec(200.0, 200.0));
}

#[test]
fn aspect_lock_preserves_non_unit_ratio() {
    let r = rect(0.0, 0.0, 200.0, 100.0);
    let got = aspect_lock_corner_target(r, HandleId::BottomRight, vec(300.0, 110.0));
    approx(got, vec(300.0, 150.0));
}

#[test]
fn aspect_lock_topleft_handles_negative_signs() {
    let r = rect(50.0, 50.0, 100.0, 100.0);
    let got = aspect_lock_corner_target(r, HandleId::TopLeft, vec(20.0, 0.0));
    approx(got, vec(0.0, 0.0));
}

#[test]
fn aspect_lock_passthrough_for_non_corner() {
    let r = rect(0.0, 0.0, 100.0, 100.0);
    let p = vec(42.0, 17.0);
    assert_eq!(aspect_lock_corner_target(r, HandleId::Top, p), p);
    assert_eq!(aspect_lock_corner_target(r, HandleId::Start, p), p);
}

#[test]
fn aspect_lock_passthrough_for_degenerate_rect() {
    let r = rect(0.0, 0.0, 0.0, 100.0);
    let p = vec(42.0, 17.0);
    assert_eq!(aspect_lock_corner_target(r, HandleId::BottomRight, p), p);
}

#[test]
fn mirror_top_reflects_bottom_across_center() {
    let r = rect(0.0, 0.0, 100.0, 100.0);
    let (opp, target) = mirror_side_target(r, HandleId::Top, vec(0.0, 30.0)).unwrap();
    assert_eq!(opp, HandleId::Bottom);
    approx(target, vec(100.0, 70.0));
}

#[test]
fn mirror_bottom_reflects_top_across_center() {
    let r = rect(0.0, 0.0, 100.0, 100.0);
    let (opp, target) = mirror_side_target(r, HandleId::Bottom, vec(0.0, 80.0)).unwrap();
    assert_eq!(opp, HandleId::Top);
    approx(target, vec(0.0, 20.0));
}

#[test]
fn mirror_left_reflects_right_across_center() {
    let r = rect(0.0, 0.0, 100.0, 100.0);
    let (opp, target) = mirror_side_target(r, HandleId::Left, vec(15.0, 0.0)).unwrap();
    assert_eq!(opp, HandleId::Right);
    approx(target, vec(85.0, 100.0));
}

#[test]
fn mirror_right_reflects_left_across_center() {
    let r = rect(0.0, 0.0, 100.0, 100.0);
    let (opp, target) = mirror_side_target(r, HandleId::Right, vec(80.0, 0.0)).unwrap();
    assert_eq!(opp, HandleId::Left);
    approx(target, vec(20.0, 0.0));
}

#[test]
fn mirror_returns_none_for_non_side() {
    let r = rect(0.0, 0.0, 100.0, 100.0);
    assert!(mirror_side_target(r, HandleId::TopLeft, vec(0.0, 0.0)).is_none());
    assert!(mirror_side_target(r, HandleId::Start, vec(0.0, 0.0)).is_none());
}

#[test]
fn side_pair_keeps_bbox_centered() {
    let orig = rect(0.0, 0.0, 100.0, 100.0);
    let target = vec(0.0, 30.0);
    let after_first = bbox_resize(orig, HandleId::Top, target);
    let (opp, mirrored) = mirror_side_target(orig, HandleId::Top, target).unwrap();
    let after_second = bbox_resize(after_first, opp, mirrored);
    approx(after_second.top_left(), vec(0.0, 30.0));
    approx(after_second.bottom_right(), vec(100.0, 70.0));
}

#[test]
fn a_corner_dragged_past_the_other_side_flips_the_box() {
    let r = rect(0.0, 0.0, 10.0, 10.0);
    let got = bbox_resize(r, HandleId::TopLeft, vec(30.0, 5.0));
    assert!(got.size.x >= 0 && got.size.y >= 0);
    approx(got.top_left(), vec(10.0, 5.0));
    approx(got.bottom_right(), vec(30.0, 10.0));
}
