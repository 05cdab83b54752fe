//! Flips, quarter turns and scalings of the whole image.
use tensaku::math::{Rect, Vec2D};
use tensaku::tools::{CanvasTransform, Ratio};
use tensaku::units::UNIT;

fn v(x: f64, y: f64) -> Vec2D {
    let unit = UNIT as f64;
    Vec2D::new((x * unit).round() as i64, (y * unit).round() as i64)
}

fn close(a: Vec2D, b: Vec2D) {
    let slack = UNIT / 10_000;
    assert!(
        (a.x - b.x).abs() <= slack && (a.y - b.y).abs() <= slack,
        "expected {b:?}, got {a:?}"
    );
}

const W: i64 = 100 * UNIT;
const H: i64 = 60 * UNIT;

fn scale() -> CanvasTransform {
    CanvasTransform::Scale {
        sx: Ratio { num: 2, den: 1 },
        sy: Ratio { num: 1, den: 2 },
    }
}

#[test]
fn flip_maps_point_about_vertical_centerline() {
    let t = CanvasTransform::FlipHorizontal;
    close(t.map_point(v(0.0, 10.0), W, H), v(100.0, 10.0));
    close(t.map_point(v(100.0, 10.0), W, H), v(0.0, 10.0));
    close(t.map_point(v(30.0, 45.0), W, H), v(70.0, 45.0));
    assert_eq!(t.new_size(W, H), (W, H));
}

#[test]
fn flip_is_its_own_inverse() {
    let t = CanvasTransform::FlipHorizontal;
    let p = v(37.0, 12.0);
    close(t.map_point(t.map_point(p, W, H), W, H), p);
}

#[test]
fn rotate_ccw_maps_corners_and_swaps_size() {
    let t = CanvasTransform::RotateCcw;
    close(t.map_point(v(0.0, 0.0), W, H), v(0.0, 100.0));
    close(t.map_point(v(100.0, 0.0), W, H), v(0.0, 0.0));
    close(t.map_point(v(0.0, 60.0), W, H), v(60.0, 100.0));
    assert_eq!(t.new_size(W, H), (H, W));
}

#[test]
fn rotate_ccw_four_times_is_identity() {
    let p = v(23.0, 41.0);
    let t = CanvasTransform::RotateCcw;
    let (mut w, mut h) = (W, H);
    let mut q = p;
    for _ in 0..4 {
        q = t.map_point(q, w, h);
        let (nw, nh) = t.new_size(w, h);
        w = nw;
        h = nh;
    }
    close(q, p);
}

#[test]
fn offset_has_no_translation_component() {
    let t = CanvasTransform::RotateCcw;
    let a = v(10.0, 20.0);
    let b = v(35.0, 50.0);
    let off = b.minus(a);
    let mapped = t.map_point(b, W, H).minus(t.map_point(a, W, H));
    close(t.map_offset(off), mapped);

    let f = CanvasTransform::FlipHorizontal;
    let mapped_f = f.map_point(b, W, H).minus(f.map_point(a, W, H));
    close(f.map_offset(off), mapped_f);
}

#[test]
fn scale_multiplies_points_offsets_and_rects() {
    let t = scale();
    close(t.map_point(v(10.0, 20.0), W, H), v(20.0, 10.0));
    close(t.map_offset(v(4.0, 8.0)), v(8.0, 4.0));
    let r = t.map_rect(Rect::new(v(5.0, 10.0), v(10.0, 20.0)), W, H);
    close(r.pos, v(10.0, 5.0));
    close(r.size, v(20.0, 10.0));
    assert_eq!(t.new_size(W, H), (W * 2, H / 2));
}

#[test]
fn inverse_round_trips_a_point_for_each_op() {
    let p = v(23.0, 41.0);
    for t in [
        CanvasTransform::FlipHorizontal,
        CanvasTransform::RotateCcw,
        CanvasTransform::RotateCw,
        scale(),
    ] {
        let fwd = t.map_point(p, W, H);
        let (pw, ph) = t.new_size(W, H);
        let back = t.inverse().map_point(fwd, pw, ph);
        close(back, p);
    }
}

#[test]
fn rotate_cw_is_inverse_of_ccw() {
    assert_eq!(
        CanvasTransform::RotateCcw.inverse(),
        CanvasTransform::RotateCw
    );
    assert_eq!(
        CanvasTransform::RotateCw.inverse(),
        CanvasTransform::RotateCcw
    );
}

#[test]
fn map_rect_stays_axis_aligned_and_canonical() {
    let t = CanvasTransform::RotateCcw;
    let r = Rect::new(v(10.0, 5.0), v(20.0, 15.0));
    let m = t.map_rect(r, W, H);
    close(m.size, v(15.0, 20.0));
    assert!(m.size.x >= 0 && m.size.y >= 0);
}

#[test]
fn undoing_the_inverse_is_the_transform() {
    assert_eq!(scale().inverse().inverse(), scale());
}

#[test]
fn points_inside_stay_inside() {
    let t = CanvasTransform::RotateCw;
    let p = t.map_point(v(99.0, 59.0), W, H);
    let (w, h) = t.new_size(W, H);
    assert!(0 <= p.x && p.x <= w && 0 <= p.y && p.y <= h);
    close(p, v(1.0, 99.0));
}
