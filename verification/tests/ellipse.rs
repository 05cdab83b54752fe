//! Hitting an ellipse.
use tensaku::math::Vec2D;
use tensaku::style::{Color, Size, Style};
use tensaku::tools::ellipse::Ellipse;
use tensaku::tools::CanvasTransform;
use tensaku::units::{MICRO, UNIT};

fn p(x: f64, y: f64) -> Vec2D {
    let unit = UNIT as f64;
    Vec2D::new((x * unit).round() as i64, (y * unit).round() as i64)
}

/// Width of the thinnest stroke.
const STROKE: i64 = 2 * UNIT;

const TOLERANCE: i64 = 8 * UNIT;

fn ellipse(fill: bool) -> Ellipse {
    Ellipse {
        origin: p(100.0, 100.0),
        middle: p(300.0, 200.0),
        radii: Some(p(200.0, 100.0)),
        style: Style {
            color: Color::red(),
            size: Size::XSmall,
            fill,
            annotation_size_factor: MICRO,
            spotlight_darkness: MICRO / 2,
            highlighter_opacity: MICRO / 2,
        },
        centered: false,
        finishing: false,
    }
}

#[test]
fn the_diagonal_of_the_curve_is_grabbable() {
    let e = ellipse(false);
    let d = std::f64::consts::FRAC_1_SQRT_2;
    let on_curve = p(300.0 + 200.0 * d, 200.0 + 100.0 * d);
    assert!(e.edge_hit_test(on_curve, TOLERANCE, STROKE));
    assert!(!e.edge_hit_test(p(500.0, 300.0), TOLERANCE, STROKE));
}

#[test]
fn the_middle_is_not_the_outline() {
    for fill in [false, true] {
        let e = ellipse(fill);
        assert!(
            !e.edge_hit_test(p(300.0, 200.0), TOLERANCE, STROKE),
            "fill={fill}"
        );
    }
}

#[test]
fn the_band_straddles_the_curve() {
    let e = ellipse(false);
    assert!(
        e.edge_hit_test(p(496.0, 200.0), TOLERANCE, STROKE),
        "just inside"
    );
    assert!(
        e.edge_hit_test(p(504.0, 200.0), TOLERANCE, STROKE),
        "just outside"
    );
    assert!(
        !e.edge_hit_test(p(560.0, 200.0), TOLERANCE, STROKE),
        "well outside"
    );
}

#[test]
fn filling_changes_hit_test_but_not_the_outline() {
    let middle = p(300.0, 200.0);
    assert!(ellipse(true).hit_test(middle, TOLERANCE, STROKE));
    assert!(!ellipse(false).hit_test(middle, TOLERANCE, STROKE));
    for at in [p(496.0, 200.0), p(300.0, 101.0), p(300.0, 200.0)] {
        assert_eq!(
            ellipse(true).edge_hit_test(at, TOLERANCE, STROKE),
            ellipse(false).edge_hit_test(at, TOLERANCE, STROKE)
        );
    }
}

#[test]
fn the_box_is_around_the_curve() {
    let b = ellipse(false).bounds().unwrap();
    assert_eq!(b.top_left(), p(100.0, 100.0));
    assert_eq!(b.bottom_right(), p(500.0, 300.0));
}

#[test]
fn negative_slack_shrinks_the_ellipse() {
    let e = ellipse(true);
    assert!(e.hit_test(p(500.0, 200.0), 0, STROKE));
    assert!(!e.hit_test(p(500.0, 200.0), -TOLERANCE, STROKE));
    assert!(e.hit_test(p(490.0, 200.0), -TOLERANCE, STROKE));
    assert!(!e.hit_test(p(300.0, 200.0), -101 * UNIT, STROKE));
    assert!(!ellipse(false).hit_test(p(300.0, 200.0), -TOLERANCE, STROKE));
}

#[test]
fn an_ellipse_without_radii_moves_with_the_canvas() {
    let mut e = Ellipse {
        radii: None,
        ..ellipse(false)
    };
    e.apply_canvas_transform(CanvasTransform::FlipHorizontal, 1000 * UNIT, 600 * UNIT);
    assert_eq!(e.middle, p(700.0, 200.0));
    assert_eq!(e.origin, p(900.0, 100.0));
    assert!(e.radii.is_none());
}
