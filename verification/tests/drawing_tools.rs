//! Lines, arrows, badges, blurs, highlights and pasted images.
use tensaku::input::{
    Key, KeyEventMsg, Modifiers, MouseButton, MouseEventMsg, MouseEventType, KEY_ESCAPE,
};
use tensaku::math::{Rect, Vec2D};
use tensaku::pixels::Pixbuf;
use tensaku::style::{Color, Size, Style};
use tensaku::text_bands::{BandState, TextBand};
use tensaku::tools::arrow::{Arrow, ArrowHead, ArrowMetrics, ArrowStyle, ArrowTool};
use tensaku::tools::blur::{
    canvas_cell, canvas_region, lacks_fringe, pixelate, quantize, secure_fill, Blur, BlurPlan,
    BlurStyle, BlurTool, Rgba,
};
use tensaku::tools::highlight::{
    opacity_alpha, HighlightStep, HighlightStroke, HighlightTool, HighlighterStyle,
};
use tensaku::tools::line::{Line, LineTool};
use tensaku::tools::marker::{dark_text, disc_radius, marker_radius, marker_text_size, Marker, MarkerTool};
use tensaku::tools::marks::{halo_in_image_units, handle_mark, HandleMark};
use tensaku::tools::pasted_image::PastedImage;
use tensaku::tools::{CanvasTransform, HandleId, HandleKind, PanelPreview, ToolUpdateResult, Tools};
use tensaku::units::{MICRO, UNIT};

fn style() -> Style {
    Style {
        color: Color::red(),
        size: Size::Medium,
        fill: false,
        annotation_size_factor: MICRO,
        spotlight_darkness: 600_000,
        highlighter_opacity: 400_000,
    }
}

fn p(x: i64, y: i64) -> Vec2D {
    Vec2D::new(x * UNIT, y * UNIT)
}

fn mouse(type_: MouseEventType, pos: Vec2D, shift: bool) -> MouseEventMsg {
    MouseEventMsg {
        type_,
        button: MouseButton::Primary,
        modifier: Modifiers {
            shift,
            control: false,
            alt: false,
            super_key: false,
            other: 0,
        },
        pos,
        n_pressed: 1,
        release: false,
    }
}

#[test]
fn a_line_is_dragged_out() {
    let mut t = LineTool {
        line: None,
        style: style(),
        input_enabled: true,
    };
    t.handle_mouse_event(mouse(MouseEventType::BeginDrag, p(10, 10), false), p(10, 10));
    t.handle_mouse_event(mouse(MouseEventType::UpdateDrag, p(30, 4), true), p(30, 0));
    assert_eq!(t.get_drawable().unwrap().direction, Some(p(30, 0)));
    match t.handle_mouse_event(mouse(MouseEventType::EndDrag, p(30, 4), false), p(30, 0)) {
        ToolUpdateResult::Commit(l) => {
            assert_eq!(l.start, p(10, 10));
            assert_eq!(l.direction, Some(p(30, 4)));
        }
        other => panic!("{other:?}"),
    }
    assert!(t.get_drawable().is_none());
}

fn line() -> Line {
    Line {
        start: p(10, 10),
        direction: Some(p(20, 0)),
        style: style(),
    }
}

#[test]
fn a_line_is_hit_near_it() {
    let l = line();
    assert!(l.hit_test(p(20, 14), 2 * UNIT, 4 * UNIT));
    assert!(!l.hit_test(p(20, 16), 2 * UNIT, 4 * UNIT));
    assert_eq!(l.panel_preview(), PanelPreview::Line);
    assert_eq!(l.tool_type(), Some(Tools::Line));
}

#[test]
fn a_line_follows_the_image() {
    let mut l = line();
    l.apply_canvas_transform(CanvasTransform::FlipHorizontal, 100 * UNIT, 60 * UNIT);
    assert_eq!(l.start, p(90, 10));
    assert_eq!(l.direction, Some(p(-20, 0)));
    l.translate(p(5, 5));
    assert_eq!(l.start, p(95, 15));
    l.move_handle(HandleId::End, p(95, 40));
    assert_eq!(l.direction, Some(p(0, 25)));
}

fn arrow(kind: ArrowStyle) -> Arrow {
    Arrow {
        start: p(0, 0),
        end: Some(p(100, 0)),
        style: style(),
        arrow_style: kind,
        curve_control: None,
    }
}

fn metrics() -> ArrowMetrics {
    ArrowMetrics {
        head_length: 20 * UNIT,
        pointy_head_length: 24 * UNIT,
        head_full_height: 16 * UNIT,
        pointy_head_full_height: 18 * UNIT,
        curved_head_half_height: 8 * UNIT,
        tail_width: 8 * UNIT,
        pointy_tail_width: 9 * UNIT,
        tail_back_width: 2 * UNIT,
        pointy_tail_back_width: 3 * UNIT,
        line_width: 4 * UNIT,
        curved_shaft_width: 5 * UNIT,
    }
}

#[test]
fn a_curve_bends_to_the_side() {
    let a = arrow(ArrowStyle::Curved);
    assert_eq!(a.bezier_control(p(100, 0)), Some(p(50, 25)));
    let pts = a.bezier_sample(p(100, 0), p(50, 25), 2);
    assert_eq!(pts, vec![p(0, 0), Vec2D::new(50 * UNIT, 25 * UNIT / 2), p(100, 0)]);
    assert_eq!(a.bezier_control(p(0, 0)), None);
}

#[test]
fn a_double_arrow_has_two_heads() {
    let (control, heads) = arrow(ArrowStyle::Double).curved_shape().unwrap();
    assert_eq!(control, p(50, 25));
    assert_eq!(
        heads,
        vec![
            ArrowHead { tip: p(100, 0), from: control },
            ArrowHead { tip: p(0, 0), from: control },
        ]
    );
    assert_eq!(arrow(ArrowStyle::Curved).curved_shape().unwrap().1.len(), 1);
    assert!(arrow(ArrowStyle::Pointy).curved_shape().is_none());
    let mut bent = arrow(ArrowStyle::Double);
    bent.curve_control = Some(p(0, 0));
    assert_eq!(bent.curved_shape().unwrap().1.len(), 1);
}

#[test]
fn a_straight_arrow_has_an_outline() {
    let m = metrics();
    let (path, round) = arrow(ArrowStyle::Standard).solid_shape(&m, 100 * UNIT).unwrap();
    assert!(round);
    assert_eq!(path.len(), 7);
    assert_eq!(path[3], p(100, 0));
    assert_eq!(path[0], p(0, 0));
    let (pointy, round) = arrow(ArrowStyle::Pointy).solid_shape(&m, 100 * UNIT).unwrap();
    assert!(!round);
    assert_eq!(pointy[0], Vec2D::new(0, 3 * UNIT / 2));
    assert!(arrow(ArrowStyle::Standard).solid_shape(&m, UNIT - 1).is_none());
    assert_eq!(arrow(ArrowStyle::Standard).glow_width(&m, 4 * UNIT), 10 * UNIT);
    assert_eq!(arrow(ArrowStyle::Pointy).glow_width(&m, 4 * UNIT), 8 * UNIT);
    assert_eq!(arrow(ArrowStyle::Double).glow_width(&m, 4 * UNIT), 13 * UNIT);
}

#[test]
fn bending_an_arrow_reaches_the_pointer() {
    let mut a = arrow(ArrowStyle::Curved);
    a.move_handle(HandleId::Control, p(50, 40));
    let control = a.bezier_control(p(100, 0)).unwrap();
    assert_eq!(a.bezier_sample(p(100, 0), control, 2)[1], p(50, 40));
    let moved = {
        let mut b = a;
        b.translate(p(7, 3));
        b
    };
    assert_eq!(moved.bezier_control(p(107, 3)), Some(Vec2D::new(control.x + 7 * UNIT, control.y + 3 * UNIT)));
}

#[test]
fn arrow_styles_go_round() {
    assert_eq!(ArrowStyle::Standard.next(), ArrowStyle::Pointy);
    assert_eq!(ArrowStyle::Standard.prev(), ArrowStyle::Double);
    assert_eq!(ArrowStyle::Curved.display_name(), "Curved");
    assert_eq!(arrow(ArrowStyle::Double).panel_label_kind(), "Double Arrow");
}

#[test]
fn an_arrow_is_dragged_out() {
    let mut t = ArrowTool {
        arrow: None,
        style: style(),
        arrow_style: ArrowStyle::Curved,
        input_enabled: true,
    };
    t.handle_mouse_event(mouse(MouseEventType::BeginDrag, p(5, 5), false), p(5, 5));
    match t.handle_mouse_event(mouse(MouseEventType::EndDrag, p(20, 10), false), p(20, 0)) {
        ToolUpdateResult::Commit(a) => {
            assert_eq!(a.end, Some(p(25, 15)));
            assert_eq!(a.arrow_style, ArrowStyle::Curved);
        }
        other => panic!("{other:?}"),
    }
}

#[test]
fn badges_grow_with_their_number() {
    assert_eq!(marker_text_size(Size::Medium, MICRO, MICRO), 36 * UNIT);
    assert_eq!(marker_text_size(Size::Small, 2 * MICRO, MICRO / 2), 22 * UNIT);
    let one = marker_radius(36 * UNIT, 7);
    let two = marker_radius(36 * UNIT, 77);
    assert!(one < two);
    assert_eq!(one / UNIT, 28);
    assert_eq!(disc_radius(3 * UNIT, 4 * UNIT, 0), 65 * 5 * UNIT / 100);
    assert_eq!(disc_radius(0, 0, 100 * UNIT), 55 * UNIT);
}

#[test]
fn numbers_are_readable() {
    assert!(dark_text(Color { r: 255, g: 255, b: 255, a: 255 }));
    assert!(!dark_text(Color { r: 255, g: 0, b: 0, a: 255 }));
    assert!(!dark_text(Color { r: 0, g: 0, b: 0, a: 255 }));
}

#[test]
fn badges_count_up() {
    let mut t = MarkerTool::new(style());
    for n in 1..4u16 {
        match t.handle_mouse_event(mouse(MouseEventType::Click, p(10, 10), false)) {
            ToolUpdateResult::Commit(m) => assert_eq!(m.number, n),
            other => panic!("{other:?}"),
        }
    }
    let m = Marker {
        pos: p(10, 10),
        scale: MICRO,
        number: 3,
        style: style(),
        preview: false,
    };
    assert!(m.hit_test(p(10, 10), 0));
    assert!(!m.hit_test(p(10, 10), -1000 * UNIT));
    m.handle_undo(&mut t.next_number);
    assert_eq!(t.next_number, 3);
    m.handle_redo(&mut t.next_number);
    assert_eq!(t.next_number, 4);
}

fn gray(v: u8) -> Rgba {
    Rgba { r: v, g: v, b: v, a: 255 }
}

#[test]
fn a_secure_blur_sees_only_the_fringe() {
    let mut outer = vec![gray(100); 16];
    let filled = secure_fill(&outer, 2, 2);
    assert_eq!(filled, vec![gray(100); 4]);
    for at in [5, 6, 9, 10] {
        outer[at] = gray(7);
    }
    assert_eq!(secure_fill(&outer, 2, 2), filled);
    outer[1] = gray(200);
    assert_ne!(secure_fill(&outer, 2, 2), filled);
}

#[test]
fn a_mosaic_has_few_colors() {
    assert_eq!(quantize(quantize(77)), quantize(77));
    assert_eq!(quantize(0), 0);
    let src = vec![gray(10), gray(20), gray(200), gray(210), gray(30), gray(40), gray(220), gray(230)];
    let (cells, w, h) = pixelate(&src, 4, 2, 2);
    assert_eq!((w, h), (2, 1));
    assert_eq!(cells[0].r, quantize(25));
    assert_eq!(cells[1].r, quantize(215));
    assert_eq!(canvas_cell(UNIT), 2);
    assert_eq!(canvas_cell(11 * UNIT / 2), 6);
}

#[test]
fn a_region_is_cut_to_the_canvas() {
    assert_eq!(canvas_region(p(-5, 10), p(20, 20), 100, 100), Some((0, 10, 15, 20)));
    assert_eq!(canvas_region(p(200, 10), p(20, 20), 100, 100), None);
    assert!(lacks_fringe(0, 10, 15, 20, 100, 100));
    assert!(!lacks_fringe(1, 10, 15, 20, 100, 100));
    assert!(lacks_fringe(80, 10, 20, 20, 100, 100));
    assert!(!lacks_fringe(80, 10, 19, 20, 100, 100));
}

#[test]
fn a_blur_is_made_once() {
    let mut deleted = Vec::new();
    let mut b = Blur {
        top_left: p(10, 10),
        size: Some(p(20, 20)),
        style: style(),
        blur_style: BlurStyle::Pixelate,
        editing: false,
        cached_image: None,
    };
    assert!(matches!(
        b.draw_plan(p(0, 0), p(100, 100)),
        BlurPlan::Resample(BlurStyle::Pixelate, ..)
    ));
    b.cached_image = Some(8);
    assert!(matches!(b.draw_plan(p(0, 0), p(100, 100)), BlurPlan::Cached(8, ..)));
    assert!(b.clone().cached_image.is_none());
    b.translate(p(1, 1), &mut deleted);
    assert_eq!(deleted, vec![8]);
    assert!(b.cached_image.is_none());
    assert_eq!(b.top_left, p(11, 11));
    b.blur_style = BlurStyle::BlackOut;
    assert!(matches!(b.draw_plan(p(0, 0), p(100, 100)), BlurPlan::Black(..)));
    assert_eq!(BlurStyle::BlackOut.display_name(), "Black Out");
}

#[test]
fn a_blur_is_hit_on_its_region() {
    let mut b = Blur {
        top_left: p(10, 10),
        size: Some(p(20, 20)),
        style: style(),
        blur_style: BlurStyle::Gaussian,
        editing: false,
        cached_image: None,
    };
    assert!(b.hit_test(p(10, 30), 0));
    assert!(!b.hit_test(p(9, 30), 0));
    assert!(b.hit_test(p(9, 31), UNIT));
    assert!(!b.hit_test(p(10, 30), -UNIT));
    b.size = None;
    assert!(!b.hit_test(p(10, 10), UNIT));
}

#[test]
fn an_empty_blur_is_dropped() {
    let mut t = BlurTool {
        blur: None,
        style: style(),
        blur_style: BlurStyle::Gaussian,
        input_enabled: true,
    };
    t.handle_mouse_event(mouse(MouseEventType::BeginDrag, p(5, 5), false));
    let r = t.handle_mouse_event(mouse(MouseEventType::EndDrag, p(0, 0), false));
    assert!(!matches!(r, ToolUpdateResult::Commit(_)));
    assert!(t.get_drawable().is_none());
}

fn stroke() -> HighlightStroke {
    HighlightStroke {
        first: p(10, 10),
        rest: vec![p(0, 0), p(10, 0), p(20, 10)],
        style: style(),
        shift_pressed: false,
        forced_width: None,
        highlight_style: HighlighterStyle::Normal,
    }
}

#[test]
fn a_highlight_has_a_box() {
    let s = stroke();
    let b = s.bounds(4 * UNIT).unwrap();
    assert_eq!(b.top_left(), p(8, 8));
    assert_eq!(b.bottom_right(), p(32, 22));
    assert!(s.hit_test(p(15, 11), 0, 4 * UNIT));
    assert_eq!(s.absolute_points()[3], p(30, 20));
    let mut locked = stroke();
    locked.forced_width = Some(10 * UNIT);
    assert_eq!(locked.stroke_width(4 * UNIT), 10 * UNIT);
    assert_eq!(locked.panel_label_kind(), "Normal Highlight");
}

#[test]
fn a_highlight_stretches() {
    let mut s = stroke();
    s.move_handle(HandleId::BottomRight, p(56, 36), 4 * UNIT);
    let pts = s.absolute_points();
    assert_eq!(pts[0], p(12, 12));
    assert_eq!(pts[3], p(52, 32));
}

#[test]
fn opacity_becomes_alpha() {
    let mut s = style();
    assert_eq!(opacity_alpha(&s), 102);
    s.highlighter_opacity = MICRO;
    assert_eq!(opacity_alpha(&s), 255);
    s.highlighter_opacity = 0;
    assert_eq!(opacity_alpha(&s), 0);
}

#[test]
fn a_free_highlight_is_drawn() {
    let mut t = HighlightTool {
        stroke: None,
        style: style(),
        input_enabled: true,
        locked_band: None,
        drag_anchor: None,
        highlight_style: HighlighterStyle::Normal,
        drag_style: None,
    };
    let mut bands = BandState::new();
    t.handle_mouse_event(mouse(MouseEventType::BeginDrag, p(5, 5), false), p(0, 0), &mut bands);
    t.handle_mouse_event(mouse(MouseEventType::UpdateDrag, p(10, 1), false), p(10, 0), &mut bands);
    assert!(t.get_drawable().is_some());
    match t.handle_mouse_event(mouse(MouseEventType::EndDrag, p(20, 2), false), p(20, 0), &mut bands) {
        HighlightStep::Smooth(stroke, points, level) => {
            assert_eq!(level, 4);
            assert_eq!(points, vec![p(5, 5), p(15, 6), p(25, 7)]);
            let s = stroke.smoothed(&vec![p(6, 6), p(16, 8)]);
            assert_eq!((s.first, s.rest), (p(6, 6), vec![p(10, 2)]));
        }
        HighlightStep::Done(_) => panic!("the points are smoothed first"),
    }
    assert!(t.get_drawable().is_none());
}

#[test]
fn a_drag_that_ends_where_it_began_leaves_nothing() {
    let band = Some(TextBand {
        y_start: 0,
        y_end: 10 * UNIT,
    });
    let mut t = HighlightTool {
        stroke: None,
        style: style(),
        input_enabled: true,
        locked_band: None,
        drag_anchor: None,
        highlight_style: HighlighterStyle::Normal,
        drag_style: None,
    };
    let mut bands = BandState::new();
    t.handle_mouse_event(mouse(MouseEventType::BeginDrag, p(5, 5), false), p(0, 0), &mut bands);
    t.locked_band = band;
    let end = mouse(MouseEventType::EndDrag, p(0, 0), false);
    assert!(matches!(
        t.handle_mouse_event(end, p(0, 0), &mut bands),
        HighlightStep::Done(ToolUpdateResult::Redraw)
    ));
    assert!(t.stroke.is_none() && t.locked_band.is_none());
    assert!(t.drag_anchor.is_none() && t.drag_style.is_none());

    t.handle_mouse_event(mouse(MouseEventType::BeginDrag, p(5, 5), false), p(0, 0), &mut bands);
    t.locked_band = band;
    t.handle_key_event(KeyEventMsg::new(Key(KEY_ESCAPE), 0, end.modifier));
    let end = mouse(MouseEventType::EndDrag, p(30, 0), false);
    assert!(matches!(
        t.handle_mouse_event(end, p(30, 0), &mut bands),
        HighlightStep::Done(ToolUpdateResult::Unmodified)
    ));
    assert!(t.locked_band.is_none() && t.drag_anchor.is_none() && t.drag_style.is_none());
}

#[test]
fn bands_know_their_middle() {
    let b = TextBand {
        y_start: 10 * UNIT,
        y_end: 20 * UNIT,
    };
    assert_eq!(b.center_y(), 15 * UNIT);
    assert_eq!(b.height(), 10 * UNIT);
    assert!(b.contains_y(10 * UNIT));
    assert!(!b.contains_y(20 * UNIT));
}

#[test]
fn a_pasted_image_turns_with_the_canvas() {
    let pixels = vec![
        1, 2, 3, 255, 4, 5, 6, 255, //
        7, 8, 9, 255, 10, 11, 12, 255, //
        13, 14, 15, 255, 16, 17, 18, 255,
    ];
    let buf = Pixbuf {
        width: 2,
        height: 3,
        rowstride: 8,
        has_alpha: true,
        pixels,
    };
    let mut img = PastedImage::from_pixbuf(&buf, p(10, 20), p(2, 3));
    let before = img.data.rgba.clone();
    img.apply_canvas_transform(CanvasTransform::RotateCcw, 100 * UNIT, 60 * UNIT);
    assert_eq!((img.data.width, img.data.height), (3, 2));
    assert_eq!(&img.data.rgba[0..4], &[4, 5, 6, 255]);
    assert_eq!(img.size, p(3, 2));
    img.apply_canvas_transform(CanvasTransform::RotateCw, 60 * UNIT, 100 * UNIT);
    assert_eq!(img.data.rgba, before);
    assert_eq!(img.pos, p(10, 20));
}

#[test]
fn the_last_number_leaves_other_events_alone() {
    let mut t = MarkerTool::new(style());
    t.next_number = u16::MAX;
    assert!(matches!(
        t.handle_mouse_event(mouse(MouseEventType::BeginDrag, p(1, 1), false)),
        ToolUpdateResult::Unmodified
    ));
    assert_eq!(t.next_number, u16::MAX);
}

#[test]
fn a_copied_image_has_nothing_uploaded() {
    let buf = Pixbuf {
        width: 1,
        height: 1,
        rowstride: 4,
        has_alpha: true,
        pixels: vec![1, 2, 3, 4],
    };
    let mut img = PastedImage::from_pixbuf(&buf, p(10, 20), p(2, 3));
    img.image_id = Some(7);
    let copy = img.clone();
    assert_eq!(copy.image_id, None);
    assert_eq!((copy.pos, copy.size), (img.pos, img.size));
    assert_eq!(copy.data.rgba, vec![1, 2, 3, 4]);
    assert_eq!((copy.data.width, copy.data.height), (1, 1));
}

#[test]
fn marks_keep_their_size_on_screen() {
    assert_eq!(halo_in_image_units(MICRO, MICRO), 4 * UNIT);
    assert_eq!(halo_in_image_units(2 * MICRO, MICRO), 2 * UNIT);
    assert_eq!(halo_in_image_units(MICRO, 2 * MICRO), 8 * UNIT);
    assert_eq!(
        handle_mark(HandleKind::Round, MICRO, MICRO),
        HandleMark { inner: 6 * UNIT, outer: 8 * UNIT, corner: 0 }
    );
    assert_eq!(
        handle_mark(HandleKind::Square, 2 * MICRO, 2 * MICRO),
        HandleMark { inner: 3 * UNIT, outer: 5 * UNIT, corner: 3 * UNIT / 2 }
    );
}

#[test]
fn a_box_contains_its_edges() {
    let r = Rect::new(p(0, 0), p(10, 10));
    assert!(r.contains(p(10, 10)));
    assert!(!r.contains(Vec2D::new(10 * UNIT + 1, 0)));
}
