use good_web_game::canvas::ArcStart;
use good_web_game::canvas::CanvasContext;
use good_web_game::canvas::CanvasOp;
use good_web_game::canvas::F32_ONE;
use good_web_game::canvas::LINE_HEIGHT;
use good_web_game::canvas::Rect;
use good_web_game::canvas::Transform;
use good_web_game::canvas::Vec2;
use good_web_game::ArcAttr;
use good_web_game::RectAttr;

fn v(x: f32, y: f32) -> Vec2 {
    Vec2 { x: x.to_bits(), y: y.to_bits() }
}

fn r(x: f32, y: f32, w: f32, h: f32) -> Rect {
    Rect { x: x.to_bits(), y: y.to_bits(), w: w.to_bits(), h: h.to_bits() }
}

#[test]
fn identity_constant_is_the_float_one() {
    assert_eq!(f32::from_bits(F32_ONE), 1.0);
}

#[test]
fn push_then_pop_restores_the_transform() {
    let mut c = CanvasContext::new();
    let t1 = Transform { a: F32_ONE, b: 0, c: 0, d: F32_ONE, e: 2.0f32.to_bits(), f: 0 };
    let t2 = Transform { a: 3.0f32.to_bits(), b: 0, c: 0, d: F32_ONE, e: 0, f: 0 };
    c.set_transform(&t1);
    let before_current = c.current.clone();
    let before_saved = c.saved.clone();
    c.push_transform(&t2);
    assert_eq!(c.current, vec![t1, t2]);
    c.pop_transform();
    assert_eq!(c.current, before_current);
    assert_eq!(c.saved, before_saved);
    let ops = c.take_ops();
    assert_eq!(
        ops,
        vec![
            CanvasOp::SetTransform(t1),
            CanvasOp::Save,
            CanvasOp::ApplyTransform(t2),
            CanvasOp::Restore,
        ]
    );
}

#[test]
fn pop_with_nothing_saved_changes_nothing() {
    let mut c = CanvasContext::new();
    c.pop_transform();
    assert!(c.current.is_empty());
    assert!(c.saved.is_empty());
    assert_eq!(c.take_ops(), vec![CanvasOp::Restore]);
}

#[test]
fn clear_resets_transform_between_save_and_restore() {
    let mut c = CanvasContext::new();
    let w = (640.0f64).to_bits();
    let h = (480.0f64).to_bits();
    c.clear(w, h);
    assert_eq!(
        c.take_ops(),
        vec![
            CanvasOp::Save,
            CanvasOp::SetTransform(Transform { a: F32_ONE, b: 0, c: 0, d: F32_ONE, e: 0, f: 0 }),
            CanvasOp::ClearRect { w, h },
            CanvasOp::Restore,
        ]
    );
    assert!(c.current.is_empty());
}

#[test]
fn draw_line_records_the_canvas_calls_in_order() {
    let mut c = CanvasContext::new();
    c.draw_line(v(1.0, 2.0), v(3.0, 4.0), "blue");
    assert_eq!(
        c.take_ops(),
        vec![
            CanvasOp::Save,
            CanvasOp::SetStrokeColor("blue".to_string()),
            CanvasOp::BeginPath,
            CanvasOp::MoveTo(v(1.0, 2.0)),
            CanvasOp::LineTo(v(3.0, 4.0)),
            CanvasOp::Stroke,
            CanvasOp::Restore,
        ]
    );
}

#[test]
fn draw_rect_paints_in_attribute_order() {
    let mut c = CanvasContext::new();
    let rect = r(1.0, 2.0, 3.0, 4.0);
    c.draw_rect(rect, &[RectAttr::Fill("red"), RectAttr::Stroke("black")]);
    assert_eq!(
        c.take_ops(),
        vec![
            CanvasOp::Save,
            CanvasOp::SetFillColor("red".to_string()),
            CanvasOp::SetStrokeColor("black".to_string()),
            CanvasOp::BeginPath,
            CanvasOp::RectPath { rect, centered: false },
            CanvasOp::Fill,
            CanvasOp::Stroke,
            CanvasOp::Restore,
        ]
    );
}

#[test]
fn draw_rect_rotate_centers_on_the_rect() {
    let mut c = CanvasContext::new();
    let rect = r(10.0, 20.0, 30.0, 40.0);
    let angle = 0.5f32.to_bits();
    c.draw_rect(rect, &[RectAttr::Rotate(angle), RectAttr::Stroke("red")]);
    assert_eq!(
        c.take_ops(),
        vec![
            CanvasOp::Save,
            CanvasOp::TranslateToCenter(rect),
            CanvasOp::Rotate(angle),
            CanvasOp::SetStrokeColor("red".to_string()),
            CanvasOp::BeginPath,
            CanvasOp::RectPath { rect, centered: true },
            CanvasOp::Stroke,
            CanvasOp::Restore,
        ]
    );
}

#[test]
fn draw_arc_defaults_to_a_full_centered_turn() {
    let mut c = CanvasContext::new();
    c.draw_arc(v(5.0, 6.0), 7.0f32.to_bits(), &[ArcAttr::Stroke("green")]);
    assert_eq!(
        c.take_ops(),
        vec![
            CanvasOp::Save,
            CanvasOp::SetStrokeColor("green".to_string()),
            CanvasOp::BeginPath,
            CanvasOp::ArcPath {
                center: v(5.0, 6.0),
                radius: 7.0f32.to_bits(),
                sweep: None,
                start: ArcStart::Centered,
            },
            CanvasOp::Stroke,
            CanvasOp::Restore,
        ]
    );
}

#[test]
fn draw_arc_last_angle_and_forward_win_and_sector_brackets() {
    let mut c = CanvasContext::new();
    let attrs = vec![
        ArcAttr::Angle(1.0f32.to_bits()),
        ArcAttr::Forward(v(0.0, 1.0)),
        ArcAttr::Sector,
        ArcAttr::Angle(2.0f32.to_bits()),
        ArcAttr::Fill("red"),
        ArcAttr::Forward(v(1.0, 0.0)),
    ];
    let center = v(0.0, 0.0);
    c.draw_arc(center, 4.0f32.to_bits(), &attrs);
    assert_eq!(
        c.take_ops(),
        vec![
            CanvasOp::Save,
            CanvasOp::SetFillColor("red".to_string()),
            CanvasOp::BeginPath,
            CanvasOp::MoveTo(center),
            CanvasOp::ArcPath {
                center,
                radius: 4.0f32.to_bits(),
                sweep: Some(2.0f32.to_bits()),
                start: ArcStart::Forward(v(1.0, 0.0)),
            },
            CanvasOp::MoveTo(center),
            CanvasOp::Fill,
            CanvasOp::Restore,
        ]
    );
}

#[test]
fn draw_arc_dash_is_handed_through() {
    let mut c = CanvasContext::new();
    let dash = vec![1.0f32.to_bits(), 2.0f32.to_bits()];
    c.draw_arc(v(0.0, 0.0), 1.0f32.to_bits(), &[ArcAttr::Dash(dash.clone())]);
    let ops = c.take_ops();
    assert_eq!(ops[1], CanvasOp::SetLineDash(dash));
}

#[test]
fn draw_label_without_scale_draws_lines_from_the_position() {
    let mut c = CanvasContext::new();
    let pos = v(100.0, 50.0);
    c.draw_label("a\nbb", pos, None, None, Some("white"));
    assert_eq!(
        c.take_ops(),
        vec![
            CanvasOp::Save,
            CanvasOp::SetFillColor("white".to_string()),
            CanvasOp::SetTextAlign,
            CanvasOp::SetTextBaseline,
            CanvasOp::FillText { text: "a".to_string(), base: pos, row: 0 },
            CanvasOp::FillText { text: "bb".to_string(), base: pos, row: 1 },
            CanvasOp::Restore,
        ]
    );
}

#[test]
fn draw_label_with_scale_draws_under_the_label_transform() {
    let mut c = CanvasContext::new();
    let pos = v(8.0, 9.0);
    let scale = v(2.0, 3.0);
    c.draw_label("hi", pos, Some(scale), Some("10px serif"), None);
    let origin = Vec2 { x: 0, y: 0 };
    assert_eq!(
        c.take_ops(),
        vec![
            CanvasOp::Save,
            CanvasOp::Save,
            CanvasOp::ApplyTransform(Transform {
                a: scale.x,
                b: 0,
                c: 0,
                d: scale.y,
                e: pos.x,
                f: pos.y,
            }),
            CanvasOp::SetFont("10px serif".to_string()),
            CanvasOp::SetTextAlign,
            CanvasOp::SetTextBaseline,
            CanvasOp::FillText { text: "hi".to_string(), base: origin, row: 0 },
            CanvasOp::Restore,
            CanvasOp::Restore,
        ]
    );
    // The label's own push and pop leave the transform state as it was.
    assert!(c.current.is_empty());
    assert!(c.saved.is_empty());
}

#[test]
fn measure_label_takes_the_wider_line_and_two_line_heights() {
    let c = CanvasContext::new();
    let w_a = (7.0f64).to_bits();
    let w_bb = (13.5f64).to_bits();
    let size = c.measure_label("a\nbb", &vec![w_a, w_bb]);
    assert_eq!(size.0, w_bb);
    assert_eq!(f64::from_bits(size.0), 13.5);
    assert_eq!(size.1, 2 * LINE_HEIGHT);
}

#[test]
fn unmeasurable_text_error_carries_its_message() {
    let err = good_web_game::CanvasError::UnmeasurableText;
    assert_eq!(err.message(), "unmeasurable text");
}

#[test]
fn measure_label_of_one_line() {
    let c = CanvasContext::new();
    let w = (3.25f64).to_bits();
    let size = c.measure_label("abc", &vec![w]);
    assert_eq!(size.0, w);
    assert_eq!(size.1, LINE_HEIGHT);
}
