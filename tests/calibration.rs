use xpt2046::{
    calibration_math, solve, CalibrationCapture, CalibrationData, CalibrationError,
    CalibrationPoint, CalibrationSet, CaptureStage, CaptureStep, Point, TouchEvent, TouchKind,
};

fn pt(x: i32, y: i32) -> CalibrationPoint {
    CalibrationPoint { x, y }
}

fn ratio(n: i128, d: i128) -> f64 {
    n as f64 / d as f64
}

#[test]
fn reference_points_solve_to_identity() {
    let c = calibration_math(&CalibrationSet::default()).unwrap();
    assert!(c.scale > 0);
    assert!((ratio(c.alpha_x, c.scale) - 1.0).abs() < 1e-9);
    assert!(ratio(c.beta_x, c.scale).abs() < 1e-9);
    assert!(ratio(c.delta_x, c.scale).abs() < 1e-9);
    assert!(ratio(c.alpha_y, c.scale).abs() < 1e-9);
    assert!((ratio(c.beta_y, c.scale) - 1.0).abs() < 1e-9);
    assert!(ratio(c.delta_y, c.scale).abs() < 1e-9);
}

#[test]
fn reference_set_is_the_three_targets() {
    let s = CalibrationSet::default();
    assert_eq!(s.a, pt(30, 30));
    assert_eq!(s.b, pt(312, 113));
    assert_eq!(s.c, pt(167, 214));
}

#[test]
fn solved_transform_maps_touch_points_onto_targets() {
    let touch = CalibrationSet { a: pt(3650, 3500), b: pt(420, 2480), c: pt(2050, 1330) };
    let c = calibration_math(&touch).unwrap();
    let screen = CalibrationSet::default();
    for (t, s) in [(touch.a, screen.a), (touch.b, screen.b), (touch.c, screen.c)] {
        let p = c.apply(t.x as u16, t.y as u16);
        assert!((p.x as f64 - s.x as f64).abs() < 1e-6);
        assert!((p.y as f64 - s.y as f64).abs() < 1e-6);
    }
}

#[test]
fn determinant_is_folded_into_a_positive_scale() {
    // these touch points have a negative determinant
    let touch = CalibrationSet { a: pt(0, 0), b: pt(0, 10), c: pt(10, 0) };
    let screen = CalibrationSet { a: pt(0, 0), b: pt(0, 20), c: pt(20, 0) };
    let c = solve(&screen, &touch).unwrap();
    assert_eq!(c.scale, 100);
    assert_eq!((c.alpha_x, c.beta_x, c.delta_x), (200, 0, 0));
    assert_eq!((c.alpha_y, c.beta_y, c.delta_y), (0, 200, 0));
    assert_eq!(c.apply(7, 9), Point::new(14, 18));
}

#[test]
fn collinear_touch_points_are_rejected() {
    let touch = CalibrationSet { a: pt(100, 100), b: pt(200, 200), c: pt(300, 300) };
    assert_eq!(calibration_math(&touch), Err(CalibrationError::DegenerateInput));
    let same = CalibrationSet { a: pt(5, 5), b: pt(5, 5), c: pt(9, 1) };
    assert_eq!(calibration_math(&same), Err(CalibrationError::DegenerateInput));
}

#[test]
fn applying_twice_gives_the_same_point() {
    let touch = CalibrationSet { a: pt(3650, 3500), b: pt(420, 2480), c: pt(2050, 1330) };
    let c = calibration_math(&touch).unwrap();
    let first = c.apply(1234, 2345);
    let second = c.apply(1234, 2345);
    assert_eq!(first, second);
}

#[test]
fn identity_default_keeps_points() {
    let c = CalibrationData::default();
    assert_eq!(
        (c.alpha_x, c.beta_x, c.delta_x, c.alpha_y, c.beta_y, c.delta_y, c.scale),
        (1, 0, 0, 0, 1, 0, 1)
    );
    assert_eq!(c.apply(321, 123), Point::new(321, 123));
}

#[test]
fn mapped_points_are_clamped_to_display_range() {
    // x' = -x + 100 (negative for large x), y' = 40 * y
    let c = CalibrationData::from_coefficients(-1, 0, 100, 0, 40, 0, 1).unwrap();
    assert_eq!(c.apply(500, 2000), Point::new(0, 65535));
    assert_eq!(c.apply(50, 10), Point::new(50, 400));
    // -0.5 truncates to 0, 3.5 to 3
    let half = CalibrationData::from_coefficients(-1, 0, 0, 0, 1, 0, 2).unwrap();
    assert_eq!(half.apply(1, 7), Point::new(0, 3));
}

#[test]
fn malformed_coefficients_are_refused() {
    assert_eq!(CalibrationData::from_coefficients(1, 0, 0, 0, 1, 0, 0), None);
    assert_eq!(CalibrationData::from_coefficients(1, 0, 0, 0, 1, 0, -3), None);
    assert_eq!(CalibrationData::from_coefficients(i128::MAX, 0, 0, 0, 1, 0, 1), None);
    assert!(CalibrationData::from_coefficients(1, 0, 0, 0, 1, 0, 1).is_some());
}

#[test]
fn calibration_point_from_display_point() {
    assert_eq!(CalibrationPoint::from(Point::new(-4, 9)), pt(-4, 9));
}

fn ev(x: i32, y: i32, kind: TouchKind) -> Option<TouchEvent> {
    Some(TouchEvent { point: Point::new(x, y), kind })
}

#[test]
fn capture_keeps_last_move_and_advances_on_release() {
    let mut cap = CalibrationCapture::new();
    assert_eq!(cap.stage, CaptureStage::CapturingA);
    assert_eq!(cap.target(), Some(Point::new(30, 30)));
    assert_eq!(cap.finish(), None);

    assert_eq!(cap.handle(ev(1, 1, TouchKind::Start)), CaptureStep::Continue);
    assert!(!cap.pressed);
    assert_eq!(cap.handle(ev(3650, 3500, TouchKind::Move)), CaptureStep::Continue);
    assert!(cap.pressed);
    assert_eq!(cap.handle(ev(3660, 3510, TouchKind::Move)), CaptureStep::Continue);
    assert_eq!(cap.handle(None), CaptureStep::Continue);
    assert_eq!(cap.handle(ev(0, 0, TouchKind::End)), CaptureStep::Advance);
    assert!(!cap.pressed);
    assert_eq!(cap.touched.a, pt(3660, 3510));
    assert_eq!(cap.stage, CaptureStage::CapturingB);
    assert_eq!(cap.target(), Some(Point::new(312, 113)));

    cap.handle(ev(420, 2480, TouchKind::Move));
    assert_eq!(cap.handle(ev(420, 2480, TouchKind::End)), CaptureStep::Advance);
    assert_eq!(cap.target(), Some(Point::new(167, 214)));
    cap.handle(ev(2050, 1330, TouchKind::Move));
    assert_eq!(cap.handle(ev(2050, 1330, TouchKind::End)), CaptureStep::Advance);
    assert_eq!(cap.stage, CaptureStage::Done);
    assert_eq!(cap.target(), None);
    // nothing changes once done
    assert_eq!(cap.handle(ev(9, 9, TouchKind::End)), CaptureStep::Continue);
    assert_eq!(cap.stage, CaptureStage::Done);

    let touch = CalibrationSet { a: pt(3660, 3510), b: pt(420, 2480), c: pt(2050, 1330) };
    assert_eq!(cap.touched, touch);
    assert_eq!(cap.finish(), Some(calibration_math(&touch)));
}

#[test]
fn solution_matches_the_closed_form_in_floating_point() {
    let touch = CalibrationSet { a: pt(3650, 3500), b: pt(420, 2480), c: pt(2050, 1330) };
    let screen = CalibrationSet::default();
    let c = calibration_math(&touch).unwrap();
    let (t, s) = (touch, screen);
    let f = |v: i32| v as f64;
    let delta = (f(t.a.x) - f(t.c.x)) * (f(t.b.y) - f(t.c.y)) - (f(t.b.x) - f(t.c.x)) * (f(t.a.y) - f(t.c.y));
    let alpha_x = ((f(s.a.x) - f(s.c.x)) * (f(t.b.y) - f(t.c.y)) - (f(s.b.x) - f(s.c.x)) * (f(t.a.y) - f(t.c.y))) / delta;
    let beta_x = ((f(t.a.x) - f(t.c.x)) * (f(s.b.x) - f(s.c.x)) - (f(t.b.x) - f(t.c.x)) * (f(s.a.x) - f(s.c.x))) / delta;
    let delta_x = (f(s.a.x) * (f(t.b.x) * f(t.c.y) - f(t.c.x) * f(t.b.y))
        - f(s.b.x) * (f(t.a.x) * f(t.c.y) - f(t.c.x) * f(t.a.y))
        + f(s.c.x) * (f(t.a.x) * f(t.b.y) - f(t.b.x) * f(t.a.y)))
        / delta;
    let delta_y = (f(s.a.y) * (f(t.b.x) * f(t.c.y) - f(t.c.x) * f(t.b.y))
        - f(s.b.y) * (f(t.a.x) * f(t.c.y) - f(t.c.x) * f(t.a.y))
        + f(s.c.y) * (f(t.a.x) * f(t.b.y) - f(t.b.x) * f(t.a.y)))
        / delta;
    assert!((ratio(c.alpha_x, c.scale) - alpha_x).abs() < 1e-9);
    assert!((ratio(c.beta_x, c.scale) - beta_x).abs() < 1e-9);
    assert!((ratio(c.delta_x, c.scale) - delta_x).abs() < 1e-6);
    assert!((ratio(c.delta_y, c.scale) - delta_y).abs() < 1e-6);
    assert_eq!(c.scale as f64, delta.abs());
}
