use telemetry_chart::chart::compose_frame;
use telemetry_chart::scale::ViewBounds;
use telemetry_chart::sample::Sample;
use telemetry_chart::scale::scale;
use telemetry_chart::text::{format_tenths, format_units};
use telemetry_chart::window::Window;

#[test]
fn bounds_trail_the_latest_sample() {
    // latest x = 12.4, trailing width 10: x from 2.4 to 12.4
    let mut w = Window::new(50);
    w.push(Sample { x: 124, y: 500 });
    let b = scale(&w.snapshot());
    assert_eq!(b.x_min, 24);
    assert_eq!(b.x_max, 124);
    assert_eq!(b.y_min, 0);
    assert_eq!(b.y_max, 1000);
}

#[test]
fn bounds_clamp_at_zero() {
    // latest x = 3.0, trailing width 10: x_min clamps to 0.0
    let mut w = Window::new(50);
    w.push(Sample { x: 30, y: 1 });
    let b = scale(&w.snapshot());
    assert_eq!(b.x_min, 0);
    assert_eq!(b.x_max, 30);
}

#[test]
fn one_decimal_formatting() {
    assert_eq!(format_tenths(0), "0.0");
    assert_eq!(format_tenths(7), "0.7");
    assert_eq!(format_tenths(74), "7.4");
    assert_eq!(format_tenths(124), "12.4");
    assert_eq!(format_tenths(1000), "100.0");
    assert_eq!(format_units(0), "0");
    assert_eq!(format_units(500), "50");
    assert_eq!(format_units(1000), "100");
}

#[test]
fn frame_labels_span_the_bounds() {
    let mut w = Window::new(50);
    w.push(Sample { x: 124, y: 980 });
    let snap = w.snapshot();
    let b = scale(&snap);
    let f = compose_frame(&snap, b);
    assert_eq!(f.title, "Animated Chart");
    assert_eq!(f.x_labels, vec!["2.4", "7.4", "12.4"]);
    assert_eq!(f.y_labels, vec!["0", "50", "100"]);
    assert_eq!(f.bounds, b);
}

#[test]
fn trace_is_clipped_to_the_trailing_width() {
    // samples at x = 0.0, 0.2, ..., 12.4; only x >= 2.4 stays in view
    let mut w = Window::new(100);
    for i in 0..63u64 {
        w.push(Sample { x: 2 * i, y: i });
    }
    let snap = w.snapshot();
    let b = scale(&snap);
    assert_eq!(b.x_min, 24);
    assert_eq!(b.x_max, 124);
    let f = compose_frame(&snap, b);
    assert_eq!(f.points.len(), 51);
    assert_eq!(f.points.first().unwrap().x, 24);
    assert_eq!(f.points.last().unwrap().x, 124);
}

#[test]
fn empty_clip_when_bounds_lie_elsewhere() {
    let mut w = Window::new(10);
    w.push(Sample { x: 5, y: 5 });
    let snap = w.snapshot();
    let b = ViewBounds { x_min: 100, x_max: 200, y_min: 0, y_max: 1000 };
    let f = compose_frame(&snap, b);
    assert!(f.points.is_empty());
}
