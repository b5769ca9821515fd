use telemetry_chart::chart::RenderError;
use telemetry_chart::runloop::{start, App, InitError};

#[test]
fn warmup_fills_the_window() {
    // warm-up count 20 into capacity 50: the first frame is not empty
    let app = start(true, true, true).expect("all collaborators came up");
    let f = app.draw();
    assert_eq!(f.points.len(), 20);
    for (i, s) in f.points.iter().enumerate() {
        assert_eq!(s.x, 2 * i as u64);
        assert!(s.y < 1000);
    }
}

#[test]
fn fatal_init_failure_prevents_running() {
    let cases = [
        (true, false, true, InitError::Display),
        (false, true, true, InitError::Bus),
        (true, true, false, InitError::SampleSource),
    ];
    for (bus, display, source, expected) in cases {
        match start(bus, display, source) {
            Ok(_) => panic!("Running was entered despite a failed bring-up"),
            Err(e) => assert_eq!(e, expected),
        }
    }
}

#[test]
fn render_failure_is_transient() {
    let mut app = start(true, true, true).unwrap();
    let before = app.draw();
    let fatal = app.note_render(&Err(RenderError::Flush));
    assert!(!fatal);
    let after = app.draw();
    // the window's length and every sample are unchanged
    assert_eq!(before.points, after.points);
    assert_eq!(before.x_labels, after.x_labels);
    // and the next tick proceeds as normal
    app.update_with(777);
    let next = app.draw();
    assert_eq!(next.points.len(), 21);
    assert_eq!(next.points.last().unwrap().x, 40);
    assert_eq!(next.points.last().unwrap().y, 777);
}

#[test]
fn update_advances_x_by_the_fixed_step() {
    let mut app = App::new();
    app.update_with(100);
    app.update_with(200);
    app.update_with(300);
    let f = app.draw();
    let xs: Vec<u64> = f.points.iter().map(|s| s.x).collect();
    assert_eq!(xs, vec![0, 2, 4]);
}

#[test]
fn failed_reads_are_skipped() {
    let mut app = App::new();
    app.take_reading(Some(10));
    app.take_reading(None);
    app.take_reading(Some(20));
    let f = app.draw();
    // the failed read advanced nothing and pushed no sentinel
    let trace: Vec<(u64, u64)> = f.points.iter().map(|s| (s.x, s.y)).collect();
    assert_eq!(trace, vec![(0, 10), (2, 20)]);
}

#[test]
fn generated_samples_stay_in_range() {
    let mut app = App::new();
    for _ in 0..30 {
        app.update();
    }
    let f = app.draw();
    assert_eq!(f.points.len(), 30);
    for s in &f.points {
        assert!(s.y < 1000);
    }
}
