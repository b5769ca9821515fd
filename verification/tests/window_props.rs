use telemetry_chart::sample::Sample;
use telemetry_chart::window::Window;

#[test]
fn capacity_holds_after_overflow() {
    let mut w = Window::new(50);
    for i in 0..55u64 {
        w.push(Sample { x: 2 * i, y: i });
    }
    assert_eq!(w.len(), 50);
    let snap = w.snapshot();
    assert_eq!(snap.len(), 50);
    // the retained samples are exactly the last 50 pushed, oldest first
    for (k, s) in snap.iter().enumerate() {
        let i = 5 + k as u64;
        assert_eq!(*s, Sample { x: 2 * i, y: i });
    }
}

#[test]
fn eviction_is_deterministic() {
    // x = 0.0, 0.2, 0.4 in tenths, into a window of capacity 2
    let mut w = Window::new(2);
    w.push(Sample { x: 0, y: 11 });
    w.push(Sample { x: 2, y: 22 });
    w.push(Sample { x: 4, y: 33 });
    let snap = w.snapshot();
    assert_eq!(snap, vec![Sample { x: 2, y: 22 }, Sample { x: 4, y: 33 }]);
}

#[test]
fn x_positions_stay_increasing() {
    let mut w = Window::new(3);
    for i in 0..9u64 {
        w.push(Sample { x: 3 * i + 1, y: 100 - i });
    }
    let snap = w.snapshot();
    for pair in snap.windows(2) {
        assert!(pair[0].x < pair[1].x);
    }
}

#[test]
fn snapshot_is_a_copy() {
    let mut w = Window::new(4);
    w.push(Sample { x: 1, y: 2 });
    let snap = w.snapshot();
    w.push(Sample { x: 3, y: 4 });
    assert_eq!(snap.len(), 1);
    assert_eq!(w.len(), 2);
}

#[test]
fn short_runs_keep_everything() {
    let mut w = Window::new(10);
    for i in 0..10u64 {
        w.push(Sample { x: i, y: i });
        assert_eq!(w.len(), (i + 1) as usize);
    }
}
