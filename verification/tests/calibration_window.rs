use spindle_backend::calibration::{
    SampleWindow, MIN_SAMPLES_FOR_UPDATE, UPDATE_BATCH, WINDOW_SIZE,
};

#[test]
fn new_window_is_empty() {
    let w: SampleWindow<u32> = SampleWindow::new();
    assert_eq!(w.len(), 0);
    assert!(!w.ready_for_update());
    assert!(w.newest_first().is_empty());
}

#[test]
fn window_keeps_the_latest_samples() {
    let mut w = SampleWindow::new();
    for i in 0..(WINDOW_SIZE as u32 + 5) {
        w.push(i);
    }
    assert_eq!(w.len(), WINDOW_SIZE);
    let batch = w.newest_first();
    assert_eq!(batch.len(), UPDATE_BATCH);
    assert_eq!(*batch[0], WINDOW_SIZE as u32 + 4);
    assert_eq!(*batch[UPDATE_BATCH - 1], WINDOW_SIZE as u32 + 5 - UPDATE_BATCH as u32);
}

#[test]
fn window_at_capacity_drops_the_oldest() {
    let mut w = SampleWindow::new();
    for i in 0..(WINDOW_SIZE as u32) {
        w.push(i);
    }
    assert_eq!(w.len(), 200);
    w.push(1000);
    assert_eq!(w.len(), 200);
    let mut all = SampleWindow::new();
    for i in 1..(WINDOW_SIZE as u32) {
        all.push(i);
    }
    all.push(1000);
    let a: Vec<u32> = w.newest_first().into_iter().copied().collect();
    let b: Vec<u32> = all.newest_first().into_iter().copied().collect();
    assert_eq!(a, b);
}

#[test]
fn refit_needs_ten_samples() {
    let mut w = SampleWindow::new();
    for i in 0..(MIN_SAMPLES_FOR_UPDATE - 1) {
        w.push(i);
        assert!(!w.ready_for_update());
    }
    w.push(99);
    assert!(w.ready_for_update());
    assert_eq!(MIN_SAMPLES_FOR_UPDATE, 10);
}

#[test]
fn short_window_batch_is_reversed_window() {
    let mut w = SampleWindow::new();
    for s in ["a", "b", "c"] {
        w.push(s);
    }
    let batch: Vec<&str> = w.newest_first().into_iter().copied().collect();
    assert_eq!(batch, vec!["c", "b", "a"]);
}

#[test]
fn clone_keeps_samples() {
    let mut w = SampleWindow::new();
    w.push(String::from("x"));
    w.push(String::from("y"));
    let c = w.clone();
    assert_eq!(c.len(), 2);
    assert_eq!(c.newest_first()[0].as_str(), "y");
}
