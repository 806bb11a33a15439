use screen_demo_lib::sampler::{
    classify_cursor_shape, make_sample, process_cursor_changes, ClickTracker, CursorShape,
    InputEvent, MousePosition, SampleBuffer,
};

fn sample(ts: u64, shape: CursorShape) -> MousePosition {
    MousePosition { x: 10, y: 20, timestamp_ms: ts, is_clicked: false, cursor_type: shape }
}

#[test]
fn cursor_shapes_classify_in_order() {
    assert_eq!(classify_cursor_shape(1, 1, 2, 3), CursorShape::Default);
    assert_eq!(classify_cursor_shape(2, 1, 2, 3), CursorShape::Text);
    assert_eq!(classify_cursor_shape(3, 1, 2, 3), CursorShape::Pointer);
    assert_eq!(classify_cursor_shape(9, 1, 2, 3), CursorShape::Other);
    // On a handle collision the arrow comparison comes first.
    assert_eq!(classify_cursor_shape(7, 7, 7, 7), CursorShape::Default);
}

#[test]
fn coordinates_are_display_relative() {
    let s = make_sample(100, 200, 50, 80, 42, true, CursorShape::Text);
    assert_eq!(s.x, 50);
    assert_eq!(s.y, 120);
    assert_eq!(s.timestamp_ms, 42);
    assert!(s.is_clicked);
    // A display left of or above the desktop origin has negative origin.
    let s = make_sample(-10, 5, -100, -50, 0, false, CursorShape::Default);
    assert_eq!(s.x, 90);
    assert_eq!(s.y, 55);
}

#[test]
fn click_tracking_is_edge_triggered() {
    let mut t = ClickTracker::new();
    // Not listening: events change nothing.
    assert!(!t.on_event(InputEvent::ButtonPress));
    assert!(!t.is_pressed);
    t.listening = true;
    // First press is the edge.
    assert!(t.on_event(InputEvent::ButtonPress));
    assert!(t.is_pressed);
    // Rapid repeated press notifications for the same logical press do not
    // re-trigger the side effect.
    assert!(!t.on_event(InputEvent::ButtonPress));
    assert!(t.is_pressed);
    // Release clears both, and a new press is an edge again.
    assert!(!t.on_event(InputEvent::ButtonRelease));
    assert!(!t.is_pressed);
    assert!(t.on_event(InputEvent::ButtonPress));
    // Unrelated events change nothing.
    assert!(!t.on_event(InputEvent::Other));
    assert!(t.is_pressed);
}

#[test]
fn buffer_peek_does_not_remove() {
    let mut buf = SampleBuffer::new();
    buf.push(sample(0, CursorShape::Default));
    buf.push(sample(16, CursorShape::Default));
    buf.push(sample(16, CursorShape::Text));
    let peeked = buf.peek();
    assert_eq!(peeked.len(), 3);
    assert_eq!(buf.len(), 3);
    let drained = buf.drain();
    assert_eq!(drained, peeked);
    assert_eq!(buf.len(), 0);
}

#[test]
fn timestamps_come_back_in_order() {
    let mut buf = SampleBuffer::new();
    for ts in [0u64, 5, 5, 80, 1000] {
        buf.push(sample(ts, CursorShape::Default));
    }
    let out = buf.drain();
    for w in out.windows(2) {
        assert!(w[0].timestamp_ms <= w[1].timestamp_ms);
    }
}

#[test]
fn debounce_reclassifies_a_short_middle_run() {
    // Runs: Default 0-48 ms, Text 50-112 ms (span under 100 ms and not the
    // first run), Default 120-400 ms. The Text run is reclassified to the
    // shape of the run before it, leaving one continuous Default run.
    let mut positions = vec![
        sample(0, CursorShape::Default),
        sample(16, CursorShape::Default),
        sample(32, CursorShape::Default),
        sample(48, CursorShape::Default),
        sample(50, CursorShape::Text),
        sample(80, CursorShape::Text),
        sample(112, CursorShape::Text),
        sample(120, CursorShape::Default),
        sample(200, CursorShape::Default),
        sample(400, CursorShape::Default),
    ];
    let before = positions.clone();
    process_cursor_changes(&mut positions);
    assert_eq!(positions.len(), before.len());
    for (i, p) in positions.iter().enumerate() {
        assert_eq!(p.cursor_type, CursorShape::Default);
        // Click and position data are untouched.
        assert_eq!(p.x, before[i].x);
        assert_eq!(p.y, before[i].y);
        assert_eq!(p.timestamp_ms, before[i].timestamp_ms);
        assert_eq!(p.is_clicked, before[i].is_clicked);
    }
}

#[test]
fn debounce_keeps_a_long_run() {
    let mut positions = vec![
        sample(0, CursorShape::Default),
        sample(50, CursorShape::Text),
        sample(160, CursorShape::Text),
        sample(200, CursorShape::Default),
        sample(400, CursorShape::Default),
    ];
    process_cursor_changes(&mut positions);
    // The Text run spans 110 ms and survives.
    assert_eq!(positions[1].cursor_type, CursorShape::Text);
    assert_eq!(positions[2].cursor_type, CursorShape::Text);
}

#[test]
fn debounce_never_touches_the_first_run() {
    let mut positions = vec![
        sample(0, CursorShape::Text),
        sample(10, CursorShape::Text),
        sample(200, CursorShape::Default),
        sample(400, CursorShape::Default),
    ];
    process_cursor_changes(&mut positions);
    // The first run is short (10 ms) but is never reclassified.
    assert_eq!(positions[0].cursor_type, CursorShape::Text);
    assert_eq!(positions[1].cursor_type, CursorShape::Text);
}

#[test]
fn debounce_cascades_through_the_immediate_predecessor() {
    // Text (short) collapses into Default; the following short Pointer run
    // then sees Default as its immediate predecessor and collapses too.
    let mut positions = vec![
        sample(0, CursorShape::Default),
        sample(200, CursorShape::Default),
        sample(210, CursorShape::Text),
        sample(220, CursorShape::Text),
        sample(230, CursorShape::Pointer),
        sample(240, CursorShape::Pointer),
        sample(500, CursorShape::Default),
        sample(900, CursorShape::Default),
    ];
    process_cursor_changes(&mut positions);
    for p in &positions {
        assert_eq!(p.cursor_type, CursorShape::Default);
    }
}

#[test]
fn debounce_leaves_short_sequences_alone() {
    let mut empty: Vec<MousePosition> = Vec::new();
    process_cursor_changes(&mut empty);
    assert!(empty.is_empty());
    let mut one = vec![sample(0, CursorShape::Text)];
    process_cursor_changes(&mut one);
    assert_eq!(one[0].cursor_type, CursorShape::Text);
}

#[test]
fn debounce_reclassifies_a_short_trailing_run() {
    // A trailing run is judged like any other: a single trailing sample
    // spans 0 ms, so it takes the preceding run's shape.
    let mut positions = vec![
        sample(0, CursorShape::Default),
        sample(200, CursorShape::Default),
        sample(250, CursorShape::Text),
    ];
    process_cursor_changes(&mut positions);
    assert_eq!(positions[2].cursor_type, CursorShape::Default);
    // A trailing run that spans the threshold survives.
    let mut positions = vec![
        sample(0, CursorShape::Default),
        sample(200, CursorShape::Default),
        sample(250, CursorShape::Text),
        sample(360, CursorShape::Text),
    ];
    process_cursor_changes(&mut positions);
    assert_eq!(positions[2].cursor_type, CursorShape::Text);
    assert_eq!(positions[3].cursor_type, CursorShape::Text);
}
