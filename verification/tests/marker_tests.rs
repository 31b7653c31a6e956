use webtor::marker::MonotonicMarker;

#[test]
fn marker_starts_unset() {
    let m = MonotonicMarker::new();
    assert!(m.elapsed_since(0).is_none());
    assert!(m.elapsed_since(1_000_000).is_none());
}

#[test]
fn marker_advance_and_elapsed() {
    let mut m = MonotonicMarker::new();
    m.advance_to(100);
    // At the recorded instant: zero elapsed.
    assert_eq!(m.elapsed_since(100), Some(0));
    // Before the recorded instant: treated as unset, never negative.
    assert!(m.elapsed_since(99).is_none());
    assert_eq!(m.elapsed_since(130), Some(30));
}

#[test]
fn marker_never_moves_backwards() {
    let mut m = MonotonicMarker::new();
    m.advance_to(100);
    m.advance_to(40);
    // The earlier advance was a no-op.
    assert_eq!(m.elapsed_since(100), Some(0));
    m.advance_to(150);
    assert_eq!(m.elapsed_since(150), Some(0));
}

#[test]
fn marker_advance_if_unset_only_once() {
    let mut m = MonotonicMarker::new();
    m.advance_if_unset(70);
    assert_eq!(m.elapsed_since(70), Some(0));
    m.advance_if_unset(500);
    // Already set: untouched.
    assert_eq!(m.elapsed_since(500), Some(430));
}

#[test]
fn marker_clear_resets() {
    let mut m = MonotonicMarker::new();
    m.advance_to(100);
    m.clear();
    assert!(m.elapsed_since(200).is_none());
    m.advance_if_unset(300);
    assert_eq!(m.elapsed_since(300), Some(0));
}
