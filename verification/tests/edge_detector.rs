use freemouse::capture::EdgeDetector;

#[test]
fn edge_detector_noise_does_not_trigger() {
    let mut d = EdgeDetector::new(10);
    // Random noise — alternating directions, should not trigger
    for _ in 0..100 {
        assert!(d.feed_rel_x(1).is_none());
        assert!(d.feed_rel_x(-1).is_none());
    }
}

#[test]
fn edge_detector_right_streak_triggers() {
    let mut d = EdgeDetector::new(5);
    // 4 same-sign events: not enough
    for i in 0..4 {
        assert!(d.feed_rel_x(1).is_none(), "failed at i={}", i);
    }
    // 5th event triggers
    assert_eq!(d.feed_rel_x(1), Some(true));
}

#[test]
fn edge_detector_left_streak_triggers() {
    let mut d = EdgeDetector::new(5);
    for i in 0..4 {
        assert!(d.feed_rel_x(-1).is_none(), "failed at i={}", i);
    }
    assert_eq!(d.feed_rel_x(-1), Some(false));
}

#[test]
fn edge_detector_direction_change_resets() {
    let mut d = EdgeDetector::new(10);
    // Build up right streak
    for _ in 0..9 {
        assert!(d.feed_rel_x(1).is_none());
    }
    // Change direction — resets streak
    assert!(d.feed_rel_x(-1).is_none());
    // Need 10 more right events from scratch
    for _ in 0..9 {
        assert!(d.feed_rel_x(1).is_none());
    }
    assert_eq!(d.feed_rel_x(1), Some(true));
}

#[test]
fn edge_detector_no_double_trigger() {
    let mut d = EdgeDetector::new(3);
    assert_eq!(d.feed_rel_x(1), None);
    assert_eq!(d.feed_rel_x(1), None);
    assert_eq!(d.feed_rel_x(1), Some(true));
    // More same-direction events should not re-trigger
    for _ in 0..20 {
        assert!(d.feed_rel_x(1).is_none());
    }
}

#[test]
fn edge_detector_reset_works() {
    let mut d = EdgeDetector::new(3);
    assert_eq!(d.feed_rel_x(1), None);
    assert_eq!(d.feed_rel_x(1), None);
    assert_eq!(d.feed_rel_x(1), Some(true));
    d.reset();
    // After reset, should trigger again
    assert_eq!(d.feed_rel_x(1), None);
    assert_eq!(d.feed_rel_x(1), None);
    assert_eq!(d.feed_rel_x(1), Some(true));
}

#[test]
fn edge_detector_zero_does_not_reset_streak() {
    let mut d = EdgeDetector::new(4);
    assert!(d.feed_rel_x(1).is_none());
    assert!(d.feed_rel_x(1).is_none());
    // Zero (no movement) should not break the streak
    assert!(d.feed_rel_x(0).is_none());
    assert!(d.feed_rel_x(1).is_none());
    assert_eq!(d.feed_rel_x(1), Some(true));
}

#[test]
fn edge_detector_edges_alternate() {
    let mut d = EdgeDetector::new(2);
    assert_eq!(d.feed_rel_x(1), None);
    assert_eq!(d.feed_rel_x(1), Some(true));
    assert_eq!(d.feed_rel_x(-1), None);
    assert_eq!(d.feed_rel_x(-1), Some(false));
    assert_eq!(d.feed_rel_x(-1), None);
    assert_eq!(d.feed_rel_x(1), None);
    assert_eq!(d.feed_rel_x(1), Some(true));
}

#[test]
fn edge_detector_zero_threshold_fires_on_first_motion() {
    let mut d = EdgeDetector::new(0);
    assert_eq!(d.feed_rel_x(7), Some(true));
    assert_eq!(d.feed_rel_x(7), None);
    assert_eq!(d.feed_rel_x(-7), Some(false));
}

#[test]
fn edge_detector_counts_streaks() {
    let mut d = EdgeDetector::new(10);
    d.feed_rel_x(3);
    d.feed_rel_x(3);
    assert_eq!(d.right_streak, 2);
    assert_eq!(d.left_streak, 0);
    d.feed_rel_x(-1);
    assert_eq!(d.right_streak, 0);
    assert_eq!(d.left_streak, 1);
}
