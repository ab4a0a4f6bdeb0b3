use freemouse::tour::{is_last_step, walkthrough_step, TourMove, WALKTHROUGH_STEP_COUNT};

#[test]
fn tour_moves_one_step_and_finishes_at_the_end() {
    assert_eq!(WALKTHROUGH_STEP_COUNT, 5);
    assert_eq!(walkthrough_step(0, false, true), TourMove::At(1));
    assert_eq!(walkthrough_step(0, true, false), TourMove::At(0));
    assert_eq!(walkthrough_step(2, true, false), TourMove::At(1));
    assert_eq!(walkthrough_step(2, false, false), TourMove::At(2));
    assert_eq!(walkthrough_step(2, true, true), TourMove::At(2));
    assert_eq!(walkthrough_step(3, false, true), TourMove::At(4));
    assert_eq!(walkthrough_step(4, false, true), TourMove::Finish);
    assert_eq!(walkthrough_step(4, true, true), TourMove::Finish);
    assert!(!is_last_step(3));
    assert!(is_last_step(4));
}
