//! Navigation of the setup tour shown on first start: back and next move one
//! step, and next on the last step finishes the tour.

use vstd::prelude::*;

verus! {

/// The number of steps of the tour.
pub const WALKTHROUGH_STEP_COUNT: usize = 5;

/// Where the tour goes after the user's input.
#[derive(Clone, Copy, Debug, PartialEq, Eq, Structural)]
pub enum TourMove {
    /// Show this step.
    At(usize),
    /// Mark the tour complete and open the workspace.
    Finish,
}

/// Whether `step` is the last step (or past it), where next finishes.
pub open spec fn spec_is_last_step(step: usize) -> bool {
    step + 1 >= WALKTHROUGH_STEP_COUNT
}

/// The tour's move from `step` when the user pressed back and/or next in one
/// frame: back goes one step back unless at the first step; next then goes one
/// step forward from there, or finishes when `step` was the last.
pub open spec fn spec_walkthrough_step(step: usize, back: bool, next: bool) -> TourMove {
    let after_back = if back && step > 0 { (step - 1) as usize } else { step };
    if next {
        if spec_is_last_step(step) {
            TourMove::Finish
        } else {
            TourMove::At((after_back + 1) as usize)
        }
    } else {
        TourMove::At(after_back)
    }
}

/// Whether `step` is the last step, whose next button finishes the tour.
pub fn is_last_step(step: usize) -> (r: bool)
    ensures
        r == spec_is_last_step(step),
{
    step >= WALKTHROUGH_STEP_COUNT - 1
}

/// Moves the tour on the user's input.
pub fn walkthrough_step(step: usize, back: bool, next: bool) -> (m: TourMove)
    ensures
        m == spec_walkthrough_step(step, back, next),
{
    let after_back = if back && step > 0 { step - 1 } else { step };
    if next {
        if is_last_step(step) {
            TourMove::Finish
        } else {
            TourMove::At(after_back + 1)
        }
    } else {
        TourMove::At(after_back)
    }
}

/// Law: from a step of the tour the user only ever reaches a step of the
/// tour, at most one step away; the tour finishes only by next on the last
/// step.
pub proof fn lemma_tour_stays_in_range(step: usize, back: bool, next: bool)
    requires
        step < WALKTHROUGH_STEP_COUNT,
    ensures
        spec_walkthrough_step(step, back, next) matches TourMove::At(s) ==> s
            < WALKTHROUGH_STEP_COUNT && step - 1 <= s <= step + 1,
        spec_walkthrough_step(step, back, next) == TourMove::Finish <==> next && step + 1
            == WALKTHROUGH_STEP_COUNT,
{
}

} // verus!
