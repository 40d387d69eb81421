//! The result of invoking one test step, and the outcome of a whole run.

use vstd::prelude::*;

verus! {

/// What happened when one test step was invoked: it passed, it reported a
/// descriptive failure, or it raised a synchronous abnormal condition that the
/// containment boundary around step execution caught.
pub enum StepEvent {
    Passed,
    Failed(String),
    Crashed,
}

/// The outcome of one run of the step sequence: either every step passed, or
/// the run stopped at the first step that did not, carrying its reason.
pub enum RunOutcome {
    Success,
    Failure(String),
}

/// The generic reason attached to a run stopped by a contained crash.
pub open spec fn crash_reason() -> Seq<char> {
    "Reaper panicked!"@
}

pub open spec fn step_passed(ev: StepEvent) -> bool {
    ev is Passed
}

/// The reason a failing step event carries: a reported failure keeps its own
/// reason, a contained crash gets the generic crash reason.
pub open spec fn event_reason(ev: StepEvent) -> Seq<char>
    recommends
        !step_passed(ev),
{
    match ev {
        StepEvent::Passed => Seq::<char>::empty(),
        StepEvent::Failed(r) => r@,
        StepEvent::Crashed => crash_reason(),
    }
}

/// Normalizes a failing step event into the run-level outcome. Both a reported
/// step failure and a contained crash become a `Failure`; there is no partial
/// success.
pub fn outcome_of_failed_event(ev: StepEvent) -> (r: RunOutcome)
    requires
        !step_passed(ev),
    ensures
        (r matches RunOutcome::Failure(s) && s@ == event_reason(ev)),
{
    match ev {
        StepEvent::Passed => RunOutcome::Failure("Reaper panicked!".to_owned()),
        StepEvent::Failed(reason) => RunOutcome::Failure(reason),
        StepEvent::Crashed => RunOutcome::Failure("Reaper panicked!".to_owned()),
    }
}

} // verus!
