//! The step runner: invokes the registered steps strictly in order, stops at
//! the first step that does not pass, and produces exactly one run outcome.
//!
//! The model here speaks about a sequence of step events: entry `i` is what
//! step `i` reports when it is invoked. A fail-fast run over such a sequence
//! invokes a prefix of the steps and yields one outcome; the spec functions
//! define that prefix and outcome, the laws below pin down their behavior for
//! an all-passing sequence and for a sequence with a first failing step, and
//! `run_steps` is the executable runner proved against the same model.

use vstd::prelude::*;
use crate::outcome::{RunOutcome, StepEvent, crash_reason, event_reason, step_passed};

verus! {

/// Every step of the sequence passes.
pub open spec fn all_pass(events: Seq<StepEvent>) -> bool {
    forall|i: int| 0 <= i < events.len() ==> step_passed(#[trigger] events[i])
}

/// Only the last of the events may be one that did not pass — the shape every
/// fail-fast run leaves behind.
pub open spec fn step_passed_prefix(events: Seq<StepEvent>) -> bool {
    forall|i: int| 0 <= i < events.len() - 1 ==> step_passed(#[trigger] events[i])
}

/// Step `k` is the first of the sequence to fail.
pub open spec fn first_to_fail(events: Seq<StepEvent>, k: int) -> bool {
    &&& 0 <= k < events.len()
    &&& !step_passed(events[k])
    &&& forall|j: int| 0 <= j < k ==> step_passed(#[trigger] events[j])
}

/// How many steps a fail-fast run over `events` invokes: all of them when all
/// pass, otherwise everything up to and including the first failing one.
pub open spec fn invoked_count(events: Seq<StepEvent>) -> int
    decreases events.len(),
{
    if events.len() == 0 {
        0
    } else if !step_passed(events[0]) {
        1
    } else {
        1 + invoked_count(events.skip(1))
    }
}

/// The reason a fail-fast run over `events` stops with, or `None` when every
/// step passes.
pub open spec fn run_failure(events: Seq<StepEvent>) -> Option<Seq<char>>
    decreases events.len(),
{
    if events.len() == 0 {
        None
    } else if !step_passed(events[0]) {
        Some(event_reason(events[0]))
    } else {
        run_failure(events.skip(1))
    }
}

/// The outcome a run reports agrees with the model over the events the run
/// actually observed.
pub open spec fn outcome_matches(r: RunOutcome, events: Seq<StepEvent>) -> bool {
    match run_failure(events) {
        None => r is Success,
        Some(reason) => r matches RunOutcome::Failure(s) && s@ == reason,
    }
}

/// Law: when every step of the sequence passes, the run invokes every step —
/// each exactly once, in registration order, which is what invoking the whole
/// sequence as a prefix means — and fails with nothing.
pub proof fn lemma_run_all_pass(events: Seq<StepEvent>)
    requires
        all_pass(events),
    ensures
        invoked_count(events) == events.len(),
        run_failure(events) is None,
    decreases events.len(),
{
    if events.len() > 0 {
        assert(step_passed(events[0]));
        assert forall|i: int| 0 <= i < events.skip(1).len() implies step_passed(
            #[trigger] events.skip(1)[i],
        ) by {
            assert(events.skip(1)[i] == events[i + 1]);
        }
        lemma_run_all_pass(events.skip(1));
    }
}

/// Law: when step `k` is the first of the sequence to fail, the run invokes
/// exactly the steps up to and including `k` — so the steps before `k` each
/// ran once, in order, and the steps after `k` are never invoked — and the
/// outcome carries step `k`'s reason.
pub proof fn lemma_run_fail_fast(events: Seq<StepEvent>, k: int)
    requires
        first_to_fail(events, k),
    ensures
        invoked_count(events) == k + 1,
        run_failure(events) == Some(event_reason(events[k])),
    decreases k,
{
    if k == 0 {
    } else {
        assert(step_passed(events[0]));
        assert(first_to_fail(events.skip(1), k - 1)) by {
            assert(events.skip(1)[k - 1] == events[k]);
            assert forall|j: int| 0 <= j < k - 1 implies step_passed(
                #[trigger] events.skip(1)[j],
            ) by {
                assert(events.skip(1)[j] == events[j + 1]);
            }
        }
        lemma_run_fail_fast(events.skip(1), k - 1);
    }
}

/// Runs steps `0..total` strictly in order through `step_exec`, the invocation
/// boundary handed in by the caller, stopping at the first step that does not
/// pass. Returns the single outcome of the run together with the (ghost)
/// sequence of events the invoked steps reported: a prefix of the steps in
/// which only the last event may fail, so no step after a failing one is ever
/// invoked and no step runs twice.
pub fn run_steps<F: Fn(usize) -> StepEvent>(total: usize, step_exec: F) -> (r: (
    RunOutcome,
    Ghost<Seq<StepEvent>>,
))
    requires
        forall|i: usize| 0 <= i < total ==> #[trigger] call_requires(step_exec, (i,)),
    ensures
        r.1@.len() <= total,
        forall|i: int|
            0 <= i < r.1@.len() ==> call_ensures(step_exec, (i as usize,), #[trigger] r.1@[i]),
        step_passed_prefix(r.1@),
        r.1@.len() < total ==> r.1@.len() >= 1 && !step_passed(r.1@[r.1@.len() - 1]),
        invoked_count(r.1@) == r.1@.len(),
        outcome_matches(r.0, r.1@),
        (r.0 is Success) <==> (r.1@.len() == total && all_pass(r.1@)),
{
    let ghost mut events: Seq<StepEvent> = Seq::<StepEvent>::empty();
    let mut i: usize = 0;
    while i < total
        invariant
            i <= total,
            events.len() == i,
            forall|j: usize| 0 <= j < total ==> #[trigger] call_requires(step_exec, (j,)),
            forall|j: int|
                0 <= j < events.len() ==> call_ensures(step_exec, (j as usize,), #[trigger] events[j]),
            forall|j: int| 0 <= j < events.len() ==> step_passed(#[trigger] events[j]),
        decreases total - i,
    {
        let ev = step_exec(i);
        proof {
            events = events.push(ev);
        }
        match ev {
            StepEvent::Passed => {
                i += 1;
            },
            StepEvent::Failed(reason) => {
                proof {
                    lemma_run_fail_fast(events, i as int);
                }
                return (RunOutcome::Failure(reason), Ghost(events));
            },
            StepEvent::Crashed => {
                proof {
                    lemma_run_fail_fast(events, i as int);
                    assert(event_reason(events[i as int]) == crash_reason());
                }
                return (RunOutcome::Failure("Reaper panicked!".to_owned()), Ghost(events));
            },
        }
    }
    proof {
        lemma_run_all_pass(events);
    }
    (RunOutcome::Success, Ghost(events))
}

} // verus!
