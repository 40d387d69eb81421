//! The deferred trigger surface: a passive, host-polled participant that, in
//! automated mode, fires the test run exactly once without any user action.

use vstd::prelude::*;

verus! {

/// The two states of the trigger: `Armed` until the first poll, `Fired` ever
/// after. The transition never reverses.
#[derive(Clone, Copy, PartialEq, Eq, Structural, Debug)]
pub enum TriggerState {
    Armed,
    Fired,
}

/// The one-shot trigger itself. The host invokes `poll` once per processing
/// cycle; the first poll after arming asks for the run, every later poll is a
/// no-op.
pub struct TriggerSurface {
    state: TriggerState,
}

impl View for TriggerSurface {
    type V = TriggerState;

    closed spec fn view(&self) -> TriggerState {
        self.state
    }
}

/// The state the trigger is in after `polls` host cycles: it stays as armed
/// only while it has never been polled.
pub open spec fn state_after_polls(initial: TriggerState, polls: nat) -> TriggerState {
    if polls == 0 {
        initial
    } else {
        TriggerState::Fired
    }
}

/// Whether poll number `i` (counted from zero) asks for the run.
pub open spec fn poll_fires(initial: TriggerState, i: nat) -> bool {
    state_after_polls(initial, i) is Armed
}

/// How many of the first `polls` polls asked for the run.
pub open spec fn fire_count(initial: TriggerState, polls: nat) -> nat
    decreases polls,
{
    if polls == 0 {
        0
    } else {
        fire_count(initial, (polls - 1) as nat) + if poll_fires(initial, (polls - 1) as nat) {
            1 as nat
        } else {
            0 as nat
        }
    }
}

impl TriggerSurface {
    /// A freshly installed trigger is armed.
    pub fn new() -> (t: TriggerSurface)
        ensures
            t@ is Armed,
    {
        TriggerSurface { state: TriggerState::Armed }
    }

    /// One host poll cycle: asks for the run exactly when the trigger was
    /// still armed, and leaves it fired either way.
    pub fn poll(&mut self) -> (fire: bool)
        ensures
            fire == (old(self)@ is Armed),
            final(self)@ == state_after_polls(old(self)@, 1),
            final(self)@ is Fired,
    {
        let fire = match self.state {
            TriggerState::Armed => true,
            TriggerState::Fired => false,
        };
        self.state = TriggerState::Fired;
        fire
    }
}

/// Law: starting from an armed trigger, any positive number of polls asks for
/// the run exactly once, on the first poll, regardless of how many polls
/// follow.
pub proof fn lemma_trigger_fires_once(polls: nat)
    requires
        polls >= 1,
    ensures
        fire_count(TriggerState::Armed, polls) == 1,
        poll_fires(TriggerState::Armed, 0),
        forall|i: nat| 1 <= i < polls ==> !poll_fires(TriggerState::Armed, i),
    decreases polls,
{
    if polls == 1 {
        assert(fire_count(TriggerState::Armed, 0) == 0);
    } else {
        lemma_trigger_fires_once((polls - 1) as nat);
    }
}

} // verus!
