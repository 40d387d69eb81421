//! The harness: the per-process test state. It holds the run mode, the ordered
//! step registry, the lazily created command-hook set, and — in automated mode
//! — the one-shot deferred trigger.
//!
//! The opaque host-capability handles the unverified shell acquires at setup
//! stay with the shell; everything the orchestration decisions read lives
//! here.

use vstd::prelude::*;
use crate::hook::CommandHookState;
use crate::outcome::{step_passed, StepEvent};
use crate::report::{exit_directive, failure_prefix, ExitDirective, Mode};
use crate::runner::{invoked_count, run_failure, run_steps, step_passed_prefix};
use crate::trigger::{TriggerState, TriggerSurface};

verus! {

/// The harness as the contracts see it: the mode, the registered command
/// identifiers (`None` until the first registration creates the hook state),
/// the step names in registration order, and the trigger state (`None` in
/// interactive mode, where no trigger is installed).
pub struct HarnessView {
    pub mode: Mode,
    pub commands: Option<Seq<u32>>,
    pub step_names: Seq<Seq<char>>,
    pub trigger: Option<TriggerState>,
}

/// The registered commands, an empty sequence while no hook state exists yet.
pub open spec fn commands_or_empty(v: HarnessView) -> Seq<u32> {
    match v.commands {
        Some(c) => c,
        None => Seq::<u32>::empty(),
    }
}

pub struct Harness {
    mode: Mode,
    hook: Option<CommandHookState>,
    steps: Vec<String>,
    trigger: Option<TriggerSurface>,
}

impl View for Harness {
    type V = HarnessView;

    closed spec fn view(&self) -> HarnessView {
        HarnessView {
            mode: self.mode,
            commands: match self.hook {
                Some(h) => Some(h@),
                None => None,
            },
            step_names: self.steps@.map_values(|s: String| s@),
            trigger: match self.trigger {
                Some(t) => Some(t@),
                None => None,
            },
        }
    }
}

impl Harness {
    /// The trigger exists exactly in automated mode.
    pub open spec fn wf(&self) -> bool {
        (self@.trigger is Some) <==> (self@.mode is Automated)
    }

    /// A fresh harness: empty step registry, no hook state yet, and — only in
    /// automated mode — an armed deferred trigger.
    pub fn new(mode: Mode) -> (h: Harness)
        ensures
            h.wf(),
            h@.mode == mode,
            h@.commands is None,
            h@.step_names == Seq::<Seq<char>>::empty(),
            h@.trigger == (if mode is Automated {
                Some(TriggerState::Armed)
            } else {
                None::<TriggerState>
            }),
    {
        let trigger = match mode {
            Mode::Automated => Some(TriggerSurface::new()),
            Mode::Interactive => None,
        };
        let h = Harness { mode, hook: None, steps: Vec::new(), trigger };
        proof {
            assert(h@.step_names =~= Seq::<Seq<char>>::empty());
        }
        h
    }

    /// Appends a step to the registry. Steps keep their registration order;
    /// nothing else changes.
    pub fn push_test_step(&mut self, name: String)
        ensures
            final(self)@.step_names == old(self)@.step_names.push(name@),
            final(self)@.mode == old(self)@.mode,
            final(self)@.commands == old(self)@.commands,
            final(self)@.trigger == old(self)@.trigger,
            old(self).wf() ==> final(self).wf(),
    {
        let ghost prior = self.steps@;
        self.steps.push(name);
        proof {
            assert(self@.step_names =~= prior.map_values(|s: String| s@).push(name@));
        }
    }

    /// Creates the hook state if none exists yet; at most one ever does.
    /// Returns whether it was created now, in which case the caller must
    /// install the single host-wide hook callback — the hook state, once
    /// installed with the host, is never uninstalled mid-process.
    pub fn ensure_hook(&mut self) -> (install_host_hook: bool)
        ensures
            install_host_hook == (old(self)@.commands is None),
            final(self)@.commands == Some(commands_or_empty(old(self)@)),
            final(self)@.mode == old(self)@.mode,
            final(self)@.step_names == old(self)@.step_names,
            final(self)@.trigger == old(self)@.trigger,
            old(self).wf() ==> final(self).wf(),
    {
        if self.hook.is_none() {
            self.hook = Some(CommandHookState::new());
            true
        } else {
            false
        }
    }

    /// Records a host-allocated command identifier as one that must trigger a
    /// run, creating the hook state first if this is the first registration.
    /// Returns whether the host-wide hook callback must be installed now.
    pub fn register_command(&mut self, command_id: u32) -> (install_host_hook: bool)
        ensures
            install_host_hook == (old(self)@.commands is None),
            final(self)@.commands == Some(commands_or_empty(old(self)@).push(command_id)),
            final(self)@.mode == old(self)@.mode,
            final(self)@.step_names == old(self)@.step_names,
            final(self)@.trigger == old(self)@.trigger,
            old(self).wf() ==> final(self).wf(),
    {
        let install_host_hook = self.ensure_hook();
        match &mut self.hook {
            Some(h) => h.add(command_id),
            None => {
                proof {
                    assert(false);
                }
            },
        }
        install_host_hook
    }

    /// The dispatch decision of the host-wide hook callback: an invoked
    /// command triggers a run exactly when it is one of the registered
    /// commands.
    pub fn command_matches(&self, invoked: u32) -> (r: bool)
        ensures
            r == (self@.commands is Some && commands_or_empty(self@).contains(invoked)),
    {
        match &self.hook {
            Some(h) => h.matches_command(invoked),
            None => false,
        }
    }

    pub fn mode(&self) -> (m: Mode)
        ensures
            m == self@.mode,
    {
        self.mode
    }

    pub fn step_count(&self) -> (n: usize)
        ensures
            n == self@.step_names.len(),
    {
        self.steps.len()
    }

    /// The display name of step `index`, for the per-step progress marker.
    pub fn step_name(&self, index: usize) -> (name: &String)
        requires
            index < self@.step_names.len(),
        ensures
            name@ == self@.step_names[index as int],
    {
        &self.steps[index]
    }

    /// One host poll cycle of the deferred trigger: asks for a run exactly
    /// when the trigger exists and was still armed; the trigger never returns
    /// to armed. In interactive mode there is no trigger and nothing happens.
    pub fn poll_trigger(&mut self) -> (fire: bool)
        ensures
            fire == (old(self)@.trigger == Some(TriggerState::Armed)),
            old(self)@.trigger is None ==> final(self)@.trigger is None,
            old(self)@.trigger is Some ==> final(self)@.trigger == Some(TriggerState::Fired),
            final(self)@.mode == old(self)@.mode,
            final(self)@.commands == old(self)@.commands,
            final(self)@.step_names == old(self)@.step_names,
            old(self).wf() ==> final(self).wf(),
    {
        match &mut self.trigger {
            Some(t) => t.poll(),
            None => false,
        }
    }

    /// One full test run: invokes the registered steps strictly in order
    /// through `step_exec` (the shell's containment boundary around one step),
    /// stops at the first step that does not pass, and decides the
    /// process-visible behavior from the single outcome and the mode. The
    /// harness itself is read, never changed: it stays usable afterwards.
    pub fn execute<F: Fn(usize) -> StepEvent>(&self, step_exec: F) -> (r: (
        ExitDirective,
        Ghost<Seq<StepEvent>>,
    ))
        requires
            forall|i: usize|
                0 <= i < self@.step_names.len() ==> #[trigger] call_requires(step_exec, (i,)),
        ensures
            r.1@.len() <= self@.step_names.len(),
            forall|i: int|
                0 <= i < r.1@.len() ==> call_ensures(step_exec, (i as usize,), #[trigger] r.1@[i]),
            step_passed_prefix(r.1@),
            r.1@.len() < self@.step_names.len() ==> r.1@.len() >= 1 && !step_passed(
                r.1@[r.1@.len() - 1],
            ),
            invoked_count(r.1@) == r.1@.len(),
            ({
                match run_failure(r.1@) {
                    None => r.1@.len() == self@.step_names.len() && (if self@.mode is Automated {
                        r.0 is ExitSuccess
                    } else {
                        r.0 is ReportSuccess
                    }),
                    Some(reason) => (if self@.mode is Automated {
                        r.0 matches ExitDirective::ExitFailure(msg) && msg@ == failure_prefix()
                            + reason
                    } else {
                        r.0 matches ExitDirective::RaiseFailure(msg) && msg@ == failure_prefix()
                            + reason
                    }),
                }
            }),
    {
        let total = self.step_count();
        let (result, events) = run_steps(total, step_exec);
        let directive = exit_directive(result, self.mode());
        (directive, events)
    }
}

} // verus!
