//! The command-hook dispatch set: the host command identifiers that must
//! trigger a test run when invoked.

use vstd::prelude::*;

verus! {

/// The set of registered host command identifiers, created lazily on the first
/// command registration; at most one exists per harness. The host-wide hook
/// callback tests an invoked command identifier for membership here: a member
/// triggers a run and is reported as handled, anything else is left to other
/// listeners.
pub struct CommandHookState {
    commands: Vec<u32>,
}

impl View for CommandHookState {
    type V = Seq<u32>;

    closed spec fn view(&self) -> Seq<u32> {
        self.commands@
    }
}

impl CommandHookState {
    /// A fresh hook state with no registered commands.
    pub fn new() -> (h: CommandHookState)
        ensures
            h@ == Seq::<u32>::empty(),
    {
        CommandHookState { commands: Vec::new() }
    }

    /// Records one more host-allocated command identifier; the commands
    /// already recorded are kept, in order.
    pub fn add(&mut self, command_id: u32)
        ensures
            final(self)@ == old(self)@.push(command_id),
    {
        self.commands.push(command_id);
    }

    /// The dispatch decision of the hook callback: whether an invoked command
    /// identifier is one of the registered commands. Multiple registered
    /// commands may all map to the same run trigger.
    pub fn matches_command(&self, invoked: u32) -> (r: bool)
        ensures
            r == self@.contains(invoked),
    {
        let mut i: usize = 0;
        while i < self.commands.len()
            invariant
                i <= self.commands.len(),
                forall|j: int| 0 <= j < i ==> self@[j] != invoked,
            decreases self.commands.len() - i,
        {
            if self.commands[i] == invoked {
                return true;
            }
            i += 1;
        }
        false
    }
}

} // verus!
