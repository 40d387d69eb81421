//! Verified core of an in-process integration-test harness for plug-ins that
//! run inside the REAPER host application.
//!
//! The host drives a single cooperative event loop, so test steps cannot run
//! out-of-process: the harness registers itself with the host and reports
//! pass/fail through process-level signals. The modules here hold the parts
//! that can be reasoned about on their own: the run outcome and its
//! normalization, the fail-fast step runner, the command-hook dispatch set,
//! the one-shot deferred trigger, the exit reporting decision, the harness
//! state, and the one-time global registry. The unverified shell around this
//! crate performs the host registrations and the process-level effects that
//! the contracts here prescribe.

pub mod outcome;
pub mod report;
pub mod trigger;
pub mod hook;
pub mod runner;
pub mod harness;
pub mod registry;
