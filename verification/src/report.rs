//! The exit reporter: maps a run outcome and the harness mode to the
//! process-visible behavior the shell must perform.

use vstd::prelude::*;
use vstd::string::StringExecFns;
use crate::outcome::RunOutcome;

verus! {

/// The run mode, selected once at setup time from the presence of an
/// environment flag. Automated runs conclude by terminating the process with a
/// status-bearing exit code; interactive runs let the host keep running.
#[derive(Clone, Copy, PartialEq, Eq, Structural, Debug)]
pub enum Mode {
    Automated,
    Interactive,
}

/// Exit code of an automated run in which every step passed.
pub const SUCCESS_EXIT_CODE: i32 = 0;

/// Exit code of an automated run stopped by a step failure or a contained
/// crash, chosen to be distinguishable from generic crash or signal codes.
pub const FAILURE_EXIT_CODE: i32 = 172;

/// What the shell must do with a finished run, decided from the outcome and
/// the mode. The decision is taken here; the process-level effect (writing to
/// a stream, exiting, raising an in-host error) is the shell's.
pub enum ExitDirective {
    /// Emit the success banner, then terminate with `SUCCESS_EXIT_CODE`.
    ExitSuccess,
    /// Emit the carried failure message to the error stream, then terminate
    /// with `FAILURE_EXIT_CODE`.
    ExitFailure(String),
    /// Emit the success banner; the host keeps running.
    ReportSuccess,
    /// Raise a fatal, immediately visible in-host error with the carried
    /// failure message; the process does not exit.
    RaiseFailure(String),
}

/// The banner emitted when every step passed.
pub open spec fn success_banner() -> Seq<char> {
    "From REAPER: reaper-rs integration test executed successfully"@
}

/// The text put in front of the reason when a run failed.
pub open spec fn failure_prefix() -> Seq<char> {
    "From REAPER: reaper-rs integration test failed: "@
}

/// Derives the mode from whether the automated-run environment flag is set.
pub fn mode_from_flag(automated: bool) -> (m: Mode)
    ensures
        m == (if automated {
            Mode::Automated
        } else {
            Mode::Interactive
        }),
{
    if automated {
        Mode::Automated
    } else {
        Mode::Interactive
    }
}

/// The full failure message for a failed run: the failure prefix followed by
/// the reason, so the reason always appears verbatim in what is emitted.
pub fn failure_message(reason: &str) -> (s: String)
    ensures
        s@ == failure_prefix() + reason@,
{
    let banner = String::from_str("From REAPER: reaper-rs integration test failed: ");
    banner.concat(reason)
}

/// Decides the process-visible behavior of a finished run.
///
/// Automated mode communicates solely via exit code and the error stream;
/// interactive mode communicates via a banner or an in-host fatal error and
/// never exits the process.
pub fn exit_directive(result: RunOutcome, mode: Mode) -> (d: ExitDirective)
    ensures
        (result is Success && mode is Automated) ==> d is ExitSuccess,
        (result is Success && mode is Interactive) ==> d is ReportSuccess,
        ({
            match result {
                RunOutcome::Success => true,
                RunOutcome::Failure(reason) => {
                    if mode is Automated {
                        d matches ExitDirective::ExitFailure(msg) && msg@ == failure_prefix()
                            + reason@
                    } else {
                        d matches ExitDirective::RaiseFailure(msg) && msg@ == failure_prefix()
                            + reason@
                    }
                },
            }
        }),
{
    match result {
        RunOutcome::Success => {
            match mode {
                Mode::Automated => ExitDirective::ExitSuccess,
                Mode::Interactive => ExitDirective::ReportSuccess,
            }
        },
        RunOutcome::Failure(reason) => {
            let msg = failure_message(reason.as_str());
            match mode {
                Mode::Automated => ExitDirective::ExitFailure(msg),
                Mode::Interactive => ExitDirective::RaiseFailure(msg),
            }
        },
    }
}

/// The exit code a directive asks for: `None` when the process keeps running.
/// In automated mode this is the only channel besides the streams, so the two
/// codes are stated exactly.
pub fn exit_code(d: &ExitDirective) -> (c: Option<i32>)
    ensures
        d is ExitSuccess ==> c == Some(SUCCESS_EXIT_CODE),
        d is ExitFailure ==> c == Some(FAILURE_EXIT_CODE),
        d is ReportSuccess ==> c is None,
        d is RaiseFailure ==> c is None,
{
    match d {
        ExitDirective::ExitSuccess => Some(SUCCESS_EXIT_CODE),
        ExitDirective::ExitFailure(_) => Some(FAILURE_EXIT_CODE),
        ExitDirective::ReportSuccess => None,
        ExitDirective::RaiseFailure(_) => None,
    }
}

} // verus!
