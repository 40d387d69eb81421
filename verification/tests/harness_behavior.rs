use std::cell::RefCell;

use reaper_test::harness::Harness;
use reaper_test::outcome::{RunOutcome, StepEvent};
use reaper_test::registry::TestRegistry;
use reaper_test::report::{
    exit_code, exit_directive, failure_message, mode_from_flag, ExitDirective, Mode,
    FAILURE_EXIT_CODE, SUCCESS_EXIT_CODE,
};
use reaper_test::trigger::TriggerSurface;

#[test]
fn mode_comes_from_the_environment_flag() {
    assert_eq!(mode_from_flag(true), Mode::Automated);
    assert_eq!(mode_from_flag(false), Mode::Interactive);
}

#[test]
fn trigger_fires_exactly_once_on_the_first_poll() {
    let mut trigger = TriggerSurface::new();
    let fires: Vec<bool> = (0..5).map(|_| trigger.poll()).collect();
    assert_eq!(fires, vec![true, false, false, false, false]);
}

#[test]
fn automated_harness_polls_fire_once() {
    let mut harness = Harness::new(Mode::Automated);
    assert!(harness.poll_trigger());
    assert!(!harness.poll_trigger());
    assert!(!harness.poll_trigger());
}

#[test]
fn interactive_harness_never_fires_on_poll() {
    let mut harness = Harness::new(Mode::Interactive);
    assert!(!harness.poll_trigger());
    assert!(!harness.poll_trigger());
}

#[test]
fn steps_are_kept_in_registration_order() {
    let mut harness = Harness::new(Mode::Interactive);
    assert_eq!(harness.step_count(), 0);
    harness.push_test_step("first".to_owned());
    harness.push_test_step("second".to_owned());
    harness.push_test_step("second".to_owned());
    assert_eq!(harness.step_count(), 3);
    assert_eq!(harness.step_name(0).as_str(), "first");
    assert_eq!(harness.step_name(1).as_str(), "second");
    assert_eq!(harness.step_name(2).as_str(), "second");
}

#[test]
fn only_the_first_registration_installs_the_host_hook() {
    let mut harness = Harness::new(Mode::Interactive);
    assert!(!harness.command_matches(41));
    assert!(harness.register_command(41));
    assert!(!harness.register_command(42));
    assert!(!harness.register_command(41));
    assert!(harness.command_matches(41));
    assert!(harness.command_matches(42));
    assert!(!harness.command_matches(7));
}

#[test]
fn execute_in_automated_mode_with_all_steps_passing_asks_for_exit_zero() {
    let mut harness = Harness::new(Mode::Automated);
    harness.push_test_step("ok".to_owned());
    harness.push_test_step("also ok".to_owned());
    let names: RefCell<Vec<String>> = RefCell::new(Vec::new());
    let (directive, _) = harness.execute(|i: usize| {
        names.borrow_mut().push(harness.step_name(i).clone());
        StepEvent::Passed
    });
    assert!(matches!(directive, ExitDirective::ExitSuccess));
    assert_eq!(exit_code(&directive), Some(SUCCESS_EXIT_CODE));
    assert_eq!(exit_code(&directive), Some(0));
    assert_eq!(*names.borrow(), vec!["ok".to_owned(), "also ok".to_owned()]);
}

#[test]
fn execute_in_automated_mode_with_a_failing_step_asks_for_the_failure_exit_code() {
    let mut harness = Harness::new(Mode::Automated);
    harness.push_test_step("ok".to_owned());
    harness.push_test_step("bad".to_owned());
    harness.push_test_step("never reached".to_owned());
    let (directive, _) = harness.execute(|i: usize| {
        if i == 1 {
            StepEvent::Failed("X".to_owned())
        } else {
            StepEvent::Passed
        }
    });
    match &directive {
        ExitDirective::ExitFailure(msg) => {
            assert_eq!(msg.as_str(), "From REAPER: reaper-rs integration test failed: X");
            assert!(msg.contains("X"));
        }
        _ => panic!("a failing automated run must terminate the process"),
    }
    assert_eq!(exit_code(&directive), Some(FAILURE_EXIT_CODE));
    assert_eq!(exit_code(&directive), Some(172));
}

#[test]
fn execute_in_interactive_mode_raises_instead_of_exiting() {
    let mut harness = Harness::new(Mode::Interactive);
    harness.push_test_step("bad".to_owned());
    let (directive, _) = harness.execute(|_i: usize| StepEvent::Crashed);
    match &directive {
        ExitDirective::RaiseFailure(msg) => {
            assert_eq!(
                msg.as_str(),
                "From REAPER: reaper-rs integration test failed: Reaper panicked!"
            );
        }
        _ => panic!("a failing interactive run must raise in-host"),
    }
    assert_eq!(exit_code(&directive), None);
}

#[test]
fn execute_in_interactive_mode_reports_success_and_keeps_running() {
    let harness = Harness::new(Mode::Interactive);
    let (directive, _) = harness.execute(|_i: usize| StepEvent::Passed);
    assert!(matches!(directive, ExitDirective::ReportSuccess));
    assert_eq!(exit_code(&directive), None);
}

#[test]
fn harness_stays_usable_after_a_contained_crash() {
    let mut harness = Harness::new(Mode::Interactive);
    harness.push_test_step("crashes".to_owned());
    let (first, _) = harness.execute(|_i: usize| StepEvent::Crashed);
    assert!(matches!(first, ExitDirective::RaiseFailure(_)));
    let (second, _) = harness.execute(|_i: usize| StepEvent::Passed);
    assert!(matches!(second, ExitDirective::ReportSuccess));
    assert_eq!(harness.step_count(), 1);
}

#[test]
fn failure_message_carries_the_reason_verbatim() {
    let msg = failure_message("the track was not armed");
    assert_eq!(
        msg,
        "From REAPER: reaper-rs integration test failed: the track was not armed"
    );
}

#[test]
fn directive_covers_every_outcome_and_mode() {
    let d = exit_directive(RunOutcome::Success, Mode::Automated);
    assert!(matches!(d, ExitDirective::ExitSuccess));
    let d = exit_directive(RunOutcome::Success, Mode::Interactive);
    assert!(matches!(d, ExitDirective::ReportSuccess));
    let d = exit_directive(RunOutcome::Failure("r".to_owned()), Mode::Automated);
    assert!(matches!(d, ExitDirective::ExitFailure(_)));
    let d = exit_directive(RunOutcome::Failure("r".to_owned()), Mode::Interactive);
    assert!(matches!(d, ExitDirective::RaiseFailure(_)));
}

#[test]
fn access_before_setup_is_a_misuse_not_an_outcome() {
    let mut registry = TestRegistry::new();
    let got = registry.get();
    assert!(got.is_err());
    let misuse = got.err().unwrap();
    assert_eq!(misuse.message(), "call `load(context)` before using `get()`");
    assert!(registry.get_mut().is_err());
}

#[test]
fn a_second_setup_is_a_no_op_that_keeps_the_first_harness() {
    let mut registry = TestRegistry::new();
    let mut first = Harness::new(Mode::Interactive);
    first.push_test_step("kept".to_owned());
    assert!(registry.install(first));
    let mut second = Harness::new(Mode::Automated);
    second.push_test_step("dropped".to_owned());
    second.push_test_step("dropped too".to_owned());
    assert!(!registry.install(second));
    let held = registry.get().unwrap();
    assert_eq!(held.mode(), Mode::Interactive);
    assert_eq!(held.step_count(), 1);
    assert_eq!(held.step_name(0).as_str(), "kept");
}

#[test]
fn the_installed_harness_can_be_mutated_through_the_registry() {
    let mut registry = TestRegistry::new();
    registry.install(Harness::new(Mode::Interactive));
    {
        let held = registry.get_mut().unwrap();
        held.push_test_step("added later".to_owned());
    }
    assert_eq!(registry.get().unwrap().step_count(), 1);
}
