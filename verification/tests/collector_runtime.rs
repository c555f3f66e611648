use cyvra_core::collector_runtime::{
    after_exit, before_spawn, keep_within, launch_error, poll_step, script_refusal, ChildState,
    CollectorLimits, LaunchFailure, PollAction, TrustedPowerShellScript,
};
use cyvra_core::probe_runs::{battery_failure, battery_limits, storage_limits, usb_failure};
use cyvra_core::{CollectorErrorKind, CollectorName};

fn limits() -> CollectorLimits {
    CollectorLimits::new(5000, 1024, 4096, 5)
}

#[test]
fn default_limits_are_valid() {
    let l = CollectorLimits::default();
    assert!(l.is_valid());
    assert_eq!(l.timeout(), 15000);
    assert_eq!(l.max_stdout_bytes(), 256 * 1024);
    assert_eq!(l.max_stderr_bytes(), 64 * 1024);
    assert_eq!(l.poll_interval_ms(), 10);
}

#[test]
fn invalid_limits_refuse_to_start() {
    for bad in [
        CollectorLimits::new(0, 1024, 1024, 5),
        CollectorLimits::new(5000, 0, 1024, 5),
        CollectorLimits::new(5000, 1024, 0, 5),
        CollectorLimits::new(5000, 1024, 1024, 0),
        CollectorLimits::new(5, 1024, 1024, 10),
    ] {
        assert!(!bad.is_valid());
        let error = before_spawn(CollectorName::Device, bad, false).expect("refused");
        assert_eq!(error.kind, CollectorErrorKind::Internal);
        assert_eq!(error.safe_message, "The collector execution limits are invalid.");
    }
}

#[test]
fn cancellation_is_honoured_before_any_process_exists() {
    let error = before_spawn(CollectorName::HardwareInventory, limits(), true).expect("refused");
    assert_eq!(error.kind, CollectorErrorKind::Cancelled);
    assert_eq!(error.collector, CollectorName::HardwareInventory);
    assert_eq!(error.safe_message, "The collector was cancelled before execution.");
    assert!(before_spawn(CollectorName::HardwareInventory, limits(), false).is_none());
}

#[test]
fn a_running_command_is_stopped_at_its_timeout() {
    let action = poll_step(CollectorName::Storage, limits(), false, false, 5000, ChildState::Running);
    match action {
        PollAction::Stop(error) => {
            assert_eq!(error.kind, CollectorErrorKind::TimedOut);
            assert_eq!(error.safe_message, "The collector exceeded its execution timeout.");
        }
        other => panic!("expected a stop, got {other:?}"),
    }
    assert_eq!(
        poll_step(CollectorName::Storage, limits(), false, false, 4999, ChildState::Running),
        PollAction::Wait
    );
    assert_eq!(
        poll_step(CollectorName::Storage, limits(), false, false, 10, ChildState::Exited),
        PollAction::Collect
    );
}

#[test]
fn cancellation_and_excess_output_come_before_the_timeout() {
    match poll_step(CollectorName::Storage, limits(), true, true, 9999, ChildState::Exited) {
        PollAction::Stop(error) => assert_eq!(error.kind, CollectorErrorKind::Cancelled),
        other => panic!("expected a stop, got {other:?}"),
    }
    match poll_step(CollectorName::Storage, limits(), false, true, 9999, ChildState::Exited) {
        PollAction::Stop(error) => assert_eq!(error.kind, CollectorErrorKind::OutputLimitExceeded),
        other => panic!("expected a stop, got {other:?}"),
    }
    match poll_step(CollectorName::Storage, limits(), false, false, 1, ChildState::Unreadable) {
        PollAction::Stop(error) => assert_eq!(error.kind, CollectorErrorKind::Internal),
        other => panic!("expected a stop, got {other:?}"),
    }
}

#[test]
fn excessive_output_is_cut_at_the_limit_and_not_returned() {
    let mut kept = Vec::new();
    assert!(!keep_within(&mut kept, b"hello ", 8));
    assert!(keep_within(&mut kept, b"world", 8));
    assert_eq!(kept, b"hello wo".to_vec());
    assert!(keep_within(&mut kept, b"!", 8));
    assert_eq!(kept.len(), 8);
    let result = after_exit(CollectorName::Device, CollectorLimits::default(), Some(kept), true, true, true);
    let error = result.err().expect("cut output is an error");
    assert_eq!(error.kind, CollectorErrorKind::OutputLimitExceeded);
}

#[test]
fn a_successful_command_returns_its_stdout() {
    let output = after_exit(CollectorName::Device, CollectorLimits::default(), Some(b"ok".to_vec()), true, false, true).expect("ok");
    assert_eq!(output.stdout(), b"ok");
    let failed = after_exit(CollectorName::Device, CollectorLimits::default(), Some(b"ok".to_vec()), true, false, false);
    assert_eq!(failed.err().expect("failed").kind, CollectorErrorKind::CommandFailed);
    let unread = after_exit(CollectorName::Device, CollectorLimits::default(), None, true, false, true);
    assert_eq!(
        unread.err().expect("unread").safe_message,
        "The collector stdout could not be read."
    );
    let stderr = after_exit(CollectorName::Device, CollectorLimits::default(), Some(Vec::new()), false, false, true);
    assert_eq!(
        stderr.err().expect("stderr").safe_message,
        "The collector stderr could not be read."
    );
}

#[test]
fn scripts_run_only_on_windows_and_only_when_configured() {
    let script = TrustedPowerShellScript::application_owned("Get-Date");
    let off = script_refusal(CollectorName::Device, false, script).expect("refused");
    assert_eq!(off.kind, CollectorErrorKind::Unsupported);
    let blank = TrustedPowerShellScript::application_owned("  \n ");
    let empty = script_refusal(CollectorName::Device, true, blank).expect("refused");
    assert_eq!(empty.safe_message, "The collector command is not configured.");
    assert!(script_refusal(CollectorName::Device, true, script).is_none());
    assert_eq!(script.as_str(), "Get-Date");
    assert!(!blank.is_configured());
}

#[test]
fn launch_failures_are_named() {
    assert_eq!(
        launch_error(CollectorName::Device, LaunchFailure::SpawnFailed).kind,
        CollectorErrorKind::CommandFailed
    );
    assert_eq!(
        launch_error(CollectorName::Device, LaunchFailure::StdoutUnavailable).safe_message,
        "The collector stdout pipe was unavailable."
    );
}

#[test]
fn probe_runs_state_their_limits_and_reasons() {
    assert_eq!(battery_limits().timeout(), 45000);
    assert_eq!(storage_limits().max_stdout_bytes(), 96 * 1024);
    assert_eq!(battery_failure(None), "The battery probe returned unreadable output.");
    assert_eq!(
        battery_failure(Some(CollectorErrorKind::TimedOut)),
        "The battery probe exceeded its time limit."
    );
    assert_eq!(
        usb_failure(Some(CollectorErrorKind::ParseFailed)),
        "The USB topology probe could not be completed on this PC."
    );
}

#[test]
fn the_validator_reports_a_collector_error_on_one_line() {
    let error = cyvra_core::CollectorError {
        collector: CollectorName::HardwareInventory,
        kind: CollectorErrorKind::TimedOut,
        safe_message: "The collector exceeded\nits execution timeout.".to_string(),
    };
    let lines = cyvra_core::hardware_validation::collector_error_report(&error);
    assert_eq!(lines[0], "validator=cyvra_w1_3c_hardware_validation");
    assert_eq!(lines[5], "collector_error_kind=timed_out");
    assert_eq!(lines[6], "collector_error_message=The collector exceeded its execution timeout.");
    assert_eq!(lines[7], "result=fail");
    assert_eq!(lines.len(), 8);
}

#[test]
fn output_longer_than_the_stdout_limit_is_never_returned() {
    let limits = CollectorLimits::new(1000, 4, 4, 10);
    let result = after_exit(CollectorName::Device, limits, Some(b"hello".to_vec()), true, false, true);
    assert_eq!(result.err().expect("too long").kind, CollectorErrorKind::OutputLimitExceeded);
    let ok = after_exit(CollectorName::Device, limits, Some(b"hell".to_vec()), true, false, true).expect("fits");
    assert_eq!(ok.stdout(), b"hell");
}
