use fctools::executor::process_handle::{
    parse_pid_file, parse_proc_status_line, KillAction, ProcessHandle, ProcessHandleError,
    ProcessHandlePipesError,
};
use fctools::numeric::{parse_u64, u32_to_string, u64_to_string};

#[test]
fn exit_status_is_memoized_across_waits() {
    let mut handle = ProcessHandle::with_pidfd(5);
    assert_eq!(handle.try_wait(None), None);
    assert_eq!(handle.wait(7), 7);
    // Whatever the driver observes later, the first status stands.
    assert_eq!(handle.wait(99), 7);
    assert_eq!(handle.try_wait(Some(42)), Some(7));
    assert_eq!(handle.try_wait(None), Some(7));
}

#[test]
fn kill_after_exit_is_refused_for_detached_process() {
    let mut handle = ProcessHandle::with_pidfd(5);
    assert_eq!(handle.send_sigkill(), Ok(KillAction::PidfdSigkill { raw_pidfd: 5 }));
    handle.wait(0);
    assert_eq!(handle.send_sigkill(), Err(ProcessHandleError::ProcessAlreadyExited));
}

#[test]
fn attached_child_is_always_killable() {
    let mut handle = ProcessHandle::with_child(false);
    handle.wait(0);
    assert_eq!(handle.send_sigkill(), Ok(KillAction::KillChildProcess));
}

#[test]
fn pipes_can_be_taken_once_from_attached_child() {
    let mut handle = ProcessHandle::with_child(false);
    assert_eq!(handle.get_pipes(), Ok(()));
    assert_eq!(handle.get_pipes(), Err(ProcessHandlePipesError::PipesWereAlreadyTaken));

    let mut dropped = ProcessHandle::with_child(true);
    assert_eq!(dropped.get_pipes(), Err(ProcessHandlePipesError::PipesWereDropped));

    let mut detached = ProcessHandle::with_pidfd(5);
    assert_eq!(detached.get_pipes(), Err(ProcessHandlePipesError::ProcessIsDetached));
}

#[test]
fn pid_file_contents_parse_with_trailing_whitespace() {
    assert_eq!(parse_pid_file("1234\n"), Some(1234));
    assert_eq!(parse_pid_file("987"), Some(987));
    assert_eq!(parse_pid_file("  \n"), None);
    assert_eq!(parse_pid_file("12a4"), None);
    assert_eq!(parse_pid_file(""), None);
    assert_eq!(parse_pid_file("99999999999999999999"), None);
}

#[test]
fn proc_status_line_parses_last_field_best_effort() {
    assert_eq!(parse_proc_status_line("1234 (fc) Z 1 0 0 256"), 256);
    assert_eq!(parse_proc_status_line("1234 (fc) Z 1 0 0 256\n"), 256);
    assert_eq!(parse_proc_status_line("garbage"), 0);
    assert_eq!(parse_proc_status_line(""), 0);
}

#[test]
fn decimal_conversions_round_trip() {
    assert_eq!(u64_to_string(0), "0".to_string());
    assert_eq!(u64_to_string(12345), "12345".to_string());
    assert_eq!(u32_to_string(4294967295), "4294967295".to_string());
    assert_eq!(parse_u64("12345"), Some(12345));
    assert_eq!(parse_u64("0"), Some(0));
    assert_eq!(parse_u64("18446744073709551615"), Some(u64::MAX));
    assert_eq!(parse_u64("18446744073709551616"), None);
    assert_eq!(parse_u64("-3"), None);
    assert_eq!(parse_u64(""), None);
}
