use pty_runner::classify_status;
use pty_runner::exit_code_for;
use pty_runner::ChildStatus;
use pty_runner::Error;

#[test]
fn exit_code_for_success_is_zero() {
    assert_eq!(exit_code_for(Ok(())), 0);
}

#[test]
fn exit_code_for_failure_is_the_supplied_code() {
    for code in 1i32..=255i32 {
        assert_eq!(exit_code_for(Err(code)), code);
    }
}

#[test]
fn exited_zero_is_success() {
    assert_eq!(classify_status(ChildStatus::Exited(100, 0)), Some(Ok(())));
}

#[test]
fn exited_nonzero_is_a_failure_with_that_code() {
    for code in 1i32..=255i32 {
        assert_eq!(
            classify_status(ChildStatus::Exited(100, code)),
            Some(Err(Error::NonZeroExitCode(code)))
        );
    }
}

#[test]
fn signaled_is_killed_by_that_signal() {
    assert_eq!(
        classify_status(ChildStatus::Signaled(100, 9, false)),
        Some(Err(Error::KilledBySignal(9)))
    );
    assert_eq!(
        classify_status(ChildStatus::Signaled(100, 15, true)),
        Some(Err(Error::KilledBySignal(15)))
    );
}

#[test]
fn transient_statuses_keep_the_wait_going() {
    assert_eq!(classify_status(ChildStatus::Stopped), None);
    assert_eq!(classify_status(ChildStatus::Continued), None);
    assert_eq!(classify_status(ChildStatus::PtraceEvent), None);
    assert_eq!(classify_status(ChildStatus::PtraceSyscall), None);
    assert_eq!(classify_status(ChildStatus::StillAlive), None);
}

#[test]
fn error_variants_compare_by_their_payload() {
    assert_eq!(Error::Fork(12), Error::Fork(12));
    assert_ne!(Error::Fork(12), Error::Wait(12));
    assert_ne!(Error::NonZeroExitCode(1), Error::NonZeroExitCode(2));
    assert_ne!(Error::KilledBySignal(9), Error::NonZeroExitCode(9));
}
