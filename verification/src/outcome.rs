//! The structured outcome of one supervised child process, and the two
//! translations at the heart of the crate: the unit of work's result into the
//! child's exit status, and an observed child status into the caller's result.

use vstd::prelude::*;

verus! {

/// The failures a supervised run can end in.
///
/// `Fork` and `Wait` carry the raw OS error code (errno) of the failed
/// `forkpty` or wait query. `KilledBySignal` carries the number of the signal
/// that killed the child, and `NonZeroExitCode` the child's 8-bit exit status.
#[derive(Clone, Copy, Debug, PartialEq, Eq, Structural)]
pub enum Error {
    /// The OS refused to duplicate the process; no child was created.
    Fork(i32),
    /// The wait query on the child failed; the child's fate is untracked.
    Wait(i32),
    /// The child was killed by the given signal.
    KilledBySignal(i32),
    /// The child exited on its own with the given non-zero status code.
    NonZeroExitCode(i32),
}

/// One observed state change of a child process, as the wait query reports
/// it: the terminal states `Exited` and `Signaled`, which carry the process
/// identifier and the exit code or signal as raw numbers, and the transient
/// states that must not end the wait, whose details no decision here reads.
#[derive(Clone, Copy, Debug, PartialEq, Eq, Structural)]
pub enum ChildStatus {
    /// The child exited normally with the given status code.
    Exited(i32, i32),
    /// The child was killed by the given signal; the flag says whether a
    /// core dump was produced.
    Signaled(i32, i32, bool),
    /// The child was stopped by a signal; it may yet resume.
    Stopped,
    /// A tracer saw a ptrace event.
    PtraceEvent,
    /// A tracer saw a syscall stop.
    PtraceSyscall,
    /// The child resumed after a stop.
    Continued,
    /// Nothing to report yet; the child is still running.
    StillAlive,
}

/// A status after which the child will never run again.
pub open spec fn is_terminal(s: ChildStatus) -> bool {
    s is Exited || s is Signaled
}

/// The exit status the child terminates with for a given result of the unit
/// of work: `0` on success, the supplied code on failure.
pub open spec fn exit_code_of(r: Result<(), i32>) -> i32 {
    match r {
        Ok(_) => 0,
        Err(code) => code,
    }
}

/// What one observed child status means for the wait: `None` keeps the wait
/// going; `Some` ends it, with success for a zero exit status, and the
/// matching failure for a non-zero exit status or a fatal signal.
pub open spec fn classify(s: ChildStatus) -> Option<Result<(), Error>> {
    match s {
        ChildStatus::Exited(_, code) => if code == 0 {
            Some(Ok(()))
        } else {
            Some(Err(Error::NonZeroExitCode(code)))
        },
        ChildStatus::Signaled(_, sig, _) => Some(Err(Error::KilledBySignal(sig))),
        _ => None,
    }
}

/// Turn the unit of work's result into the child's exit status.
pub fn exit_code_for(r: Result<(), i32>) -> (code: i32)
    ensures
        code == exit_code_of(r),
{
    match r {
        Ok(()) => 0,
        Err(code) => code,
    }
}

/// Decide whether one observed child status ends the wait, and with which
/// outcome.
pub fn classify_status(s: ChildStatus) -> (r: Option<Result<(), Error>>)
    ensures
        r == classify(s),
{
    match s {
        ChildStatus::Exited(_pid, code) => if code == 0 {
            Some(Ok(()))
        } else {
            Some(Err(Error::NonZeroExitCode(code)))
        },
        ChildStatus::Signaled(_pid, sig, _core) => Some(Err(Error::KilledBySignal(sig))),
        ChildStatus::Stopped => None,
        ChildStatus::PtraceEvent => None,
        ChildStatus::PtraceSyscall => None,
        ChildStatus::Continued => None,
        ChildStatus::StillAlive => None,
    }
}

/// A representable 8-bit exit status.
pub open spec fn valid_exit_code(code: i32) -> bool {
    0 <= code <= 255
}

/// A signal number the wait query can report on this platform.
pub open spec fn valid_signal(sig: i32) -> bool {
    1 <= sig <= 31
}

/// A unit of work that fails with a code in the representable 8-bit non-zero
/// range makes the child exit with exactly that code, and observing that exit
/// yields the failure carrying exactly that code.
pub proof fn lemma_failure_code_round_trip(pid: i32, code: i32)
    requires
        1 <= code <= 255,
    ensures
        exit_code_of(Err(code)) == code,
        classify(ChildStatus::Exited(pid, code)) == Some(
            Err::<(), Error>(Error::NonZeroExitCode(code)),
        ),
{
}

/// A unit of work that succeeds makes the child exit with status `0`, and
/// observing that exit yields success.
pub proof fn lemma_success_round_trip(pid: i32)
    ensures
        exit_code_of(Ok(())) == 0,
        classify(ChildStatus::Exited(pid, 0)) == Some(Ok::<(), Error>(())),
{
}

/// A child killed by a signal is reported as killed by exactly that signal,
/// whether or not a core dump was produced.
pub proof fn lemma_fatal_signal_reported(pid: i32, sig: i32, core_dumped: bool)
    ensures
        classify(ChildStatus::Signaled(pid, sig, core_dumped)) == Some(
            Err::<(), Error>(Error::KilledBySignal(sig)),
        ),
{
}

/// The wait ends exactly on the terminal statuses: an exit or a fatal signal
/// decides the outcome, while stopped, continued, trace-related and "still
/// alive" observations are absorbed and keep the wait going.
pub proof fn lemma_terminal_statuses_decide(s: ChildStatus)
    ensures
        classify(s) is Some <==> is_terminal(s),
{
}

} // verus!
