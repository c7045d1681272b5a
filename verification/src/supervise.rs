//! Parent-side supervision: one blocking wait query on the child, translated
//! into the caller's outcome. The query itself is an outside call; everything
//! stated about its result is what the wait facility documents.

use crate::outcome::classify_status;
use crate::outcome::valid_exit_code;
use crate::outcome::valid_signal;
use crate::outcome::ChildStatus;
use crate::outcome::Error;
use nix::sys::wait::waitpid;
use nix::sys::wait::WaitStatus;
use nix::unistd::Pid;
use vstd::prelude::*;

verus! {

/// The ranges the wait query keeps its reported terminal statuses in: exit
/// codes are truncated to 8 bits, and reported signals are valid signal
/// numbers.
pub open spec fn status_in_ranges(s: ChildStatus) -> bool {
    match s {
        ChildStatus::Exited(_, code) => valid_exit_code(code),
        ChildStatus::Signaled(_, sig, _) => valid_signal(sig),
        _ => true,
    }
}

/// A terminal status concerns the queried child: the process it names is the
/// one that was asked about.
pub open spec fn status_is_of(s: ChildStatus, pid: i32) -> bool {
    match s {
        ChildStatus::Exited(p, _) => p == pid,
        ChildStatus::Signaled(p, _, _) => p == pid,
        _ => true,
    }
}

/// Relies on nix::sys::wait::waitpid with no option flags: it blocks until
/// the queried child changes state and reports that change. The exit code of
/// an `Exited` status is the 8-bit value the WEXITSTATUS macro extracts, a
/// reported signal is a value of nix's Signal enum (a valid signal number),
/// a status reported for a positive pid concerns exactly that process, and a
/// failure carries the non-negative errno value the OS set.
#[verifier::external_body]
fn wait_raw(pid: i32) -> (r: Result<ChildStatus, i32>)
    ensures
        r matches Ok(s) ==> status_in_ranges(s),
        pid > 0 ==> (r matches Ok(s) ==> status_is_of(s, pid)),
        r matches Err(e) ==> e >= 0,
{
    match waitpid(Pid::from_raw(pid), None) {
        Ok(WaitStatus::Exited(p, code)) => Ok(ChildStatus::Exited(p.as_raw(), code)),
        Ok(WaitStatus::Signaled(p, sig, core)) => {
            Ok(ChildStatus::Signaled(p.as_raw(), sig as i32, core))
        },
        Ok(WaitStatus::Stopped(..)) => Ok(ChildStatus::Stopped),
        Ok(WaitStatus::PtraceEvent(..)) => Ok(ChildStatus::PtraceEvent),
        Ok(WaitStatus::PtraceSyscall(..)) => Ok(ChildStatus::PtraceSyscall),
        Ok(WaitStatus::Continued(..)) => Ok(ChildStatus::Continued),
        Ok(WaitStatus::StillAlive) => Ok(ChildStatus::StillAlive),
        Err(e) => Err(e as i32),
    }
}

/// One step of the supervision loop: block until the child identified by
/// `child` changes state, and decide whether the wait is over.
///
/// `None` means a transient state change (stopped, continued, trace event,
/// "still alive") was absorbed: call again. `Some` carries the final outcome:
/// success for a zero exit status, the matching failure for a non-zero exit
/// status, a fatal signal, or a failed wait query. After a `Some(Err(..))`
/// with a `Wait` error the child's fate is no longer tracked by this crate.
///
/// A caller that has just forked passes the child identifier the fork
/// returned and repeats this call until it yields `Some`; the call blocks,
/// possibly indefinitely, while the child runs or is stopped.
pub fn poll_child(child: i32) -> (r: Option<Result<(), Error>>)
    ensures
        r matches Some(Err(Error::NonZeroExitCode(code))) ==> 1 <= code <= 255,
        r matches Some(Err(Error::KilledBySignal(sig))) ==> valid_signal(sig),
        r matches Some(Err(Error::Wait(errno))) ==> errno >= 0,
        r matches Some(Err(e)) ==> e !is Fork,
{
    match wait_raw(child) {
        Ok(status) => classify_status(status),
        Err(errno) => Some(Err(Error::Wait(errno))),
    }
}

} // verus!
