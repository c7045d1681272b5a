//! Run a unit of work in a freshly forked child process attached to a new
//! pseudoterminal, wait for that child to terminate, and translate the raw
//! OS termination status into a structured outcome.
//!
//! The child communicates its result to the parent only through its process
//! exit status: `0` means success, any other 8-bit value is the failure code
//! the unit of work asked for (the OS truncates exit codes to 8 bits).
//!
//! The verified core of the crate is the status translation and the
//! supervision step:
//!
//! - [`exit_code_for`] turns the unit of work's result into the exit status
//!   the child terminates with.
//! - [`classify_status`] decides, for one observed child status, whether the
//!   wait is over and with which outcome; stopped, continued, trace-related
//!   and "still alive" observations keep the wait going.
//! - [`poll_child`] performs one blocking wait query on the child and applies
//!   that decision; callers repeat it until it yields an outcome.
//!
//! Process duplication itself (`forkpty`) and the child-side process exit
//! cannot stand in verified code; the thin unverified shell around this
//! library drives them and loops on [`poll_child`].

mod outcome;
mod supervise;

pub use outcome::classify;
pub use outcome::classify_status;
pub use outcome::exit_code_for;
pub use outcome::exit_code_of;
pub use outcome::is_terminal;
pub use outcome::lemma_failure_code_round_trip;
pub use outcome::lemma_fatal_signal_reported;
pub use outcome::lemma_success_round_trip;
pub use outcome::lemma_terminal_statuses_decide;
pub use outcome::valid_exit_code;
pub use outcome::valid_signal;
pub use outcome::ChildStatus;
pub use outcome::Error;
pub use supervise::poll_child;
