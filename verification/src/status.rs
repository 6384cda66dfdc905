//! Child process status, the liveness decision, and its monotonicity.

use vstd::prelude::*;
use crate::error::Error;

verus! {

/// errno for "no such child".
pub const ECHILD: i32 = 10;

/// errno for "no such process".
pub const ESRCH: i32 = 3;

/// The status of a child process as reported by the host's wait API.
///
/// Signal numbers are carried as plain integers; `Signaled` also carries
/// whether a core dump was produced.
#[derive(Clone, Copy, Debug, PartialEq, Eq, Structural)]
pub enum WaitStatus {
    /// The child has exited with the given (pid, exit code).
    Exited(i32, i32),
    /// The child was terminated by the given (pid, signal, core dumped).
    Signaled(i32, i32, bool),
    /// The child was stopped by the given (pid, signal).
    Stopped(i32, i32),
    /// A state change the library does not distinguish further, such
    /// as a ptrace stop or a continuation; neither is requested by the
    /// library's own wait calls.
    Other,
    /// The child has not yet changed state (non-blocking query only).
    StillAlive,
}

/// What `is_alive` answers for one status query: `StillAlive` is alive,
/// every reported state change is not, and the errors that mean "the
/// child is gone" (`ECHILD`, `ESRCH`) are not either. Any other error
/// is propagated.
pub open spec fn alive_decision(status: Result<WaitStatus, Error>) -> Result<bool, Error> {
    match status {
        Ok(st) => Ok(st is StillAlive),
        Err(e) => if e == Error::Os(ECHILD) || e == Error::Os(ESRCH) {
            Ok(false)
        } else {
            Err(e)
        },
    }
}

/// Maps one status query to the `is_alive` answer.
pub fn alive_from_status(status: &Result<WaitStatus, Error>) -> (r: Result<bool, Error>)
    ensures
        r == alive_decision(*status),
    opens_invariants none
    no_unwind
{
    match status {
        Ok(st) => Ok(matches!(st, WaitStatus::StillAlive)),
        Err(e) => {
            let is_gone = *e == Error::Os(ECHILD) || *e == Error::Os(ESRCH);
            if is_gone {
                Ok(false)
            } else {
                Err(*e)
            }
        },
    }
}

/// A status query outcome after which the child can never again be
/// observed alive: a reported state change of a reaped child, or an
/// error saying the child is gone.
pub open spec fn terminal_query(status: Result<WaitStatus, Error>) -> bool {
    alive_decision(status) == Ok::<bool, Error>(false)
}

/// A sequence of status queries is kernel-consistent when no query after
/// a terminal one reports the child alive again. This is what `waitpid`
/// guarantees for a single child: once its state change has been
/// consumed, later queries report the change again or fail with
/// `ECHILD`, and the pid is not observed `StillAlive` afterwards.
pub open spec fn kernel_consistent(history: Seq<Result<WaitStatus, Error>>) -> bool {
    forall|k: int, l: int|
        0 <= k <= l < history.len() && terminal_query(#[trigger] history[k]) ==> !(
        #[trigger] history[l] matches Ok(WaitStatus::StillAlive))
}

/// `is_alive` transitions monotonically from true to false: over any
/// kernel-consistent sequence of status queries, once a query answers
/// "not alive", no later query answers "alive" again.
pub proof fn lemma_alive_monotonic(history: Seq<Result<WaitStatus, Error>>, k: int, l: int)
    requires
        kernel_consistent(history),
        0 <= k <= l < history.len(),
        alive_decision(history[k]) == Ok::<bool, Error>(false),
    ensures
        alive_decision(history[l]) != Ok::<bool, Error>(true),
{
    assert(terminal_query(history[k]));
    assert(!(history[l] matches Ok(WaitStatus::StillAlive)));
    match history[l] {
        Ok(st) => {
            assert(!(st is StillAlive));
        },
        Err(e) => {},
    }
}

} // verus!
