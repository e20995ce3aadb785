use vstd::prelude::*;
use crate::error::{WemuxError, decimal, dec_seq};

verus! {

/// How a child process ended: with an exit code, or killed by a signal.
#[derive(Debug, Clone, Copy, PartialEq, Eq, Structural)]
pub enum Termination {
    Exited(i32),
    Signaled(i32),
}

/// The exit code reported for a child that a signal killed.
pub const SIGNAL_EXIT_CODE: i32 = 9;

/// The failure that a termination stands for, as a message and an exit code;
/// `None` for a clean exit.
pub open spec fn failure_spec(t: Termination) -> Option<(Seq<char>, i32)> {
    match t {
        Termination::Exited(0) => None,
        Termination::Exited(c) => Some(("'wemux' failed with exit status: "@ + dec_seq(c as int), c)),
        Termination::Signaled(s) => Some(("'wemux' was killed by signal "@ + dec_seq(s as int), 9)),
    }
}

/// `e` is the failure described by `f`.
pub open spec fn is_failure(e: WemuxError, f: (Seq<char>, i32)) -> bool {
    e.spec_msg() == f.0 && e.spec_code() == f.1
}

/// Classifies how a child ended: `None` for exit code 0, otherwise the error
/// to report, which carries the child's own exit code, or 9 for a signal.
pub fn child_failed(status: &Termination) -> (r: Option<WemuxError>)
    ensures
        match (r, failure_spec(*status)) {
            (None, None) => true,
            (Some(e), Some(f)) => is_failure(e, f),
            _ => false,
        },
{
    match *status {
        Termination::Exited(0) => None,
        Termination::Exited(c) => {
            let msg = String::from_str("'wemux' failed with exit status: ").concat(
                decimal(c).as_str(),
            );
            Some(WemuxError::new(msg.as_str(), c))
        },
        Termination::Signaled(s) => {
            let msg = String::from_str("'wemux' was killed by signal ").concat(
                decimal(s).as_str(),
            );
            Some(WemuxError::new(msg.as_str(), SIGNAL_EXIT_CODE))
        },
    }
}

/// Every way a child can end is either a success, a failure with the child's
/// own nonzero exit code, or a signal death reported with exit code 9, and
/// never two of these.
pub proof fn lemma_classification_total(t: Termination)
    ensures
        match t {
            Termination::Exited(c) => if c == 0 {
                failure_spec(t) is None
            } else {
                failure_spec(t) matches Some(f) && f.1 == c
            },
            Termination::Signaled(_) => failure_spec(t) matches Some(f) && f.1 == 9,
        },
{
}

} // verus!
