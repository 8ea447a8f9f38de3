//! The completion bridge: the one mechanism that turns a one-shot native
//! completion signal into a resumable wait. A native submission answers with
//! a raw word — null for done-before-returning, a continuation token for
//! pending, a negative code for immediate failure — and a pending operation
//! is later resolved by exactly one callback invocation, which may run on the
//! submitting call stack or on any later progress step. The shell owns the
//! actual suspension; every transition it may take is a function here.
use vstd::prelude::*;

use crate::AmError;

verus! {

/// The transport's success status.
pub const STATUS_OK: i64 = 0;

/// The transport's still-running status, shown by a polled continuation.
pub const STATUS_INPROGRESS: i64 = 1;

/// The three shapes a native submission's answer can take.
#[derive(Clone, Copy, Debug, PartialEq, Eq, Structural)]
pub enum SubmitOutcome {
    /// The operation fully completed before the call returned.
    Completed,
    /// A continuation token was returned; the caller must hold the token and
    /// suspend until the completion callback fires. Abandoning it would leak
    /// the native-side continuation.
    Pending(i64),
    /// An immediate failure code: fatal for the operation, surfaced as an
    /// error, never a panic.
    Failed(i64),
}

/// How a raw submission answer is read: null is immediate success, a negative
/// word is a failure code, anything else is a continuation token.
pub open spec fn outcome_of(raw: i64) -> SubmitOutcome {
    if raw == 0 {
        SubmitOutcome::Completed
    } else if raw < 0 {
        SubmitOutcome::Failed(raw)
    } else {
        SubmitOutcome::Pending(raw)
    }
}

/// Classify a native submission's raw answer.
pub fn classify_submit(raw: i64) -> (r: SubmitOutcome)
    ensures
        r == outcome_of(raw),
{
    if raw == 0 {
        SubmitOutcome::Completed
    } else if raw < 0 {
        SubmitOutcome::Failed(raw)
    } else {
        SubmitOutcome::Pending(raw)
    }
}

/// The result a completed operation reports for its final status: success
/// exactly for `STATUS_OK`, and the typed transport failure — propagated,
/// never silently ignored — for every other code.
pub open spec fn completion_result_of(status: i64) -> Result<(), AmError> {
    if status == STATUS_OK {
        Ok(())
    } else {
        Err(AmError::TransportFailure(status))
    }
}

/// Turn a completion's final status into the caller's result.
pub fn completion_result(status: i64) -> (r: Result<(), AmError>)
    ensures
        r == completion_result_of(status),
{
    if status == STATUS_OK {
        Ok(())
    } else {
        Err(AmError::TransportFailure(status))
    }
}

/// One step of polling a pending continuation: still running, or resolved.
#[derive(Clone, Copy, Debug, PartialEq, Eq, Structural)]
pub enum OpPoll {
    Ready,
    Pending,
}

/// Read a polled continuation's status word: pending exactly while the
/// transport reports in-progress.
pub fn poll_recv(status: i64) -> (r: OpPoll)
    ensures
        r == (if status == STATUS_INPROGRESS {
            OpPoll::Pending
        } else {
            OpPoll::Ready
        }),
{
    if status == STATUS_INPROGRESS {
        OpPoll::Pending
    } else {
        OpPoll::Ready
    }
}

/// The per-operation completion cell. It is created right before the native
/// call, stays addressable for the whole window between submission and
/// callback, is written exactly once — by `complete`, the single point that
/// makes the suspended task runnable — and is read once by the awaiting task.
pub struct CompletionBridge {
    /// Whether the completion signal has fired (or the submission finished
    /// immediately).
    pub completed: bool,
    /// The final status word; meaningful once completed.
    pub status: i64,
    /// Whether a suspended task has parked its waker in the cell.
    pub waiting: bool,
}

impl CompletionBridge {
    /// A fresh cell for one operation about to be submitted.
    pub fn new() -> (b: CompletionBridge)
        ensures
            !b.completed,
            !b.waiting,
    {
        CompletionBridge { completed: false, status: STATUS_OK, waiting: false }
    }

    /// Record the native call's raw answer. An immediate success or failure
    /// resolves the cell on the spot; a continuation token leaves it open for
    /// the callback.
    pub fn submit(&mut self, raw: i64) -> (r: SubmitOutcome)
        requires
            !old(self).completed,
        ensures
            r == outcome_of(raw),
            r is Pending ==> *final(self) == *old(self),
            !(r is Pending) ==> final(self).completed && final(self).status == raw
                && final(self).waiting == old(self).waiting,
    {
        let outcome = classify_submit(raw);
        match outcome {
            SubmitOutcome::Pending(_) => {},
            _ => {
                self.completed = true;
                self.status = raw;
            },
        }
        outcome
    }

    /// Park the awaiting task's waker: allowed only while the operation is
    /// still open, and only once at a time.
    pub fn park(&mut self)
        requires
            !old(self).completed,
            !old(self).waiting,
        ensures
            *final(self) == (CompletionBridge { waiting: true, ..*old(self) }),
    {
        self.waiting = true;
    }

    /// The completion callback's single write: resolve the cell with the
    /// final status and hand the parked waker (if any) back to the scheduler.
    /// It tolerates running on the submitting call stack as well as on a
    /// later progress step; the write-once discipline is its precondition.
    pub fn complete(&mut self, status: i64)
        requires
            !old(self).completed,
        ensures
            *final(self) == (CompletionBridge { completed: true, status, waiting: false }),
    {
        self.completed = true;
        self.status = status;
        self.waiting = false;
    }

    /// The awaiting task's read: the typed result once the cell is resolved,
    /// and nothing before.
    pub fn take_result(&self) -> (r: Option<Result<(), AmError>>)
        ensures
            self.completed ==> r == Some(completion_result_of(self.status)),
            !self.completed ==> r is None,
    {
        if self.completed {
            Some(completion_result(self.status))
        } else {
            None
        }
    }
}

} // verus!
