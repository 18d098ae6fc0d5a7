//! Join handles and join errors.
//!
//! A join handle is the caller's permission to await, abort or detach a
//! task.  The handle modelled here carries the task's identifier and
//! whether the task's storage is still held; the surrounding runtime keeps
//! the task's continuation next to it and consults [`join_outcome`] to turn
//! a finished poll into the caller-visible result.

use vstd::prelude::*;

use crate::decimal::{dec_str, u64_to_string};
use crate::Id;

verus! {

/// The message a join error carries: `"task <id> was cancelled"` or
/// `"task <id> panicked"`, with the task id spelt in decimal.
pub open spec fn message_of(e: JoinError) -> Seq<char> {
    if e.is_panic {
        "task "@ + dec_str(e.task.0 as int) + " panicked"@
    } else {
        "task "@ + dec_str(e.task.0 as int) + " was cancelled"@
    }
}

/// A task failed to run to completion: it was cancelled, or its future
/// raised an unrecoverable fault.
#[derive(Debug, PartialEq, Eq, Structural, Clone, Copy)]
pub struct JoinError {
    pub task: Id,
    pub is_panic: bool,
}

impl JoinError {
    /// The identifier of the task that failed.
    pub fn id(&self) -> (r: Id)
        ensures
            r == self.task,
    {
        self.task
    }

    /// True if the error was caused by the task being cancelled.
    pub fn is_cancelled(&self) -> (r: bool)
        ensures
            r == !self.is_panic,
    {
        !self.is_panic
    }

    /// True if the error was caused by the task panicking.
    pub fn is_panic(&self) -> (r: bool)
        ensures
            r == self.is_panic,
    {
        self.is_panic
    }

    /// The error's formatted message — `"task <id> was cancelled"` or
    /// `"task <id> panicked"` — which a conversion to a generic I/O error
    /// carries unchanged.
    pub fn message(&self) -> (r: String)
        ensures
            r@ == message_of(*self),
    {
        let mut s = String::from_str("task ");
        let digits = u64_to_string(self.task.0);
        s.append(digits.as_str());
        if self.is_panic {
            s.append(" panicked");
        } else {
            s.append(" was cancelled");
        }
        proof {
            assert(s@ =~= message_of(*self));
        }
        s
    }
}

/// An owned permission to join on a task (await its termination).
///
/// The surrounding runtime stores the task's continuation next to this
/// record; `task_held` mirrors whether that storage is still in place.
/// Dropping the handle without awaiting detaches the task: it keeps running
/// and its result is discarded.
#[derive(Debug, PartialEq, Eq, Structural, Clone, Copy)]
pub struct JoinHandle {
    pub task_id: Id,
    pub task_held: bool,
}

impl JoinHandle {
    /// The identifier of the task this handle joins on.
    pub fn id(&self) -> (r: Id)
        ensures
            r == self.task_id,
    {
        self.task_id
    }

    /// Aborts the task associated with the handle: its storage is dropped
    /// and it is never polled again.  Idempotent, and safe after the task
    /// has completed.
    pub fn abort(&mut self)
        ensures
            final(self).task_id == old(self).task_id,
            !final(self).task_held,
    {
        self.task_held = false;
    }

    /// Consumes the handle and hands the task's storage to the caller, so
    /// that the task is cancelled when that storage is dropped rather than
    /// detached.  The storage must still be held.
    pub fn cancel_on_drop(self) -> (r: Id)
        requires
            self.task_held,
        ensures
            r == self.task_id,
    {
        self.task_id
    }
}

/// Turns the outcome of a finished join into the caller-visible result.
///
/// `outcome` is what polling the task's storage yielded: the task's value,
/// or nothing when the task did not run to completion.  In the latter case
/// `aborted` tells whether its storage was dropped by an abort (the task
/// was cancelled) or the task's future faulted (the task panicked).
pub fn join_outcome<T>(id: Id, outcome: Option<T>, aborted: bool) -> (r: Result<T, JoinError>)
    ensures
        (match outcome {
            Some(v) => r == Ok::<T, JoinError>(v),
            None => r == Err::<T, JoinError>(JoinError { task: id, is_panic: !aborted }),
        }),
{
    match outcome {
        Some(v) => Ok(v),
        None => Err(JoinError { task: id, is_panic: !aborted }),
    }
}

} // verus!
