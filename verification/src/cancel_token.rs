//! The handle through which a caller cancels an exchange.
//!
//! The token owns the handle of the background task until the first
//! cancellation takes it out. Whoever gets the handle aborts the task and
//! waits for it; every later cancellation finds the token empty and returns
//! at once.

use vstd::prelude::*;

verus! {

/// Holds the task of a running exchange until it is cancelled.
#[derive(Debug)]
pub struct ExchangeCancelToken<T> {
    task: Option<T>,
}

impl<T> ExchangeCancelToken<T> {
    /// The task that a cancellation would still have to stop.
    pub closed spec fn task(&self) -> Option<T> {
        self.task
    }

    /// What one cancellation does to a token: it hands out the task, if the
    /// token still has it, and leaves the token empty.
    pub open spec fn cancelled(held: Option<T>) -> (Option<T>, Option<T>) {
        (None, held)
    }

    /// A token for the task of an exchange that has just been spawned.
    pub fn new(task: T) -> (token: Self)
        ensures
            token.task() == Some(task),
    {
        ExchangeCancelToken { task: Some(task) }
    }

    /// Takes the task out of the token. The first call returns it, and the
    /// caller then aborts and joins it; every later call returns `None`.
    pub fn cancel(&mut self) -> (task: Option<T>)
        ensures
            (final(self).task(), task) == Self::cancelled(old(self).task()),
    {
        self.task.take()
    }

    /// Whether the task has been taken out already.
    pub fn is_cancelled(&self) -> (cancelled: bool)
        ensures
            cancelled == self.task() is None,
    {
        self.task.is_none()
    }
}

/// Cancelling is idempotent: a second cancellation hands out nothing and
/// leaves the token as the first one left it.
pub proof fn lemma_second_cancel_is_noop<T>(held: Option<T>)
    ensures
        ExchangeCancelToken::<T>::cancelled(ExchangeCancelToken::<T>::cancelled(held).0) == (
            None::<T>,
            None::<T>,
        ),
{
}

} // verus!
