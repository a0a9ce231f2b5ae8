//! The decisions of the frame I/O engine. The caller performs each system
//! call and hands its outcome to a step function here, which says what to do
//! next.

use vstd::prelude::*;

use crate::error::{FailureKind, OsError, ShouldRetry};

verus! {

/// What an exact read does after one `read` call.
#[derive(Debug)]
pub enum ReadStep {
    /// Read again into the part of the buffer not yet filled.
    Again,
    /// The buffer is full.
    Complete,
    /// Give up with this failure.
    Failed(OsError),
}

/// Progress of a read that must fill exactly `wanted` bytes, retrying
/// interrupted calls and failing when the source runs dry.
#[derive(Clone, Copy, Debug)]
pub struct ExactRead {
    pub wanted: usize,
    pub filled: usize,
}

impl ExactRead {
    /// No more than the wanted bytes are ever filled.
    pub open spec fn wf(self) -> bool {
        self.filled <= self.wanted
    }

    /// The number of bytes still to be read.
    pub open spec fn left(self) -> int {
        self.wanted - self.filled
    }

    /// A read of `wanted` bytes with nothing filled yet.
    pub fn new(wanted: usize) -> (r: ExactRead)
        ensures
            r.wf(),
            r.wanted == wanted,
            r.filled == 0,
    {
        ExactRead { wanted, filled: 0 }
    }

    /// The number of bytes still to be read.
    pub fn remaining(&self) -> (r: usize)
        requires
            self.wf(),
        ensures
            r == self.left(),
    {
        self.wanted - self.filled
    }

    /// Takes the outcome of one `read` into the unfilled part: `Ok(n)` for
    /// `n` bytes read. The read is complete once nothing is left; a read of
    /// zero bytes with something left is an unexpected end of input; an
    /// interrupted call is retried; any other failure ends the read.
    pub fn advance(&mut self, outcome: Result<usize, OsError>) -> (r: ReadStep)
        requires
            old(self).wf(),
        ensures
            final(self).wf(),
            final(self).wanted == old(self).wanted,
            match outcome {
                Ok(n) => if n >= old(self).left() {
                    r is Complete && final(self).filled == final(self).wanted
                } else if n == 0 {
                    r == ReadStep::Failed(
                        OsError { kind: FailureKind::UnexpectedEof, code: None },
                    ) && *final(self) == *old(self)
                } else {
                    r is Again && final(self).filled == old(self).filled + n
                },
                Err(e) => if e.kind == FailureKind::Interrupted {
                    r is Again && *final(self) == *old(self)
                } else {
                    r == ReadStep::Failed(e) && *final(self) == *old(self)
                },
            },
    {
        match outcome {
            Ok(n) => {
                if n >= self.wanted - self.filled {
                    self.filled = self.wanted;
                    ReadStep::Complete
                } else if n == 0 {
                    ReadStep::Failed(OsError::unexpected_eof())
                } else {
                    self.filled = self.filled + n;
                    ReadStep::Again
                }
            },
            Err(e) => {
                if e.kind == FailureKind::Interrupted {
                    ReadStep::Again
                } else {
                    ReadStep::Failed(e)
                }
            },
        }
    }
}

/// The `poll` timeout, in milliseconds, for a read bounded by `millis`
/// milliseconds: the bound itself, capped at the largest value `poll`
/// takes. Never negative, so the wait is never unbounded.
pub fn poll_timeout_ms(millis: u128) -> (r: i32)
    ensures
        r >= 0,
        millis <= i32::MAX ==> r == millis,
        millis > i32::MAX ==> r == i32::MAX,
{
    if millis > i32::MAX as u128 {
        i32::MAX
    } else {
        millis as i32
    }
}

/// Decides a bounded read from the outcome of `poll` on the descriptor:
/// `Ok(())` means read now; no ready descriptor means the wait timed out;
/// a failing `poll` is passed on.
pub fn after_poll(ready: Result<usize, OsError>) -> (r: Result<(), OsError>)
    ensures
        ready == Ok::<usize, OsError>(0) ==> r == Err::<(), OsError>(
            OsError { kind: FailureKind::TimedOut, code: None },
        ),
        (ready matches Ok(n) && n > 0) ==> r == Ok::<(), OsError>(()),
        ready is Err ==> r == Err::<(), OsError>(ready->Err_0),
{
    match ready {
        Ok(0) => Err(OsError::timed_out()),
        Ok(_) => Ok(()),
        Err(e) => Err(e),
    }
}

/// What an insisting write does after one write attempt.
#[derive(Debug)]
pub enum InsistStep {
    /// Write again at once.
    Retry,
    /// Stop, with this outcome.
    Finish(Result<(), OsError>),
}

/// The step an insisting write takes on the outcome of one attempt: success
/// and hard failures end it, retry-worthy failures repeat it.
pub open spec fn insist_decision(outcome: Result<(), OsError>) -> InsistStep {
    if outcome.retry_worthy() {
        InsistStep::Retry
    } else {
        InsistStep::Finish(outcome)
    }
}

/// Decides an insisting write from the outcome of one attempt.
pub fn insist_step(outcome: Result<(), OsError>) -> (r: InsistStep)
    ensures
        r == insist_decision(outcome),
{
    if outcome.should_retry() {
        InsistStep::Retry
    } else {
        InsistStep::Finish(outcome)
    }
}

/// Where an insisting write ends over a series of attempt outcomes:
/// `None` while every attempt so far was retry-worthy.
pub open spec fn insist_run(attempts: Seq<Result<(), OsError>>) -> Option<Result<(), OsError>>
    decreases attempts.len(),
{
    if attempts.len() == 0 {
        None
    } else {
        match insist_decision(attempts[0]) {
            InsistStep::Retry => insist_run(attempts.drop_first()),
            InsistStep::Finish(outcome) => Some(outcome),
        }
    }
}

/// An insisting write keeps going through every retry-worthy failure and
/// ends with the first outcome that is not one: success if that attempt
/// succeeded.
pub proof fn lemma_insist_ends_at_first_unflagged(attempts: Seq<Result<(), OsError>>, k: int)
    requires
        0 <= k < attempts.len(),
        forall|i: int| 0 <= i < k ==> (#[trigger] attempts[i]).retry_worthy(),
        !attempts[k].retry_worthy(),
    ensures
        insist_run(attempts.subrange(0, k)) is None,
        insist_run(attempts) == Some(attempts[k]),
    decreases k,
{
    if k > 0 {
        let rest = attempts.drop_first();
        assert forall|i: int| 0 <= i < k - 1 implies (#[trigger] rest[i]).retry_worthy() by {
            assert(rest[i] == attempts[i + 1]);
        }
        lemma_insist_ends_at_first_unflagged(rest, k - 1);
        assert(attempts[0].retry_worthy());
        assert(attempts.subrange(0, k).drop_first() =~= rest.subrange(0, k - 1));
        assert(attempts.subrange(0, k)[0] == attempts[0]);
    }
}

} // verus!
