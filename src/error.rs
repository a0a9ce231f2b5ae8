//! Operating-system failures and the classifier that tells a transient
//! would-block condition from a hard failure.

use vstd::prelude::*;

use crate::abi::{EAGAIN, EINPROGRESS, EWOULDBLOCK};

verus! {

/// The category of a failed operation.
#[derive(Clone, Copy, Debug, PartialEq, Eq, Structural)]
pub enum FailureKind {
    /// The operation would have blocked.
    WouldBlock,
    /// A bounded wait elapsed without the descriptor becoming ready.
    TimedOut,
    /// A signal interrupted the call.
    Interrupted,
    /// The source ran dry before a whole frame was read.
    UnexpectedEof,
    /// The kernel returned a byte count that is no frame size.
    InvalidData,
    /// Anything else the kernel reports.
    Other,
}

/// A failed operation: its category and, where the kernel gave one, the
/// errno value.
#[derive(Clone, Copy, Debug, PartialEq, Eq, Structural)]
pub struct OsError {
    pub kind: FailureKind,
    pub code: Option<i32>,
}

impl OsError {
    /// The failure of a bounded wait that saw no data.
    pub fn timed_out() -> (r: OsError)
        ensures
            r == (OsError { kind: FailureKind::TimedOut, code: None }),
    {
        OsError { kind: FailureKind::TimedOut, code: None }
    }

    /// The failure of a read that ended before a whole frame arrived.
    pub fn unexpected_eof() -> (r: OsError)
        ensures
            r == (OsError { kind: FailureKind::UnexpectedEof, code: None }),
    {
        OsError { kind: FailureKind::UnexpectedEof, code: None }
    }

    /// The failure of a read whose size matches no frame.
    pub fn protocol_violation() -> (r: OsError)
        ensures
            r == (OsError { kind: FailureKind::InvalidData, code: None }),
    {
        OsError { kind: FailureKind::InvalidData, code: None }
    }

    /// Whether this failure is a transient would-block condition: the
    /// would-block category, or one of the errno values the kernel uses for a
    /// blocking timeout.
    pub open spec fn is_transient(self) -> bool {
        ||| self.kind == FailureKind::WouldBlock
        ||| self.code == Some(EAGAIN)
        ||| self.code == Some(EWOULDBLOCK)
        ||| self.code == Some(EINPROGRESS)
    }
}

/// Checks a failure, or the outcome of an operation, for a transient
/// would-block condition that is worth retrying.
pub trait ShouldRetry {
    /// Whether the value is a retry-worthy failure.
    spec fn retry_worthy(&self) -> bool;

    /// Returns `true` exactly when the value is a retry-worthy failure.
    fn should_retry(&self) -> (r: bool)
        ensures
            r == self.retry_worthy(),
    ;
}

impl ShouldRetry for OsError {
    open spec fn retry_worthy(&self) -> bool {
        self.is_transient()
    }

    fn should_retry(&self) -> (r: bool) {
        match self.kind {
            FailureKind::WouldBlock => true,
            _ => match self.code {
                Some(errno) => errno == EAGAIN || errno == EWOULDBLOCK || errno == EINPROGRESS,
                None => false,
            },
        }
    }
}

impl<T> ShouldRetry for Result<T, OsError> {
    open spec fn retry_worthy(&self) -> bool {
        match self {
            Err(e) => e.is_transient(),
            Ok(_) => false,
        }
    }

    fn should_retry(&self) -> (r: bool) {
        match self {
            Err(e) => e.should_retry(),
            Ok(_) => false,
        }
    }
}

} // verus!
