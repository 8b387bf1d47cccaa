//! The failures of a turn and the revival policy.

use vstd::prelude::*;

verus! {

/// The kind of an I/O failure on one of the child's pipes.
///
/// Only `BrokenPipe` changes what the driver does; the other kinds are kept so
/// that a report can name them.
#[derive(Clone, Copy, Debug, PartialEq, Eq, Structural)]
pub enum IoErrorKind {
    NotFound,
    PermissionDenied,
    BrokenPipe,
    WouldBlock,
    InvalidInput,
    InvalidData,
    TimedOut,
    WriteZero,
    Interrupted,
    UnexpectedEof,
    OutOfMemory,
    Other,
}

/// Why the driver could not start a child or complete a read or a write.
#[derive(Clone, Copy, Debug, PartialEq, Eq, Structural)]
pub enum JShellError {
    /// What came before the end-of-turn marker on the error stream was not UTF-8.
    UnexpectedOutputError,
    /// A read from or a write to one of the pipes failed.
    IOError(IoErrorKind),
    /// The child could not be started.
    SpawnError(IoErrorKind),
    /// One of the child's output streams ended.
    ClosedError,
}

/// Why a turn gave no output.
#[derive(Clone, Copy, Debug, PartialEq, Eq, Structural)]
pub enum TurnError {
    /// The driver failed.
    JShellError(JShellError),
    /// The deadline passed before the child marked the end of the turn.
    TimeoutError,
}

impl JShellError {
    /// A failure after which the child is gone: a stream that ended or a
    /// broken pipe.
    pub open spec fn is_terminal(self) -> bool {
        self == JShellError::ClosedError || self == JShellError::IOError(IoErrorKind::BrokenPipe)
    }

    /// Decides `is_terminal`.
    pub fn terminal(&self) -> (b: bool)
        ensures
            b == self.is_terminal(),
    {
        match self {
            JShellError::ClosedError => true,
            JShellError::IOError(IoErrorKind::BrokenPipe) => true,
            _ => false,
        }
    }
}

impl TurnError {
    /// The revival policy: a new child is due after a broken pipe, a closed
    /// stream or a missed deadline, and after nothing else.
    pub open spec fn calls_for_revival(self) -> bool {
        match self {
            TurnError::JShellError(e) => e.is_terminal(),
            TurnError::TimeoutError => true,
        }
    }

    /// Decides whether the child must be replaced after this failure.
    pub fn needs_revive(&self) -> (b: bool)
        ensures
            b == self.calls_for_revival(),
    {
        match self {
            TurnError::JShellError(e) => e.terminal(),
            TurnError::TimeoutError => true,
        }
    }
}

} // verus!
