//! The turn driver: the phases of one child and the output that the turn in
//! flight has produced so far.
//!
//! The driver performs no I/O. The caller spawns the child, writes what
//! `input` hands out, awaits the two output streams and reports each event;
//! the driver keeps the phase, collects the lines of the turn and says when
//! the turn is over.

use vstd::prelude::*;
use vstd::string::*;
use crate::error::{IoErrorKind, JShellError};
use crate::reader::{read_record, record_of, record_view, Record, StreamEvent};

verus! {

/// The name of the executable that the caller starts as the child.
pub const PROGRAM: &'static str = "jshell";

/// Where a driver stands in the life of its child.
#[derive(Clone, Copy, Debug, PartialEq, Eq, Structural)]
pub enum Phase {
    /// No child has been started yet.
    Fresh,
    /// The child runs; its welcome text has not been read to the first sentinel.
    Handshaking,
    /// The child is quiet and ready for a statement.
    Idle,
    /// A statement was handed out; none of its output has been seen.
    AwaitingInput,
    /// Output of the turn in flight has been seen, its sentinel has not.
    Draining,
    /// The child is gone. Only a new driver helps.
    Dead,
}

impl Phase {
    /// The phase after the child was started.
    pub open spec fn after_spawn(self) -> Phase {
        if self == Phase::Fresh {
            Phase::Handshaking
        } else {
            self
        }
    }

    /// The phase after a statement was handed out for writing.
    pub open spec fn after_input(self) -> Phase {
        if self == Phase::Idle {
            Phase::AwaitingInput
        } else {
            self
        }
    }

    /// The phase after a record was read.
    pub open spec fn after_record(self, is_end_marker: bool) -> Phase {
        match self {
            Phase::Fresh => Phase::Fresh,
            Phase::Dead => Phase::Dead,
            Phase::Handshaking => if is_end_marker {
                Phase::Idle
            } else {
                Phase::Handshaking
            },
            _ => if is_end_marker {
                Phase::Idle
            } else {
                Phase::Draining
            },
        }
    }

    /// The phase after a read or a write failed.
    pub open spec fn after_failure(self, e: JShellError) -> Phase {
        if e.is_terminal() {
            Phase::Dead
        } else {
            self
        }
    }
}

/// A driver as contracts speak of it.
pub struct DriverState {
    /// The phase of the child.
    pub phase: Phase,
    /// The lines of the turn in flight, one after the other without their
    /// terminators.
    pub pending: Seq<char>,
}

impl DriverState {
    /// A driver without a child.
    pub open spec fn fresh() -> DriverState {
        DriverState { phase: Phase::Fresh, pending: Seq::empty() }
    }

    /// A driver whose child has completed the handshake or a turn.
    pub open spec fn idle() -> DriverState {
        DriverState { phase: Phase::Idle, pending: Seq::empty() }
    }

    /// The driver after an attempt to start the child.
    pub open spec fn on_spawn(self, outcome: Result<(), IoErrorKind>) -> DriverState {
        match outcome {
            Ok(_) => DriverState { phase: self.phase.after_spawn(), pending: self.pending },
            Err(_) => self,
        }
    }

    /// The driver after it handed out a statement.
    pub open spec fn on_input(self) -> DriverState {
        DriverState { phase: self.phase.after_input(), pending: self.pending }
    }

    /// The driver after the caller wrote to the child.
    pub open spec fn on_written(self, outcome: Result<(), IoErrorKind>) -> DriverState {
        match outcome {
            Ok(_) => self,
            Err(kind) => DriverState {
                phase: self.phase.after_failure(JShellError::IOError(kind)),
                pending: self.pending,
            },
        }
    }

    /// The driver after it read a record that it does not collect.
    pub open spec fn on_record(self, rec: Result<Record, JShellError>) -> DriverState {
        match rec {
            Ok((_, is_end_marker)) => DriverState {
                phase: self.phase.after_record(is_end_marker),
                pending: self.pending,
            },
            Err(e) => DriverState { phase: self.phase.after_failure(e), pending: self.pending },
        }
    }

    /// The driver after one step of collecting a turn: a line is appended
    /// as it is, a sentinel or a failure leaves nothing behind.
    pub open spec fn on_drain(self, rec: Result<Record, JShellError>) -> DriverState {
        match rec {
            Ok((text, is_end_marker)) => DriverState {
                phase: self.phase.after_record(is_end_marker),
                pending: if is_end_marker {
                    Seq::empty()
                } else {
                    self.pending + text
                },
            },
            Err(e) => DriverState { phase: self.phase.after_failure(e), pending: Seq::empty() },
        }
    }

    /// What one step of collecting a turn gives back: nothing yet after a
    /// line, what was collected after a sentinel (whose own text is dropped),
    /// the failure otherwise.
    pub open spec fn drain_reply(self, rec: Result<Record, JShellError>) -> Result<
        Option<Seq<char>>,
        JShellError,
    > {
        match rec {
            Ok((_, is_end_marker)) => if is_end_marker {
                Ok(Some(self.pending))
            } else {
                Ok(None)
            },
            Err(e) => Err(e),
        }
    }

    /// The driver after the caller gave up the turn in flight. What was
    /// collected is lost; the phase stays, since the child was not told.
    pub open spec fn on_abandon(self) -> DriverState {
        DriverState { phase: self.phase, pending: Seq::empty() }
    }
}

/// The model of what a step of collecting a turn returned.
pub open spec fn reply_view(r: Result<Option<String>, JShellError>) -> Result<
    Option<Seq<char>>,
    JShellError,
> {
    match r {
        Ok(Some(output)) => Ok(Some(output@)),
        Ok(None) => Ok(None),
        Err(e) => Err(e),
    }
}

/// What the caller is told after an attempt to start the child.
pub open spec fn spawn_result(outcome: Result<(), IoErrorKind>) -> Result<(), JShellError> {
    match outcome {
        Ok(_) => Ok(()),
        Err(kind) => Err(JShellError::SpawnError(kind)),
    }
}

/// What the caller is told after a write to the child.
pub open spec fn write_result(outcome: Result<(), IoErrorKind>) -> Result<(), JShellError> {
    match outcome {
        Ok(_) => Ok(()),
        Err(kind) => Err(JShellError::IOError(kind)),
    }
}

/// What the handshake tells of a record: whether the welcome text is over.
pub open spec fn welcome_result(rec: Result<Record, JShellError>) -> Result<bool, JShellError> {
    match rec {
        Ok((_, is_end_marker)) => Ok(is_end_marker),
        Err(e) => Err(e),
    }
}

/// The driver of one child.
#[derive(Debug)]
pub struct JShell {
    phase: Phase,
    output: String,
}

impl View for JShell {
    type V = DriverState;

    closed spec fn view(&self) -> DriverState {
        DriverState { phase: self.phase, pending: self.output@ }
    }
}

impl JShell {
    /// A driver for a child that is yet to be started.
    pub fn new() -> (r: JShell)
        ensures
            r@ == DriverState::fresh(),
    {
        JShell { phase: Phase::Fresh, output: String::new() }
    }

    /// The phase of the child.
    pub fn phase(&self) -> (p: Phase)
        ensures
            p == self@.phase,
    {
        self.phase
    }

    /// Whether the child is gone.
    pub fn is_dead(&self) -> (b: bool)
        ensures
            b == (self@.phase == Phase::Dead),
    {
        match self.phase {
            Phase::Dead => true,
            _ => false,
        }
    }

    /// What the turn in flight has produced so far.
    pub fn pending(&self) -> (r: &str)
        ensures
            r@ == self@.pending,
    {
        self.output.as_str()
    }

    /// Takes note of the attempt to start the child. A child that runs enters
    /// the handshake; a failure is reported as `SpawnError`.
    pub fn spawned(&mut self, outcome: Result<(), IoErrorKind>) -> (r: Result<(), JShellError>)
        ensures
            final(self)@ == old(self)@.on_spawn(outcome),
            r == spawn_result(outcome),
    {
        match outcome {
            Ok(_) => {
                match self.phase {
                    Phase::Fresh => {
                        self.phase = Phase::Handshaking;
                    },
                    _ => {},
                }
                Ok(())
            },
            Err(kind) => Err(JShellError::SpawnError(kind)),
        }
    }

    /// Hands out the bytes to write to the child for `stmt`: its own bytes,
    /// nothing added and nothing changed. The caller ends the statement with
    /// a newline.
    pub fn input(&mut self, stmt: &str) -> (bytes: Vec<u8>)
        ensures
            bytes@ == stmt.spec_bytes(),
            final(self)@ == old(self)@.on_input(),
    {
        match self.phase {
            Phase::Idle => {
                self.phase = Phase::AwaitingInput;
            },
            _ => {},
        }
        stmt.as_bytes_vec()
    }

    /// Takes note of how the write of what `input` handed out went.
    pub fn written(&mut self, outcome: Result<(), IoErrorKind>) -> (r: Result<(), JShellError>)
        ensures
            final(self)@ == old(self)@.on_written(outcome),
            r == write_result(outcome),
    {
        match outcome {
            Ok(_) => Ok(()),
            Err(kind) => {
                let e = JShellError::IOError(kind);
                self.fail(e);
                Err(e)
            },
        }
    }

    /// Turns one event into a record and follows it with the phase.
    pub fn read_line(&mut self, event: StreamEvent) -> (r: Result<(String, bool), JShellError>)
        ensures
            record_view(r) == record_of(event),
            final(self)@ == old(self)@.on_record(record_of(event)),
    {
        match read_record(event) {
            Ok((text, is_end_marker)) => {
                self.advance(is_end_marker);
                Ok((text, is_end_marker))
            },
            Err(e) => {
                self.fail(e);
                Err(e)
            },
        }
    }

    /// One step of the handshake: reads a record of the welcome text and
    /// drops it. `Ok(true)` says that the first sentinel was seen and the
    /// child is ready.
    pub fn discard_welcome(&mut self, event: StreamEvent) -> (r: Result<bool, JShellError>)
        ensures
            r == welcome_result(record_of(event)),
            final(self)@ == old(self)@.on_record(record_of(event)),
    {
        match self.read_line(event) {
            Ok((_, is_end_marker)) => Ok(is_end_marker),
            Err(e) => Err(e),
        }
    }

    /// One step of collecting the output of a turn. A line is appended to
    /// what was collected, without a separator. A sentinel ends the turn: what
    /// was collected is returned and the sentinel's own text is dropped. A
    /// failure ends the turn without output.
    pub fn read_output(&mut self, event: StreamEvent) -> (r: Result<Option<String>, JShellError>)
        ensures
            reply_view(r) == old(self)@.drain_reply(record_of(event)),
            final(self)@ == old(self)@.on_drain(record_of(event)),
    {
        match self.read_line(event) {
            Ok((text, is_end_marker)) => {
                if is_end_marker {
                    Ok(Some(self.take_output()))
                } else {
                    self.output.append(text.as_str());
                    Ok(None)
                }
            },
            Err(e) => {
                let _ = self.take_output();
                Err(e)
            },
        }
    }

    /// Gives up the turn in flight, as after a missed deadline. The child is
    /// not told, so its streams stay where they are: only a new driver brings
    /// statements and output back in step.
    pub fn abandon(&mut self)
        ensures
            final(self)@ == old(self)@.on_abandon(),
    {
        let _ = self.take_output();
    }

    fn advance(&mut self, is_end_marker: bool)
        ensures
            final(self)@.phase == old(self)@.phase.after_record(is_end_marker),
            final(self)@.pending == old(self)@.pending,
    {
        match self.phase {
            Phase::Fresh => {},
            Phase::Dead => {},
            Phase::Handshaking => {
                if is_end_marker {
                    self.phase = Phase::Idle;
                }
            },
            _ => {
                if is_end_marker {
                    self.phase = Phase::Idle;
                } else {
                    self.phase = Phase::Draining;
                }
            },
        }
    }

    fn fail(&mut self, e: JShellError)
        ensures
            final(self)@.phase == old(self)@.phase.after_failure(e),
            final(self)@.pending == old(self)@.pending,
    {
        if e.terminal() {
            self.phase = Phase::Dead;
        }
    }

    fn take_output(&mut self) -> (r: String)
        ensures
            r@ == old(self)@.pending,
            final(self)@.pending == Seq::<char>::empty(),
            final(self)@.phase == old(self)@.phase,
    {
        let mut taken = String::new();
        core::mem::swap(&mut self.output, &mut taken);
        taken
    }
}

} // verus!
