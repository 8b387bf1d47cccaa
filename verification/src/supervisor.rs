//! The supervisor: one driver, one turn at a time, each under a deadline.
//!
//! A turn is a statement handed out for writing, followed by whatever the
//! caller observes until the turn's sentinel, a failure or the deadline. The
//! caller keeps the lock that serialises turns and the clock; the supervisor
//! decides what each observation means.

use vstd::prelude::*;
use vstd::utf8::*;
use crate::driver::{DriverState, JShell};
use crate::error::{IoErrorKind, JShellError, TurnError};
use crate::reader::{record_of, Record, StreamEvent};

verus! {

/// The seconds that a turn may take.
pub const TURN_DEADLINE_SECS: u64 = 5;

/// The byte that ends a statement.
pub const NEWLINE: u8 = 10;

/// What the caller observed while it awaited the end of a turn.
#[derive(Debug)]
pub enum TurnEvent {
    /// One of the child's streams gave something.
    Stream(StreamEvent),
    /// The deadline passed first.
    DeadlinePassed,
}

/// One call on a supervisor, as contracts speak of it.
pub enum Op {
    /// A turn is begun with this statement.
    Begin(Seq<char>),
    /// The write of a statement ended like this.
    Written(Result<(), IoErrorKind>),
    /// This record or failure was observed on the child's streams.
    Observed(Result<Record, JShellError>),
    /// The deadline of the turn passed.
    DeadlinePassed,
    /// The driver is replaced by this one.
    Revive(DriverState),
}

/// What a call on a supervisor hands to its caller.
pub enum Effect {
    /// Bytes to write to the child.
    Write(Seq<u8>),
    /// The output of a completed turn.
    Reply(Seq<char>),
    /// The end of a turn without output.
    Failure(TurnError),
}

/// The bytes that begin a turn: those of the statement, then a newline.
pub open spec fn statement_bytes(stmt: Seq<char>) -> Seq<u8> {
    encode_utf8(stmt).push(NEWLINE)
}

/// What an observation is as a call.
pub open spec fn op_of(event: TurnEvent) -> Op {
    match event {
        TurnEvent::Stream(e) => Op::Observed(record_of(e)),
        TurnEvent::DeadlinePassed => Op::DeadlinePassed,
    }
}

/// The driver after one call.
pub open spec fn next_state(s: DriverState, op: Op) -> DriverState {
    match op {
        Op::Begin(_) => s.on_input(),
        Op::Written(outcome) => s.on_written(outcome),
        Op::Observed(rec) => s.on_drain(rec),
        Op::DeadlinePassed => s.on_abandon(),
        Op::Revive(fresh) => fresh,
    }
}

/// What one call hands to the caller, if anything.
pub open spec fn effect_of(s: DriverState, op: Op) -> Option<Effect> {
    match op {
        Op::Begin(stmt) => Some(Effect::Write(statement_bytes(stmt))),
        Op::Written(outcome) => match outcome {
            Ok(_) => None,
            Err(kind) => Some(Effect::Failure(TurnError::JShellError(JShellError::IOError(kind)))),
        },
        Op::Observed(rec) => match s.drain_reply(rec) {
            Ok(None) => None,
            Ok(Some(output)) => Some(Effect::Reply(output)),
            Err(e) => Some(Effect::Failure(TurnError::JShellError(e))),
        },
        Op::DeadlinePassed => Some(Effect::Failure(TurnError::TimeoutError)),
        Op::Revive(_) => None,
    }
}

/// The model of what the caller is told of a write.
pub open spec fn written_view(r: Result<(), TurnError>) -> Option<Effect> {
    match r {
        Ok(_) => None,
        Err(e) => Some(Effect::Failure(e)),
    }
}

/// The model of what the caller is told of an observation.
pub open spec fn outcome_view(r: Option<Result<String, TurnError>>) -> Option<Effect> {
    match r {
        None => None,
        Some(Ok(output)) => Some(Effect::Reply(output@)),
        Some(Err(e)) => Some(Effect::Failure(e)),
    }
}

/// The holder of the one driver through which all turns go.
#[derive(Debug)]
pub struct Supervisor {
    driver: JShell,
}

impl View for Supervisor {
    type V = DriverState;

    closed spec fn view(&self) -> DriverState {
        self.driver@
    }
}

impl Supervisor {
    /// A supervisor for a driver, which should have completed its handshake.
    pub fn new(driver: JShell) -> (r: Supervisor)
        ensures
            r@ == driver@,
    {
        Supervisor { driver }
    }

    /// The driver that the supervisor holds.
    pub fn driver(&self) -> (r: &JShell)
        ensures
            r@ == self@,
    {
        &self.driver
    }

    /// Begins a turn: hands out the bytes of `stmt`, unchanged, and a
    /// newline after them.
    pub fn begin_turn(&mut self, stmt: &str) -> (bytes: Vec<u8>)
        ensures
            final(self)@ == next_state(old(self)@, Op::Begin(stmt@)),
            Some(Effect::Write(bytes@)) == effect_of(old(self)@, Op::Begin(stmt@)),
    {
        let mut bytes = self.driver.input(stmt);
        bytes.push(NEWLINE);
        bytes
    }

    /// Takes note of how the write of a statement went. A failed write ends
    /// the turn.
    pub fn written(&mut self, outcome: Result<(), IoErrorKind>) -> (r: Result<(), TurnError>)
        ensures
            final(self)@ == next_state(old(self)@, Op::Written(outcome)),
            written_view(r) == effect_of(old(self)@, Op::Written(outcome)),
    {
        match self.driver.written(outcome) {
            Ok(_) => Ok(()),
            Err(e) => Err(TurnError::JShellError(e)),
        }
    }

    /// Takes one observation of the turn in flight. `None` says that the turn
    /// goes on. `Some` ends it: with the collected output after the sentinel,
    /// with the failure of the driver, or with `TimeoutError` where the
    /// deadline passed, in which case the turn is given up.
    pub fn on_event(&mut self, event: TurnEvent) -> (r: Option<Result<String, TurnError>>)
        ensures
            final(self)@ == next_state(old(self)@, op_of(event)),
            outcome_view(r) == effect_of(old(self)@, op_of(event)),
    {
        match event {
            TurnEvent::Stream(e) => match self.driver.read_output(e) {
                Ok(None) => None,
                Ok(Some(output)) => Some(Ok(output)),
                Err(e) => Some(Err(TurnError::JShellError(e))),
            },
            TurnEvent::DeadlinePassed => {
                self.driver.abandon();
                Some(Err(TurnError::TimeoutError))
            },
        }
    }

    /// Replaces the driver by `fresh`, which should have completed its
    /// handshake. Nothing of the old driver stays behind.
    pub fn revive(&mut self, fresh: JShell)
        ensures
            final(self)@ == next_state(old(self)@, Op::Revive(fresh@)),
    {
        self.driver = fresh;
    }
}

} // verus!
