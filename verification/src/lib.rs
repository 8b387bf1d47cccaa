//! A driver for one interactive `jshell` child, written without any I/O of its own.
//!
//! The caller owns the child process and its three pipes. It hands this crate
//! what it observed on them, one event at a time, and the crate answers with
//! what to write, what to keep and when a turn is over:
//!
//! * [`error`]: the failures a turn can end in, and which of them call for a
//!   new child.
//! * [`reader`]: one event of the two output streams, turned into a record.
//! * [`handshake`]: the directives that make the child mark the end of a turn.
//! * [`driver`]: the turn driver, its phases and the output it collects.
//! * [`supervisor`]: one driver, one turn at a time, under a deadline.
//! * [`session`]: what a whole run of turns adds up to, and the laws it obeys.
//! * [`chat`]: what a chat message asks of the driver.

pub mod chat;
pub mod driver;
pub mod error;
pub mod handshake;
pub mod reader;
pub mod session;
pub mod supervisor;

pub use driver::{JShell, Phase};
pub use error::{IoErrorKind, JShellError, TurnError};
pub use reader::StreamEvent;
pub use supervisor::{Supervisor, TurnEvent};
