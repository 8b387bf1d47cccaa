//! The line and marker reader: one event of the child's two output streams,
//! turned into a record or a failure.
//!
//! The child writes its normal output to one stream, line by line, and a single
//! NUL byte to the other each time it is ready for the next statement. The
//! caller awaits both streams at once and hands over whichever came first.

use vstd::prelude::*;
use vstd::utf8::*;
use std::string::FromUtf8Error;
use crate::error::{IoErrorKind, JShellError};

verus! {

/// The byte by which the child marks the end of a turn.
pub const SENTINEL: u8 = 0;

/// What the caller observed on one of the two streams.
#[derive(Debug)]
pub enum StreamEvent {
    /// The line framer of the normal stream gave a line without its
    /// terminator, `None` at the end of the stream, or failed.
    Line(Result<Option<String>, IoErrorKind>),
    /// The marker stream was read up to and including the next sentinel, or
    /// the read failed. Where the stream ended before a sentinel came, the
    /// bytes are those that were left on it, none at all where it had already
    /// ended; they end with no sentinel and tell that the child is gone.
    Marker(Result<Vec<u8>, IoErrorKind>),
}

/// A record as contracts speak of it: the text and whether it ends the turn.
pub type Record = (Seq<char>, bool);

/// Whether a read of the marker stream reached a sentinel: it holds a byte
/// and its last byte is the sentinel.
pub open spec fn ends_with_sentinel(bytes: Seq<u8>) -> bool {
    bytes.len() > 0 && bytes.last() == SENTINEL
}

/// The record or failure that an event stands for. Only a read of the marker
/// stream that ends with the sentinel ends the turn; one that does not means
/// that the stream ended first.
pub open spec fn record_of(event: StreamEvent) -> Result<Record, JShellError> {
    match event {
        StreamEvent::Line(Ok(Some(line))) => Ok((line@, false)),
        StreamEvent::Line(Ok(None)) => Err(JShellError::ClosedError),
        StreamEvent::Line(Err(kind)) => Err(JShellError::IOError(kind)),
        StreamEvent::Marker(Ok(bytes)) => if !ends_with_sentinel(bytes@) {
            Err(JShellError::ClosedError)
        } else if valid_utf8(bytes@) {
            Ok((decode_utf8(bytes@), true))
        } else {
            Err(JShellError::UnexpectedOutputError)
        },
        StreamEvent::Marker(Err(kind)) => Err(JShellError::IOError(kind)),
    }
}

/// The model of an executable record or failure.
pub open spec fn record_view(r: Result<(String, bool), JShellError>) -> Result<Record, JShellError> {
    match r {
        Ok((text, is_end_marker)) => Ok((text@, is_end_marker)),
        Err(e) => Err(e),
    }
}

/// The error of `String::from_utf8` of the standard library. It is passed on
/// unread: nothing is claimed of what it holds.
#[verifier::external_type_specification]
#[verifier::external_body]
pub struct ExFromUtf8Error(FromUtf8Error);

/// `String::from_utf8` of the standard library. It succeeds on exactly the
/// byte vectors that are well-formed UTF-8, and the string it then gives holds
/// the characters that those bytes encode. Nothing is said of its error.
pub assume_specification[ String::from_utf8 ](vec: Vec<u8>) -> (r: Result<String, FromUtf8Error>)
    ensures
        r is Ok <==> valid_utf8(vec@),
        r matches Ok(s) ==> s@ == decode_utf8(vec@),
;

/// Turns one event into a record: a line of normal output, or the text that
/// the marker stream held up to and including the sentinel. A stream that
/// ended, with or without bytes left on it, is `ClosedError`.
pub fn read_record(event: StreamEvent) -> (r: Result<(String, bool), JShellError>)
    ensures
        record_view(r) == record_of(event),
{
    match event {
        StreamEvent::Line(Ok(Some(line))) => Ok((line, false)),
        StreamEvent::Line(Ok(None)) => Err(JShellError::ClosedError),
        StreamEvent::Line(Err(kind)) => Err(JShellError::IOError(kind)),
        StreamEvent::Marker(Ok(bytes)) => {
            let len = bytes.len();
            if len == 0 || bytes[len - 1] != SENTINEL {
                Err(JShellError::ClosedError)
            } else {
                match String::from_utf8(bytes) {
                    Ok(text) => Ok((text, true)),
                    Err(_) => Err(JShellError::UnexpectedOutputError),
                }
            }
        },
        StreamEvent::Marker(Err(kind)) => Err(JShellError::IOError(kind)),
    }
}

/// Well-formed UTF-8 that ends with a NUL byte decodes to a text that ends
/// with the NUL character.
pub proof fn sentinel_is_decoded_last(bytes: Seq<u8>)
    requires
        valid_utf8(bytes),
        ends_with_sentinel(bytes),
    ensures
        decode_utf8(bytes).len() > 0,
        decode_utf8(bytes).last() == '\0',
    decreases bytes.len(),
{
    let first = decode_first_scalar(bytes) as char;
    let rest = pop_first_scalar(bytes);
    assert(decode_utf8(bytes) == seq![first] + decode_utf8(rest));
    if rest.len() > 0 {
        assert(rest.last() == bytes.last());
        sentinel_is_decoded_last(rest);
        assert((seq![first] + decode_utf8(rest)).last() == decode_utf8(rest).last());
    } else {
        // The one scalar ends with a NUL byte, which is no continuation byte:
        // it is the NUL byte alone.
        assert(length_of_first_scalar(bytes) == bytes.len());
        assert(!is_continuation_byte(bytes.last()));
        assert(bytes.len() == 1);
        assert(bytes[0] == 0u8);
        assert(0u8 & 0x7f == 0u8) by (bit_vector);
        assert(decode_first_scalar(bytes) == 0u32);
        assert(decode_utf8(rest) =~= Seq::<char>::empty());
        assert((seq![first] + decode_utf8(rest)).last() == first);
    }
}

/// Every record that ends a turn comes from a read that reached the
/// sentinel, and its text ends with the NUL character; every other record is
/// one line of normal output, whatever the line holds.
pub proof fn end_markers_end_with_sentinel(event: StreamEvent)
    ensures
        record_of(event) matches Ok((text, is_end_marker)) ==> (is_end_marker <==> event
            is Marker),
        record_of(event) matches Ok((text, true)) ==> text.len() > 0 && text.last() == '\0',
{
    match event {
        StreamEvent::Marker(Ok(bytes)) => {
            if ends_with_sentinel(bytes@) && valid_utf8(bytes@) {
                sentinel_is_decoded_last(bytes@);
            }
        },
        _ => {},
    }
}

} // verus!
