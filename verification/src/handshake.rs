//! The prompt handshake: what is written to a new child so that it marks the
//! end of every turn with a sentinel on its error stream, and how the welcome
//! text that it answers with is passed over.

use vstd::prelude::*;
use crate::driver::{welcome_result, DriverState, Phase};
use crate::error::JShellError;
use crate::reader::Record;

verus! {

/// Defines a feedback mode `mymode`, copied from `normal`, that does not echo
/// commands.
pub const SET_MODE: &'static str = "/set mode mymode normal -command\n";

/// Binds the prompts of `mymode`: the primary prompt is the escape that the
/// child reads as a NUL byte, the continuation prompt is plain text.
pub const SET_PROMPT: &'static str = "/set prompt mymode \"\\0\" \"   continue$ \"\n";

/// Makes `mymode` the active feedback mode.
pub const SET_FEEDBACK: &'static str = "/set feedback mymode\n";

/// How many directives the handshake writes.
pub const DIRECTIVE_COUNT: usize = 3;

/// The directives of the handshake in the order in which they are written.
pub open spec fn directive_seq() -> Seq<Seq<char>> {
    seq![SET_MODE@, SET_PROMPT@, SET_FEEDBACK@]
}

/// A text that the child reads as exactly one line and that holds no NUL.
pub open spec fn is_single_line(text: Seq<char>) -> bool {
    &&& text.len() > 0
    &&& text.last() == '\n'
    &&& forall|i: int| 0 <= i < text.len() - 1 ==> text[i] != '\n'
    &&& forall|i: int| 0 <= i < text.len() ==> text[i] != '\0'
}

/// Every directive is one line that holds no NUL: the sentinel is asked for
/// by an escape and is not itself sent to the child.
pub proof fn directives_are_single_lines()
    ensures
        directive_seq().len() == DIRECTIVE_COUNT,
        forall|k: int| 0 <= k < directive_seq().len() ==> is_single_line(#[trigger] directive_seq()[k]),
{
    reveal_strlit("/set mode mymode normal -command\n");
    reveal_strlit("/set prompt mymode \"\\0\" \"   continue$ \"\n");
    reveal_strlit("/set feedback mymode\n");
    assert(is_single_line(SET_MODE@));
    assert(is_single_line(SET_PROMPT@));
    assert(is_single_line(SET_FEEDBACK@));
}

/// The three directives, in the order in which they must reach the child.
pub fn directives() -> (r: [&'static str; 3])
    ensures
        r@.len() == directive_seq().len(),
        forall|k: int| 0 <= k < r@.len() ==> (#[trigger] r@[k])@ == directive_seq()[k],
{
    [SET_MODE, SET_PROMPT, SET_FEEDBACK]
}

/// The driver after it handed out this many directives.
pub open spec fn after_inputs(s: DriverState, count: nat) -> DriverState
    decreases count,
{
    if count == 0 {
        s
    } else {
        after_inputs(s, (count - 1) as nat).on_input()
    }
}

/// The driver after it read these records without collecting them.
pub open spec fn after_records(s: DriverState, records: Seq<Result<Record, JShellError>>) -> DriverState
    decreases records.len(),
{
    if records.len() == 0 {
        s
    } else {
        after_records(s, records.drop_last()).on_record(records.last())
    }
}

/// These lines as records of normal output.
pub open spec fn line_records(lines: Seq<Seq<char>>) -> Seq<Result<Record, JShellError>> {
    Seq::new(lines.len(), |i: int| Ok::<Record, JShellError>((lines[i], false)))
}

/// The records of a welcome text: its lines, then the first sentinel.
pub open spec fn welcome_records(banner: Seq<Seq<char>>, marker_text: Seq<char>) -> Seq<
    Result<Record, JShellError>,
> {
    line_records(banner).push(Ok((marker_text, true)))
}

/// To hand out directives leaves a driver in its handshake.
pub proof fn directives_keep_handshaking(s: DriverState, count: nat)
    requires
        s.phase == Phase::Handshaking,
    ensures
        after_inputs(s, count) == s,
    decreases count,
{
    if count > 0 {
        directives_keep_handshaking(s, (count - 1) as nat);
    }
}

/// To read lines of the welcome text leaves a driver in its handshake.
pub proof fn lines_keep_handshaking(s: DriverState, banner: Seq<Seq<char>>)
    requires
        s.phase == Phase::Handshaking,
    ensures
        after_records(s, line_records(banner)) == s,
    decreases banner.len(),
{
    if banner.len() > 0 {
        lines_keep_handshaking(s, banner.drop_last());
        assert(line_records(banner).drop_last() =~= line_records(banner.drop_last()));
    }
}

/// The handshake: a child that was started, was sent the directives and
/// answered with a welcome text of any length and then a sentinel leaves its
/// driver idle, with nothing collected. Every record before the sentinel
/// tells the caller to read on, the sentinel tells it to stop.
pub proof fn handshake_ends_idle(banner: Seq<Seq<char>>, marker_text: Seq<char>)
    ensures
        after_records(
            after_inputs(DriverState::fresh().on_spawn(Ok(())), DIRECTIVE_COUNT as nat),
            welcome_records(banner, marker_text),
        ) == DriverState::idle(),
        forall|i: int|
            0 <= i < banner.len() ==> welcome_result(
                #[trigger] welcome_records(banner, marker_text)[i],
            ) == Ok::<bool, JShellError>(false),
        welcome_result(welcome_records(banner, marker_text).last()) == Ok::<bool, JShellError>(
            true,
        ),
{
    let started = DriverState::fresh().on_spawn(Ok(()));
    directives_keep_handshaking(started, DIRECTIVE_COUNT as nat);
    lines_keep_handshaking(started, banner);
    assert(welcome_records(banner, marker_text).drop_last() =~= line_records(banner));
}

} // verus!
