//! What a run of calls on a supervisor adds up to, and the laws that hold of
//! it: one reply for each sentinel, no output of one turn in the reply of
//! another, replies in the order of the statements, and a clean start after a
//! revival.

use vstd::prelude::*;
use crate::driver::{DriverState, Phase};
use crate::error::{JShellError, TurnError};
use crate::supervisor::{effect_of, next_state, statement_bytes, Effect, Op};

verus! {

/// The driver after a run of calls.
pub open spec fn run_state(s: DriverState, ops: Seq<Op>) -> DriverState
    decreases ops.len(),
{
    if ops.len() == 0 {
        s
    } else {
        next_state(run_state(s, ops.drop_last()), ops.last())
    }
}

/// What a run of calls hands to the caller, in the order in which it does.
pub open spec fn run_effects(s: DriverState, ops: Seq<Op>) -> Seq<Effect>
    decreases ops.len(),
{
    if ops.len() == 0 {
        Seq::empty()
    } else {
        let before = run_effects(s, ops.drop_last());
        match effect_of(run_state(s, ops.drop_last()), ops.last()) {
            Some(effect) => before.push(effect),
            None => before,
        }
    }
}

/// The observations of these lines of normal output, in order.
pub open spec fn line_ops(lines: Seq<Seq<char>>) -> Seq<Op> {
    Seq::new(lines.len(), |i: int| Op::Observed(Ok((lines[i], false))))
}

/// The observation of a sentinel that came with this text.
pub open spec fn sentinel_op(text: Seq<char>) -> Op {
    Op::Observed(Ok((text, true)))
}

/// A turn that the child completes: the statement is handed out and written,
/// the child answers with these lines and then marks the end of the turn.
pub open spec fn turn_ops(stmt: Seq<char>, lines: Seq<Seq<char>>, marker_text: Seq<char>) -> Seq<Op> {
    seq![Op::Begin(stmt), Op::Written(Ok(()))] + line_ops(lines) + seq![sentinel_op(marker_text)]
}

/// What a completed turn hands to the caller: the statement's bytes to write,
/// then the lines as one reply.
pub open spec fn turn_effects(stmt: Seq<char>, lines: Seq<Seq<char>>) -> Seq<Effect> {
    seq![Effect::Write(statement_bytes(stmt)), Effect::Reply(lines.flatten())]
}

/// How many of these calls observe a sentinel.
pub open spec fn sentinel_count(ops: Seq<Op>) -> nat
    decreases ops.len(),
{
    if ops.len() == 0 {
        0
    } else {
        let before = sentinel_count(ops.drop_last());
        match ops.last() {
            Op::Observed(Ok((_, true))) => before + 1,
            _ => before,
        }
    }
}

/// How many of these effects are replies.
pub open spec fn reply_count(effects: Seq<Effect>) -> nat
    decreases effects.len(),
{
    if effects.len() == 0 {
        0
    } else {
        let before = reply_count(effects.drop_last());
        match effects.last() {
            Effect::Reply(_) => before + 1,
            _ => before,
        }
    }
}

/// A run of one call is that call.
pub proof fn run_of_one(s: DriverState, op: Op)
    ensures
        run_state(s, seq![op]) == next_state(s, op),
        run_effects(s, seq![op]) == match effect_of(s, op) {
            Some(effect) => seq![effect],
            None => Seq::<Effect>::empty(),
        },
{
    let ops = seq![op];
    assert(ops.drop_last() =~= Seq::<Op>::empty());
    assert(ops.last() == op);
    assert(run_state(s, ops.drop_last()) == s);
    assert(run_effects(s, ops.drop_last()) =~= Seq::<Effect>::empty());
    match effect_of(s, op) {
        Some(effect) => {
            assert(run_effects(s, ops) =~= seq![effect]);
        },
        None => {},
    }
}

/// A run of calls can be cut anywhere: the second part goes on from the state
/// that the first part left.
pub proof fn run_splits(s: DriverState, first: Seq<Op>, second: Seq<Op>)
    ensures
        run_state(s, first + second) == run_state(run_state(s, first), second),
        run_effects(s, first + second) == run_effects(s, first) + run_effects(
            run_state(s, first),
            second,
        ),
    decreases second.len(),
{
    if second.len() == 0 {
        assert(first + second =~= first);
    } else {
        assert((first + second).drop_last() =~= first + second.drop_last());
        assert((first + second).last() == second.last());
        run_splits(s, first, second.drop_last());
    }
}

/// Lines are collected one after the other, with nothing between them, and
/// hand nothing to the caller.
pub proof fn lines_are_collected(s: DriverState, lines: Seq<Seq<char>>)
    ensures
        run_state(s, line_ops(lines)).pending == s.pending + lines.flatten(),
        run_state(s, line_ops(lines)).phase == if lines.len() == 0 {
            s.phase
        } else {
            s.phase.after_record(false)
        },
        run_effects(s, line_ops(lines)) == Seq::<Effect>::empty(),
    decreases lines.len(),
{
    if lines.len() == 0 {
        assert(lines.flatten() =~= Seq::<char>::empty());
    } else {
        let init = lines.drop_last();
        lines_are_collected(s, init);
        assert(line_ops(lines).drop_last() =~= line_ops(init));
        assert(line_ops(lines).last() == Op::Observed(Ok((lines.last(), false))));
        assert(lines =~= init.push(lines.last()));
        init.lemma_flatten_push(lines.last());
    }
}

/// A completed turn on a driver that has nothing pending hands out the
/// statement and then exactly the lines of this turn, and leaves nothing
/// pending. Begun in `Idle`, it ends in `Idle`.
pub proof fn turn_completes(
    s: DriverState,
    stmt: Seq<char>,
    lines: Seq<Seq<char>>,
    marker_text: Seq<char>,
)
    requires
        s.pending == Seq::<char>::empty(),
    ensures
        run_effects(s, turn_ops(stmt, lines, marker_text)) == turn_effects(stmt, lines),
        run_state(s, turn_ops(stmt, lines, marker_text)).pending == Seq::<char>::empty(),
        s.phase == Phase::Idle ==> run_state(s, turn_ops(stmt, lines, marker_text))
            == DriverState::idle(),
{
    let begin = seq![Op::Begin(stmt)];
    let written = seq![Op::Written(Ok(()))];
    let tail = seq![sentinel_op(marker_text)];
    let s0 = next_state(s, Op::Begin(stmt));
    run_of_one(s, Op::Begin(stmt));
    run_of_one(s0, Op::Written(Ok(())));
    run_splits(s, begin, written);
    let head = begin + written;
    assert(head =~= seq![Op::Begin(stmt), Op::Written(Ok(()))]);
    assert(run_state(s, head) == s0);
    assert(run_effects(s, head) =~= seq![Effect::Write(statement_bytes(stmt))]);
    lines_are_collected(s0, lines);
    run_splits(s, head, line_ops(lines));
    let s1 = run_state(s, head + line_ops(lines));
    assert(s1.pending =~= lines.flatten());
    run_of_one(s1, sentinel_op(marker_text));
    run_splits(s, head + line_ops(lines), tail);
    assert(run_effects(s, turn_ops(stmt, lines, marker_text)) =~= turn_effects(stmt, lines));
}

/// One reply for each sentinel: whatever the state and whatever the calls, a
/// run hands out exactly as many replies as it observed sentinels. No other
/// call yields a reply, so a caller that waits for a second reply without a
/// new statement waits until the deadline.
pub proof fn replies_match_sentinels(s: DriverState, ops: Seq<Op>)
    ensures
        reply_count(run_effects(s, ops)) == sentinel_count(ops),
    decreases ops.len(),
{
    if ops.len() > 0 {
        replies_match_sentinels(s, ops.drop_last());
        let before = run_effects(s, ops.drop_last());
        match effect_of(run_state(s, ops.drop_last()), ops.last()) {
            Some(effect) => {
                assert(before.push(effect).drop_last() =~= before);
                assert(before.push(effect).last() == effect);
            },
            None => {},
        }
    }
}

/// After a completed turn the supervisor has given its one reply; where the
/// caller then waits again without a new statement, nothing comes until the
/// deadline passes.
pub proof fn second_wait_times_out(stmt: Seq<char>, lines: Seq<Seq<char>>, marker_text: Seq<char>)
    ensures
        run_effects(
            DriverState::idle(),
            turn_ops(stmt, lines, marker_text) + seq![Op::DeadlinePassed],
        ) == turn_effects(stmt, lines).push(Effect::Failure(TurnError::TimeoutError)),
{
    let turn = turn_ops(stmt, lines, marker_text);
    let wait = seq![Op::DeadlinePassed];
    turn_completes(DriverState::idle(), stmt, lines, marker_text);
    run_splits(DriverState::idle(), turn, wait);
    run_of_one(DriverState::idle(), Op::DeadlinePassed);
    assert(run_effects(DriverState::idle(), turn + wait) =~= turn_effects(stmt, lines).push(
        Effect::Failure(TurnError::TimeoutError),
    ));
}

/// Isolation: once a sentinel was observed, whatever came before it has no
/// part in the next turn. The reply of that turn holds its own lines and
/// nothing else. This is said of lines that are observed before the sentinel
/// of their turn, in whatever order the two streams were otherwise served; a
/// line that the caller hands over after that sentinel is collected for the
/// turn that follows.
pub proof fn reply_holds_own_turn_only(
    s: DriverState,
    prior: Seq<Op>,
    stmt: Seq<char>,
    lines: Seq<Seq<char>>,
    marker_text: Seq<char>,
)
    requires
        prior.len() > 0,
        prior.last() matches Op::Observed(Ok((_, true))),
    ensures
        run_effects(s, prior + turn_ops(stmt, lines, marker_text)) == run_effects(s, prior)
            + turn_effects(stmt, lines),
{
    let after = run_state(s, prior);
    assert(after.pending == Seq::<char>::empty());
    turn_completes(after, stmt, lines, marker_text);
    run_splits(s, prior, turn_ops(stmt, lines, marker_text));
}

/// Ordering: of two turns in a row, the reply of the first is handed out
/// before the statement of the second is, and each reply holds the lines of
/// its own turn.
pub proof fn replies_come_in_order(
    first_stmt: Seq<char>,
    first_lines: Seq<Seq<char>>,
    first_marker: Seq<char>,
    second_stmt: Seq<char>,
    second_lines: Seq<Seq<char>>,
    second_marker: Seq<char>,
)
    ensures
        run_effects(
            DriverState::idle(),
            turn_ops(first_stmt, first_lines, first_marker) + turn_ops(
                second_stmt,
                second_lines,
                second_marker,
            ),
        ) == seq![
            Effect::Write(statement_bytes(first_stmt)),
            Effect::Reply(first_lines.flatten()),
            Effect::Write(statement_bytes(second_stmt)),
            Effect::Reply(second_lines.flatten()),
        ],
        run_state(
            DriverState::idle(),
            turn_ops(first_stmt, first_lines, first_marker) + turn_ops(
                second_stmt,
                second_lines,
                second_marker,
            ),
        ) == DriverState::idle(),
{
    let first = turn_ops(first_stmt, first_lines, first_marker);
    let second = turn_ops(second_stmt, second_lines, second_marker);
    turn_completes(DriverState::idle(), first_stmt, first_lines, first_marker);
    turn_completes(DriverState::idle(), second_stmt, second_lines, second_marker);
    run_splits(DriverState::idle(), first, second);
    assert(turn_effects(first_stmt, first_lines) + turn_effects(second_stmt, second_lines) =~= seq![
        Effect::Write(statement_bytes(first_stmt)),
        Effect::Reply(first_lines.flatten()),
        Effect::Write(statement_bytes(second_stmt)),
        Effect::Reply(second_lines.flatten()),
    ]);
}

/// Revival: after the driver was replaced, the supervisor goes on as one that
/// was made with the new driver. Neither the state nor the calls from before
/// the revival have any part in what follows.
pub proof fn revival_starts_anew(s: DriverState, prior: Seq<Op>, fresh: DriverState, later: Seq<Op>)
    ensures
        run_state(s, prior + seq![Op::Revive(fresh)] + later) == run_state(fresh, later),
        run_effects(s, prior + seq![Op::Revive(fresh)] + later) == run_effects(s, prior)
            + run_effects(fresh, later),
{
    let revived = prior + seq![Op::Revive(fresh)];
    run_of_one(run_state(s, prior), Op::Revive(fresh));
    run_splits(s, prior, seq![Op::Revive(fresh)]);
    run_splits(s, revived, later);
}

/// Revival is idempotent: to replace the driver twice in a row is to replace
/// it once by the second driver, and nothing is handed out on the way.
pub proof fn revival_is_idempotent(s: DriverState, first: DriverState, second: DriverState)
    ensures
        run_state(s, seq![Op::Revive(first), Op::Revive(second)]) == run_state(
            s,
            seq![Op::Revive(second)],
        ),
        run_state(s, seq![Op::Revive(second)]) == second,
        run_effects(s, seq![Op::Revive(first), Op::Revive(second)]) == Seq::<Effect>::empty(),
{
    run_of_one(s, Op::Revive(first));
    run_of_one(s, Op::Revive(second));
    run_of_one(first, Op::Revive(second));
    run_splits(s, seq![Op::Revive(first)], seq![Op::Revive(second)]);
    assert(seq![Op::Revive(first)] + seq![Op::Revive(second)] =~= seq![
        Op::Revive(first),
        Op::Revive(second),
    ]);
}

/// The phases of a turn: a statement takes an idle driver to
/// `AwaitingInput`, the first line of output to `Draining`, where further lines
/// keep it, and the sentinel back to `Idle`.
pub proof fn turn_walks_the_phases(
    stmt: Seq<char>,
    line: Seq<char>,
    more: Seq<char>,
    marker_text: Seq<char>,
)
    ensures
        run_state(DriverState::idle(), seq![Op::Begin(stmt)]).phase == Phase::AwaitingInput,
        run_state(DriverState::idle(), seq![Op::Begin(stmt)] + line_ops(seq![line])).phase
            == Phase::Draining,
        run_state(DriverState::idle(), seq![Op::Begin(stmt)] + line_ops(seq![line, more])).phase
            == Phase::Draining,
        run_state(
            DriverState::idle(),
            seq![Op::Begin(stmt)] + line_ops(seq![line, more]) + seq![sentinel_op(marker_text)],
        ).phase == Phase::Idle,
{
    let begun = next_state(DriverState::idle(), Op::Begin(stmt));
    run_of_one(DriverState::idle(), Op::Begin(stmt));
    lines_are_collected(begun, seq![line]);
    lines_are_collected(begun, seq![line, more]);
    run_splits(DriverState::idle(), seq![Op::Begin(stmt)], line_ops(seq![line]));
    run_splits(DriverState::idle(), seq![Op::Begin(stmt)], line_ops(seq![line, more]));
    let drained = run_state(DriverState::idle(), seq![Op::Begin(stmt)] + line_ops(seq![line, more]));
    run_of_one(drained, sentinel_op(marker_text));
    run_splits(
        DriverState::idle(),
        seq![Op::Begin(stmt)] + line_ops(seq![line, more]),
        seq![sentinel_op(marker_text)],
    );
}

/// `Dead` is final: whatever is written to or observed of a lost child, and
/// whatever deadline passes, the driver stays `Dead` until it is replaced.
pub proof fn dead_stays_dead(s: DriverState, ops: Seq<Op>)
    requires
        s.phase == Phase::Dead,
        forall|i: int| 0 <= i < ops.len() ==> !(#[trigger] ops[i] is Revive),
    ensures
        run_state(s, ops).phase == Phase::Dead,
    decreases ops.len(),
{
    if ops.len() > 0 {
        let init = ops.drop_last();
        assert forall|i: int| 0 <= i < init.len() implies !(#[trigger] init[i] is Revive) by {
            assert(init[i] == ops[i]);
        }
        dead_stays_dead(s, init);
        assert(!(ops[ops.len() - 1] is Revive));
    }
}

/// What the failure that ended a turn leaves behind: after a lost child the
/// driver is `Dead`, after a missed deadline it is where it was, and in both
/// cases the revival policy asks for a new driver.
pub proof fn lost_turns_call_for_revival(s: DriverState, e: JShellError)
    ensures
        e.is_terminal() ==> next_state(s, Op::Observed(Err(e))).phase == Phase::Dead,
        e.is_terminal() <==> TurnError::JShellError(e).calls_for_revival(),
        effect_of(s, Op::Observed(Err(e))) == Some(Effect::Failure(TurnError::JShellError(e))),
        next_state(s, Op::DeadlinePassed).phase == s.phase,
        effect_of(s, Op::DeadlinePassed) == Some(Effect::Failure(TurnError::TimeoutError)),
        TurnError::TimeoutError.calls_for_revival(),
{
}

} // verus!
