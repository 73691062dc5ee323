//! How the polling cursor moves through a session.
//!
//! A session is the sequence of what one client was asked to do. Only two
//! things move its cursor: a poll that got an answer puts it at the answer's
//! timestamp, and a reset puts it back to 0.

use vstd::prelude::*;

verus! {

/// Where the cursor stands after a poll: at the timestamp that the answer
/// reported, or, where the poll failed and `report` is `None`, where it stood.
pub open spec fn cursor_after(cursor: u64, report: Option<u64>) -> u64 {
    match report {
        Some(timestamp) => timestamp,
        None => cursor,
    }
}

/// One thing that a client was asked to do.
pub enum Step {
    /// A poll, with the timestamp that its answer reported; `None` where the
    /// request or the decoding failed.
    Poll(Option<u64>),
    /// A query that is no poll: everything since a given timestamp, the most
    /// recent window, or a limited number of its entries.
    Query,
    /// A reset of the cursor.
    Reset,
}

/// A poll that got an answer.
pub open spec fn answered(step: Step) -> bool {
    step matches Step::Poll(Some(_))
}

/// Where `step` leaves a cursor that stood at `cursor`.
pub open spec fn cursor_step(cursor: u64, step: Step) -> u64 {
    match step {
        Step::Poll(report) => cursor_after(cursor, report),
        Step::Query => cursor,
        Step::Reset => 0,
    }
}

/// Where a session leaves a cursor that stood at `cursor` when it began.
pub open spec fn cursor_run(cursor: u64, steps: Seq<Step>) -> u64
    decreases steps.len(),
{
    if steps.len() == 0 {
        cursor
    } else {
        cursor_step(cursor_run(cursor, steps.drop_last()), steps.last())
    }
}

/// The polls and resets of a session, in their order.
pub open spec fn without_queries(steps: Seq<Step>) -> Seq<Step>
    decreases steps.len(),
{
    if steps.len() == 0 {
        steps
    } else if steps.last() is Query {
        without_queries(steps.drop_last())
    } else {
        without_queries(steps.drop_last()).push(steps.last())
    }
}

/// In a session of polls that all got an answer, the cursor stands after each
/// poll at the timestamp that this poll's answer reported.
pub proof fn lemma_cursor_follows_answers(cursor: u64, steps: Seq<Step>, n: int)
    requires
        forall|i: int| 0 <= i < steps.len() ==> answered(#[trigger] steps[i]),
        0 < n <= steps.len(),
    ensures
        steps[n - 1] == Step::Poll(Some(cursor_run(cursor, steps.take(n)))),
{
    assert(steps.take(n).last() == steps[n - 1]);
    assert(answered(steps[n - 1]));
}

/// The timestamp that the last answer or reset of a session set, or `cursor`
/// where it has none.
pub open spec fn last_mark(cursor: u64, steps: Seq<Step>) -> u64
    decreases steps.len(),
{
    if steps.len() == 0 {
        cursor
    } else {
        match steps.last() {
            Step::Poll(Some(timestamp)) => timestamp,
            Step::Reset => 0,
            _ => last_mark(cursor, steps.drop_last()),
        }
    }
}

/// After a session the cursor stands where the last answer or reset put it,
/// whichever came later, and where it stood at the start if the session has
/// neither.
pub proof fn lemma_cursor_is_last_report(cursor: u64, steps: Seq<Step>)
    ensures
        cursor_run(cursor, steps) == last_mark(cursor, steps),
    decreases steps.len(),
{
    if steps.len() > 0 {
        lemma_cursor_is_last_report(cursor, steps.drop_last());
    }
}

/// A poll that failed leaves the cursor where it stood, so the poll after it
/// resumes from the same timestamp.
pub proof fn lemma_failed_poll_keeps_cursor(cursor: u64, steps: Seq<Step>)
    ensures
        cursor_run(cursor, steps.push(Step::Poll(None))) == cursor_run(cursor, steps),
{
    assert(steps.push(Step::Poll(None)).drop_last() =~= steps);
}

/// After a reset the cursor stands at 0, whatever came before.
pub proof fn lemma_reset_forgets(cursor: u64, steps: Seq<Step>)
    ensures
        cursor_run(cursor, steps.push(Step::Reset)) == 0,
{
}

/// Queries that are no polls leave no trace on the cursor: a session ends
/// with its cursor where it would stand had they not been made.
pub proof fn lemma_queries_leave_cursor(cursor: u64, steps: Seq<Step>)
    ensures
        cursor_run(cursor, steps) == cursor_run(cursor, without_queries(steps)),
    decreases steps.len(),
{
    if steps.len() > 0 {
        lemma_queries_leave_cursor(cursor, steps.drop_last());
        if !(steps.last() is Query) {
            let kept = without_queries(steps.drop_last());
            assert(kept.push(steps.last()).drop_last() =~= kept);
        }
    }
}

/// Step `i` of a session does not take the cursor back: it is no reset, and
/// if it is a poll that got an answer, the answer's timestamp is not before
/// the one that the poll resumed from.
pub open spec fn holds_ground(cursor: u64, steps: Seq<Step>, i: int) -> bool {
    match steps[i] {
        Step::Poll(Some(timestamp)) => cursor_run(cursor, steps.take(i)) <= timestamp,
        Step::Poll(None) => true,
        Step::Query => true,
        Step::Reset => false,
    }
}

/// Without a reset, and where every answer reports a timestamp that is not
/// before the one its poll resumed from, the cursor never falls.
pub proof fn lemma_cursor_never_falls(cursor: u64, steps: Seq<Step>)
    requires
        forall|i: int| 0 <= i < steps.len() ==> holds_ground(cursor, steps, i),
    ensures
        forall|i: int, j: int|
            0 <= i <= j <= steps.len() ==> cursor_run(cursor, #[trigger] steps.take(i))
                <= cursor_run(cursor, #[trigger] steps.take(j)),
    decreases steps.len(),
{
    assert(steps.take(steps.len() as int) =~= steps);
    if steps.len() > 0 {
        let n = steps.len() - 1;
        let front = steps.drop_last();
        assert forall|i: int| 0 <= i <= n implies #[trigger] front.take(i) == steps.take(i) by {
            assert(front.take(i) =~= steps.take(i));
        }
        assert forall|i: int| 0 <= i < front.len() implies holds_ground(cursor, front, i) by {
            assert(holds_ground(cursor, steps, i));
            assert(front.take(i) == steps.take(i));
        }
        lemma_cursor_never_falls(cursor, front);
        assert(steps.take(n) =~= front);
        assert(holds_ground(cursor, steps, n));
        assert(cursor_run(cursor, front) <= cursor_run(cursor, steps));
        assert forall|i: int, j: int| 0 <= i <= j <= steps.len() implies cursor_run(
            cursor,
            #[trigger] steps.take(i),
        ) <= cursor_run(cursor, #[trigger] steps.take(j)) by {
            if j <= n {
                assert(front.take(i) == steps.take(i));
                assert(front.take(j) == steps.take(j));
            } else if i <= n {
                assert(front.take(i) == steps.take(i));
                assert(front.take(n) =~= front);
            }
        }
    }
}

} // verus!
