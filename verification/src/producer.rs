//! The producer: the order of the steps of one polling cycle, and what
//! becomes of the cursor.

use vstd::prelude::*;
use crate::time::Timestamp;

verus! {

/// What a cycle waits for.
#[derive(Clone, Copy, Debug, PartialEq, Eq, Structural)]
pub enum Phase {
    /// The feed.
    FetchFeed,
    /// The messages planned from the transcript of the entry at `index`.
    FetchTranscript { index: usize },
    /// The queue's answer to message `sent` of the `total` messages of the
    /// entry at `index`.
    Publish { index: usize, sent: usize, total: usize },
    /// The end of the pause before the entry at `index`.
    Pause { index: usize },
    /// The store's answer to the write of the cursor.
    WriteCursor,
    /// Nothing: the cycle ended well.
    Done,
    /// Nothing: the cycle was given up.
    Failed,
}

/// One polling cycle.
#[derive(Clone, Copy, Debug, PartialEq, Eq, Structural)]
pub struct Cycle {
    pub phase: Phase,
    /// When the cycle began.
    pub started: Timestamp,
    /// The cursor as the store holds it.
    pub cursor: Timestamp,
    /// The number of new entries in the feed.
    pub entries: usize,
}

/// What happened outside since the last step.
#[derive(Clone, Copy, Debug, PartialEq, Eq, Structural)]
pub enum Outcome {
    /// The feed was read; it holds `entries` new entries.
    Feed { entries: usize },
    /// The transcript was read; `messages` messages are planned for it.
    Transcript { messages: usize },
    /// The queue took the message.
    Sent,
    /// The pause is over.
    Paused,
    /// The store took the cursor.
    CursorWritten,
    /// The step failed.
    Failure,
}

/// What is to be done outside next.
#[derive(Clone, Copy, Debug, PartialEq, Eq, Structural)]
pub enum Action {
    /// Fetch the transcript of the entry at `index` and plan its messages.
    FetchTranscript { index: usize },
    /// Publish message `message` of the entry at `index`.
    Send { index: usize, message: usize },
    /// Wait `millis` milliseconds.
    Pause { millis: u64 },
    /// Store `value` as the cursor.
    WriteCursor { value: Timestamp },
    /// End the cycle: it went well.
    Finish,
    /// End the cycle: it failed.
    Abort,
}

/// The pause between two proceedings, in milliseconds.
pub const PAUSE_MILLIS: u64 = 500;

/// A cycle given up: all as before, nothing more to do.
pub open spec fn failed(c: Cycle) -> (Cycle, Action) {
    (Cycle { phase: Phase::Failed, ..c }, Action::Abort)
}

/// What follows the last message of the entry at `index`: a pause and the
/// next entry, or the write of the cursor after the last entry.
pub open spec fn after_entry(c: Cycle, index: usize) -> (Cycle, Action) {
    if index < c.entries && c.entries - index > 1 {
        (
            Cycle { phase: Phase::Pause { index: (index + 1) as usize }, ..c },
            Action::Pause { millis: PAUSE_MILLIS },
        )
    } else {
        (Cycle { phase: Phase::WriteCursor, ..c }, Action::WriteCursor { value: c.started })
    }
}

/// One step of a cycle: from where it stands and what happened, to where
/// it stands next and what to do.
pub open spec fn next(c: Cycle, o: Outcome) -> (Cycle, Action) {
    match c.phase {
        Phase::Done => (c, Action::Finish),
        Phase::Failed => (c, Action::Abort),
        Phase::FetchFeed => match o {
            Outcome::Feed { entries } => if entries == 0 {
                (Cycle { phase: Phase::Done, entries: 0, ..c }, Action::Finish)
            } else {
                (
                    Cycle { phase: Phase::FetchTranscript { index: 0 }, entries, ..c },
                    Action::FetchTranscript { index: 0 },
                )
            },
            _ => failed(c),
        },
        Phase::FetchTranscript { index } => match o {
            Outcome::Transcript { messages } => if messages == 0 {
                after_entry(c, index)
            } else {
                (
                    Cycle { phase: Phase::Publish { index, sent: 0, total: messages }, ..c },
                    Action::Send { index, message: 0 },
                )
            },
            _ => failed(c),
        },
        Phase::Publish { index, sent, total } => match o {
            Outcome::Sent => if sent < total && total - sent > 1 {
                (
                    Cycle { phase: Phase::Publish { index, sent: (sent + 1) as usize, total }, ..c },
                    Action::Send { index, message: (sent + 1) as usize },
                )
            } else {
                after_entry(c, index)
            },
            _ => failed(c),
        },
        Phase::Pause { index } => match o {
            Outcome::Paused => (
                Cycle { phase: Phase::FetchTranscript { index }, ..c },
                Action::FetchTranscript { index },
            ),
            _ => failed(c),
        },
        Phase::WriteCursor => match o {
            Outcome::CursorWritten => (
                Cycle { phase: Phase::Done, cursor: c.started, ..c },
                Action::Finish,
            ),
            _ => failed(c),
        },
    }
}

/// Where a cycle stands after a run of outcomes.
pub open spec fn run(c: Cycle, outcomes: Seq<Outcome>) -> Cycle
    decreases outcomes.len(),
{
    if outcomes.len() == 0 {
        c
    } else {
        next(run(c, outcomes.drop_last()), outcomes.last()).0
    }
}

/// A cycle at its start: it began at `started`, the store holds `cursor`,
/// and the feed is to be fetched for what is newer than `cursor`.
pub fn begin(cursor: Timestamp, started: Timestamp) -> (r: Cycle)
    ensures
        r == (Cycle { phase: Phase::FetchFeed, started, cursor, entries: 0 }),
{
    Cycle { phase: Phase::FetchFeed, started, cursor, entries: 0 }
}

fn fail(c: Cycle) -> (r: (Cycle, Action))
    ensures
        r == failed(c),
{
    (Cycle { phase: Phase::Failed, started: c.started, cursor: c.cursor, entries: c.entries }, Action::Abort)
}

fn finish_entry(c: Cycle, index: usize) -> (r: (Cycle, Action))
    ensures
        r == after_entry(c, index),
{
    if index < c.entries && c.entries - index > 1 {
        (
            Cycle {
                phase: Phase::Pause { index: index + 1 },
                started: c.started,
                cursor: c.cursor,
                entries: c.entries,
            },
            Action::Pause { millis: PAUSE_MILLIS },
        )
    } else {
        (
            Cycle { phase: Phase::WriteCursor, started: c.started, cursor: c.cursor, entries: c.entries },
            Action::WriteCursor { value: c.started },
        )
    }
}

/// One step of a cycle.
pub fn step(c: Cycle, o: Outcome) -> (r: (Cycle, Action))
    ensures
        r == next(c, o),
{
    let Cycle { phase, started, cursor, entries } = c;
    match phase {
        Phase::Done => (c, Action::Finish),
        Phase::Failed => (c, Action::Abort),
        Phase::FetchFeed => match o {
            Outcome::Feed { entries: found } => if found == 0 {
                (Cycle { phase: Phase::Done, started, cursor, entries: 0 }, Action::Finish)
            } else {
                (
                    Cycle { phase: Phase::FetchTranscript { index: 0 }, started, cursor, entries: found },
                    Action::FetchTranscript { index: 0 },
                )
            },
            _ => fail(c),
        },
        Phase::FetchTranscript { index } => match o {
            Outcome::Transcript { messages } => if messages == 0 {
                finish_entry(c, index)
            } else {
                (
                    Cycle {
                        phase: Phase::Publish { index, sent: 0, total: messages },
                        started,
                        cursor,
                        entries,
                    },
                    Action::Send { index, message: 0 },
                )
            },
            _ => fail(c),
        },
        Phase::Publish { index, sent, total } => match o {
            Outcome::Sent => if sent < total && total - sent > 1 {
                (
                    Cycle {
                        phase: Phase::Publish { index, sent: sent + 1, total },
                        started,
                        cursor,
                        entries,
                    },
                    Action::Send { index, message: sent + 1 },
                )
            } else {
                finish_entry(c, index)
            },
            _ => fail(c),
        },
        Phase::Pause { index } => match o {
            Outcome::Paused => (
                Cycle { phase: Phase::FetchTranscript { index }, started, cursor, entries },
                Action::FetchTranscript { index },
            ),
            _ => fail(c),
        },
        Phase::WriteCursor => match o {
            Outcome::CursorWritten => (
                Cycle { phase: Phase::Done, started, cursor: started, entries },
                Action::Finish,
            ),
            _ => fail(c),
        },
    }
}

/// A step leaves the cursor as it was, but for the step that hears that
/// the store took the write: that one ends the cycle with the cursor at the
/// cycle's start. The cursor is written only after the last entry.
pub proof fn lemma_step_cursor(c: Cycle, o: Outcome)
    ensures
        next(c, o).0.started == c.started,
        next(c, o).0.cursor == c.cursor || (c.phase is WriteCursor && o is CursorWritten && next(
            c,
            o,
        ).0.phase is Done && next(c, o).0.cursor == c.started),
        c.phase is Done ==> next(c, o).0 == c,
        o is Failure && !(c.phase is Done) ==> next(c, o).0.phase is Failed,
        next(c, o).1 is WriteCursor ==> next(c, o).1->WriteCursor_value == c.started && !(o
            is Failure),
{
}

/// Whatever happens in a cycle, the store ends with the cursor it had, or,
/// where the cycle ended well, with the cycle's start; after a failed cycle
/// it has the cursor it had.
pub proof fn lemma_cursor_after_cycle(c: Cycle, outcomes: Seq<Outcome>)
    ensures
        run(c, outcomes).started == c.started,
        run(c, outcomes).cursor == c.cursor || (run(c, outcomes).phase is Done && run(
            c,
            outcomes,
        ).cursor == c.started),
        run(c, outcomes).phase is Failed ==> run(c, outcomes).cursor == c.cursor,
    decreases outcomes.len(),
{
    if outcomes.len() > 0 {
        lemma_cursor_after_cycle(c, outcomes.drop_last());
        lemma_step_cursor(run(c, outcomes.drop_last()), outcomes.last());
    }
}

/// The cursor never moves back: where a cycle began no earlier than the
/// cursor it read, the cursor after the cycle is no earlier than before.
pub proof fn lemma_cursor_monotone(c: Cycle, outcomes: Seq<Outcome>)
    requires
        c.started.at_or_after(c.cursor),
    ensures
        run(c, outcomes).cursor.at_or_after(c.cursor),
{
    lemma_cursor_after_cycle(c, outcomes);
}

} // verus!
