//! The walk over a log archive as a state machine on plain values.
//!
//! Reading directories, parsing trace files, resolving entries and writing
//! rows all happen outside this crate.  The machine decides what happens
//! next: it names an action, the driver performs it and reports what came of
//! it as an event, and the machine moves on.  This module is the mathematical
//! description; `crate::sequencer` holds the executable machine that follows
//! it step for step.

use vstd::prelude::*;
use crate::category::{Category, feed, carry};

verus! {

/// What the machine is waiting for.
pub enum PhaseView {
    /// The driver looks for the next file of the category.
    Opening(Category),
    /// The file last parsed, of this category, is being resolved.
    Resolving(Category),
    /// The entries resolved from that file are being written.
    Flushing(Category),
    /// The deferred data at this place in the ledger is being resolved again.
    Retrying(nat),
    /// The entries that this second attempt resolved are being written.
    FlushingRetry(nat),
    /// Nothing is left to do.
    Finished,
}

/// What a resolution is run on.
pub enum SubjectView {
    /// The trace file that was parsed last.
    CurrentFile,
    /// The deferred data at this place in the ledger, counted from 0.
    Deferred(nat),
}

/// The state of the walk.
pub struct State {
    /// What the machine is waiting for.
    pub phase: PhaseView,
    /// The oversize records carried forward.
    pub store: Seq<u64>,
    /// The oversize records of the file being resolved.
    pub own: Seq<u64>,
    /// For each file resolved so far, in order, the oversize records that its
    /// deferred data brought along.
    pub ledger: Seq<Seq<u64>>,
    /// The running total of resolved entries.
    pub count: nat,
    /// The number of entries in the batch being written.
    pub batch: nat,
}

/// What the driver reports, as a mathematical value.
pub enum EventView {
    /// The category is absent or has no further file.
    Exhausted,
    /// The file that was listed is no longer on disk.
    Vanished,
    /// The next file was parsed and holds these oversize records.
    Parsed { oversize: Seq<u64> },
    /// The resolver returned `entries` resolved entries, and deferred data
    /// that brings along the oversize records `residual`.
    Resolved { entries: nat, residual: Seq<u64> },
    /// The batch was written.
    Flushed,
}

/// What the driver is asked to do, as a mathematical value.
pub enum ActionView {
    /// Find and parse the next file of the category.
    Open(Category),
    /// Resolve `subject` with the oversize records `oversize`; set aside what
    /// cannot be resolved if `exclude_missing`, else resolve as far as
    /// possible.
    Resolve { subject: SubjectView, oversize: Seq<u64>, exclude_missing: bool },
    /// Write the batch just resolved; it holds `entries` entries.
    Flush { entries: nat },
    /// Report that `total` entries were written, and stop.
    Finish { total: nat },
}

/// The state before anything was done.
pub open spec fn initial() -> State {
    State {
        phase: PhaseView::Opening(Category::Persist),
        store: Seq::empty(),
        own: Seq::empty(),
        ledger: Seq::empty(),
        count: 0,
        batch: 0,
    }
}

/// The phase in which the ledger is taken up at place `i`, or the end if the
/// ledger has no such place.
pub open spec fn retry_from(ledger: Seq<Seq<u64>>, i: nat) -> PhaseView {
    if i < ledger.len() {
        PhaseView::Retrying(i)
    } else {
        PhaseView::Finished
    }
}

/// The phase that follows the last file of category `c`.
pub open spec fn leave(c: Category, ledger: Seq<Seq<u64>>) -> PhaseView {
    match c.spec_successor() {
        Some(next) => PhaseView::Opening(next),
        None => retry_from(ledger, 0),
    }
}

/// The action that the driver owes in state `s`.
pub open spec fn pending(s: State) -> ActionView {
    match s.phase {
        PhaseView::Opening(c) => ActionView::Open(c),
        PhaseView::Resolving(c) => ActionView::Resolve {
            subject: SubjectView::CurrentFile,
            oversize: feed(c, s.own, s.store),
            exclude_missing: true,
        },
        PhaseView::Flushing(_) => ActionView::Flush { entries: s.batch },
        PhaseView::Retrying(i) => if i < s.ledger.len() {
            ActionView::Resolve {
                subject: SubjectView::Deferred(i),
                oversize: s.ledger[i as int] + s.store,
                exclude_missing: false,
            }
        } else {
            ActionView::Finish { total: s.count }
        },
        PhaseView::FlushingRetry(_) => ActionView::Flush { entries: s.batch },
        PhaseView::Finished => ActionView::Finish { total: s.count },
    }
}

/// Whether event `e` answers the action pending in state `s`.
pub open spec fn accepts(s: State, e: EventView) -> bool {
    match s.phase {
        PhaseView::Opening(_) => e is Exhausted || e is Vanished || e is Parsed,
        PhaseView::Resolving(_) => e is Resolved,
        PhaseView::Flushing(_) => e is Flushed,
        PhaseView::Retrying(i) => e is Resolved && i < s.ledger.len(),
        PhaseView::FlushingRetry(_) => e is Flushed,
        PhaseView::Finished => false,
    }
}

/// The state after event `e` was accepted in state `s`.
pub open spec fn advance(s: State, e: EventView) -> State {
    match (s.phase, e) {
        (PhaseView::Opening(c), EventView::Exhausted) => State { phase: leave(c, s.ledger), ..s },
        (PhaseView::Opening(c), EventView::Vanished) => if c.spec_is_single_file() {
            State { phase: leave(c, s.ledger), ..s }
        } else {
            s
        },
        (PhaseView::Opening(c), EventView::Parsed { oversize }) => State {
            phase: PhaseView::Resolving(c),
            own: oversize,
            ..s
        },
        (PhaseView::Resolving(c), EventView::Resolved { entries, residual }) => State {
            phase: PhaseView::Flushing(c),
            store: carry(c, s.own, s.store),
            own: Seq::empty(),
            ledger: s.ledger.push(residual),
            count: s.count + entries,
            batch: entries,
        },
        (PhaseView::Flushing(c), EventView::Flushed) => State {
            phase: if c.spec_is_single_file() {
                leave(c, s.ledger)
            } else {
                PhaseView::Opening(c)
            },
            batch: 0,
            ..s
        },
        (PhaseView::Retrying(i), EventView::Resolved { entries, residual }) => State {
            phase: PhaseView::FlushingRetry(i),
            count: s.count + entries,
            batch: entries,
            ..s
        },
        (PhaseView::FlushingRetry(i), EventView::Flushed) => State {
            phase: retry_from(s.ledger, i + 1),
            batch: 0,
            ..s
        },
        _ => s,
    }
}

/// The state that the events `events` lead to from the start, or `None` if
/// one of them did not answer the action pending when it came.
pub open spec fn run(events: Seq<EventView>) -> Option<State>
    decreases events.len(),
{
    if events.len() == 0 {
        Some(initial())
    } else {
        match run(events.drop_last()) {
            Some(s) => if accepts(s, events.last()) {
                Some(advance(s, events.last()))
            } else {
                None
            },
            None => None,
        }
    }
}

} // verus!
