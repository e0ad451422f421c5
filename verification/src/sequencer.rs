//! The executable machine that sequences a walk over a log archive.

use vstd::prelude::*;
use crate::category::{Category, chain, feed_for, carry_for};
use crate::machine::{
    accepts, advance, initial, leave, pending, retry_from, ActionView, EventView, PhaseView, State,
    SubjectView,
};

verus! {

/// What the machine is waiting for.
#[derive(Clone, Copy, Debug, PartialEq, Eq, Structural)]
pub enum Phase {
    /// The driver looks for the next file of the category.
    Opening(Category),
    /// The file last parsed, of this category, is being resolved.
    Resolving(Category),
    /// The entries resolved from that file are being written.
    Flushing(Category),
    /// The deferred data at this place in the ledger is being resolved again.
    Retrying(usize),
    /// The entries that this second attempt resolved are being written.
    FlushingRetry(usize),
    /// Nothing is left to do.
    Finished,
}

impl View for Phase {
    type V = PhaseView;

    open spec fn view(&self) -> PhaseView {
        match *self {
            Phase::Opening(c) => PhaseView::Opening(c),
            Phase::Resolving(c) => PhaseView::Resolving(c),
            Phase::Flushing(c) => PhaseView::Flushing(c),
            Phase::Retrying(i) => PhaseView::Retrying(i as nat),
            Phase::FlushingRetry(i) => PhaseView::FlushingRetry(i as nat),
            Phase::Finished => PhaseView::Finished,
        }
    }
}

/// What a resolution is run on.
#[derive(Clone, Copy, Debug, PartialEq, Eq, Structural)]
pub enum Subject {
    /// The trace file that was parsed last.
    CurrentFile,
    /// The deferred data at this place in the ledger, counted from 0.
    Deferred(usize),
}

impl View for Subject {
    type V = SubjectView;

    open spec fn view(&self) -> SubjectView {
        match *self {
            Subject::CurrentFile => SubjectView::CurrentFile,
            Subject::Deferred(i) => SubjectView::Deferred(i as nat),
        }
    }
}

/// What the driver reports after performing an action.
#[derive(Debug, PartialEq, Eq)]
pub enum Event {
    /// The category is absent or has no further file.
    Exhausted,
    /// The file that was listed is no longer on disk.
    Vanished,
    /// The next file was parsed and holds these oversize records.
    Parsed { oversize: Vec<u64> },
    /// The resolver returned `entries` resolved entries, and deferred data
    /// that brings along the oversize records `residual`.
    Resolved { entries: usize, residual: Vec<u64> },
    /// The batch was written.
    Flushed,
}

impl View for Event {
    type V = EventView;

    open spec fn view(&self) -> EventView {
        match *self {
            Event::Exhausted => EventView::Exhausted,
            Event::Vanished => EventView::Vanished,
            Event::Parsed { oversize } => EventView::Parsed { oversize: oversize@ },
            Event::Resolved { entries, residual } => EventView::Resolved {
                entries: entries as nat,
                residual: residual@,
            },
            Event::Flushed => EventView::Flushed,
        }
    }
}

/// What the driver is asked to do next.
#[derive(Debug, PartialEq, Eq)]
pub enum Action {
    /// Find and parse the next file of the category.
    Open(Category),
    /// Resolve `subject` with the oversize records `oversize`; set aside what
    /// cannot be resolved if `exclude_missing`, else resolve as far as
    /// possible.
    Resolve { subject: Subject, oversize: Vec<u64>, exclude_missing: bool },
    /// Write the batch just resolved; it holds `entries` entries.
    Flush { entries: usize },
    /// Report that `total` entries were written, and stop.
    Finish { total: usize },
}

impl View for Action {
    type V = ActionView;

    open spec fn view(&self) -> ActionView {
        match *self {
            Action::Open(c) => ActionView::Open(c),
            Action::Resolve { subject, oversize, exclude_missing } => ActionView::Resolve {
                subject: subject@,
                oversize: oversize@,
                exclude_missing,
            },
            Action::Flush { entries } => ActionView::Flush { entries: entries as nat },
            Action::Finish { total } => ActionView::Finish { total: total as nat },
        }
    }
}

/// Why a step was refused.  The machine is unchanged after a refusal.
#[derive(Clone, Copy, Debug, PartialEq, Eq, Structural)]
pub enum StepError {
    /// The event does not answer the pending action.
    Unexpected,
    /// The running total would no longer fit in a `usize`.
    CountOverflow,
}

/// Sequences one walk over a log archive.
pub struct Sequencer {
    phase: Phase,
    store: Vec<u64>,
    own: Vec<u64>,
    ledger: Vec<Vec<u64>>,
    count: usize,
    batch: usize,
}

impl View for Sequencer {
    type V = State;

    closed spec fn view(&self) -> State {
        State {
            phase: self.phase@,
            store: self.store@,
            own: self.own@,
            ledger: Seq::new(self.ledger@.len(), |i: int| self.ledger@[i]@),
            count: self.count as nat,
            batch: self.batch as nat,
        }
    }
}

impl Sequencer {
    /// A machine at the start of a walk.
    pub fn new() -> (s: Sequencer)
        ensures
            s@ == initial(),
    {
        let s = Sequencer {
            phase: Phase::Opening(Category::Persist),
            store: Vec::new(),
            own: Vec::new(),
            ledger: Vec::new(),
            count: 0,
            batch: 0,
        };
        assert(s@.ledger =~= Seq::empty());
        s
    }

    /// What the machine is waiting for.
    pub fn phase(&self) -> (p: Phase)
        ensures
            p@ == self@.phase,
    {
        self.phase
    }

    /// The running total of resolved entries.
    pub fn count(&self) -> (n: usize)
        ensures
            n == self@.count,
    {
        self.count
    }

    /// The oversize records carried forward at this moment.
    pub fn store(&self) -> (records: Vec<u64>)
        ensures
            records@ == self@.store,
    {
        let nothing: Vec<u64> = Vec::new();
        let records = chain(&self.store, &nothing);
        assert(self.store@ + nothing@ == self.store@);
        records
    }

    /// The number of files whose deferred data the ledger holds.
    pub fn deferred(&self) -> (n: usize)
        ensures
            n == self@.ledger.len(),
    {
        self.ledger.len()
    }

    /// Whether the walk is over.
    pub fn is_finished(&self) -> (done: bool)
        ensures
            done <==> self@.phase == PhaseView::Finished,
    {
        match self.phase {
            Phase::Finished => true,
            _ => false,
        }
    }

    /// The action that the driver owes.
    pub fn pending(&self) -> (action: Action)
        ensures
            action@ == pending(self@),
    {
        match self.phase {
            Phase::Opening(c) => Action::Open(c),
            Phase::Resolving(c) => Action::Resolve {
                subject: Subject::CurrentFile,
                oversize: feed_for(c, &self.own, &self.store),
                exclude_missing: true,
            },
            Phase::Flushing(_) => Action::Flush { entries: self.batch },
            Phase::Retrying(i) => {
                if i < self.ledger.len() {
                    Action::Resolve {
                        subject: Subject::Deferred(i),
                        oversize: chain(&self.ledger[i], &self.store),
                        exclude_missing: false,
                    }
                } else {
                    Action::Finish { total: self.count }
                }
            },
            Phase::FlushingRetry(_) => Action::Flush { entries: self.batch },
            Phase::Finished => Action::Finish { total: self.count },
        }
    }

    /// The phase in which the ledger is taken up at place `i`.
    fn retry_at(&self, i: usize) -> (p: Phase)
        ensures
            p@ == retry_from(self@.ledger, i as nat),
    {
        if i < self.ledger.len() {
            Phase::Retrying(i)
        } else {
            Phase::Finished
        }
    }

    /// The phase that follows the last file of category `c`.
    fn after(&self, c: Category) -> (p: Phase)
        ensures
            p@ == leave(c, self@.ledger),
    {
        match c.successor() {
            Some(next) => Phase::Opening(next),
            None => self.retry_at(0),
        }
    }

    /// Takes the driver's report and says what to do next.
    ///
    /// An event that does not answer the pending action is refused, and so is
    /// a resolution whose entries would carry the running total past
    /// `usize::MAX`.  A refusal changes nothing.  Otherwise the machine moves
    /// as `advance` says and returns the action then pending.
    pub fn step(&mut self, event: Event) -> (outcome: Result<Action, StepError>)
        ensures
            match outcome {
                Ok(action) => {
                    &&& accepts(old(self)@, event@)
                    &&& advance(old(self)@, event@).count <= usize::MAX
                    &&& final(self)@ == advance(old(self)@, event@)
                    &&& action@ == pending(final(self)@)
                },
                Err(StepError::Unexpected) => {
                    &&& !accepts(old(self)@, event@)
                    &&& final(self)@ == old(self)@
                },
                Err(StepError::CountOverflow) => {
                    &&& accepts(old(self)@, event@)
                    &&& advance(old(self)@, event@).count > usize::MAX
                    &&& final(self)@ == old(self)@
                },
            },
    {
        match self.phase {
            Phase::Opening(c) => match event {
                Event::Exhausted => {
                    self.phase = self.after(c);
                },
                Event::Vanished => {
                    if c.is_single_file() {
                        self.phase = self.after(c);
                    }
                },
                Event::Parsed { oversize } => {
                    self.own = oversize;
                    self.phase = Phase::Resolving(c);
                },
                _ => {
                    return Err(StepError::Unexpected);
                },
            },
            Phase::Resolving(c) => match event {
                Event::Resolved { entries, residual } => {
                    match self.count.checked_add(entries) {
                        None => {
                            return Err(StepError::CountOverflow);
                        },
                        Some(total) => {
                            let kept = carry_for(c, &self.own, &self.store);
                            self.store = kept;
                            self.own = Vec::new();
                            self.ledger.push(residual);
                            self.count = total;
                            self.batch = entries;
                            self.phase = Phase::Flushing(c);
                            assert(self@.ledger =~= old(self)@.ledger.push(residual@));
                        },
                    }
                },
                _ => {
                    return Err(StepError::Unexpected);
                },
            },
            Phase::Flushing(c) => match event {
                Event::Flushed => {
                    self.batch = 0;
                    if c.is_single_file() {
                        self.phase = self.after(c);
                    } else {
                        self.phase = Phase::Opening(c);
                    }
                },
                _ => {
                    return Err(StepError::Unexpected);
                },
            },
            Phase::Retrying(i) => match event {
                Event::Resolved { entries, residual } => {
                    if i >= self.ledger.len() {
                        return Err(StepError::Unexpected);
                    }
                    match self.count.checked_add(entries) {
                        None => {
                            return Err(StepError::CountOverflow);
                        },
                        Some(total) => {
                            self.count = total;
                            self.batch = entries;
                            self.phase = Phase::FlushingRetry(i);
                        },
                    }
                },
                _ => {
                    return Err(StepError::Unexpected);
                },
            },
            Phase::FlushingRetry(i) => match event {
                Event::Flushed => {
                    self.batch = 0;
                    let places = self.ledger.len();
                    if i < places {
                        self.phase = self.retry_at(i + 1);
                    } else {
                        self.phase = Phase::Finished;
                    }
                },
                _ => {
                    return Err(StepError::Unexpected);
                },
            },
            Phase::Finished => {
                return Err(StepError::Unexpected);
            },
        }
        Ok(self.pending())
    }
}

} // verus!
