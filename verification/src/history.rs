//! What a sequence of events amounts to: the files resolved, the records
//! carried forward from them, and the entries written.

use vstd::prelude::*;
use vstd::multiset::Multiset;
use crate::category::{Category, carry};
use crate::machine::{accepts, run, EventView, PhaseView};

verus! {

/// A trace file that was parsed and resolved.
pub struct Visit {
    /// Where the file came from.
    pub category: Category,
    /// The oversize records that the file itself holds.
    pub oversize: Seq<u64>,
}

/// The files that were resolved in the course of `events`, in order.
pub open spec fn visits(events: Seq<EventView>) -> Seq<Visit>
    decreases events.len(),
{
    if events.len() == 0 {
        Seq::empty()
    } else {
        let before = events.drop_last();
        match (run(before), events.last()) {
            (Some(s), EventView::Resolved { .. }) => match s.phase {
                PhaseView::Resolving(c) => visits(before).push(Visit { category: c, oversize: s.own }),
                _ => visits(before),
            },
            _ => visits(before),
        }
    }
}

/// The store after the files `v` were resolved one after the other, starting
/// from an empty store.
pub open spec fn carried(v: Seq<Visit>) -> Seq<u64>
    decreases v.len(),
{
    if v.len() == 0 {
        Seq::empty()
    } else {
        carry(v.last().category, v.last().oversize, carried(v.drop_last()))
    }
}

/// All oversize records of those files among `v` whose category keeps them,
/// each as often as it was seen.
pub open spec fn kept_records(v: Seq<Visit>) -> Multiset<u64>
    decreases v.len(),
{
    if v.len() == 0 {
        Multiset::empty()
    } else if v.last().category.spec_keeps_oversize() {
        kept_records(v.drop_last()).add(v.last().oversize.to_multiset())
    } else {
        kept_records(v.drop_last())
    }
}

/// The number of entries in the batches that were written in the course of
/// `events`: for each `Flushed` that was accepted, the size of the batch it
/// confirmed.
pub open spec fn flushed(events: Seq<EventView>) -> nat
    decreases events.len(),
{
    if events.len() == 0 {
        0
    } else {
        let before = events.drop_last();
        match (run(before), events.last()) {
            (Some(s), EventView::Flushed) => if accepts(s, EventView::Flushed) {
                flushed(before) + s.batch
            } else {
                flushed(before)
            },
            _ => flushed(before),
        }
    }
}

/// For each file resolved in the course of `events`, in order, the number of
/// entries that its first resolution returned.
pub open spec fn first_pass(events: Seq<EventView>) -> Seq<nat>
    decreases events.len(),
{
    if events.len() == 0 {
        Seq::empty()
    } else {
        let before = events.drop_last();
        match (run(before), events.last()) {
            (Some(s), EventView::Resolved { entries, .. }) => match s.phase {
                PhaseView::Resolving(_) => first_pass(before).push(entries),
                _ => first_pass(before),
            },
            _ => first_pass(before),
        }
    }
}

/// For each place of the ledger that was taken up again in the course of
/// `events`, in order, the number of entries that the second resolution
/// returned.
pub open spec fn second_pass(events: Seq<EventView>) -> Seq<nat>
    decreases events.len(),
{
    if events.len() == 0 {
        Seq::empty()
    } else {
        let before = events.drop_last();
        match (run(before), events.last()) {
            (Some(s), EventView::Resolved { entries, .. }) => if s.phase is Retrying && accepts(
                s,
                events.last(),
            ) {
                second_pass(before).push(entries)
            } else {
                second_pass(before)
            },
            _ => second_pass(before),
        }
    }
}

/// The sum of the numbers `s`.
pub open spec fn total(s: Seq<nat>) -> nat
    decreases s.len(),
{
    if s.len() == 0 {
        0
    } else {
        total(s.drop_last()) + s.last()
    }
}

/// The number of entries that the two resolutions of file `k` returned
/// together; the second counts as 0 while it has not happened.
pub open spec fn resolved_of_file(events: Seq<EventView>, k: int) -> nat {
    first_pass(events)[k] + if k < second_pass(events).len() {
        second_pass(events)[k]
    } else {
        0
    }
}

/// Whether the driver reported the oversize record `x` in the course of
/// `events`: with a file it parsed, or with the deferred data that a
/// resolution returned.
pub open spec fn was_reported(events: Seq<EventView>, x: u64) -> bool
    decreases events.len(),
{
    &&& events.len() > 0
    &&& {
        ||| was_reported(events.drop_last(), x)
        ||| match events.last() {
            EventView::Parsed { oversize } => oversize.contains(x),
            EventView::Resolved { residual, .. } => residual.contains(x),
            _ => false,
        }
    }
}

/// The number of entries in the batch that is being written in phase `p`,
/// given that `batch` is the size of the last batch resolved.
pub open spec fn in_flight(p: PhaseView, batch: nat) -> nat {
    match p {
        PhaseView::Flushing(_) | PhaseView::FlushingRetry(_) => batch,
        _ => 0,
    }
}

/// Whether the files `v` came in the order of their categories.
pub open spec fn in_category_order(v: Seq<Visit>) -> bool {
    forall|i: int, j: int|
        0 <= i <= j < v.len() ==> (#[trigger] v[i]).category.rank() <= (
        #[trigger] v[j]).category.rank()
}

} // verus!
