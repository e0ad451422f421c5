//! What holds of every walk, whatever the driver reports.

use vstd::prelude::*;
use vstd::seq_lib::lemma_multiset_commutative;
use crate::category::Category;
use crate::history::{
    carried, first_pass, flushed, in_category_order, in_flight, kept_records, resolved_of_file,
    second_pass, total, visits, was_reported, Visit,
};
use crate::machine::{
    accepts, advance, pending, run, ActionView, EventView, PhaseView, State, SubjectView,
};

verus! {

/// What ties a state to the events that led to it.
spec fn consistent(events: Seq<EventView>, s: State) -> bool {
    let v = visits(events);
    &&& s.store == carried(v)
    &&& s.ledger.len() == v.len()
    &&& s.count == flushed(events) + in_flight(s.phase, s.batch)
    &&& s.count == total(first_pass(events)) + total(second_pass(events))
    &&& first_pass(events).len() == v.len()
    &&& second_pass(events).len() == retried(s)
    &&& in_category_order(v)
    &&& match s.phase {
        PhaseView::Opening(c) | PhaseView::Resolving(c) => forall|i: int|
            0 <= i < v.len() ==> (#[trigger] v[i]).category.rank() <= c.rank(),
        PhaseView::Flushing(c) => {
            &&& v.len() > 0
            &&& v.last().category == c
            &&& forall|i: int| 0 <= i < v.len() ==> (#[trigger] v[i]).category.rank() <= c.rank()
        },
        PhaseView::Retrying(i) | PhaseView::FlushingRetry(i) => i < s.ledger.len(),
        PhaseView::Finished => true,
    }
}

/// The number of ledger places that were taken up again before state `s`.
spec fn retried(s: State) -> nat {
    match s.phase {
        PhaseView::Opening(_) | PhaseView::Resolving(_) | PhaseView::Flushing(_) => 0,
        PhaseView::Retrying(i) => i,
        PhaseView::FlushingRetry(i) => i + 1,
        PhaseView::Finished => s.ledger.len(),
    }
}

proof fn lemma_consistent(events: Seq<EventView>)
    ensures
        run(events) matches Some(s) ==> consistent(events, s),
    decreases events.len(),
{
    if events.len() == 0 {
        assert(visits(events) =~= Seq::<Visit>::empty());
    } else {
        let before = events.drop_last();
        let e = events.last();
        lemma_consistent(before);
        if let Some(s) = run(before) {
            if accepts(s, e) {
                let t = advance(s, e);
                let v = visits(before);
                let w = visits(events);
                assert(run(events) == Some(t));
                match (s.phase, e) {
                    (PhaseView::Resolving(c), EventView::Resolved { entries, residual }) => {
                        assert(w == v.push(Visit { category: c, oversize: s.own }));
                        assert(first_pass(events) == first_pass(before).push(entries));
                        assert(first_pass(events).drop_last() =~= first_pass(before));
                        assert(second_pass(events) == second_pass(before));
                        assert(w.drop_last() =~= v);
                        assert forall|i: int, j: int| 0 <= i <= j < w.len() implies (
                        #[trigger] w[i]).category.rank() <= (#[trigger] w[j]).category.rank() by {
                            if j < v.len() {
                                assert(w[i] == v[i] && w[j] == v[j]);
                            } else if i < v.len() {
                                assert(w[i] == v[i]);
                            }
                        }
                        assert forall|i: int| 0 <= i < w.len() implies (
                        #[trigger] w[i]).category.rank() <= c.rank() by {
                            if i < v.len() {
                                assert(w[i] == v[i]);
                            }
                        }
                    },
                    (PhaseView::Retrying(i), EventView::Resolved { entries, residual }) => {
                        assert(w == v);
                        assert(first_pass(events) == first_pass(before));
                        assert(second_pass(events) == second_pass(before).push(entries));
                        assert(second_pass(events).drop_last() =~= second_pass(before));
                    },
                    _ => {
                        assert(w == v);
                        assert(first_pass(events) == first_pass(before));
                        assert(second_pass(events) == second_pass(before));
                    },
                }
                assert(consistent(events, t));
            }
        }
    }
}

/// The store is what the files resolved so far have left in it, by the rule
/// of each one's category, and the ledger holds one entry for each of them.
pub proof fn law_store_follows_the_files(events: Seq<EventView>)
    requires
        run(events) is Some,
    ensures
        run(events)->Some_0.store == carried(visits(events)),
        run(events)->Some_0.ledger.len() == visits(events).len(),
{
    lemma_consistent(events);
}

/// A file of a category that receives the store is resolved with its own
/// oversize records followed by the store as the files before it left it: the
/// file's own records have not entered the store yet.  This holds of every
/// `Special` file and of the live capture.
pub proof fn law_receiving_file_is_fed_the_store_before_it(
    events: Seq<EventView>,
    c: Category,
    own: Seq<u64>,
)
    requires
        run(events) matches Some(s) && s.phase == PhaseView::Opening(c),
        c.spec_receives_store(),
    ensures
        run(events.push(EventView::Parsed { oversize: own })) matches Some(t) && pending(t)
            == (ActionView::Resolve {
            subject: SubjectView::CurrentFile,
            oversize: own + carried(visits(events)),
            exclude_missing: true,
        }),
        visits(events.push(EventView::Parsed { oversize: own })) == visits(events),
        forall|i: int|
            0 <= i < visits(events).len() ==> (#[trigger] visits(events)[i]).category.rank()
                <= c.rank(),
{
    lemma_consistent(events);
    let next = events.push(EventView::Parsed { oversize: own });
    assert(next.drop_last() =~= events);
}

/// A file of a category that does not receive the store is resolved with its
/// own oversize records and nothing else.  This holds of every `Persist`,
/// `Signpost` and `HighVolume` file.
pub proof fn law_other_file_is_fed_its_own_records(
    events: Seq<EventView>,
    c: Category,
    own: Seq<u64>,
)
    requires
        run(events) matches Some(s) && s.phase == PhaseView::Opening(c),
        !c.spec_receives_store(),
    ensures
        run(events.push(EventView::Parsed { oversize: own })) matches Some(t) && pending(t)
            == (ActionView::Resolve {
            subject: SubjectView::CurrentFile,
            oversize: own,
            exclude_missing: true,
        }),
{
    let next = events.push(EventView::Parsed { oversize: own });
    assert(next.drop_last() =~= events);
}

/// The store holds every oversize record of every file whose category keeps
/// them, each as often as it was seen, and nothing else.
pub proof fn law_store_holds_the_kept_records(v: Seq<Visit>)
    ensures
        carried(v).to_multiset() =~= kept_records(v),
    decreases v.len(),
{
    if v.len() == 0 {
        assert(carried(v).to_multiset() =~= kept_records(v)) by {
            broadcast use vstd::seq_lib::group_to_multiset_ensures;
        }
    } else {
        let rest = v.drop_last();
        let last = v.last();
        law_store_holds_the_kept_records(rest);
        lemma_multiset_commutative(carried(rest), last.oversize);
        lemma_multiset_commutative(last.oversize, carried(rest));
    }
}

/// Deferred data is resolved again with the oversize records it brought
/// along, followed by the store as all the files of the walk left it; the
/// store no longer changes by then.
pub proof fn law_retry_is_fed_the_final_store(events: Seq<EventView>)
    requires
        run(events) matches Some(s) && s.phase is Retrying,
    ensures
        run(events) matches Some(s) && s.phase matches PhaseView::Retrying(i) && i < s.ledger.len()
            && pending(s) == (ActionView::Resolve {
            subject: SubjectView::Deferred(i),
            oversize: s.ledger[i as int] + carried(visits(events)),
            exclude_missing: false,
        }),
{
    lemma_consistent(events);
}

/// Files are resolved in the order of their categories: no file of an
/// earlier category follows one of a later category.
pub proof fn law_files_come_in_category_order(events: Seq<EventView>)
    requires
        run(events) is Some,
    ensures
        in_category_order(visits(events)),
        run(events)->Some_0.phase matches PhaseView::Opening(c) ==> forall|i: int|
            0 <= i < visits(events).len() ==> (#[trigger] visits(events)[i]).category.rank()
                <= c.rank(),
{
    lemma_consistent(events);
}

/// The running total is the number of entries written so far plus those of
/// the batch being written.  When the walk is over it is the number of
/// entries written, and that is the total the driver is told to report.
pub proof fn law_count_is_what_was_flushed(events: Seq<EventView>)
    requires
        run(events) is Some,
    ensures
        run(events)->Some_0.count == flushed(events) + in_flight(
            run(events)->Some_0.phase,
            run(events)->Some_0.batch,
        ),
        run(events)->Some_0.phase == PhaseView::Finished ==> pending(run(events)->Some_0)
            == (ActionView::Finish { total: flushed(events) }),
{
    lemma_consistent(events);
}

/// The running total is the number of entries that all resolutions returned,
/// first and second attempts together.  Deferred data is taken up again in
/// the order of the ledger, and when the walk is over each file's has been
/// taken up once.
pub proof fn law_count_is_what_was_resolved(events: Seq<EventView>)
    requires
        run(events) is Some,
    ensures
        run(events)->Some_0.count == total(first_pass(events)) + total(second_pass(events)),
        first_pass(events).len() == visits(events).len(),
        second_pass(events).len() <= visits(events).len(),
        run(events)->Some_0.phase matches PhaseView::Retrying(i) ==> second_pass(events).len() == i,
        run(events)->Some_0.phase == PhaseView::Finished ==> second_pass(events).len() == visits(
            events,
        ).len(),
{
    lemma_consistent(events);
}

/// Numbers that are each no more than their counterpart add up to no more.
proof fn lemma_total_is_monotonic(a: Seq<nat>, b: Seq<nat>)
    requires
        a.len() == b.len(),
        forall|k: int| 0 <= k < a.len() ==> a[k] <= b[k],
    ensures
        total(a) <= total(b),
    decreases a.len(),
{
    if a.len() > 0 {
        lemma_total_is_monotonic(a.drop_last(), b.drop_last());
    }
}

/// The sum of the first attempts and of a shorter list of second attempts is
/// the sum of what each file gave in both.
proof fn lemma_total_of_both_passes(first: Seq<nat>, second: Seq<nat>)
    requires
        second.len() <= first.len(),
    ensures
        total(first) + total(second) == total(
            Seq::new(
                first.len(),
                |k: int|
                    (first[k] + if k < second.len() {
                        second[k]
                    } else {
                        0
                    }) as nat,
            ),
        ),
    decreases first.len(),
{
    let both = Seq::new(
        first.len(),
        |k: int|
            (first[k] + if k < second.len() {
                second[k]
            } else {
                0
            }) as nat,
    );
    if first.len() == 0 {
        assert(second =~= Seq::<nat>::empty());
    } else if second.len() == first.len() {
        let f = first.drop_last();
        let g = second.drop_last();
        lemma_total_of_both_passes(f, g);
        assert(both.drop_last() =~= Seq::new(
            f.len(),
            |k: int|
                (f[k] + if k < g.len() {
                    g[k]
                } else {
                    0
                }) as nat,
        ));
    } else {
        let f = first.drop_last();
        lemma_total_of_both_passes(f, second);
        assert(both.drop_last() =~= Seq::new(
            f.len(),
            |k: int|
                (f[k] + if k < second.len() {
                    second[k]
                } else {
                    0
                }) as nat,
        ));
    }
}

/// The running total never exceeds the number of entries in the files that
/// were parsed, as long as the resolver returns of no file more entries, in
/// both attempts together, than the file holds.  `raw` gives that number for
/// each file, in order.
pub proof fn law_count_is_bounded_by_raw_entries(events: Seq<EventView>, raw: Seq<nat>)
    requires
        run(events) is Some,
        raw.len() == visits(events).len(),
        forall|k: int| 0 <= k < raw.len() ==> resolved_of_file(events, k) <= #[trigger] raw[k],
    ensures
        run(events)->Some_0.count <= total(raw),
{
    lemma_consistent(events);
    let first = first_pass(events);
    let second = second_pass(events);
    lemma_total_of_both_passes(first, second);
    let both = Seq::new(
        first.len(),
        |k: int|
            (first[k] + if k < second.len() {
                second[k]
            } else {
                0
            }) as nat,
    );
    assert forall|k: int| 0 <= k < both.len() implies both[k] <= raw[k] by {
        assert(both[k] == resolved_of_file(events, k));
    }
    lemma_total_is_monotonic(both, raw);
}

/// Whether every oversize record that state `s` holds was reported in the
/// course of `events`.
spec fn holds_only_reported(events: Seq<EventView>, s: State) -> bool {
    &&& forall|k: int| 0 <= k < s.store.len() ==> was_reported(events, #[trigger] s.store[k])
    &&& forall|k: int| 0 <= k < s.own.len() ==> was_reported(events, #[trigger] s.own[k])
    &&& forall|i: int, k: int|
        0 <= i < s.ledger.len() && 0 <= k < s.ledger[i].len() ==> was_reported(
            events,
            #[trigger] s.ledger[i][k],
        )
}

proof fn lemma_holds_only_reported(events: Seq<EventView>)
    ensures
        run(events) matches Some(s) ==> holds_only_reported(events, s),
    decreases events.len(),
{
    if events.len() > 0 {
        let before = events.drop_last();
        let e = events.last();
        lemma_holds_only_reported(before);
        if let Some(s) = run(before) {
            if accepts(s, e) {
                let t = advance(s, e);
                assert forall|x: u64| was_reported(before, x) implies was_reported(events, x) by {}
                assert forall|k: int| 0 <= k < t.store.len() implies was_reported(
                    events,
                    #[trigger] t.store[k],
                ) by {
                    let x = t.store[k];
                    match (s.phase, e) {
                        (PhaseView::Resolving(c), EventView::Resolved { .. }) => {
                            if c == Category::Persist {
                                if k < s.store.len() {
                                    assert(x == s.store[k]);
                                } else {
                                    assert(x == s.own[k - s.store.len()]);
                                }
                            } else if c.spec_receives_store() {
                                if k < s.own.len() {
                                    assert(x == s.own[k]);
                                } else {
                                    assert(x == s.store[k - s.own.len()]);
                                }
                            } else {
                                assert(x == s.store[k]);
                            }
                        },
                        _ => {
                            assert(x == s.store[k]);
                        },
                    }
                }
                assert forall|k: int| 0 <= k < t.own.len() implies was_reported(
                    events,
                    #[trigger] t.own[k],
                ) by {
                    match (s.phase, e) {
                        (PhaseView::Opening(_), EventView::Parsed { oversize }) => {
                            assert(oversize.contains(t.own[k]));
                        },
                        (PhaseView::Resolving(_), EventView::Resolved { .. }) => {},
                        _ => {
                            assert(t.own[k] == s.own[k]);
                        },
                    }
                }
                assert forall|i: int, k: int|
                    0 <= i < t.ledger.len() && 0 <= k < t.ledger[i].len() implies was_reported(
                    events,
                    #[trigger] t.ledger[i][k],
                ) by {
                    match (s.phase, e) {
                        (PhaseView::Resolving(_), EventView::Resolved { entries, residual }) => {
                            if i < s.ledger.len() {
                                assert(t.ledger[i][k] == s.ledger[i][k]);
                            } else {
                                assert(residual.contains(t.ledger[i][k]));
                            }
                        },
                        _ => {
                            assert(t.ledger[i][k] == s.ledger[i][k]);
                        },
                    }
                }
            }
        }
    }
}

/// The machine hands out no oversize record that it was not given: whatever
/// a resolution is to be run with was reported before, with a file that was
/// parsed or with deferred data.
pub proof fn law_only_reported_records_are_handed_out(events: Seq<EventView>)
    requires
        run(events) is Some,
    ensures
        pending(run(events)->Some_0) matches ActionView::Resolve { oversize, .. } ==> forall|
            k: int,
        | 0 <= k < oversize.len() ==> was_reported(events, #[trigger] oversize[k]),
{
    lemma_holds_only_reported(events);
    let s = run(events)->Some_0;
    if let ActionView::Resolve { oversize, .. } = pending(s) {
        assert forall|k: int| 0 <= k < oversize.len() implies was_reported(
            events,
            #[trigger] oversize[k],
        ) by {
            match s.phase {
                PhaseView::Resolving(c) => {
                    if k < s.own.len() {
                        assert(oversize[k] == s.own[k]);
                    } else {
                        assert(oversize[k] == s.store[k - s.own.len()]);
                    }
                },
                PhaseView::Retrying(i) => {
                    if k < s.ledger[i as int].len() {
                        assert(oversize[k] == s.ledger[i as int][k]);
                    } else {
                        assert(oversize[k] == s.store[k - s.ledger[i as int].len()]);
                    }
                },
                _ => {},
            }
        }
    }
}

/// A file that vanished between listing and opening changes nothing: the
/// store, the ledger and the running total stay as they were, and the walk
/// goes on with the next file of the same category, or past the category if
/// it is a single file.
pub proof fn law_vanished_file_is_skipped(s: State, c: Category)
    requires
        s.phase == PhaseView::Opening(c),
    ensures
        accepts(s, EventView::Vanished),
        advance(s, EventView::Vanished).store == s.store,
        advance(s, EventView::Vanished).ledger == s.ledger,
        advance(s, EventView::Vanished).count == s.count,
        !c.spec_is_single_file() ==> pending(advance(s, EventView::Vanished)) == ActionView::Open(c),
        c.spec_is_single_file() ==> advance(s, EventView::Vanished) == advance(
            s,
            EventView::Exhausted,
        ),
{
}

} // verus!
