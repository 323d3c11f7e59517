//! Bookkeeping over all the workers of a pool: which jobs they hold, and how
//! many steps they still owe.

use crate::worker::{Phase, WorkerState};
use vstd::multiset::Multiset;
use vstd::prelude::*;

verus! {

/// The job in `slot` as a sequence of at most one job.
pub open spec fn one<J>(slot: Option<J>) -> Seq<J> {
    match slot {
        Some(job) => seq![job],
        None => Seq::empty(),
    }
}

/// The jobs that the workers hold, each as often as it is held.
pub open spec fn held<J>(in_flight: Seq<Option<J>>) -> Multiset<J>
    decreases in_flight.len(),
{
    if in_flight.len() == 0 {
        Multiset::empty()
    } else {
        held(in_flight.drop_last()).add(one(in_flight.last()).to_multiset())
    }
}

/// The number of steps that a worker has to take before the pool is through
/// with it, once the pool is closed and nothing is queued: a running worker
/// finishes its job, an idle one sees the intake closed, a terminated one is
/// joined.
pub open spec fn debt(w: WorkerState) -> nat {
    if w.joined {
        0
    } else {
        match w.phase {
            Phase::Running => 3,
            Phase::Idle => 2,
            Phase::Terminated => 1,
        }
    }
}

/// The steps that the workers `ws` owe together.
pub open spec fn owed(ws: Seq<WorkerState>) -> nat
    decreases ws.len(),
{
    if ws.len() == 0 {
        0
    } else {
        owed(ws.drop_last()) + debt(ws.last())
    }
}

/// A job in a slot counts once, an empty slot not at all.
pub proof fn lemma_one_counts<J>(slot: Option<J>)
    ensures
        one(slot).to_multiset() == match slot {
            Some(job) => Multiset::singleton(job),
            None => Multiset::empty(),
        },
{
    broadcast use vstd::seq_lib::group_to_multiset_ensures;
    broadcast use vstd::multiset::group_multiset_axioms;

    if let Some(job) = slot {
        assert(one(slot) =~= Seq::<J>::empty().push(job));
    }
}

/// Replacing what one worker holds changes the held jobs by the difference.
pub proof fn lemma_held_update<J>(in_flight: Seq<Option<J>>, i: int, slot: Option<J>)
    requires
        0 <= i < in_flight.len(),
    ensures
        held(in_flight.update(i, slot)).add(one(in_flight[i]).to_multiset()) == held(
            in_flight,
        ).add(one(slot).to_multiset()),
    decreases in_flight.len(),
{
    broadcast use vstd::multiset::group_multiset_axioms;

    let after = in_flight.update(i, slot);
    let front = in_flight.drop_last();
    let before = held(in_flight).add(one(slot).to_multiset());
    let now = held(after).add(one(in_flight[i]).to_multiset());
    if i == in_flight.len() - 1 {
        assert(after.drop_last() =~= front);
    } else {
        assert(after.drop_last() =~= front.update(i, slot));
        lemma_held_update(front, i, slot);
        let inner_now = held(front.update(i, slot)).add(one(front[i]).to_multiset());
        let inner_before = held(front).add(one(slot).to_multiset());
        assert forall|job: J| now.count(job) == before.count(job) by {
            assert(inner_now.count(job) == inner_before.count(job));
        }
    }
}

/// Where no worker holds a job, no job is held.
pub proof fn lemma_held_nothing<J>(in_flight: Seq<Option<J>>)
    requires
        forall|i: int| 0 <= i < in_flight.len() ==> (#[trigger] in_flight[i]) is None,
    ensures
        held(in_flight) == Multiset::<J>::empty(),
    decreases in_flight.len(),
{
    if in_flight.len() > 0 {
        lemma_held_nothing(in_flight.drop_last());
        lemma_one_counts(in_flight.last());
    }
}

/// Replacing one worker changes what is owed by the difference of the debts.
pub proof fn lemma_owed_update(ws: Seq<WorkerState>, i: int, w: WorkerState)
    requires
        0 <= i < ws.len(),
    ensures
        owed(ws.update(i, w)) + debt(ws[i]) == owed(ws) + debt(w),
    decreases ws.len(),
{
    let after = ws.update(i, w);
    if i == ws.len() - 1 {
        assert(after.drop_last() =~= ws.drop_last());
    } else {
        assert(after.drop_last() =~= ws.drop_last().update(i, w));
        lemma_owed_update(ws.drop_last(), i, w);
    }
}

/// Nothing is owed exactly when every worker was joined.
pub proof fn lemma_owed_nothing(ws: Seq<WorkerState>)
    ensures
        owed(ws) == 0 <==> forall|i: int| 0 <= i < ws.len() ==> (#[trigger] ws[i]).joined,
    decreases ws.len(),
{
    if ws.len() > 0 {
        let front = ws.drop_last();
        lemma_owed_nothing(front);
        if owed(ws) == 0 {
            assert forall|i: int| 0 <= i < ws.len() implies (#[trigger] ws[i]).joined by {
                if i < ws.len() - 1 {
                    assert(front[i] == ws[i]);
                }
            }
        }
        if forall|i: int| 0 <= i < ws.len() ==> (#[trigger] ws[i]).joined {
            assert forall|i: int| 0 <= i < front.len() implies (#[trigger] front[i]).joined by {
            }
        }
    }
}

} // verus!
