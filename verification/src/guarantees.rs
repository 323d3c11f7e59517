//! What the pool guarantees, proved of every state that a pool can reach.
//!
//! The statements speak of [`PoolState`] and its transitions. The operations
//! of [`crate::pool::ThreadPool`] are exactly these transitions, so what is
//! proved here holds of every pool, however its callers and workers
//! interleave.
//!
//! "Delivered" is a job that a worker took from the intake in order to
//! execute it; "returned" is a job whose execution has ended.

use crate::intake::{lemma_recv_conserves, lemma_send_conserves, Fetch};
use crate::ledger::{
    held, lemma_held_nothing, lemma_held_update, lemma_one_counts, lemma_owed_nothing,
    lemma_owed_update, one,
};
use crate::state::{jobs_of, Event, PoolState};
use crate::worker::Phase;
use vstd::prelude::*;

verus! {

/// A pool that was just built satisfies the invariant, whatever its size.
pub proof fn lemma_init_inv<J>(size: nat)
    ensures
        PoolState::<J>::init(size).inv(),
{
    broadcast use vstd::seq_lib::group_to_multiset_ensures;

    let s = PoolState::<J>::init(size);
    lemma_held_nothing(s.in_flight);
    assert(s.intake.received.to_multiset() =~= s.completed.to_multiset().add(held(s.in_flight)));
}

/// Every step that can happen keeps the invariant.
pub proof fn lemma_next_inv<J>(s: PoolState<J>, event: Event<J>)
    requires
        s.inv(),
        s.enabled(event),
    ensures
        s.next(event).inv(),
{
    broadcast use vstd::seq_lib::group_to_multiset_ensures;
    broadcast use vstd::multiset::group_multiset_axioms;

    let t = s.next(event);
    match event {
        Event::Execute(job) => {
            lemma_send_conserves(s.intake, job);
        },
        Event::Fetch(id) => {
            lemma_recv_conserves(s.intake);
            match s.intake.answer() {
                Fetch::Job(job) => {
                    lemma_held_update(s.in_flight, id, Some(job));
                    lemma_one_counts(s.in_flight[id]);
                    lemma_one_counts(Some(job));
                    let had = held(s.in_flight).add(one(Some(job)).to_multiset());
                    let has = held(t.in_flight).add(one(s.in_flight[id]).to_multiset());
                    assert forall|x: J|
                        t.delivered().to_multiset().count(x) == t.completed.to_multiset().add(
                            held(t.in_flight),
                        ).count(x) by {
                        assert(had.count(x) == has.count(x));
                    }
                    assert(t.delivered().to_multiset() =~= t.completed.to_multiset().add(
                        held(t.in_flight),
                    ));
                },
                _ => {},
            }
        },
        Event::Finish(id) => {
            lemma_held_update(s.in_flight, id, None);
            lemma_one_counts(s.in_flight[id]);
            lemma_one_counts(None::<J>);
            vstd::seq_lib::lemma_multiset_commutative(s.completed, one(s.in_flight[id]));
            let had = held(s.in_flight).add(one(None::<J>).to_multiset());
            let has = held(t.in_flight).add(one(s.in_flight[id]).to_multiset());
            assert forall|x: J|
                t.delivered().to_multiset().count(x) == t.completed.to_multiset().add(
                    held(t.in_flight),
                ).count(x) by {
                assert(had.count(x) == has.count(x));
            }
            assert(t.delivered().to_multiset() =~= t.completed.to_multiset().add(
                held(t.in_flight),
            ));
        },
        Event::Close => {},
        Event::Join(_) => {},
    }
}

/// The invariant holds after any sequence of steps that can happen.
pub proof fn lemma_run_inv<J>(s: PoolState<J>, events: Seq<Event<J>>)
    requires
        s.inv(),
        s.admits(events),
    ensures
        s.run(events).inv(),
    decreases events.len(),
{
    if events.len() > 0 {
        lemma_next_inv(s, events[0]);
        lemma_run_inv(s.next(events[0]), events.drop_first());
    }
}

/// No step changes the number of workers.
pub proof fn lemma_run_workers_len<J>(s: PoolState<J>, events: Seq<Event<J>>)
    requires
        s.admits(events),
    ensures
        s.run(events).workers.len() == s.workers.len(),
    decreases events.len(),
{
    if events.len() > 0 {
        lemma_run_workers_len(s.next(events[0]), events.drop_first());
    }
}

/// The history of submissions is the callers' own: after any sequence of
/// steps, the submitted jobs are those that were submitted before, followed by
/// the jobs of the `Execute` steps in their order.
pub proof fn lemma_run_submitted<J>(s: PoolState<J>, events: Seq<Event<J>>)
    ensures
        s.run(events).submitted() == s.submitted() + jobs_of(events),
    decreases events.len(),
{
    if events.len() > 0 {
        lemma_run_submitted(s.next(events[0]), events.drop_first());
    }
}

/// What has happened stays as it was: every step leaves the submitted, the
/// delivered and the returned jobs in place and appends at most one job to
/// each, and no step adds or removes a worker.
pub proof fn law_history_only_grows<J>(s: PoolState<J>, event: Event<J>)
    requires
        s.enabled(event),
    ensures
        s.submitted().is_prefix_of(s.next(event).submitted()),
        s.delivered().is_prefix_of(s.next(event).delivered()),
        s.completed.is_prefix_of(s.next(event).completed),
        s.next(event).submitted().len() <= s.submitted().len() + 1,
        s.next(event).delivered().len() <= s.delivered().len() + 1,
        s.next(event).completed.len() <= s.completed.len() + 1,
        s.next(event).workers.len() == s.workers.len(),
{
}

/// Jobs are delivered in the order of submission, each at most once: at every
/// instant the delivered jobs are the first of the submitted jobs, and the
/// queued jobs are the rest.
pub proof fn law_fifo_delivery<J>(s: PoolState<J>)
    requires
        s.inv(),
    ensures
        s.delivered().len() + s.pending().len() == s.submitted().len(),
        s.delivered() == s.submitted().take(s.delivered().len() as int),
        s.pending() == s.submitted().skip(s.delivered().len() as int),
{
}

/// Two submissions that race end up queued both, in one order or the other:
/// the two outcomes hold the same jobs and differ in nothing else.
pub proof fn law_racing_submissions<J>(s: PoolState<J>, a: J, b: J)
    requires
        s.can_execute(),
    ensures
        s.execute(a).can_execute(),
        s.execute(b).can_execute(),
        s.execute(a).execute(b).pending() == s.pending().push(a).push(b),
        s.execute(b).execute(a).pending() == s.pending().push(b).push(a),
        s.execute(a).execute(b).submitted().to_multiset() == s.execute(b).execute(
            a,
        ).submitted().to_multiset(),
        s.execute(a).execute(b).pending().to_multiset() == s.execute(b).execute(
            a,
        ).pending().to_multiset(),
        s.execute(a).execute(b).workers == s.execute(b).execute(a).workers,
        s.execute(a).execute(b).delivered() == s.execute(b).execute(a).delivered(),
        s.execute(a).execute(b).in_flight == s.execute(b).execute(a).in_flight,
        s.execute(a).execute(b).completed == s.execute(b).execute(a).completed,
{
    lemma_push_swap(s.submitted(), a, b);
    lemma_push_swap(s.pending(), a, b);
}

/// Appending two items in either order gives the same multiset.
proof fn lemma_push_swap<J>(q: Seq<J>, a: J, b: J)
    ensures
        q.push(a).push(b).to_multiset() == q.push(b).push(a).to_multiset(),
{
    broadcast use vstd::seq_lib::group_to_multiset_ensures;

    assert(q.to_multiset().insert(a).insert(b) =~= q.to_multiset().insert(b).insert(a));
}

/// Once a pool with at least one worker is shut down, every submitted job was
/// delivered to a worker exactly once, in the order of submission, and every
/// one of them has returned exactly once: nothing is queued, no worker holds a
/// job, and every worker has terminated.
pub proof fn law_disposed_all_done<J>(s: PoolState<J>)
    requires
        s.inv(),
        s.disposed(),
        s.workers.len() > 0,
    ensures
        s.delivered() == s.submitted(),
        s.completed.to_multiset() == s.submitted().to_multiset(),
        s.completed.len() == s.submitted().len(),
        s.pending().len() == 0,
        forall|i: int| 0 <= i < s.workers.len() ==> (#[trigger] s.in_flight[i]) is None,
        forall|i: int| 0 <= i < s.workers.len() ==> (#[trigger] s.workers[i]).phase == Phase::Terminated,
{
    broadcast use vstd::seq_lib::group_to_multiset_ensures;

    assert forall|i: int| 0 <= i < s.workers.len() implies (#[trigger] s.workers[i]).phase
        == Phase::Terminated by {
        assert(s.workers[i].joined);
    }
    assert(s.workers[0].phase == Phase::Terminated);
    lemma_held_nothing(s.in_flight);
    assert(s.delivered() =~= s.submitted());
    assert(s.completed.to_multiset() =~= s.submitted().to_multiset());
    s.completed.to_multiset_ensures();
    s.submitted().to_multiset_ensures();
}

/// A pool with a single worker returns the jobs in the order of submission:
/// at every instant the jobs that have returned, followed by the job that
/// the worker holds, are the first of the submitted jobs.
pub proof fn law_single_worker_in_order<J>(s: PoolState<J>)
    requires
        s.inv(),
        s.workers.len() == 1,
    ensures
        s.completed + one(s.in_flight[0]) == s.delivered(),
        s.completed.is_prefix_of(s.submitted()),
        s.disposed() ==> s.completed == s.submitted(),
{
    assert(s.completed.is_prefix_of(s.delivered()));
    if s.disposed() {
        law_disposed_all_done(s);
        assert(s.in_flight[0] is None);
    }
}

/// Whatever the size of the pool and however the steps interleave: if a
/// sequence of steps takes a new pool to its complete shutdown, then the jobs
/// that were delivered to workers are exactly the jobs that the `Execute`
/// steps submitted, in that order, and the jobs that have returned are the
/// same jobs, each as often as it was submitted. With a single worker they
/// have returned in the order of submission.
pub proof fn law_every_job_runs_once<J>(size: nat, events: Seq<Event<J>>)
    requires
        size > 0,
        PoolState::<J>::init(size).admits(events),
        PoolState::<J>::init(size).run(events).disposed(),
    ensures
        PoolState::<J>::init(size).run(events).delivered() == jobs_of(events),
        PoolState::<J>::init(size).run(events).completed.to_multiset() == jobs_of(
            events,
        ).to_multiset(),
        size == 1 ==> PoolState::<J>::init(size).run(events).completed == jobs_of(events),
{
    let s = PoolState::<J>::init(size);
    lemma_init_inv::<J>(size);
    lemma_run_inv(s, events);
    lemma_run_workers_len(s, events);
    lemma_run_submitted(s, events);
    law_disposed_all_done(s.run(events));
    if size == 1 {
        law_single_worker_in_order(s.run(events));
    }
}

/// A closed pool stays closed and takes no further job, and an idle worker
/// of a closed pool is never told to wait: it gets a job or the end.
pub proof fn law_closed_is_final<J>(s: PoolState<J>, event: Event<J>)
    requires
        !s.is_open(),
        s.enabled(event),
    ensures
        !(event is Execute),
        !(event is Close),
        !s.next(event).is_open(),
        !(s.intake.answer() is Wait),
        s.next(event).submitted() == s.submitted(),
{
}

/// Once the pool is closed, it stays closed, and every step that can happen
/// pays off exactly one of the steps that the pool owes.
pub proof fn law_shutdown_advances<J>(s: PoolState<J>, event: Event<J>)
    requires
        s.inv(),
        !s.is_open(),
        s.enabled(event),
    ensures
        !s.next(event).is_open(),
        s.next(event).remaining() + 1 == s.remaining(),
{
    match event {
        Event::Fetch(id) => {
            lemma_owed_update(s.workers, id, s.workers[id].step(s.intake.answer()));
        },
        Event::Finish(id) => {
            lemma_owed_update(s.workers, id, s.workers[id].done());
        },
        Event::Join(id) => {
            lemma_owed_update(s.workers, id, s.workers[id].join());
        },
        _ => {},
    }
}

/// The shutdown is bounded: after the pool was closed, no sequence of steps
/// is longer than what the pool owes, and every step pays one off.
pub proof fn law_shutdown_is_bounded<J>(s: PoolState<J>, events: Seq<Event<J>>)
    requires
        s.inv(),
        !s.is_open(),
        s.admits(events),
    ensures
        s.run(events).remaining() + events.len() == s.remaining(),
        events.len() <= s.remaining(),
    decreases events.len(),
{
    if events.len() > 0 {
        law_shutdown_advances(s, events[0]);
        lemma_next_inv(s, events[0]);
        law_shutdown_is_bounded(s.next(events[0]), events.drop_first());
    }
}

/// A shutdown never gets stuck: as long as some worker is not joined, the
/// first such worker can take its next step, which is the event returned.
/// (For a running worker that step is the return of its job.)
pub proof fn law_shutdown_never_stuck<J>(s: PoolState<J>) -> (event: Event<J>)
    requires
        s.inv(),
        !s.is_open(),
        !s.disposed(),
    ensures
        s.enabled(event),
        event is Fetch || event is Finish || event is Join,
{
    let w = first_not_joined(s, 0);
    match s.workers[w].phase {
        Phase::Idle => Event::Fetch(w),
        Phase::Running => Event::Finish(w),
        Phase::Terminated => Event::Join(w),
    }
}

/// Finds the first worker from `from` on that is not joined.
proof fn first_not_joined<J>(s: PoolState<J>, from: int) -> (w: int)
    requires
        0 <= from <= s.workers.len(),
        s.joined_before(from),
        !s.joined_before(s.workers.len() as int),
    ensures
        s.has_worker(w),
        !s.workers[w].joined,
        s.joined_before(w),
    decreases s.workers.len() - from,
{
    if from < s.workers.len() && s.workers[from].joined {
        first_not_joined(s, from + 1)
    } else {
        from
    }
}

/// The shutdown of a pool with at least one worker is complete exactly when
/// no step is left.
pub proof fn law_shutdown_ends<J>(s: PoolState<J>)
    requires
        s.inv(),
        !s.is_open(),
        s.workers.len() > 0,
    ensures
        s.disposed() <==> s.remaining() == 0,
{
    lemma_owed_nothing(s.workers);
    if s.disposed() {
        law_disposed_all_done(s);
    }
}

/// The shutdown can always be completed: from any state of a closed pool with
/// at least one worker, the returned steps can happen one after the other and
/// end in the complete shutdown. They are as many as the pool owes.
pub proof fn law_shutdown_completes<J>(s: PoolState<J>) -> (events: Seq<Event<J>>)
    requires
        s.inv(),
        !s.is_open(),
        s.workers.len() > 0,
    ensures
        s.admits(events),
        s.run(events).disposed(),
        events.len() == s.remaining(),
    decreases s.remaining(),
{
    law_shutdown_ends(s);
    if s.disposed() {
        Seq::empty()
    } else {
        let event = law_shutdown_never_stuck(s);
        law_shutdown_advances(s, event);
        lemma_next_inv(s, event);
        let rest = law_shutdown_completes(s.next(event));
        let events = seq![event] + rest;
        assert(events.drop_first() =~= rest);
        events
    }
}

} // verus!
