//! The pool as a transition system.
//!
//! A [`PoolState`] is what an observer could know of a pool at one instant:
//! the phase of every worker and the job that it is executing, the intake
//! with its history, and the jobs that have returned. Every operation of the
//! pool is one atomic transition of this state; threads that use one pool at
//! the same time interleave such transitions in some order.

use crate::intake::{Fetch, IntakeState};
use crate::ledger::{held, one, owed};
use crate::worker::{Phase, WorkerState};
use vstd::prelude::*;

verus! {

/// The mathematical state of a pool whose jobs have type `J`.
pub struct PoolState<J> {
    /// The workers, in the order of their numbers.
    pub workers: Seq<WorkerState>,
    /// The intake point that the workers share.
    pub intake: IntakeState<J>,
    /// For every worker, the job that it is executing, if it executes one.
    pub in_flight: Seq<Option<J>>,
    /// The jobs that have returned, in the order of their return.
    pub completed: Seq<J>,
}

/// One atomic step of a pool.
pub enum Event<J> {
    /// A caller submits a job.
    Execute(J),
    /// The idle worker with this number tries to take a job.
    Fetch(int),
    /// The job of the running worker with this number returns.
    Finish(int),
    /// The owner drops the sending side of the intake.
    Close,
    /// The owner has waited for the thread of the worker with this number.
    Join(int),
}

impl<J> PoolState<J> {
    /// A pool that was just built: `size` idle workers numbered from 0, an
    /// open intake, no history.
    pub open spec fn init(size: nat) -> Self {
        PoolState {
            workers: Seq::new(size, |i: int| WorkerState::init(i as nat)),
            intake: IntakeState::init(),
            in_flight: Seq::new(size, |i: int| None),
            completed: Seq::empty(),
        }
    }

    /// Every job that was ever submitted, in the order of submission.
    pub open spec fn submitted(self) -> Seq<J> {
        self.intake.sent
    }

    /// Every job that was ever handed to a worker, in the order of delivery.
    pub open spec fn delivered(self) -> Seq<J> {
        self.intake.received
    }

    /// The jobs that wait for a worker, oldest first.
    pub open spec fn pending(self) -> Seq<J> {
        self.intake.pending
    }

    /// Whether the pool still accepts jobs.
    pub open spec fn is_open(self) -> bool {
        self.intake.open
    }

    /// Whether `id` is the number of a worker of this pool.
    pub open spec fn has_worker(self, id: int) -> bool {
        0 <= id < self.workers.len()
    }

    /// Whether every worker with a number below `id` was joined.
    pub open spec fn joined_before(self, id: int) -> bool {
        forall|i: int| 0 <= i < id && i < self.workers.len() ==> (#[trigger] self.workers[i]).joined
    }

    /// Whether the shutdown is complete: the intake is closed and every worker
    /// was joined.
    pub open spec fn disposed(self) -> bool {
        &&& !self.intake.open
        &&& self.joined_before(self.workers.len() as int)
    }

    /// A job may be submitted as long as the intake is open.
    pub open spec fn can_execute(self) -> bool {
        self.intake.open
    }

    /// The state after `job` was submitted.
    pub open spec fn execute(self, job: J) -> Self {
        PoolState { intake: self.intake.send(job), ..self }
    }

    /// Only an idle worker tries to take a job.
    pub open spec fn can_fetch(self, id: int) -> bool {
        self.has_worker(id) && self.workers[id].phase == Phase::Idle
    }

    /// The state after worker `id` tried to take a job: the attempt is
    /// answered by the intake, and the worker goes by the answer. A job that
    /// it got is in its hands from now on.
    pub open spec fn fetch(self, id: int) -> Self {
        PoolState {
            workers: self.workers.update(id, self.workers[id].step(self.intake.answer())),
            intake: self.intake.recv(),
            in_flight: match self.intake.answer() {
                Fetch::Job(job) => self.in_flight.update(id, Some(job)),
                _ => self.in_flight,
            },
            ..self
        }
    }

    /// Only a running worker finishes a job.
    pub open spec fn can_finish(self, id: int) -> bool {
        self.has_worker(id) && self.workers[id].phase == Phase::Running
    }

    /// The state after the job of worker `id` returned.
    pub open spec fn finish(self, id: int) -> Self {
        PoolState {
            workers: self.workers.update(id, self.workers[id].done()),
            in_flight: self.in_flight.update(id, None),
            completed: self.completed + one(self.in_flight[id]),
            ..self
        }
    }

    /// The state after the sending side of the intake was dropped.
    pub open spec fn close(self) -> Self {
        PoolState { intake: self.intake.close(), ..self }
    }

    /// Workers are joined after the intake was closed, in the order of their
    /// numbers, each once, and a join returns only when the worker's thread
    /// has ended.
    pub open spec fn can_join(self, id: int) -> bool {
        &&& !self.intake.open
        &&& self.has_worker(id)
        &&& self.workers[id].phase == Phase::Terminated
        &&& !self.workers[id].joined
        &&& self.joined_before(id)
    }

    /// The state after worker `id` was joined.
    pub open spec fn join(self, id: int) -> Self {
        PoolState { workers: self.workers.update(id, self.workers[id].join()), ..self }
    }

    /// Whether `event` can happen in this state.
    pub open spec fn enabled(self, event: Event<J>) -> bool {
        match event {
            Event::Execute(_) => self.can_execute(),
            Event::Fetch(id) => self.can_fetch(id),
            Event::Finish(id) => self.can_finish(id),
            Event::Close => self.intake.open,
            Event::Join(id) => self.can_join(id),
        }
    }

    /// The state after `event`.
    pub open spec fn next(self, event: Event<J>) -> Self {
        match event {
            Event::Execute(job) => self.execute(job),
            Event::Fetch(id) => self.fetch(id),
            Event::Finish(id) => self.finish(id),
            Event::Close => self.close(),
            Event::Join(id) => self.join(id),
        }
    }

    /// Whether the events can happen one after the other, starting here.
    pub open spec fn admits(self, events: Seq<Event<J>>) -> bool
        decreases events.len(),
    {
        events.len() == 0 || (self.enabled(events[0]) && self.next(events[0]).admits(
            events.drop_first(),
        ))
    }

    /// The state after the events happened one after the other.
    pub open spec fn run(self, events: Seq<Event<J>>) -> Self
        decreases events.len(),
    {
        if events.len() == 0 {
            self
        } else {
            self.next(events[0]).run(events.drop_first())
        }
    }

    /// What holds of every pool at every instant: the workers are numbered
    /// in order; the intake loses and repeats nothing; exactly the running
    /// workers hold a job; the jobs that were delivered are those that have
    /// returned and those that are held; a single worker returns them in the
    /// order of delivery; a worker terminates only when the pool is closed
    /// and nothing is queued; and workers are joined in order, each after it
    /// terminated.
    pub open spec fn inv(self) -> bool {
        &&& forall|i: int| 0 <= i < self.workers.len() ==> (#[trigger] self.workers[i]).id == i
        &&& self.intake.conserved()
        &&& self.in_flight.len() == self.workers.len()
        &&& forall|i: int|
            0 <= i < self.workers.len() ==> ((#[trigger] self.in_flight[i]) is Some
                <==> self.workers[i].phase == Phase::Running)
        &&& self.intake.received.to_multiset() == self.completed.to_multiset().add(
            held(self.in_flight),
        )
        &&& self.workers.len() == 1 ==> self.intake.received == self.completed + one(
            self.in_flight[0],
        )
        &&& forall|i: int|
            0 <= i < self.workers.len() && (#[trigger] self.workers[i]).phase == Phase::Terminated
                ==> !self.intake.open && self.intake.pending.len() == 0
        &&& forall|i: int|
            0 <= i < self.workers.len() && (#[trigger] self.workers[i]).joined
                ==> self.workers[i].phase == Phase::Terminated
        &&& forall|i: int, j: int|
            0 <= i <= j < self.workers.len() && (#[trigger] self.workers[j]).joined
                ==> (#[trigger] self.workers[i]).joined
    }

    /// The number of steps that are left until the shutdown is complete, once
    /// the intake is closed: every queued job is taken and finished, and every
    /// worker goes through what it owes.
    pub open spec fn remaining(self) -> nat {
        2 * self.intake.pending.len() + owed(self.workers)
    }
}

/// The jobs that the events submit, in the order of the events.
pub open spec fn jobs_of<J>(events: Seq<Event<J>>) -> Seq<J>
    decreases events.len(),
{
    if events.len() == 0 {
        Seq::empty()
    } else {
        match events[0] {
            Event::Execute(job) => seq![job] + jobs_of(events.drop_first()),
            _ => jobs_of(events.drop_first()),
        }
    }
}

} // verus!
