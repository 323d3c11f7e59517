//! The pool: a fixed set of workers around one intake.
//!
//! A [`ThreadPool`] is the pool's bookkeeping, used by one thread at a time:
//! whoever runs the worker threads keeps it behind a lock, and lets every
//! caller and every worker make its step through the operations below. Each
//! operation is one transition of [`PoolState`]. A job is executed between
//! two such steps, [`ThreadPool::fetch`] and [`ThreadPool::finish`], and so
//! outside the lock.
//!
//! A job that does not return, or that unwinds, leaves its worker running
//! for good. The intake and the other workers are not touched by that: they
//! go on taking the queued jobs in order. The shutdown waits at that worker
//! and does not get past it.

use crate::error::PoolCreationError;
use crate::guarantees::{lemma_init_inv, lemma_next_inv};
use crate::intake::{Fetch, Intake};
use crate::ledger::one;
use crate::state::{Event, PoolState};
use crate::worker::{Phase, Worker, WorkerState};
use vstd::pervasive::runtime_assert;
use vstd::prelude::*;

verus! {

/// A fixed-size pool of workers that run jobs of type `J`, each job once, in
/// the order of submission.
pub struct ThreadPool<J> {
    workers: Vec<Worker>,
    intake: Intake<J>,
    in_flight: Ghost<Seq<Option<J>>>,
    completed: Ghost<Seq<J>>,
}

impl<J> View for ThreadPool<J> {
    type V = PoolState<J>;

    closed spec fn view(&self) -> PoolState<J> {
        PoolState {
            workers: self.workers@.map_values(|w: Worker| w@),
            intake: self.intake@,
            in_flight: self.in_flight@,
            completed: self.completed@,
        }
    }
}

impl<J> ThreadPool<J> {
    /// Creates a pool of `size` workers.
    ///
    /// A pool needs at least one worker. The size 0 is a fault of the caller,
    /// which a caller that is not verified pays with a panic: see
    /// [`ThreadPool::build`] for sizes that come from outside.
    pub fn new(size: usize) -> (pool: ThreadPool<J>)
        requires
            size > 0,
        ensures
            pool@ == PoolState::<J>::init(size as nat),
            pool@.workers.len() == size,
            pool@.inv(),
    {
        runtime_assert(size > 0);
        Self::gen_thread_pool(size)
    }

    /// Creates a pool of `size` workers, or refuses the size 0 with an error
    /// that holds it.
    pub fn build(size: usize) -> (result: Result<ThreadPool<J>, PoolCreationError>)
        ensures
            match result {
                Ok(pool) => {
                    &&& size > 0
                    &&& pool@ == PoolState::<J>::init(size as nat)
                    &&& pool@.workers.len() == size
                    &&& pool@.inv()
                },
                Err(error) => size == 0 && error@ == size,
            },
    {
        if size > 0 {
            Ok(Self::gen_thread_pool(size))
        } else {
            Err(PoolCreationError::new(size))
        }
    }

    fn gen_thread_pool(size: usize) -> (pool: ThreadPool<J>)
        ensures
            pool@ == PoolState::<J>::init(size as nat),
            pool@.inv(),
    {
        let intake = Intake::new();
        let mut workers: Vec<Worker> = Vec::with_capacity(size);
        for n in 0..size
            invariant
                workers@.len() == n,
                forall|i: int| 0 <= i < n ==> (#[trigger] workers@[i])@ == WorkerState::init(i as nat),
        {
            workers.push(Worker::new(n));
        }
        let pool = ThreadPool {
            workers,
            intake,
            in_flight: Ghost(Seq::new(size as nat, |i: int| None)),
            completed: Ghost(Seq::empty()),
        };
        proof {
            assert(pool@.workers =~= PoolState::<J>::init(size as nat).workers);
            lemma_init_inv::<J>(size as nat);
        }
        pool
    }

    /// The workers, in the order of their numbers.
    pub fn workers(&self) -> (workers: &Vec<Worker>)
        ensures
            workers@.len() == self@.workers.len(),
            forall|i: int| 0 <= i < workers@.len() ==> (#[trigger] workers@[i])@ == self@.workers[i],
    {
        &self.workers
    }

    /// Whether the pool still accepts jobs.
    pub fn is_open(&self) -> (open: bool)
        ensures
            open == self@.is_open(),
    {
        self.intake.is_open()
    }

    /// The number of jobs that wait for a worker.
    pub fn pending(&self) -> (n: usize)
        ensures
            n == self@.pending().len(),
    {
        self.intake.len()
    }

    /// Whether a job can be submitted: the pool is not closed.
    pub fn can_execute(&self) -> (can: bool)
        ensures
            can == self@.can_execute(),
    {
        self.intake.is_open()
    }

    /// Whether worker `id` can try to take a job: it exists and is idle.
    pub fn can_fetch(&self, id: usize) -> (can: bool)
        ensures
            can == self@.can_fetch(id as int),
    {
        id < self.workers.len() && self.workers[id].phase() == Phase::Idle
    }

    /// Whether worker `id` can finish a job: it exists and is running.
    pub fn can_finish(&self, id: usize) -> (can: bool)
        ensures
            can == self@.can_finish(id as int),
    {
        id < self.workers.len() && self.workers[id].phase() == Phase::Running
    }

    /// Whether worker `id` can be joined: the pool is closed, the worker has
    /// terminated, and it is the first that was not joined yet.
    pub fn can_join(&self, id: usize) -> (can: bool)
        ensures
            can == self@.can_join(id as int),
    {
        if self.intake.is_open() || id >= self.workers.len() {
            return false;
        }
        if self.workers[id].phase() != Phase::Terminated {
            return false;
        }
        match self.next_join() {
            Some(next) => next == id,
            None => false,
        }
    }

    /// Whether the shutdown is complete: the pool is closed and every worker
    /// was joined.
    pub fn is_disposed(&self) -> (disposed: bool)
        ensures
            disposed == self@.disposed(),
    {
        !self.intake.is_open() && self.next_join().is_none()
    }

    /// Submits `job`: it is queued behind the jobs that are already waiting.
    ///
    /// Jobs can be submitted until the pool is closed. To submit one later is
    /// a fault of the caller, which a caller that is not verified pays with a
    /// panic.
    pub fn execute(&mut self, job: J)
        requires
            old(self)@.can_execute(),
        ensures
            final(self)@ == old(self)@.execute(job),
            old(self)@.inv() ==> final(self)@.inv(),
    {
        runtime_assert(self.intake.is_open());
        self.intake.send(job);
        proof {
            if old(self)@.inv() {
                lemma_next_inv(old(self)@, Event::Execute(job));
            }
        }
    }

    /// Lets the idle worker `id` try to take a job.
    ///
    /// With `Fetch::Job` the worker is running and the caller owns the job,
    /// to execute it and then call [`ThreadPool::finish`]. With
    /// `Fetch::Closed` the worker is terminated. With `Fetch::Wait` nothing
    /// has changed.
    pub fn fetch(&mut self, id: usize) -> (fetched: Fetch<J>)
        requires
            old(self)@.can_fetch(id as int),
        ensures
            fetched == old(self)@.intake.answer(),
            final(self)@ == old(self)@.fetch(id as int),
            old(self)@.inv() ==> final(self)@.inv(),
    {
        let ghost in_flight = self@.fetch(id as int).in_flight;
        let fetched = self.intake.recv();
        let mut worker = self.workers[id];
        worker.step(&fetched);
        self.workers.set(id, worker);
        self.in_flight = Ghost(in_flight);
        proof {
            assert(self@.workers =~= old(self)@.workers.update(id as int, worker@));
            if old(self)@.inv() {
                lemma_next_inv(old(self)@, Event::Fetch(id as int));
            }
        }
        fetched
    }

    /// Records that the job of the running worker `id` has returned.
    pub fn finish(&mut self, id: usize)
        requires
            old(self)@.can_finish(id as int),
        ensures
            final(self)@ == old(self)@.finish(id as int),
            old(self)@.inv() ==> final(self)@.inv(),
    {
        let mut worker = self.workers[id];
        worker.done();
        self.workers.set(id, worker);
        self.completed = Ghost(self.completed@ + one(self.in_flight@[id as int]));
        self.in_flight = Ghost(self.in_flight@.update(id as int, None));
        proof {
            assert(self@.workers =~= old(self)@.workers.update(id as int, worker@));
            if old(self)@.inv() {
                lemma_next_inv(old(self)@, Event::<J>::Finish(id as int));
            }
        }
    }

    /// Closes the intake: no job can be submitted any more, and a worker that
    /// finds nothing queued terminates. Closing a closed pool changes nothing.
    pub fn close(&mut self)
        ensures
            final(self)@ == old(self)@.close(),
            old(self)@.inv() ==> final(self)@.inv(),
    {
        self.intake.close();
        proof {
            if old(self)@.inv() && old(self)@.is_open() {
                lemma_next_inv(old(self)@, Event::<J>::Close);
            }
        }
    }

    /// The worker whose thread is to be joined next: the first that was not
    /// joined yet, or `None` when all were.
    pub fn next_join(&self) -> (next: Option<usize>)
        ensures
            match next {
                Some(id) => self@.has_worker(id as int) && !self@.workers[id as int].joined
                    && self@.joined_before(id as int),
                None => self@.joined_before(self@.workers.len() as int),
            },
    {
        let mut id: usize = 0;
        while id < self.workers.len()
            invariant
                id <= self.workers@.len(),
                self@.joined_before(id as int),
            decreases self.workers@.len() - id,
        {
            if !self.workers[id].is_joined() {
                return Some(id);
            }
            id += 1;
        }
        None
    }

    /// Records that the thread of the terminated worker `id` was joined.
    ///
    /// Workers are joined after the pool was closed, in the order of their
    /// numbers.
    pub fn join(&mut self, id: usize)
        requires
            old(self)@.can_join(id as int),
        ensures
            final(self)@ == old(self)@.join(id as int),
            old(self)@.inv() ==> final(self)@.inv(),
    {
        let mut worker = self.workers[id];
        worker.join();
        self.workers.set(id, worker);
        proof {
            assert(self@.workers =~= old(self)@.workers.update(id as int, worker@));
            if old(self)@.inv() {
                lemma_next_inv(old(self)@, Event::<J>::Join(id as int));
            }
        }
    }
}

} // verus!
