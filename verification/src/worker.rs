//! A worker: one long-lived thread of the pool, seen as a state machine.
//!
//! A worker is idle while it waits for a job, running while it executes one,
//! and terminated once an attempt to take a job was answered with
//! [`Fetch::Closed`]. Its thread handle is consumed exactly once, when the
//! pool joins it during shutdown.

use crate::intake::Fetch;
use vstd::prelude::*;

verus! {

/// Where a worker stands in its fetch-and-execute loop.
#[derive(Clone, Copy, Debug, PartialEq, Eq, Structural)]
pub enum Phase {
    /// Waiting for a job.
    Idle,
    /// Executing a job that it took from the intake.
    Running,
    /// Out of its loop: it saw the intake closed and empty.
    Terminated,
}

/// The mathematical state of a worker.
pub struct WorkerState {
    /// The worker's number within its pool.
    pub id: nat,
    /// Where the worker stands in its loop.
    pub phase: Phase,
    /// Whether the worker's thread handle was consumed by a join.
    pub joined: bool,
}

impl WorkerState {
    /// A worker that was just started: idle, its handle still held by the pool.
    pub open spec fn init(id: nat) -> Self {
        WorkerState { id, phase: Phase::Idle, joined: false }
    }

    /// The state of an idle worker after its attempt to take a job was
    /// answered with `fetched`.
    pub open spec fn step<J>(self, fetched: Fetch<J>) -> Self {
        match fetched {
            Fetch::Job(_) => WorkerState { phase: Phase::Running, ..self },
            Fetch::Wait => self,
            Fetch::Closed => WorkerState { phase: Phase::Terminated, ..self },
        }
    }

    /// The state of a running worker after its job returned.
    pub open spec fn done(self) -> Self {
        WorkerState { phase: Phase::Idle, ..self }
    }

    /// The state of a terminated worker after the pool joined its thread.
    pub open spec fn join(self) -> Self {
        WorkerState { joined: true, ..self }
    }
}

/// One worker of a pool.
#[derive(Clone, Copy, Debug)]
pub struct Worker {
    id: usize,
    phase: Phase,
    joined: bool,
}

impl View for Worker {
    type V = WorkerState;

    closed spec fn view(&self) -> WorkerState {
        WorkerState { id: self.id as nat, phase: self.phase, joined: self.joined }
    }
}

impl Worker {
    /// Creates the worker with number `id`: idle and not yet joined.
    pub fn new(id: usize) -> (worker: Worker)
        ensures
            worker@ == WorkerState::init(id as nat),
    {
        Worker { id, phase: Phase::Idle, joined: false }
    }

    /// The worker's number within its pool.
    pub fn id(&self) -> (id: usize)
        ensures
            id == self@.id,
    {
        self.id
    }

    /// Where the worker stands in its loop.
    pub fn phase(&self) -> (phase: Phase)
        ensures
            phase == self@.phase,
    {
        self.phase
    }

    /// Whether the worker's thread handle was consumed by a join.
    pub fn is_joined(&self) -> (joined: bool)
        ensures
            joined == self@.joined,
    {
        self.joined
    }

    /// Records the answer to an idle worker's attempt to take a job: with a
    /// job in hand the worker runs, on `Closed` it leaves its loop, and on
    /// `Wait` it stays idle.
    pub fn step<J>(&mut self, fetched: &Fetch<J>)
        requires
            old(self)@.phase == Phase::Idle,
        ensures
            final(self)@ == old(self)@.step(*fetched),
    {
        match fetched {
            Fetch::Job(_) => {
                self.phase = Phase::Running;
            },
            Fetch::Wait => {},
            Fetch::Closed => {
                self.phase = Phase::Terminated;
            },
        }
    }

    /// Records that the job of a running worker returned: the worker is idle
    /// again.
    pub fn done(&mut self)
        requires
            old(self)@.phase == Phase::Running,
        ensures
            final(self)@ == old(self)@.done(),
    {
        self.phase = Phase::Idle;
    }

    /// Records that the thread of a terminated worker was joined.
    pub fn join(&mut self)
        requires
            old(self)@.phase == Phase::Terminated,
            !old(self)@.joined,
        ensures
            final(self)@ == old(self)@.join(),
    {
        self.joined = true;
    }
}

} // verus!
