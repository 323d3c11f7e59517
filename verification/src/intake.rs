//! The intake point: the first-in, first-out transport that carries jobs from
//! the submitters to the workers.
//!
//! The pool holds the sending side, the workers share the receiving side.
//! Closing the intake is the signal that no further job will come: what is
//! still queued is handed out, and after that every attempt to take a job is
//! answered with [`Fetch::Closed`].

use std::collections::VecDeque;
use vstd::prelude::*;

verus! {

/// The answer to one attempt to take a job from the intake.
#[derive(Debug, PartialEq, Eq)]
pub enum Fetch<J> {
    /// The job at the head of the queue, now owned by the caller.
    Job(J),
    /// Nothing is queued, but the intake is still open: try again later.
    Wait,
    /// Nothing is queued and nothing will come any more.
    Closed,
}

/// The mathematical state of an intake.
pub struct IntakeState<J> {
    /// The jobs that were sent and not yet taken, oldest first.
    pub pending: Seq<J>,
    /// Whether the sending side still exists.
    pub open: bool,
    /// Every job that was ever sent, in the order of sending.
    pub sent: Seq<J>,
    /// Every job that was ever taken, in the order of taking.
    pub received: Seq<J>,
}

impl<J> IntakeState<J> {
    /// A fresh intake: open, with nothing sent.
    pub open spec fn init() -> Self {
        IntakeState {
            pending: Seq::empty(),
            open: true,
            sent: Seq::empty(),
            received: Seq::empty(),
        }
    }

    /// No job is lost or duplicated, and jobs leave in the order in which they
    /// came: what was sent is what was taken, followed by what is queued.
    pub open spec fn conserved(self) -> bool {
        self.sent == self.received + self.pending
    }

    /// The state after `job` was sent.
    pub open spec fn send(self, job: J) -> Self {
        IntakeState { pending: self.pending.push(job), sent: self.sent.push(job), ..self }
    }

    /// The answer that an attempt to take a job gets in this state.
    pub open spec fn answer(self) -> Fetch<J> {
        if self.pending.len() > 0 {
            Fetch::Job(self.pending[0])
        } else if self.open {
            Fetch::Wait
        } else {
            Fetch::Closed
        }
    }

    /// The state after an attempt to take a job.
    pub open spec fn recv(self) -> Self {
        if self.pending.len() > 0 {
            IntakeState {
                pending: self.pending.drop_first(),
                received: self.received.push(self.pending[0]),
                ..self
            }
        } else {
            self
        }
    }

    /// The state after the sending side was dropped.
    pub open spec fn close(self) -> Self {
        IntakeState { open: false, ..self }
    }
}

/// Sending keeps the intake conserved.
pub proof fn lemma_send_conserves<J>(s: IntakeState<J>, job: J)
    requires
        s.conserved(),
    ensures
        s.send(job).conserved(),
{
}

/// Taking a job keeps the intake conserved.
pub proof fn lemma_recv_conserves<J>(s: IntakeState<J>)
    requires
        s.conserved(),
    ensures
        s.recv().conserved(),
{
    if s.pending.len() > 0 {
        assert(s.sent =~= s.received.push(s.pending[0]) + s.pending.drop_first());
    }
}

/// A queue of jobs with an open/closed flag, used by one thread at a time.
pub struct Intake<J> {
    queue: VecDeque<J>,
    open: bool,
    sent: Ghost<Seq<J>>,
    received: Ghost<Seq<J>>,
}

impl<J> View for Intake<J> {
    type V = IntakeState<J>;

    closed spec fn view(&self) -> IntakeState<J> {
        IntakeState {
            pending: self.queue@,
            open: self.open,
            sent: self.sent@,
            received: self.received@,
        }
    }
}

impl<J> Intake<J> {
    /// Creates an open intake with nothing queued.
    pub fn new() -> (intake: Self)
        ensures
            intake@ == IntakeState::<J>::init(),
    {
        Intake {
            queue: VecDeque::new(),
            open: true,
            sent: Ghost(Seq::empty()),
            received: Ghost(Seq::empty()),
        }
    }

    /// Whether jobs can still be sent.
    pub fn is_open(&self) -> (open: bool)
        ensures
            open == self@.open,
    {
        self.open
    }

    /// The number of jobs that wait to be taken.
    pub fn len(&self) -> (n: usize)
        ensures
            n == self@.pending.len(),
    {
        self.queue.len()
    }

    /// Queues `job` behind the jobs that are already waiting.
    pub fn send(&mut self, job: J)
        requires
            old(self)@.open,
        ensures
            final(self)@ == old(self)@.send(job),
    {
        self.queue.push_back(job);
        self.sent = Ghost(self.sent@.push(job));
    }

    /// Takes the oldest waiting job, if there is one; otherwise tells whether
    /// one may still come.
    pub fn recv(&mut self) -> (fetched: Fetch<J>)
        ensures
            fetched == old(self)@.answer(),
            final(self)@ == old(self)@.recv(),
    {
        match self.queue.pop_front() {
            Some(job) => {
                self.received = Ghost(self.received@.push(job));
                Fetch::Job(job)
            },
            None => {
                if self.open {
                    Fetch::Wait
                } else {
                    Fetch::Closed
                }
            },
        }
    }

    /// Drops the sending side. Closing a closed intake changes nothing.
    pub fn close(&mut self)
        ensures
            final(self)@ == old(self)@.close(),
    {
        self.open = false;
    }
}

} // verus!
