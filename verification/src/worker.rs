//! One worker of a pool: what it does next, and how it leaves.
//!
//! The thread that carries a worker calls [`Worker::start`] once, then
//! [`Worker::poll`] until it answers [`Action::Exit`], running each job it is
//! handed, then [`Worker::stop`] and [`Worker::exit`] once.

use vstd::prelude::*;
use std::sync::Arc;
use crossbeam_channel::Receiver;
use crate::atomic::Step;
use crate::pool::{Departure, Inner};
use crate::queue::{take, take_timeout, Received};
use crate::state::{State, Transition};

verus! {

/// What a worker does next.
#[derive(Debug, PartialEq, Eq)]
pub enum Action<T> {
    /// Run this job, then ask again.
    Run(T),
    /// Nothing to run for now: ask again.
    Idle,
    /// Leave.
    Exit,
}

/// A worker that has been counted in the pool's state word. It holds the
/// receiving end of the queue, the pool's shared core, and the job it was
/// created for, if any.
#[verifier::reject_recursive_types(T)]
pub struct Worker<T> {
    rx: Receiver<T>,
    inner: Arc<Inner>,
    first_job: Option<T>,
    reserved: Step,
}

impl<T> Worker<T> {
    /// The job the worker starts with, until it has been handed out.
    pub closed spec fn first_job(&self) -> Option<T> {
        self.first_job
    }

    /// The pool's shared core.
    pub closed spec fn inner(&self) -> Inner {
        *self.inner
    }

    /// The step on the state word that counted this worker.
    pub closed spec fn reserved(&self) -> Step {
        self.reserved
    }

    /// What a worker does once the queue has answered `received`, the state
    /// word reads `now` and the pool has `size` core workers: it runs a job
    /// it got; it leaves when the queue is closed and empty; when nothing
    /// arrived in time it leaves if the pool has more than its core workers,
    /// and asks again otherwise.
    pub open spec fn decision(received: Received<T>, now: State, size: usize) -> Action<T> {
        match received {
            Received::Job(job) => Action::Run(job),
            Received::Timeout => if now.worker_count() > size {
                Action::Exit
            } else {
                Action::Idle
            },
            Received::Disconnected => Action::Exit,
        }
    }

    /// Computes [`Worker::decision`].
    pub fn decide(received: Received<T>, now: State, size: usize) -> (a: Action<T>)
        ensures
            a == Self::decision(received, now, size),
    {
        match received {
            Received::Job(job) => Action::Run(job),
            Received::Timeout => if now.worker_count() > size {
                Action::Exit
            } else {
                Action::Idle
            },
            Received::Disconnected => Action::Exit,
        }
    }

    /// A worker for the place that `reserved` took in the worker count.
    pub(crate) fn new(rx: Receiver<T>, inner: Arc<Inner>, first_job: Option<T>, reserved: Step) -> (w:
        Self)
        ensures
            w.first_job() == first_job,
            w.inner() == *inner,
            w.reserved() == reserved,
    {
        Worker { rx, inner, first_job, reserved }
    }

    /// Runs the pool's mount hook, if it has one. Tells whether one ran.
    pub fn start(&self) -> (ran: bool)
        ensures
            ran == self.inner().config.mount.is_some(),
    {
        self.inner.config.run_mount()
    }

    /// Runs the pool's unmount hook, if it has one. Tells whether one ran.
    pub fn stop(&self) -> (ran: bool)
        ensures
            ran == self.inner().config.unmount.is_some(),
    {
        self.inner.config.run_unmount()
    }

    /// Says what the worker does next. A worker that still holds the job it
    /// was created for runs that job, without a look at the queue or the
    /// state. Otherwise it leaves if the pool has been stopped; if not, it
    /// waits for the queue (for the configured timeout, or without limit
    /// where none is configured) and goes by [`Worker::decision`].
    pub fn poll(&mut self) -> (a: Action<T>)
        ensures
            final(self).inner() == old(self).inner(),
            final(self).reserved() == old(self).reserved(),
            final(self).first_job() is None,
            old(self).first_job() matches Some(job) ==> a == Action::Run(job),
            a is Idle ==> old(self).inner().config.timeout is Some,
    {
        match self.first_job.take() {
            Some(job) => Action::Run(job),
            None => {
                if self.inner.state.load().is_stoped() {
                    Action::Exit
                } else {
                    let received = match self.inner.config.timeout {
                        Some(timeout) => take_timeout(&self.rx, timeout),
                        None => take(&self.rx),
                    };
                    Self::decide(received, self.inner.state.load(), self.inner.config.size)
                }
            },
        }
    }

    /// Takes the worker out of the count. If that leaves a pool that has
    /// been shut down without any worker, tries to end the pool, and in no
    /// other case. Reports the step that took the worker out and the attempt
    /// to end the pool.
    pub fn exit(self) -> (gone: Departure)
        ensures
            gone.left.follows(Transition::RemoveWorker),
            gone.left.after.lifecycle() == gone.left.before.lifecycle(),
            gone.left.before.worker_count() > 0 ==> gone.left.after.worker_count()
                == gone.left.before.worker_count() - 1,
            gone.left.before.worker_count() == 0 ==> gone.left.after == gone.left.before,
            gone.ending.is_some() == Inner::last_out(gone.left),
            gone.ending matches Some(end) ==> end.well_formed(),
    {
        self.inner.retire()
    }

    /// Takes the worker out of the count as [`Worker::exit`] does, and hands
    /// back the job it was created for together with what the departure did.
    pub fn release(self) -> (r: (Option<T>, Departure))
        ensures
            r.0 == self.first_job(),
            r.1.left.follows(Transition::RemoveWorker),
            r.1.left.after.lifecycle() == r.1.left.before.lifecycle(),
            r.1.left.before.worker_count() > 0 ==> r.1.left.after.worker_count()
                == r.1.left.before.worker_count() - 1,
            r.1.left.before.worker_count() == 0 ==> r.1.left.after == r.1.left.before,
            r.1.ending.is_some() == Inner::last_out(r.1.left),
            r.1.ending matches Some(end) ==> end.well_formed(),
    {
        let gone = self.inner.retire();
        (self.first_job, gone)
    }

    /// Gives up a worker whose thread could not be started: rolls the count
    /// back by [`Worker::release`] and hands back the job the worker was
    /// created for.
    pub fn abandon(self) -> (job: Option<T>)
        ensures
            job == self.first_job(),
    {
        self.release().0
    }
}

} // verus!
