//! The pool: its shared core and the handle through which jobs are
//! submitted and the pool is shut down.

use vstd::prelude::*;
use std::sync::{Arc, Condvar, Mutex, MutexGuard};
use std::time::Duration;
use crossbeam_channel::Receiver;
use crate::atomic::{AtomicState, Step};
use crate::config::{Config, TPBuilder};
use crate::lifecycle::Lifecycle;
use crossbeam_channel::Sender;
use crate::queue::{
    channel, offer, poll, put, put_timeout, Intake, Received, SendError, SendTimeoutError,
    TrySendError, MAX_QUEUE_CAPACITY,
};
use crate::state::{State, Transition, CAPACITY};
use crate::worker::Worker;

verus! {

/// `std::sync::Condvar`, carried as an opaque value.
#[verifier::external_type_specification]
#[verifier::external_body]
pub struct ExCondvar(Condvar);

/// `std::sync::MutexGuard`, carried as an opaque value.
#[verifier::external_type_specification]
#[verifier::external_body]
#[verifier::reject_recursive_types(T)]
pub struct ExMutexGuard<'a, T: ?Sized + 'a>(MutexGuard<'a, T>);

/// `Condvar::new` makes a condition variable. Nothing is claimed of it.
pub assume_specification[ Condvar::new ]() -> (cv: Condvar);

/// `Condvar::notify_all` wakes the threads that wait on the condition
/// variable. Nothing is claimed of it.
pub assume_specification[ Condvar::notify_all ](cv: &Condvar);

/// `Mutex::new` makes an unlocked mutex around `t`. Nothing is claimed of it.
pub assume_specification<T>[ Mutex::<T>::new ](t: T) -> (m: Mutex<T>);

/// Calls `Arc::clone`, which gives another pointer to the same allocation:
/// both point to one value.
#[verifier::external_body]
fn share<T>(arc: &Arc<T>) -> (r: Arc<T>)
    ensures
        *r == **arc,
{
    Arc::clone(arc)
}

/// Calls `Mutex::lock`. A guard comes back also from a poisoned mutex.
#[verifier::external_body]
fn lock<'a>(m: &'a Mutex<()>) -> (guard: MutexGuard<'a, ()>) {
    match m.lock() {
        Ok(guard) => guard,
        Err(poisoned) => poisoned.into_inner(),
    }
}

/// Calls `Condvar::wait_while`, which gives up the guard's mutex and blocks
/// until a notification finds the pool terminated.
#[verifier::external_body]
fn wait_terminated<'a>(cv: &Condvar, guard: MutexGuard<'a, ()>, state: &AtomicState) {
    drop(cv.wait_while(guard, |_| state.is_pending()));
}

/// An attempt to end a pool.
#[derive(Clone, Copy, Debug, PartialEq, Eq)]
pub struct Ending {
    /// The attempt to move the pool to `Tidying`.
    pub tidy: Step,
    /// The move to `Terminated` that followed, where the pool was moved to
    /// `Tidying`.
    pub terminated: Option<Step>,
}

impl Ending {
    /// The two steps fit together: the first is an attempt at `Tidy`, which
    /// changes the word only on a pool in `Shutdown` or `Stop` with no
    /// worker; the second, the step `Terminate`, was made exactly if the
    /// first changed the word, and it left the pool in `Terminated`.
    pub open spec fn well_formed(self) -> bool {
        &&& self.tidy.follows(Transition::Tidy)
        &&& self.tidy.changed() == ((self.tidy.before.lifecycle() == Lifecycle::Shutdown
            || self.tidy.before.lifecycle() == Lifecycle::Stop)
            && self.tidy.before.worker_count() == 0)
        &&& self.tidy.changed() ==> self.tidy.after.lifecycle() == Lifecycle::Tidying
            && self.tidy.after.worker_count() == 0
        &&& self.terminated.is_some() == self.tidy.changed()
        &&& self.terminated matches Some(last) ==> last.follows(Transition::Terminate)
            && last.after.lifecycle() == Lifecycle::Terminated
            && last.after.worker_count() == last.before.worker_count()
    }

    /// The attempt ended the pool.
    pub open spec fn spec_ended(self) -> bool {
        self.tidy.changed()
    }

    /// Whether the attempt ended the pool.
    #[verifier::when_used_as_spec(spec_ended)]
    pub fn ended(self) -> (r: bool)
        ensures
            r == self.spec_ended(),
    {
        self.tidy.changed()
    }
}

/// What happened when a worker was taken out of a pool.
#[derive(Clone, Copy, Debug, PartialEq, Eq)]
pub struct Departure {
    /// The step that took the worker out of the count.
    pub left: Step,
    /// The attempt to end the pool, made where the worker left a pool that
    /// has been shut down without any worker.
    pub ending: Option<Ending>,
}

/// One attempt to count a worker: the step that was asked of the state
/// word, and what that step found and left.
#[derive(Clone, Copy, Debug, PartialEq, Eq)]
pub struct Attempt {
    /// The step that was asked.
    pub request: Transition,
    /// The state that the step found and the state that it left.
    pub step: Step,
}

impl Attempt {
    /// The attempt was made for a worker that starts with a job in hand.
    pub open spec fn spec_attached(self) -> bool {
        self.request matches Transition::AddWorker { attached, .. } && attached
    }

    /// The attempt counted a worker.
    pub open spec fn spec_granted(self) -> bool {
        self.step.changed()
    }

    /// The attempt is one of the pool `inner` for a worker with a job
    /// (`attached`) or without: it asked for one more worker under the bound
    /// that applies to such a worker, and the step it reports is that
    /// request applied to the state found. It counted a worker exactly if
    /// the request applies to that state.
    pub open spec fn made_for(self, inner: Inner, attached: bool) -> bool {
        &&& self.request matches Transition::AddWorker { limit, attached: with_job, .. }
            && limit == inner.config.worker_limit(attached) && with_job == attached
        &&& self.step.follows(self.request)
        &&& self.granted() == self.step.before.after(self.request).is_some()
        &&& self.granted() ==> inner.admits(self.step, attached)
    }

    /// Whether the attempt was made for a worker that starts with a job in
    /// hand.
    #[verifier::when_used_as_spec(spec_attached)]
    pub fn attached(self) -> (r: bool)
        ensures
            r == self.spec_attached(),
    {
        match self.request {
            Transition::AddWorker { attached, .. } => attached,
            _ => false,
        }
    }

    /// Whether the attempt counted a worker.
    #[verifier::when_used_as_spec(spec_granted)]
    pub fn granted(self) -> (r: bool)
        ensures
            r == self.spec_granted(),
    {
        self.step.changed()
    }
}

/// What every handle and every worker of one pool share.
pub struct Inner {
    /// The phase and the worker count.
    pub state: AtomicState,
    /// Held by a thread while it waits for the pool to terminate.
    pub termination_mutex: Mutex<()>,
    /// Notified once the pool has terminated.
    pub termination_signal: Condvar,
    /// The pool's settings.
    pub config: Config,
}

impl Inner {
    /// The shared core of a new pool: running, with no worker.
    pub fn new(config: Config) -> (inner: Inner)
        ensures
            inner.config == config,
    {
        Inner {
            state: AtomicState::new(Lifecycle::Running),
            termination_mutex: Mutex::new(()),
            termination_signal: Condvar::new(),
            config,
        }
    }

    /// Whether the pool has all its core workers when the state word reads
    /// `now`.
    pub open spec fn overflows(&self, now: State) -> bool {
        now.worker_count() >= self.config.size
    }

    /// The step `reserved` counted a new worker as the pool's rules allow:
    /// it found the pool neither stopped nor further, with fewer workers than
    /// the bound that applies to the worker and than the word can hold, and
    /// it left the phase as it was and the count one higher.
    pub open spec fn admits(&self, reserved: Step, attached: bool) -> bool {
        &&& !reserved.before.lifecycle().at_least(Lifecycle::Stop)
        &&& reserved.before.worker_count() < self.config.worker_limit(attached)
        &&& reserved.before.worker_count() < CAPACITY
        &&& reserved.after.lifecycle() == reserved.before.lifecycle()
        &&& reserved.after.worker_count() == reserved.before.worker_count() + 1
    }

    /// Computes [`Inner::overflows`].
    pub fn has_core_workers(&self, now: State) -> (r: bool)
        ensures
            r == self.overflows(now),
    {
        now.worker_count() >= self.config.size
    }

    /// Whether the pool has all its core workers, going by the state as it
    /// is now.
    pub fn is_workers_overflow(&self) -> bool {
        self.has_core_workers(self.state.load())
    }

    /// Tries to count one more worker, in one atomic step on the state word,
    /// and reports the attempt.
    ///
    /// A worker without a job is a core worker, bounded by `size`; one with
    /// a job is bounded by `max_size`. The count goes up exactly if the
    /// state found is not stopped, its count is below that bound and below
    /// `CAPACITY`, and, for a worker with a job in a pool that has been shut
    /// down, the queue was seen holding something. Then the worker comes
    /// back: it holds `job` and has yet to be given a thread. Otherwise the
    /// word is left as it was and `job` comes back.
    pub fn reserve<T>(arc: &Arc<Inner>, rx: &Receiver<T>, job: Option<T>) -> (r: (
        Result<Worker<T>, Option<T>>,
        Attempt,
    ))
        ensures
            r.1.made_for(**arc, job.is_some()),
            r.0.is_ok() == r.1.granted(),
            r.0 matches Ok(w) ==> w.first_job() == job && w.inner() == **arc && w.reserved()
                == r.1.step,
            r.0 matches Err(back) ==> back == job && r.1.step.after == r.1.step.before,
    {
        let attached = job.is_some();
        let request = Transition::AddWorker {
            limit: arc.config.worker_limit(attached),
            attached,
            queue_empty: rx.is_empty(),
        };
        let step = arc.state.advance(request);
        let attempt = Attempt { request, step };
        if step.changed() {
            (Ok(Worker::new(rx.clone(), share(arc), job, step)), attempt)
        } else {
            (Err(job), attempt)
        }
    }

    /// Tries to count one more worker as [`Inner::reserve`] does, and hands
    /// out the worker where that succeeds. Where it does not, `job` comes
    /// back.
    pub fn add_worker<T>(arc: &Arc<Inner>, rx: &Receiver<T>, job: Option<T>) -> (r: Result<
        Worker<T>,
        Option<T>,
    >)
        ensures
            match r {
                Ok(w) => {
                    &&& w.first_job() == job
                    &&& w.inner() == **arc
                    &&& arc.admits(w.reserved(), job.is_some())
                    &&& exists|seen_empty: bool|
                        w.reserved().follows(
                            #[trigger] arc.request(job.is_some(), seen_empty),
                        )
                },
                Err(back) => back == job,
            },
    {
        let (r, attempt) = Self::reserve(arc, rx, job);
        proof {
            assert(attempt.request == arc.request(job.is_some(), attempt.request->queue_empty));
        }
        r
    }

    /// The step that asks for one more worker, with or without a job in
    /// hand, where the queue was seen empty or not.
    pub open spec fn request(&self, attached: bool, seen_empty: bool) -> Transition {
        Transition::AddWorker {
            limit: self.config.worker_limit(attached),
            attached,
            queue_empty: seen_empty,
        }
    }

    /// A worker that left by the step `left` left behind a pool that has
    /// been shut down and has no worker: the pool is then to be ended.
    pub open spec fn last_out(left: Step) -> bool {
        left.after.worker_count() == 0 && left.after.lifecycle().at_least(Lifecycle::Shutdown)
    }

    /// Computes [`Inner::last_out`].
    pub fn is_last_out(left: Step) -> (r: bool)
        ensures
            r == Self::last_out(left),
    {
        left.after.worker_count() == 0 && left.after.lifecycle().is_at_least(Lifecycle::Shutdown)
    }

    /// Ends the pool once it is shut down and its last worker has left:
    /// tries to move it to `Tidying` and, if that move was made, moves it on
    /// to `Terminated` and wakes every thread that waits for that. Among
    /// concurrent calls one makes the move. Reports both steps: the pool was
    /// ended by this call exactly if the first changed the word, which it
    /// does only on a pool in `Shutdown` or `Stop` with no worker.
    pub fn finalize_instance(&self) -> (end: Ending)
        ensures
            end.well_formed(),
            end.ended() == ((end.tidy.before.lifecycle() == Lifecycle::Shutdown
                || end.tidy.before.lifecycle() == Lifecycle::Stop)
                && end.tidy.before.worker_count() == 0),
            end.ended() ==> (end.terminated matches Some(last) && last.after.lifecycle()
                == Lifecycle::Terminated),
    {
        let tidy = self.state.try_transition_to_tidying();
        if tidy.changed() {
            let last = self.state.transition_to_terminated();
            let _guard = lock(&self.termination_mutex);
            self.termination_signal.notify_all();
            Ending { tidy, terminated: Some(last) }
        } else {
            Ending { tidy, terminated: None }
        }
    }

    /// Takes one worker out of the count. If that leaves a pool that has
    /// been shut down without any worker, tries to end the pool, and in no
    /// other case. Reports the step that took the worker out and the attempt
    /// to end the pool.
    pub fn retire(&self) -> (gone: Departure)
        ensures
            gone.left.follows(Transition::RemoveWorker),
            gone.left.after.lifecycle() == gone.left.before.lifecycle(),
            gone.left.before.worker_count() > 0 ==> gone.left.after.worker_count()
                == gone.left.before.worker_count() - 1,
            gone.left.before.worker_count() == 0 ==> gone.left.after == gone.left.before,
            gone.ending.is_some() == Self::last_out(gone.left),
            gone.ending matches Some(end) ==> end.well_formed(),
    {
        let left = self.state.dec_worker_count();
        if Self::is_last_out(left) {
            Departure { left, ending: Some(self.finalize_instance()) }
        } else {
            Departure { left, ending: None }
        }
    }

    /// Blocks until the pool is terminated.
    pub fn await_termination(&self) {
        let guard = lock(&self.termination_mutex);
        wait_terminated(&self.termination_signal, guard, &self.state);
    }
}

/// A handle on a pool. Handles are cloned freely; all clones drive the same
/// pool.
///
/// A handle never starts a thread itself. Where a call finds that the pool
/// should grow, it counts the new worker and hands it out; the caller gives
/// the worker a thread, or gives it up with [`Worker::abandon`].
#[verifier::reject_recursive_types(T)]
pub struct ThreadPool<T> {
    inner: Arc<Inner>,
    /// The sending side of the queue.
    pub tx: Arc<Intake<T>>,
    rx: Receiver<T>,
}

impl TPBuilder {
    /// Builds the pool: a running pool with no worker and an empty queue of
    /// the configured capacity.
    pub fn build<T>(self) -> (pool: ThreadPool<T>)
        requires
            self@.is_valid(),
            self@.queue_capacity <= MAX_QUEUE_CAPACITY,
        ensures
            pool.config() == self@,
    {
        let config = self.into_config();
        let (tx, rx) = channel(config.queue_capacity);
        ThreadPool { inner: Arc::new(Inner::new(config)), tx: Arc::new(Intake::new(tx)), rx }
    }
}

impl<T> Clone for ThreadPool<T> {
    /// Another handle on the same pool.
    fn clone(&self) -> (other: Self)
        ensures
            other.inner() == self.inner(),
            other.intake() == self.intake(),
    {
        ThreadPool { inner: share(&self.inner), tx: share(&self.tx), rx: self.rx.clone() }
    }
}

impl<T> ThreadPool<T> {
    /// What the handle shares with the pool's other handles and workers.
    pub closed spec fn inner(&self) -> Inner {
        *self.inner
    }

    /// The sending side of the queue, which the handle shares with the
    /// pool's other handles.
    pub closed spec fn intake(&self) -> Intake<T> {
        *self.tx
    }

    /// The pool's settings.
    pub open spec fn config(&self) -> Config {
        self.inner().config
    }

    /// The pool's settings.
    pub fn settings(&self) -> (c: &Config)
        ensures
            *c == self.config(),
    {
        &self.inner.config
    }

    /// A pool of `size` core workers and no others, with the default queue.
    pub fn new(size: usize) -> (pool: ThreadPool<T>)
        requires
            size >= 1,
        ensures
            pool.config().size == size,
            pool.config().max_workers() == size,
            pool.config().queue_capacity == crate::config::DEFAULT_QUEUE_CAPACITY,
            pool.config().timeout is None,
            pool.config().stack_size is None,
            pool.config().mount is None,
            pool.config().unmount is None,
    {
        TPBuilder::new().size(size).build()
    }

    /// A pool like that of [`ThreadPool::new`] whose workers call `mount`
    /// when they start and `unmount` when they leave.
    pub fn new_with_hooks<U, M>(size: usize, mount: U, unmount: M) -> (pool: ThreadPool<T>) where
        U: Fn() + Send + Sync + 'static,
        M: Fn() + Send + Sync + 'static,

        requires
            size >= 1,
            call_requires(mount, ()),
            call_requires(unmount, ()),
        ensures
            pool.config().size == size,
            pool.config().max_workers() == size,
            pool.config().queue_capacity == crate::config::DEFAULT_QUEUE_CAPACITY,
            pool.config().timeout is None,
            pool.config().stack_size is None,
            pool.config().mount is Some,
            pool.config().unmount is Some,
    {
        TPBuilder::new().size(size).mount(mount).unmount(unmount).build()
    }

    /// A pool of one worker.
    pub fn single_thread() -> (pool: ThreadPool<T>)
        ensures
            pool.config().size == 1,
            pool.config().max_workers() == 1,
            pool.config().queue_capacity == crate::config::DEFAULT_QUEUE_CAPACITY,
            pool.config().timeout is None,
            pool.config().stack_size is None,
            pool.config().mount is None,
            pool.config().unmount is None,
    {
        TPBuilder::new().size(1).build()
    }

    /// `w` is the worker that the attempt `a` counted for this pool, and it
    /// holds `first`.
    pub open spec fn counted(&self, w: Worker<T>, a: Attempt, first: Option<T>) -> bool {
        &&& a.granted()
        &&& w.first_job() == first
        &&& w.inner() == self.inner()
        &&& w.reserved() == a.step
        &&& self.inner().admits(a.step, first is Some)
    }

    /// Tries to count a core worker and reports the attempt. The worker is
    /// counted and handed out exactly if the state found has fewer than
    /// `size` workers (and fewer than `CAPACITY`) and is not stopped.
    pub fn prestart_core_thread(&self) -> (r: (Option<Worker<T>>, Attempt))
        ensures
            r.1.made_for(self.inner(), false),
            r.0.is_some() == r.1.granted(),
            r.0 matches Some(w) ==> self.counted(w, r.1, None),
    {
        match Inner::reserve(&self.inner, &self.rx, None) {
            (Ok(w), attempt) => (Some(w), attempt),
            (Err(_), attempt) => (None, attempt),
        }
    }

    /// Counts core workers, one attempt after the other, until the pool
    /// refuses one or `size` of them have been counted by this call. Hands
    /// out the workers and reports every attempt, in order: each attempt
    /// but a refused last one counted the worker at its place.
    pub fn prestart_core_threads(&self) -> (r: (Vec<Worker<T>>, Vec<Attempt>))
        ensures
            r.0.len() <= self.config().size,
            r.1.len() == r.0.len() || r.1.len() == r.0.len() + 1,
            r.0.len() < self.config().size ==> r.1.len() == r.0.len() + 1,
            r.1.len() == r.0.len() + 1 ==> !r.1[r.0.len() as int].granted(),
            forall|i: int| 0 <= i < r.1.len() ==> (#[trigger] r.1[i]).made_for(self.inner(), false),
            forall|i: int| 0 <= i < r.0.len() ==> self.counted(#[trigger] r.0[i], r.1[i], None),
    {
        let mut started: Vec<Worker<T>> = Vec::new();
        let mut attempts: Vec<Attempt> = Vec::new();
        let size: usize = self.inner.config.size;
        while started.len() < size
            invariant_except_break
                attempts.len() == started.len(),
            invariant
                size == self.config().size,
                started.len() <= size,
                forall|i: int|
                    0 <= i < attempts.len() ==> (#[trigger] attempts[i]).made_for(
                        self.inner(),
                        false,
                    ),
                forall|i: int|
                    0 <= i < started.len() ==> i < attempts.len() && self.counted(
                        #[trigger] started[i],
                        attempts[i],
                        None,
                    ),
            ensures
                attempts.len() == started.len() || attempts.len() == started.len() + 1,
                started.len() < size ==> attempts.len() == started.len() + 1,
                attempts.len() == started.len() + 1 ==> !attempts[started.len() as int].granted(),
            decreases size - started.len(),
        {
            let (worker, attempt) = self.prestart_core_thread();
            attempts.push(attempt);
            match worker {
                Some(w) => {
                    started.push(w);
                },
                None => {
                    break ;
                },
            }
        }
        (started, attempts)
    }

    /// Whether the pool has all its core workers, going by the state as it
    /// is now.
    pub fn is_workers_overflow(&self) -> bool {
        self.inner.is_workers_overflow()
    }

    /// Whether the queue has been closed.
    pub fn is_disconnected(&self) -> bool {
        !self.tx.is_open()
    }

    /// Shuts the pool down in order: closes the queue to new jobs and moves
    /// a running pool to `Shutdown`. What is queued is still run, and the
    /// last worker to leave ends the pool. Reports the step on the phase: a
    /// running pool is left in `Shutdown`, any other in the phase it was in,
    /// and the worker count is not touched.
    pub fn close(&self) -> (shut: Step)
        ensures
            shut.follows(Transition::Shutdown),
            shut.changed() == (shut.before.lifecycle() == Lifecycle::Running),
            shut.after.lifecycle() == if shut.before.lifecycle() == Lifecycle::Running {
                Lifecycle::Shutdown
            } else {
                shut.before.lifecycle()
            },
            shut.after.lifecycle().at_least(shut.before.lifecycle()),
            shut.after.lifecycle().at_least(Lifecycle::Shutdown),
            shut.after.worker_count() == shut.before.worker_count(),
    {
        let _ = self.tx.close();
        self.inner.state.try_transition_to_shutdown()
    }

    /// Shuts the pool down by force: closes the queue to new jobs and moves
    /// the pool to `Stop`, so that workers take no further job. If this call
    /// made that move, it discards the jobs that it finds queued. The last
    /// worker to leave ends the pool. Reports the step on the phase: a pool
    /// before `Stop` is left in `Stop`, any other in the phase it was in, and
    /// the worker count is not touched.
    pub fn close_force(&self) -> (stopped: Step)
        ensures
            stopped.follows(Transition::Stop),
            stopped.changed() == !stopped.before.lifecycle().at_least(Lifecycle::Stop),
            stopped.after.lifecycle() == if stopped.before.lifecycle().at_least(
                Lifecycle::Stop,
            ) {
                stopped.before.lifecycle()
            } else {
                Lifecycle::Stop
            },
            stopped.after.lifecycle().at_least(stopped.before.lifecycle()),
            stopped.after.lifecycle().at_least(Lifecycle::Stop),
            stopped.after.worker_count() == stopped.before.worker_count(),
    {
        let _ = self.tx.close();
        let stopped = self.inner.state.try_transition_to_stop();
        if stopped.changed() {
            let _ = self.discard_queued();
        }
        stopped
    }

    /// Takes out of the queue, without waiting, as many jobs as the queue
    /// held when the call began, or fewer if it runs empty before, and drops
    /// them. Tells how many were dropped.
    fn discard_queued(&self) -> (dropped: usize) {
        let queued: usize = self.rx.len();
        let mut dropped: usize = 0;
        while dropped < queued
            invariant
                dropped <= queued,
            decreases queued - dropped,
        {
            match poll(&self.rx) {
                Received::Job(_) => {
                    dropped = dropped + 1;
                },
                _ => {
                    break ;
                },
            }
        }
        dropped
    }

    /// A pool is terminating when its queue has been closed and it has yet
    /// to reach `Terminated`.
    pub open spec fn terminating(closed: bool, now: State) -> bool {
        closed && now.lifecycle() != Lifecycle::Terminated
    }

    /// Computes [`ThreadPool::terminating`].
    pub fn is_terminating_at(closed: bool, now: State) -> (r: bool)
        ensures
            r == Self::terminating(closed, now),
    {
        closed && !now.is_terminated()
    }

    /// Whether the pool has been shut down and has yet to terminate, going
    /// by the queue and the state as they are now.
    pub fn is_terminating(&self) -> bool {
        Self::is_terminating_at(self.is_disconnected(), self.inner.state.load())
    }

    /// Whether the pool has terminated.
    pub fn is_terminated(&self) -> bool {
        self.inner.state.load().is_terminated()
    }

    /// Blocks until the pool has terminated.
    pub fn await_termination(&self) {
        self.inner.await_termination()
    }

    /// The number of workers the pool counts now.
    pub fn size(&self) -> (n: usize)
        ensures
            n <= CAPACITY,
    {
        self.inner.state.load().worker_count()
    }

    /// The number of jobs in the queue now.
    pub fn queued(&self) -> usize {
        self.rx.len()
    }

    /// `w` is a worker that this pool has just counted, under the pool's
    /// rules, and that holds nothing or `job`.
    pub open spec fn starts(&self, w: Worker<T>, job: T) -> bool {
        &&& w.first_job() is None || w.first_job() == Some(job)
        &&& w.inner() == self.inner()
        &&& self.inner().admits(w.reserved(), w.first_job() is Some)
    }

    /// The job was queued and the attempt `a` to count a core worker gave
    /// `started`: a worker exactly if `a` counted one, and then a worker
    /// that holds no job.
    pub open spec fn queued_with(&self, started: Option<Worker<T>>, a: Attempt) -> bool {
        &&& !a.attached()
        &&& a.made_for(self.inner(), false)
        &&& started.is_some() == a.granted()
        &&& started matches Some(w) ==> self.counted(w, a, None)
    }

    /// `result` is what submitting `job` without waiting comes to, given
    /// the attempt to count a worker that the submission made, if any.
    ///
    /// Without an attempt, the queue was closed and the job comes back as
    /// `Disconnected`. An attempt for a worker without a job says that the
    /// job was queued: the result is `Ok`, with the core worker if one was
    /// counted. An attempt for a worker with a job says that the queue was
    /// full: if the worker was counted it comes back holding the job, and
    /// if not the job comes back as `Full`.
    pub open spec fn tried(
        &self,
        job: T,
        result: Result<Option<Worker<T>>, TrySendError<T>>,
        attempt: Option<Attempt>,
    ) -> bool {
        match attempt {
            None => result == Err::<Option<Worker<T>>, _>(TrySendError::Disconnected(job)),
            Some(a) => if !a.attached() {
                result matches Ok(started) && self.queued_with(started, a)
            } else {
                &&& a.made_for(self.inner(), true)
                &&& if a.granted() {
                    result matches Ok(Some(w)) && self.counted(w, a, Some(job))
                } else {
                    result == Err::<Option<Worker<T>>, _>(TrySendError::Full(job))
                }
            },
        }
    }

    /// `result` is what submitting `job` comes to where the submitter waits
    /// for a free slot: as [`ThreadPool::tried`], but where the queue was
    /// full and no worker was counted, the job was handed to the queue to
    /// wait, and it is queued or comes back because the queue is closed.
    pub open spec fn sent(
        &self,
        job: T,
        result: Result<Option<Worker<T>>, SendError<T>>,
        attempt: Option<Attempt>,
    ) -> bool {
        match attempt {
            None => result == Err::<Option<Worker<T>>, _>(SendError(job)),
            Some(a) => if !a.attached() {
                result matches Ok(started) && self.queued_with(started, a)
            } else {
                &&& a.made_for(self.inner(), true)
                &&& if a.granted() {
                    result matches Ok(Some(w)) && self.counted(w, a, Some(job))
                } else {
                    ||| result == Ok::<Option<Worker<T>>, SendError<T>>(None)
                    ||| result == Err::<Option<Worker<T>>, _>(SendError(job))
                }
            },
        }
    }

    /// `result` is what submitting `job` comes to where the submitter waits
    /// a limited time for a free slot: as [`ThreadPool::sent`], but the wait
    /// may also end with the job coming back as `Timeout`.
    pub open spec fn sent_in_time(
        &self,
        job: T,
        result: Result<Option<Worker<T>>, SendTimeoutError<T>>,
        attempt: Option<Attempt>,
    ) -> bool {
        match attempt {
            None => result == Err::<Option<Worker<T>>, _>(SendTimeoutError::Disconnected(job)),
            Some(a) => if !a.attached() {
                result matches Ok(started) && self.queued_with(started, a)
            } else {
                &&& a.made_for(self.inner(), true)
                &&& if a.granted() {
                    result matches Ok(Some(w)) && self.counted(w, a, Some(job))
                } else {
                    ||| result == Ok::<Option<Worker<T>>, SendTimeoutError<T>>(None)
                    ||| result == Err::<Option<Worker<T>>, _>(SendTimeoutError::Timeout(job))
                    ||| result == Err::<Option<Worker<T>>, _>(
                        SendTimeoutError::Disconnected(job),
                    )
                }
            },
        }
    }

    /// What becomes of a job once the queue has answered the attempt to
    /// queue it without waiting.
    ///
    /// A job that was queued stays queued, and an attempt is made to count a
    /// core worker, which is handed out if it was counted. For a job that
    /// found the queue full an attempt is made to count a worker that holds
    /// it: the worker is handed out if it was counted, and else the job comes
    /// back as `Full`. A job that found the queue disconnected comes back as
    /// `Disconnected`, and no attempt is made.
    pub fn after_offer(&self, offered: Result<(), TrySendError<T>>) -> (r: (
        Result<Option<Worker<T>>, TrySendError<T>>,
        Option<Attempt>,
    ))
        ensures
            match offered {
                Ok(()) => r.1 matches Some(a) && !a.attached() && (r.0 matches Ok(started)
                    && self.queued_with(started, a)),
                Err(TrySendError::Full(job)) => r.1 matches Some(a) && a.attached() && self.tried(
                    job,
                    r.0,
                    r.1,
                ),
                Err(TrySendError::Disconnected(job)) => r.1 is None && self.tried(job, r.0, r.1),
            },
    {
        match offered {
            Ok(()) => {
                let (started, attempt) = self.prestart_core_thread();
                (Ok(started), Some(attempt))
            },
            Err(TrySendError::Disconnected(job)) => (Err(TrySendError::Disconnected(job)), None),
            Err(TrySendError::Full(job)) => match Inner::reserve(
                &self.inner,
                &self.rx,
                Some(job),
            ) {
                (Ok(w), attempt) => (Ok(Some(w)), Some(attempt)),
                (Err(back), attempt) => (Err(TrySendError::Full(back.unwrap())), Some(attempt)),
            },
        }
    }

    /// Submits a job without waiting, through the sender that the intake
    /// gave, if it gave one. Without a sender the queue is closed: the job
    /// comes back as `Disconnected` and nothing else is done. With one, the
    /// job is offered to the queue and [`ThreadPool::after_offer`] decides.
    pub fn try_send_through(&self, tx: Option<Sender<T>>, job: T) -> (r: (
        Result<Option<Worker<T>>, TrySendError<T>>,
        Option<Attempt>,
    ))
        ensures
            tx is None ==> r.0 == Err::<Option<Worker<T>>, _>(TrySendError::Disconnected(job))
                && r.1 is None,
            self.tried(job, r.0, r.1),
            match r.0 {
                Ok(started) => started matches Some(w) ==> self.starts(w, job),
                Err(e) => e.job() == job,
            },
    {
        match tx {
            Some(tx) => self.after_offer(offer(&tx, job)),
            None => (Err(TrySendError::Disconnected(job)), None),
        }
    }

    /// Submits a job without waiting, and reports the attempt to count a
    /// worker that the submission made, if any. On `Ok` the job is in the
    /// queue or in the hand of the worker that comes back; a worker that
    /// comes back has been counted and needs a thread. On `Err` the job
    /// comes back: as `Disconnected` if the queue is closed, as `Full` if it
    /// has no free slot and the pool cannot grow.
    pub fn try_send(&self, job: T) -> (r: (
        Result<Option<Worker<T>>, TrySendError<T>>,
        Option<Attempt>,
    ))
        ensures
            self.tried(job, r.0, r.1),
            match r.0 {
                Ok(started) => started matches Some(w) ==> self.starts(w, job),
                Err(e) => e.job() == job,
            },
    {
        self.try_send_through(self.tx.sender(), job)
    }

    /// What a submitter that waits does once the attempt without waiting
    /// is over: it is done, with the same workers, if the job was taken; it
    /// is done, with the job back, if the queue was found closed; and it
    /// goes on to wait with the job if the queue was full and the pool
    /// could not grow.
    pub fn after_try(tried: Result<Option<Worker<T>>, TrySendError<T>>) -> (next: Result<
        Result<Option<Worker<T>>, SendError<T>>,
        T,
    >)
        ensures
            match tried {
                Ok(started) => next == Ok::<_, T>(
                    Ok::<Option<Worker<T>>, SendError<T>>(started),
                ),
                Err(TrySendError::Disconnected(job)) => next == Ok::<_, T>(
                    Err::<Option<Worker<T>>, _>(SendError(job)),
                ),
                Err(TrySendError::Full(job)) => next == Err::<
                    Result<Option<Worker<T>>, SendError<T>>,
                    T,
                >(job),
            },
    {
        match tried {
            Ok(started) => Ok(Ok(started)),
            Err(TrySendError::Disconnected(job)) => Ok(Err(SendError(job))),
            Err(TrySendError::Full(job)) => Err(job),
        }
    }

    /// As [`ThreadPool::after_try`], for a submitter that waits a limited
    /// time.
    pub fn after_try_timeout(tried: Result<Option<Worker<T>>, TrySendError<T>>) -> (next: Result<
        Result<Option<Worker<T>>, SendTimeoutError<T>>,
        T,
    >)
        ensures
            match tried {
                Ok(started) => next == Ok::<_, T>(
                    Ok::<Option<Worker<T>>, SendTimeoutError<T>>(started),
                ),
                Err(TrySendError::Disconnected(job)) => next == Ok::<_, T>(
                    Err::<Option<Worker<T>>, _>(SendTimeoutError::Disconnected(job)),
                ),
                Err(TrySendError::Full(job)) => next == Err::<
                    Result<Option<Worker<T>>, SendTimeoutError<T>>,
                    T,
                >(job),
            },
    {
        match tried {
            Ok(started) => Ok(Ok(started)),
            Err(TrySendError::Disconnected(job)) => Ok(Err(SendTimeoutError::Disconnected(job))),
            Err(TrySendError::Full(job)) => Err(job),
        }
    }

    /// What a wait on the queue comes to: a job that was queued is accepted
    /// without a new worker, and a refusal is passed on as it is.
    pub fn after_wait<E>(waited: Result<(), E>) -> (r: Result<Option<Worker<T>>, E>)
        ensures
            match waited {
                Ok(()) => r == Ok::<Option<Worker<T>>, E>(None),
                Err(e) => r == Err::<Option<Worker<T>>, E>(e),
            },
    {
        match waited {
            Ok(()) => Ok(None),
            Err(e) => Err(e),
        }
    }

    /// Hands a job to the queue and waits for a free slot, without any
    /// attempt to count a worker. On `Err` the queue is closed and the job
    /// comes back.
    pub fn enqueue(&self, job: T) -> (r: Result<(), SendError<T>>)
        ensures
            r matches Err(e) ==> e.0 == job,
    {
        match self.tx.sender() {
            Some(tx) => put(&tx, job),
            None => Err(SendError(job)),
        }
    }

    /// Hands a job to the queue and waits at most `timeout` for a free slot,
    /// without any attempt to count a worker. On `Err` the job comes back:
    /// as `Disconnected` because the queue is closed, or as `Timeout`.
    pub fn enqueue_timeout(&self, job: T, timeout: Duration) -> (r: Result<
        (),
        SendTimeoutError<T>,
    >)
        ensures
            r matches Err(e) ==> e.job() == job,
    {
        match self.tx.sender() {
            Some(tx) => put_timeout(&tx, job, timeout),
            None => Err(SendTimeoutError::Disconnected(job)),
        }
    }

    /// Submits a job through the sender that the intake gave, if it gave
    /// one, waiting for a free slot where the queue is full and the pool
    /// cannot grow. Without a sender the queue is closed: the job comes back
    /// and nothing else is done.
    pub fn send_through(&self, tx: Option<Sender<T>>, job: T) -> (r: (
        Result<Option<Worker<T>>, SendError<T>>,
        Option<Attempt>,
    ))
        ensures
            tx is None ==> r.0 == Err::<Option<Worker<T>>, _>(SendError(job)) && r.1 is None,
            self.sent(job, r.0, r.1),
            match r.0 {
                Ok(started) => started matches Some(w) ==> self.starts(w, job),
                Err(e) => e.0 == job,
            },
    {
        match tx {
            Some(tx) => {
                let (tried, attempt) = self.after_offer(offer(&tx, job));
                match Self::after_try(tried) {
                    Ok(done) => (done, attempt),
                    Err(job) => (Self::after_wait(put(&tx, job)), attempt),
                }
            },
            None => (Err(SendError(job)), None),
        }
    }

    /// Submits a job, waiting for a free slot where the queue is full and
    /// the pool cannot grow, and reports the attempt to count a worker that
    /// the submission made, if any. On `Ok` the job is in the queue or in
    /// the hand of the worker that comes back. On `Err` the queue is closed
    /// and the job comes back.
    pub fn send(&self, job: T) -> (r: (Result<Option<Worker<T>>, SendError<T>>, Option<Attempt>))
        ensures
            self.sent(job, r.0, r.1),
            match r.0 {
                Ok(started) => started matches Some(w) ==> self.starts(w, job),
                Err(e) => e.0 == job,
            },
    {
        self.send_through(self.tx.sender(), job)
    }

    /// Submits a job through the sender that the intake gave, if it gave
    /// one, waiting at most `timeout` for a free slot where the queue is
    /// full and the pool cannot grow. Without a sender the queue is closed:
    /// the job comes back as `Disconnected` and nothing else is done.
    pub fn send_timeout_through(&self, tx: Option<Sender<T>>, job: T, timeout: Duration) -> (r: (
        Result<Option<Worker<T>>, SendTimeoutError<T>>,
        Option<Attempt>,
    ))
        ensures
            tx is None ==> r.0 == Err::<Option<Worker<T>>, _>(
                SendTimeoutError::Disconnected(job),
            ) && r.1 is None,
            self.sent_in_time(job, r.0, r.1),
            match r.0 {
                Ok(started) => started matches Some(w) ==> self.starts(w, job),
                Err(e) => e.job() == job,
            },
    {
        match tx {
            Some(tx) => {
                let (tried, attempt) = self.after_offer(offer(&tx, job));
                match Self::after_try_timeout(tried) {
                    Ok(done) => (done, attempt),
                    Err(job) => (Self::after_wait(put_timeout(&tx, job, timeout)), attempt),
                }
            },
            None => (Err(SendTimeoutError::Disconnected(job)), None),
        }
    }

    /// Submits a job, waiting at most `timeout` for a free slot where the
    /// queue is full and the pool cannot grow, and reports the attempt to
    /// count a worker that the submission made, if any. On `Ok` the job is
    /// in the queue or in the hand of the worker that comes back. On `Err`
    /// the job comes back: as `Disconnected` if the queue is closed, as
    /// `Timeout` if no slot came free in time.
    pub fn send_timeout(&self, job: T, timeout: Duration) -> (r: (
        Result<Option<Worker<T>>, SendTimeoutError<T>>,
        Option<Attempt>,
    ))
        ensures
            self.sent_in_time(job, r.0, r.1),
            match r.0 {
                Ok(started) => started matches Some(w) ==> self.starts(w, job),
                Err(e) => e.job() == job,
            },
    {
        self.send_timeout_through(self.tx.sender(), job, timeout)
    }
}

} // verus!
