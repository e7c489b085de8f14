//! What holds of the state word however the steps of handles and workers
//! interleave. Every change to the word is one atomic [`Transition`], so an
//! interleaving is a sequence of them, applied in the order in which they
//! reached the word.

use vstd::prelude::*;
use crate::atomic::Step;
use crate::lifecycle::Lifecycle;
use crate::pool::{Attempt, Inner};
use crate::state::{State, Transition, CAPACITY};

verus! {

/// The step is one that a pool with `size` core workers and at most
/// `max_size` workers takes: a worker that starts with a job in hand is
/// bounded by `max_size`, one that starts empty-handed by `size`.
pub open spec fn issued(t: Transition, size: usize, max_size: usize) -> bool {
    match t {
        Transition::AddWorker { limit, attached, .. } => limit == if attached {
            max_size
        } else {
            size
        },
        _ => true,
    }
}

/// The state after the steps were tried one after the other on `s`.
pub open spec fn run(s: State, steps: Seq<Transition>) -> State
    decreases steps.len(),
{
    if steps.len() == 0 {
        s
    } else {
        run(s.settle(steps[0]), steps.skip(1))
    }
}

/// From `Tidying` on, no worker is left.
pub open spec fn tidy(s: State) -> bool {
    s.spec_lifecycle().at_least(Lifecycle::Tidying) ==> s.spec_worker_count() == 0
}

/// One step of a pool keeps the worker count within `max_size` and within
/// what the word can hold.
pub proof fn lemma_step_keeps_bound(s: State, t: Transition, size: usize, max_size: usize)
    requires
        size <= max_size,
        issued(t, size, max_size),
        s.spec_worker_count() <= max_size,
    ensures
        0 <= s.settle(t).spec_worker_count() <= max_size,
        s.settle(t).spec_worker_count() <= CAPACITY,
{
    if s.after(t) is Some {
        s.lemma_after(t);
    }
}

/// The worker count never leaves the range from zero to the smaller of
/// `max_size` and `CAPACITY`, whatever steps the pool takes and in whatever
/// order.
pub proof fn lemma_worker_count_bounded(
    s: State,
    steps: Seq<Transition>,
    size: usize,
    max_size: usize,
)
    requires
        size <= max_size,
        forall|i: int| 0 <= i < steps.len() ==> issued(#[trigger] steps[i], size, max_size),
        s.spec_worker_count() <= max_size,
    ensures
        0 <= run(s, steps).spec_worker_count() <= max_size,
        run(s, steps).spec_worker_count() <= CAPACITY,
    decreases steps.len(),
{
    if steps.len() > 0 {
        lemma_step_keeps_bound(s, steps[0], size, max_size);
        let rest = steps.skip(1);
        assert forall|i: int| 0 <= i < rest.len() implies issued(
            #[trigger] rest[i],
            size,
            max_size,
        ) by {
            assert(rest[i] == steps[i + 1]);
        }
        lemma_worker_count_bounded(s.settle(steps[0]), rest, size, max_size);
    }
}

/// One step never takes the pool to an earlier phase.
pub proof fn lemma_step_monotonic(s: State, t: Transition)
    ensures
        s.settle(t).spec_lifecycle().at_least(s.spec_lifecycle()),
{
    if s.after(t) is Some {
        s.lemma_after(t);
    }
}

/// The phase only moves forward: after any steps the pool is in the phase
/// it started in or in a later one.
pub proof fn lemma_lifecycle_monotonic(s: State, steps: Seq<Transition>)
    ensures
        run(s, steps).spec_lifecycle().at_least(s.spec_lifecycle()),
    decreases steps.len(),
{
    if steps.len() > 0 {
        lemma_step_monotonic(s, steps[0]);
        lemma_lifecycle_monotonic(s.settle(steps[0]), steps.skip(1));
    }
}

/// `Terminated` is final: no steps take a terminated pool to another phase,
/// and a terminated pool without workers never changes at all.
pub proof fn lemma_terminated_absorbing(s: State, steps: Seq<Transition>)
    requires
        s.spec_lifecycle() == Lifecycle::Terminated,
    ensures
        run(s, steps).spec_lifecycle() == Lifecycle::Terminated,
        s.spec_worker_count() == 0 ==> run(s, steps) == s,
    decreases steps.len(),
{
    lemma_lifecycle_monotonic(s, steps);
    if steps.len() > 0 {
        lemma_step_monotonic(s, steps[0]);
        lemma_terminated_absorbing(s.settle(steps[0]), steps.skip(1));
    }
}

/// A step that brings the pool into `Tidying` is the `Tidy` step, and it
/// found the pool in `Shutdown` or `Stop` with no worker left.
pub proof fn lemma_tidying_entry(s: State, t: Transition)
    requires
        s.spec_lifecycle() != Lifecycle::Tidying,
        s.settle(t).spec_lifecycle() == Lifecycle::Tidying,
    ensures
        t == Transition::Tidy,
        s.spec_worker_count() == 0,
        s.spec_lifecycle().at_least(Lifecycle::Shutdown),
        s.spec_lifecycle() == Lifecycle::Shutdown || s.spec_lifecycle() == Lifecycle::Stop,
{
    if s.after(t) is Some {
        s.lemma_after(t);
    }
}

/// Every `Terminate` among the steps is taken on a pool in `Tidying`, as it
/// is by a pool that ends itself: the thread whose `Tidy` step moved the
/// pool to `Tidying` takes `Terminate` next, and by
/// [`lemma_tidying_is_quiet`] no other step changes the word in between.
pub open spec fn orderly(s: State, steps: Seq<Transition>) -> bool
    decreases steps.len(),
{
    steps.len() == 0 || {
        &&& steps[0] == Transition::Terminate ==> s.spec_lifecycle() == Lifecycle::Tidying
        &&& orderly(s.settle(steps[0]), steps.skip(1))
    }
}

/// A pool in `Tidying` without workers is changed by no step but
/// `Terminate`.
pub proof fn lemma_tidying_is_quiet(s: State, t: Transition)
    requires
        s.spec_lifecycle() == Lifecycle::Tidying,
        s.spec_worker_count() == 0,
        t != Transition::Terminate,
    ensures
        s.after(t) is None,
        s.settle(t) == s,
{
}

/// A pool reaches `Tidying` only through a state in `Shutdown` or `Stop`
/// with no worker, and from then on it has none: after any steps in which
/// `Terminate` follows `Tidy`, a pool in `Tidying` or `Terminated` has a
/// worker count of zero.
pub proof fn lemma_tidying_without_workers(s: State, steps: Seq<Transition>)
    requires
        tidy(s),
        orderly(s, steps),
    ensures
        tidy(run(s, steps)),
    decreases steps.len(),
{
    if steps.len() > 0 {
        let t = steps[0];
        if s.after(t) is Some {
            s.lemma_after(t);
        }
        lemma_tidying_without_workers(s.settle(t), steps.skip(1));
    }
}

/// The step by which a pool asks for one more worker is one of the steps
/// that the laws above speak of.
pub proof fn lemma_request_is_issued(inner: Inner, attached: bool, seen_empty: bool)
    ensures
        issued(
            inner.request(attached, seen_empty),
            inner.config.size,
            inner.config.spec_max_workers(),
        ),
{
}

/// A worker is only ever counted within the pool's bounds: the count that
/// includes it is at most `size` for a worker that starts empty-handed, and
/// at most `max_size` and `CAPACITY` for any worker.
pub proof fn lemma_admitted_within_bounds(inner: Inner, reserved: Step, attached: bool)
    requires
        inner.config.spec_is_valid(),
        inner.admits(reserved, attached),
    ensures
        1 <= reserved.after.spec_worker_count() <= inner.config.spec_max_workers(),
        reserved.after.spec_worker_count() <= CAPACITY,
        !attached ==> reserved.after.spec_worker_count() <= inner.config.size,
{
}

/// When a pool grants one more worker, in terms of the state found: a
/// worker without a job is counted exactly if the pool is not stopped and
/// has fewer than `size` workers; a worker with a job exactly if the pool is
/// not stopped, has fewer than `max_size` workers and, where it has been
/// shut down, the queue was seen holding something. In both cases the count
/// must be below `CAPACITY`.
pub proof fn lemma_request_applies(inner: Inner, now: State, attached: bool, seen_empty: bool)
    ensures
        now.after(inner.request(attached, seen_empty)).is_some() == {
            &&& !now.spec_lifecycle().at_least(Lifecycle::Stop)
            &&& attached ==> !(now.spec_lifecycle() == Lifecycle::Shutdown && seen_empty)
            &&& now.spec_worker_count() < inner.config.spec_worker_limit(attached)
            &&& now.spec_worker_count() < CAPACITY
        },
{
}

/// Every attempt that a pool reports asked for a step of the kind that the
/// laws above speak of, and where it counted a worker, the count that
/// includes the worker is within the pool's bounds.
pub proof fn lemma_attempt_within_bounds(inner: Inner, a: Attempt, attached: bool)
    requires
        inner.config.spec_is_valid(),
        a.made_for(inner, attached),
    ensures
        issued(a.request, inner.config.size, inner.config.spec_max_workers()),
        a.spec_granted() ==> 1 <= a.step.after.spec_worker_count()
            <= inner.config.spec_max_workers(),
        !a.spec_granted() ==> a.step.after == a.step.before,
{
}

} // verus!
