//! The state word as a shared atomic, and the steps taken on it.

use vstd::prelude::*;
use std::sync::atomic::AtomicUsize;
use std::sync::atomic::Ordering;
use crate::lifecycle::Lifecycle;
use crate::state::{lemma_split, State, Transition, CAPACITY, UNIT};

verus! {

/// The pool's state word, shared by every handle and worker.
pub struct AtomicState {
    word: AtomicUsize,
}

/// What one step on the shared word saw and left behind.
#[derive(Clone, Copy, Debug, PartialEq, Eq, Structural)]
pub struct Step {
    /// The state the step was decided on.
    pub before: State,
    /// The state the word held once the step was over.
    pub after: State,
}

impl Step {
    /// The step is what `t` does to some state: `after` is `before` with `t`
    /// applied, or `before` itself where `t` does not apply.
    pub open spec fn follows(self, t: Transition) -> bool {
        self.after == self.before.settle(t)
    }

    /// The step wrote a new word.
    pub open spec fn spec_changed(self) -> bool {
        self.after != self.before
    }

    /// Whether the step wrote a new word.
    #[verifier::when_used_as_spec(spec_changed)]
    pub fn changed(self) -> (r: bool)
        ensures
            r == self.spec_changed(),
    {
        self.after.word != self.before.word
    }
}

/// Calls `AtomicUsize::fetch_update` with a function that takes one
/// [`State::step`] on the word it is shown. As std documents it, the call
/// returns the previous word, under `Ok` if the function gave a new word for
/// it (which was then stored) and under `Err` if it gave none.
#[verifier::external_body]
fn fetch_step(word: &AtomicUsize, t: Transition) -> (r: Result<usize, usize>)
    ensures
        r matches Ok(prev) ==> (State { word: prev }).after(t) is Some,
        r matches Err(prev) ==> (State { word: prev }).after(t) is None,
{
    word.fetch_update(Ordering::AcqRel, Ordering::Acquire, |w| next_word(w, t))
}

/// Calls `AtomicUsize::compare_exchange`, which stores `new` if the word is
/// `current`. As std documents it, the previous word comes back: under `Ok`,
/// where `new` was stored, it equals `current`; under `Err`, where nothing
/// was stored, it is the word that was found in place of `current`.
#[verifier::external_body]
fn exchange(word: &AtomicUsize, current: usize, new: usize) -> (r: Result<usize, usize>)
    ensures
        r matches Ok(prev) ==> prev == current,
        r matches Err(prev) ==> prev != current,
{
    word.compare_exchange(current, new, Ordering::AcqRel, Ordering::Acquire)
}

/// The word that `t` leads to from `w`, if `t` applies there.
pub fn next_word(w: usize, t: Transition) -> (r: Option<usize>)
    ensures
        r == match (State { word: w }).after(t) {
            Some(s) => Some(s.word),
            None => None,
        },
{
    match (State { word: w }).step(t) {
        Some(s) => Some(s.word),
        None => None,
    }
}

impl AtomicState {
    /// A state word that starts in `phase` with no worker.
    pub fn new(phase: Lifecycle) -> AtomicState {
        AtomicState { word: AtomicUsize::new(State::new(phase, 0).word) }
    }

    /// The state as it is now.
    pub fn load(&self) -> State {
        State { word: self.word.load(Ordering::Acquire) }
    }

    /// Whether the pool has yet to terminate, going by the state as it is
    /// now.
    pub fn is_pending(&self) -> bool {
        !self.load().is_terminated()
    }

    /// Takes the step `t` on the word, atomically: where `t` applies to the
    /// state found, the new state is stored. Reports the state found and the
    /// state left. A step that changed the word moved the phase to the
    /// target of `t` and the worker count by the delta of `t`.
    pub fn advance(&self, t: Transition) -> (s: Step)
        ensures
            s.follows(t),
            s.changed() == s.before.after(t).is_some(),
            s.before.well_formed() ==> s.after.well_formed(),
            s.changed() ==> {
                &&& s.after.well_formed()
                &&& s.after.lifecycle() == t.target(s.before.lifecycle())
                &&& s.after.worker_count() == s.before.worker_count() + t.delta()
            },
    {
        match fetch_step(&self.word, t) {
            Ok(prev) => {
                let before = State { word: prev };
                proof {
                    before.lemma_after(t);
                }
                match before.step(t) {
                    Some(after) => Step { before, after },
                    None => Step { before, after: before },
                }
            },
            Err(prev) => {
                let before = State { word: prev };
                Step { before, after: before }
            },
        }
    }

    /// Counts one more worker if the word still is `expected`: then `Ok` with
    /// the new state. Otherwise the word is left alone and `Err` carries the
    /// state that was found instead.
    pub fn compare_and_inc_worker_count(&self, expected: State) -> (r: Result<State, State>)
        requires
            expected.worker_count() < CAPACITY,
        ensures
            r matches Ok(next) ==> {
                &&& next.word == expected.word + 1
                &&& next.lifecycle() == expected.lifecycle()
                &&& next.worker_count() == expected.worker_count() + 1
            },
            r matches Err(seen) ==> seen != expected,
    {
        proof {
            let high = (expected.word / UNIT) as int;
            let low = (expected.word % UNIT) as int;
            lemma_split(high, low);
            lemma_split(high, low + 1);
        }
        match exchange(&self.word, expected.word, expected.word + 1) {
            Ok(_) => Ok(State { word: expected.word + 1 }),
            Err(seen) => Err(State { word: seen }),
        }
    }

    /// Counts one worker less, unless the count already is zero.
    pub fn dec_worker_count(&self) -> (s: Step)
        ensures
            s.follows(Transition::RemoveWorker),
            s.after.lifecycle() == s.before.lifecycle(),
            s.before.worker_count() > 0 ==> s.after.worker_count() == s.before.worker_count() - 1,
            s.before.worker_count() == 0 ==> s.after == s.before,
    {
        self.advance(Transition::RemoveWorker)
    }

    /// Moves a running pool to `Shutdown`. A pool that is already there or
    /// further is left as it is: either way the phase is `Shutdown` or later
    /// afterwards.
    pub fn try_transition_to_shutdown(&self) -> (s: Step)
        ensures
            s.follows(Transition::Shutdown),
            s.changed() == (s.before.lifecycle() == Lifecycle::Running),
            s.after.lifecycle().at_least(Lifecycle::Shutdown),
            s.after.lifecycle() == if s.before.lifecycle() == Lifecycle::Running {
                Lifecycle::Shutdown
            } else {
                s.before.lifecycle()
            },
            s.after.worker_count() == s.before.worker_count(),
    {
        self.advance(Transition::Shutdown)
    }

    /// Moves a pool that is running or shut down to `Stop`. A pool that is
    /// already there or further is left as it is: either way the phase is
    /// `Stop` or later afterwards.
    pub fn try_transition_to_stop(&self) -> (s: Step)
        ensures
            s.follows(Transition::Stop),
            s.changed() == !s.before.lifecycle().at_least(Lifecycle::Stop),
            s.after.lifecycle().at_least(Lifecycle::Stop),
            s.after.lifecycle() == if s.before.lifecycle().at_least(Lifecycle::Stop) {
                s.before.lifecycle()
            } else {
                Lifecycle::Stop
            },
            s.after.worker_count() == s.before.worker_count(),
    {
        self.advance(Transition::Stop)
    }

    /// Moves the pool to `Tidying` if it is in `Shutdown` or `Stop` and has
    /// no worker left; otherwise leaves it as it is. The step changed the
    /// word exactly if the move was made.
    pub fn try_transition_to_tidying(&self) -> (s: Step)
        ensures
            s.follows(Transition::Tidy),
            s.changed() == ((s.before.lifecycle() == Lifecycle::Shutdown || s.before.lifecycle()
                == Lifecycle::Stop) && s.before.worker_count() == 0),
            s.changed() ==> s.after.lifecycle() == Lifecycle::Tidying && s.after.worker_count()
                == 0,
    {
        self.advance(Transition::Tidy)
    }

    /// Sets the phase to `Terminated`, whatever it was, and leaves the
    /// worker count as it is. The pool calls this from `Tidying` only.
    pub fn transition_to_terminated(&self) -> (s: Step)
        ensures
            s.follows(Transition::Terminate),
            s.changed() == (s.before.lifecycle() != Lifecycle::Terminated),
            s.after.lifecycle() == Lifecycle::Terminated,
            s.after.worker_count() == s.before.worker_count(),
    {
        self.advance(Transition::Terminate)
    }
}

} // verus!
