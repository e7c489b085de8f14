//! The pool's state as one machine word: the phase in the high part, the
//! number of live workers in the low part, and the steps that change it.

use vstd::prelude::*;
use crate::lifecycle::Lifecycle;

verus! {

/// Number of low bits that hold the worker count.
pub const COUNT_BITS: usize = 29;

/// The value of the lowest phase bit: two to the power `COUNT_BITS`.
pub const UNIT: usize = 536870912;

/// The largest worker count the word can hold: `UNIT - 1`.
pub const CAPACITY: usize = 536870911;

/// One observation of the pool's state word.
///
/// Every word decodes: the low part is the worker count, the high part the
/// phase, and a high part past the last phase reads as `Terminated`.
#[derive(Clone, Copy, Debug, PartialEq, Eq, Structural)]
pub struct State {
    pub word: usize,
}

/// A step on the state word. [`State::after`] says when each applies and
/// what it yields.
#[derive(Clone, Copy, Debug, PartialEq, Eq, Structural)]
pub enum Transition {
    /// Count one more worker, if the pool may still grow. `limit` is the
    /// worker bound that applies to the request, `attached` says that the
    /// worker starts with a job in hand, and `queue_empty` is what the
    /// requester saw of the queue.
    AddWorker { limit: usize, attached: bool, queue_empty: bool },
    /// Count one worker less.
    RemoveWorker,
    /// Leave `Running` for `Shutdown`.
    Shutdown,
    /// Leave `Running` or `Shutdown` for `Stop`.
    Stop,
    /// Leave `Shutdown` or `Stop` for `Tidying`, once no worker is left.
    Tidy,
    /// Set the phase to `Terminated`, whatever it was. A pool takes this
    /// step only from `Tidying`.
    Terminate,
}

impl Transition {
    /// The phase that the step leads to from `from`, where it applies.
    pub open spec fn target(self, from: Lifecycle) -> Lifecycle {
        match self {
            Transition::AddWorker { .. } => from,
            Transition::RemoveWorker => from,
            Transition::Shutdown => Lifecycle::Shutdown,
            Transition::Stop => Lifecycle::Stop,
            Transition::Tidy => Lifecycle::Tidying,
            Transition::Terminate => Lifecycle::Terminated,
        }
    }

    /// What the step adds to the worker count, where it applies.
    pub open spec fn delta(self) -> int {
        match self {
            Transition::AddWorker { .. } => 1,
            Transition::RemoveWorker => -1,
            _ => 0,
        }
    }
}

impl State {
    /// The phase held in the word.
    pub open spec fn spec_lifecycle(self) -> Lifecycle {
        Lifecycle::of_ordinal((self.word / UNIT) as nat)
    }

    /// The worker count held in the word.
    pub open spec fn spec_worker_count(self) -> usize {
        (self.word % UNIT) as usize
    }

    /// The word is one that [`State::new`] builds: its high part names a phase.
    pub open spec fn well_formed(self) -> bool {
        self.word / UNIT <= 4
    }

    /// The word that holds `phase` and `count`.
    pub open spec fn pack(phase: Lifecycle, count: nat) -> State {
        State { word: (phase.ordinal() * UNIT + count) as usize }
    }

    /// The state with the given phase and worker count.
    pub fn new(phase: Lifecycle, count: usize) -> (s: State)
        requires
            count <= CAPACITY,
        ensures
            s == State::pack(phase, count as nat),
            s.spec_lifecycle() == phase,
            s.spec_worker_count() == count,
            s.well_formed(),
    {
        let r: usize = phase.rank();
        assert(r * UNIT + count <= 4 * UNIT + CAPACITY) by (nonlinear_arith)
            requires
                r <= 4,
                count <= CAPACITY,
        ;
        let word: usize = r * UNIT + count;
        proof {
            lemma_split(r as int, count as int);
        }
        State { word }
    }

    /// The phase held in the word.
    #[verifier::when_used_as_spec(spec_lifecycle)]
    pub fn lifecycle(self) -> (phase: Lifecycle)
        ensures
            phase == self.spec_lifecycle(),
    {
        Lifecycle::from_rank(self.word / UNIT)
    }

    /// The worker count held in the word.
    #[verifier::when_used_as_spec(spec_worker_count)]
    pub fn worker_count(self) -> (count: usize)
        ensures
            count == self.spec_worker_count(),
            count <= CAPACITY,
    {
        self.word % UNIT
    }

    /// Whether the pool still accepts jobs.
    pub fn is_running(self) -> (r: bool)
        ensures
            r == (self.spec_lifecycle() == Lifecycle::Running),
    {
        self.word / UNIT == 0
    }

    /// Whether workers have been told to stop pulling jobs.
    pub fn is_stoped(self) -> (r: bool)
        ensures
            r == self.spec_lifecycle().at_least(Lifecycle::Stop),
    {
        self.word / UNIT >= 2
    }

    /// Whether teardown is complete.
    pub fn is_terminated(self) -> (r: bool)
        ensures
            r == (self.spec_lifecycle() == Lifecycle::Terminated),
    {
        self.word / UNIT >= 4
    }

    /// The same worker count under another phase.
    pub open spec fn with_lifecycle(self, phase: Lifecycle) -> State {
        State::pack(phase, self.spec_worker_count() as nat)
    }

    /// What a step yields on this state: `Some` of the new state where the
    /// step applies, `None` where it leaves the word as it is.
    pub open spec fn after(self, t: Transition) -> Option<State> {
        let phase = self.spec_lifecycle();
        let count = self.spec_worker_count();
        match t {
            Transition::AddWorker { limit, attached, queue_empty } => {
                if phase.at_least(Lifecycle::Stop) {
                    None
                } else if phase == Lifecycle::Shutdown && attached && queue_empty {
                    None
                } else if count >= CAPACITY || count >= limit {
                    None
                } else {
                    Some(State::pack(phase, (count + 1) as nat))
                }
            },
            Transition::RemoveWorker => {
                if count == 0 {
                    None
                } else {
                    Some(State::pack(phase, (count - 1) as nat))
                }
            },
            Transition::Shutdown => {
                if phase == Lifecycle::Running {
                    Some(self.with_lifecycle(Lifecycle::Shutdown))
                } else {
                    None
                }
            },
            Transition::Stop => {
                if phase.at_least(Lifecycle::Stop) {
                    None
                } else {
                    Some(self.with_lifecycle(Lifecycle::Stop))
                }
            },
            Transition::Tidy => {
                if (phase == Lifecycle::Shutdown || phase == Lifecycle::Stop) && count == 0 {
                    Some(self.with_lifecycle(Lifecycle::Tidying))
                } else {
                    None
                }
            },
            Transition::Terminate => {
                if phase == Lifecycle::Terminated {
                    None
                } else {
                    Some(self.with_lifecycle(Lifecycle::Terminated))
                }
            },
        }
    }

    /// The state once the step was tried: the new state where it applies,
    /// the old one where it does not.
    pub open spec fn settle(self, t: Transition) -> State {
        match self.after(t) {
            Some(next) => next,
            None => self,
        }
    }

    /// Packing a phase and a count that fits gives a word that reads back as
    /// the two.
    pub proof fn lemma_pack(phase: Lifecycle, count: nat)
        requires
            count <= CAPACITY,
        ensures
            State::pack(phase, count).spec_lifecycle() == phase,
            State::pack(phase, count).spec_worker_count() == count,
            State::pack(phase, count).well_formed(),
    {
        lemma_split(phase.ordinal() as int, count as int);
        assert(phase.ordinal() * UNIT + count <= 4 * UNIT + CAPACITY) by (nonlinear_arith)
            requires
                phase.ordinal() <= 4,
                count <= CAPACITY,
        ;
    }

    /// What a step that applies does to the phase and to the worker count.
    pub proof fn lemma_after(self, t: Transition)
        requires
            self.after(t) is Some,
        ensures
            self.after(t).unwrap().well_formed(),
            self.after(t).unwrap().spec_lifecycle() == t.target(self.spec_lifecycle()),
            self.after(t).unwrap().spec_worker_count() == self.spec_worker_count() + t.delta(),
    {
        let phase = self.spec_lifecycle();
        let count = self.spec_worker_count() as nat;
        match t {
            Transition::AddWorker { .. } => State::lemma_pack(phase, count + 1),
            Transition::RemoveWorker => State::lemma_pack(phase, (count - 1) as nat),
            Transition::Shutdown => State::lemma_pack(Lifecycle::Shutdown, count),
            Transition::Stop => State::lemma_pack(Lifecycle::Stop, count),
            Transition::Tidy => State::lemma_pack(Lifecycle::Tidying, count),
            Transition::Terminate => State::lemma_pack(Lifecycle::Terminated, count),
        }
    }

    /// Computes [`State::after`].
    pub fn step(self, t: Transition) -> (next: Option<State>)
        ensures
            next == self.after(t),
            next matches Some(s) ==> s.well_formed() && s != self,
    {
        let phase = self.lifecycle();
        let count: usize = self.worker_count();
        proof {
            lemma_split((self.word / UNIT) as int, count as int);
        }
        match t {
            Transition::AddWorker { limit, attached, queue_empty } => {
                if phase.is_at_least(Lifecycle::Stop) {
                    None
                } else if phase.rank() == 1 && attached && queue_empty {
                    None
                } else if count >= CAPACITY || count >= limit {
                    None
                } else {
                    Some(State::new(phase, count + 1))
                }
            },
            Transition::RemoveWorker => {
                if count == 0 {
                    None
                } else {
                    Some(State::new(phase, count - 1))
                }
            },
            Transition::Shutdown => {
                if phase.rank() == 0 {
                    Some(State::new(Lifecycle::Shutdown, count))
                } else {
                    None
                }
            },
            Transition::Stop => {
                if phase.is_at_least(Lifecycle::Stop) {
                    None
                } else {
                    Some(State::new(Lifecycle::Stop, count))
                }
            },
            Transition::Tidy => {
                let r: usize = phase.rank();
                if (r == 1 || r == 2) && count == 0 {
                    Some(State::new(Lifecycle::Tidying, count))
                } else {
                    None
                }
            },
            Transition::Terminate => {
                if phase.rank() == 4 {
                    None
                } else {
                    Some(State::new(Lifecycle::Terminated, count))
                }
            },
        }
    }
}

/// A word built from a phase position and a count below `UNIT` splits back
/// into the two.
pub proof fn lemma_split(high: int, low: int)
    requires
        0 <= high,
        0 <= low < UNIT,
    ensures
        (high * UNIT + low) / (UNIT as int) == high,
        (high * UNIT + low) % (UNIT as int) == low,
{
    vstd::arithmetic::div_mod::lemma_fundamental_div_mod_converse(
        high * UNIT + low,
        UNIT as int,
        high,
        low,
    );
}

} // verus!
