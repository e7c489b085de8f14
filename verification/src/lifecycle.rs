//! The five phases a pool passes through, in order.

use vstd::prelude::*;

verus! {

/// A pool's phase. The phases are totally ordered by [`Lifecycle::ordinal`],
/// and a pool only ever moves to a later one.
#[derive(Clone, Copy, Debug, PartialEq, Eq, Structural)]
pub enum Lifecycle {
    /// New jobs are accepted and workers process the queue.
    Running,
    /// The queue is closed to new jobs; workers drain what is left.
    Shutdown,
    /// Workers stop pulling; what is still queued is discarded.
    Stop,
    /// The last worker has left and teardown is in progress.
    Tidying,
    /// Teardown is done and every waiter is released.
    Terminated,
}

impl Lifecycle {
    /// The position of the phase in the order `Running < Shutdown < Stop <
    /// Tidying < Terminated`, counted from zero.
    pub open spec fn ordinal(self) -> nat {
        match self {
            Lifecycle::Running => 0,
            Lifecycle::Shutdown => 1,
            Lifecycle::Stop => 2,
            Lifecycle::Tidying => 3,
            Lifecycle::Terminated => 4,
        }
    }

    /// The phase at a position. Every position past the last one reads as
    /// `Terminated`, so that any machine word decodes to some phase.
    pub open spec fn of_ordinal(n: nat) -> Lifecycle {
        if n == 0 {
            Lifecycle::Running
        } else if n == 1 {
            Lifecycle::Shutdown
        } else if n == 2 {
            Lifecycle::Stop
        } else if n == 3 {
            Lifecycle::Tidying
        } else {
            Lifecycle::Terminated
        }
    }

    /// `self` comes no earlier than `other` in the order of phases.
    pub open spec fn at_least(self, other: Lifecycle) -> bool {
        self.ordinal() >= other.ordinal()
    }

    /// The position of the phase, as a machine integer.
    pub fn rank(self) -> (r: usize)
        ensures
            r == self.ordinal(),
            r <= 4,
    {
        match self {
            Lifecycle::Running => 0,
            Lifecycle::Shutdown => 1,
            Lifecycle::Stop => 2,
            Lifecycle::Tidying => 3,
            Lifecycle::Terminated => 4,
        }
    }

    /// The phase at position `r`; see [`Lifecycle::of_ordinal`].
    pub fn from_rank(r: usize) -> (phase: Lifecycle)
        ensures
            phase == Lifecycle::of_ordinal(r as nat),
    {
        if r == 0 {
            Lifecycle::Running
        } else if r == 1 {
            Lifecycle::Shutdown
        } else if r == 2 {
            Lifecycle::Stop
        } else if r == 3 {
            Lifecycle::Tidying
        } else {
            Lifecycle::Terminated
        }
    }

    /// Whether `self` comes no earlier than `other`.
    pub fn is_at_least(self, other: Lifecycle) -> (r: bool)
        ensures
            r == self.at_least(other),
    {
        self.rank() >= other.rank()
    }

    /// Reading a phase's position back gives the phase.
    pub proof fn lemma_ordinal_round_trip(self)
        ensures
            Lifecycle::of_ordinal(self.ordinal()) == self,
    {
    }
}

} // verus!
