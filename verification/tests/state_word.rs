use multix::atomic::{next_word, AtomicState, Step};
use multix::lifecycle::Lifecycle;
use multix::state::{State, Transition, CAPACITY, COUNT_BITS, UNIT};

const PHASES: [Lifecycle; 5] = [
    Lifecycle::Running,
    Lifecycle::Shutdown,
    Lifecycle::Stop,
    Lifecycle::Tidying,
    Lifecycle::Terminated,
];

fn plain(limit: usize) -> Transition {
    Transition::AddWorker { limit, attached: false, queue_empty: true }
}

fn attached(limit: usize, queue_empty: bool) -> Transition {
    Transition::AddWorker { limit, attached: true, queue_empty }
}

#[test]
fn layout_constants() {
    assert_eq!(COUNT_BITS, 29);
    assert_eq!(UNIT, 1usize << COUNT_BITS);
    assert_eq!(CAPACITY, UNIT - 1);
    assert_eq!(CAPACITY, 536_870_911);
}

#[test]
fn phases_are_ordered() {
    for (i, phase) in PHASES.iter().enumerate() {
        assert_eq!(phase.rank(), i);
        assert_eq!(Lifecycle::from_rank(i), *phase);
        for (j, other) in PHASES.iter().enumerate() {
            assert_eq!(phase.is_at_least(*other), i >= j);
        }
    }
}

#[test]
fn ranks_past_the_last_read_as_terminated() {
    assert_eq!(Lifecycle::from_rank(5), Lifecycle::Terminated);
    assert_eq!(Lifecycle::from_rank(7), Lifecycle::Terminated);
    assert_eq!(Lifecycle::from_rank(usize::MAX), Lifecycle::Terminated);
}

#[test]
fn word_holds_phase_and_count() {
    let s = State::new(Lifecycle::Shutdown, 5);
    assert_eq!(s.word, 536_870_912 + 5);
    assert_eq!(s.lifecycle(), Lifecycle::Shutdown);
    assert_eq!(s.worker_count(), 5);

    let top = State::new(Lifecycle::Terminated, CAPACITY);
    assert_eq!(top.word, 4 * 536_870_912 + 536_870_911);
    assert_eq!(top.lifecycle(), Lifecycle::Terminated);
    assert_eq!(top.worker_count(), CAPACITY);

    let zero = State::new(Lifecycle::Running, 0);
    assert_eq!(zero.word, 0);
}

#[test]
fn word_round_trips_for_every_phase() {
    for phase in PHASES.iter() {
        for count in [0usize, 1, 2, 1000, CAPACITY - 1, CAPACITY] {
            let s = State::new(*phase, count);
            assert_eq!(s.lifecycle(), *phase);
            assert_eq!(s.worker_count(), count);
        }
    }
}

#[test]
fn any_word_decodes() {
    let s = State { word: 6 * UNIT + 9 };
    assert_eq!(s.lifecycle(), Lifecycle::Terminated);
    assert_eq!(s.worker_count(), 9);
    assert!(s.is_terminated());
    assert!(s.is_stoped());
    assert!(!s.is_running());
}

#[test]
fn phase_predicates() {
    assert!(State::new(Lifecycle::Running, 3).is_running());
    assert!(!State::new(Lifecycle::Shutdown, 3).is_running());
    assert!(!State::new(Lifecycle::Running, 3).is_stoped());
    assert!(!State::new(Lifecycle::Shutdown, 3).is_stoped());
    assert!(State::new(Lifecycle::Stop, 3).is_stoped());
    assert!(State::new(Lifecycle::Tidying, 0).is_stoped());
    assert!(!State::new(Lifecycle::Tidying, 0).is_terminated());
    assert!(State::new(Lifecycle::Terminated, 0).is_terminated());
}

#[test]
fn add_worker_counts_up_below_the_limit() {
    let s = State::new(Lifecycle::Running, 2);
    assert_eq!(s.step(plain(3)), Some(State::new(Lifecycle::Running, 3)));
    assert_eq!(s.step(plain(2)), None);
    assert_eq!(s.step(plain(1)), None);
    assert_eq!(s.step(plain(0)), None);
}

#[test]
fn add_worker_stops_at_capacity() {
    let full = State::new(Lifecycle::Running, CAPACITY);
    assert_eq!(full.step(plain(usize::MAX)), None);
    let almost = State::new(Lifecycle::Running, CAPACITY - 1);
    assert_eq!(almost.step(plain(usize::MAX)), Some(full));
}

#[test]
fn add_worker_is_refused_from_stop_on() {
    for phase in [Lifecycle::Stop, Lifecycle::Tidying, Lifecycle::Terminated] {
        let s = State::new(phase, 0);
        assert_eq!(s.step(plain(4)), None);
        assert_eq!(s.step(attached(4, false)), None);
    }
}

#[test]
fn add_worker_during_shutdown() {
    let s = State::new(Lifecycle::Shutdown, 1);
    // a worker without a job may still join to drain the queue
    assert_eq!(s.step(plain(4)), Some(State::new(Lifecycle::Shutdown, 2)));
    // one with a job only while the queue holds something
    assert_eq!(s.step(attached(4, true)), None);
    assert_eq!(s.step(attached(4, false)), Some(State::new(Lifecycle::Shutdown, 2)));
}

#[test]
fn remove_worker_counts_down_to_zero() {
    let s = State::new(Lifecycle::Stop, 2);
    let one = s.step(Transition::RemoveWorker).unwrap();
    assert_eq!(one, State::new(Lifecycle::Stop, 1));
    let none = one.step(Transition::RemoveWorker).unwrap();
    assert_eq!(none, State::new(Lifecycle::Stop, 0));
    assert_eq!(none.step(Transition::RemoveWorker), None);
}

#[test]
fn shutdown_applies_to_running_only() {
    assert_eq!(
        State::new(Lifecycle::Running, 7).step(Transition::Shutdown),
        Some(State::new(Lifecycle::Shutdown, 7))
    );
    for phase in [Lifecycle::Shutdown, Lifecycle::Stop, Lifecycle::Tidying, Lifecycle::Terminated] {
        assert_eq!(State::new(phase, 0).step(Transition::Shutdown), None);
    }
}

#[test]
fn stop_applies_before_stop_only() {
    assert_eq!(
        State::new(Lifecycle::Running, 7).step(Transition::Stop),
        Some(State::new(Lifecycle::Stop, 7))
    );
    assert_eq!(
        State::new(Lifecycle::Shutdown, 7).step(Transition::Stop),
        Some(State::new(Lifecycle::Stop, 7))
    );
    for phase in [Lifecycle::Stop, Lifecycle::Tidying, Lifecycle::Terminated] {
        assert_eq!(State::new(phase, 0).step(Transition::Stop), None);
    }
}

#[test]
fn tidy_needs_shutdown_and_no_worker() {
    assert_eq!(
        State::new(Lifecycle::Shutdown, 0).step(Transition::Tidy),
        Some(State::new(Lifecycle::Tidying, 0))
    );
    assert_eq!(
        State::new(Lifecycle::Stop, 0).step(Transition::Tidy),
        Some(State::new(Lifecycle::Tidying, 0))
    );
    assert_eq!(State::new(Lifecycle::Shutdown, 1).step(Transition::Tidy), None);
    assert_eq!(State::new(Lifecycle::Stop, 1).step(Transition::Tidy), None);
    assert_eq!(State::new(Lifecycle::Running, 0).step(Transition::Tidy), None);
    assert_eq!(State::new(Lifecycle::Tidying, 0).step(Transition::Tidy), None);
    assert_eq!(State::new(Lifecycle::Terminated, 0).step(Transition::Tidy), None);
}

#[test]
fn terminate_applies_wherever_the_pool_is_not_terminated() {
    for phase in [Lifecycle::Running, Lifecycle::Shutdown, Lifecycle::Stop, Lifecycle::Tidying] {
        assert_eq!(
            State::new(phase, 0).step(Transition::Terminate),
            Some(State::new(Lifecycle::Terminated, 0))
        );
    }
    assert_eq!(
        State::new(Lifecycle::Stop, 3).step(Transition::Terminate),
        Some(State::new(Lifecycle::Terminated, 3))
    );
    assert_eq!(State::new(Lifecycle::Terminated, 0).step(Transition::Terminate), None);
    assert_eq!(State::new(Lifecycle::Terminated, 2).step(Transition::Terminate), None);
}

#[test]
fn next_word_follows_step() {
    assert_eq!(next_word(0, plain(1)), Some(1));
    assert_eq!(next_word(1, plain(1)), None);
    assert_eq!(next_word(3, Transition::Shutdown), Some(UNIT + 3));
    assert_eq!(next_word(UNIT, Transition::Tidy), Some(3 * UNIT));
    assert_eq!(next_word(3 * UNIT, Transition::Terminate), Some(4 * UNIT));
    assert_eq!(next_word(4 * UNIT, Transition::Terminate), None);
}

fn every_step() -> Vec<Transition> {
    vec![
        plain(2),
        attached(3, false),
        attached(3, true),
        Transition::RemoveWorker,
        Transition::Shutdown,
        Transition::Stop,
        Transition::Tidy,
        Transition::Terminate,
    ]
}

// The state after `t` was tried on `s` by a pool, which takes `Terminate`
// only from `Tidying`.
fn settle(s: State, t: Transition) -> State {
    if t == Transition::Terminate && s.lifecycle() != Lifecycle::Tidying {
        return s;
    }
    s.step(t).unwrap_or(s)
}

#[test]
fn worker_count_stays_within_max_size() {
    // every sequence of five steps of a pool with size 2 and max_size 3
    let steps = every_step();
    let n = steps.len();
    for code in 0..n.pow(5) {
        let mut s = State::new(Lifecycle::Running, 0);
        let mut c = code;
        for _ in 0..5 {
            s = settle(s, steps[c % n]);
            c /= n;
            assert!(s.worker_count() <= 3);
        }
    }
}

#[test]
fn phase_never_goes_back() {
    let steps = every_step();
    let n = steps.len();
    for code in 0..n.pow(5) {
        let mut s = State::new(Lifecycle::Running, 0);
        let mut c = code;
        for _ in 0..5 {
            let next = settle(s, steps[c % n]);
            assert!(next.lifecycle().is_at_least(s.lifecycle()));
            if next.lifecycle() == Lifecycle::Tidying && s.lifecycle() != Lifecycle::Tidying {
                assert_eq!(s.worker_count(), 0);
                assert!(s.lifecycle().is_at_least(Lifecycle::Shutdown));
            }
            if next.lifecycle().is_at_least(Lifecycle::Tidying) {
                assert_eq!(next.worker_count(), 0);
            }
            s = next;
            c /= n;
        }
    }
}

#[test]
fn terminated_is_final() {
    let done = State::new(Lifecycle::Terminated, 0);
    for t in every_step() {
        assert_eq!(done.step(t), None);
    }
}

#[test]
fn atomic_starts_without_workers() {
    let a = AtomicState::new(Lifecycle::Running);
    assert_eq!(a.load(), State::new(Lifecycle::Running, 0));
    assert!(a.is_pending());
    let b = AtomicState::new(Lifecycle::Stop);
    assert_eq!(b.load(), State::new(Lifecycle::Stop, 0));
}

#[test]
fn advance_stores_the_new_state() {
    let a = AtomicState::new(Lifecycle::Running);
    let s = a.advance(plain(1));
    assert_eq!(
        s,
        Step { before: State::new(Lifecycle::Running, 0), after: State::new(Lifecycle::Running, 1) }
    );
    assert!(s.changed());
    assert_eq!(a.load(), State::new(Lifecycle::Running, 1));

    let again = a.advance(plain(1));
    assert!(!again.changed());
    assert_eq!(again.before, State::new(Lifecycle::Running, 1));
    assert_eq!(again.after, again.before);
    assert_eq!(a.load(), State::new(Lifecycle::Running, 1));
}

#[test]
fn compare_and_inc_needs_the_expected_word() {
    let a = AtomicState::new(Lifecycle::Running);
    let seen = a.load();
    assert_eq!(a.compare_and_inc_worker_count(seen), Ok(State::new(Lifecycle::Running, 1)));
    assert_eq!(a.load(), State::new(Lifecycle::Running, 1));
    // the word moved on: the stale expectation fails and reports what is there
    assert_eq!(a.compare_and_inc_worker_count(seen), Err(State::new(Lifecycle::Running, 1)));
    assert_eq!(a.load(), State::new(Lifecycle::Running, 1));
}

#[test]
fn dec_worker_count_never_goes_below_zero() {
    let a = AtomicState::new(Lifecycle::Running);
    a.advance(plain(2));
    a.advance(plain(2));
    let s = a.dec_worker_count();
    assert_eq!(s.before.worker_count(), 2);
    assert_eq!(s.after.worker_count(), 1);
    a.dec_worker_count();
    let s = a.dec_worker_count();
    assert!(!s.changed());
    assert_eq!(a.load(), State::new(Lifecycle::Running, 0));
}

#[test]
fn pool_walks_through_every_phase() {
    let a = AtomicState::new(Lifecycle::Running);
    a.advance(plain(1));

    let s = a.try_transition_to_shutdown();
    assert!(s.changed());
    assert_eq!(a.load(), State::new(Lifecycle::Shutdown, 1));
    let s = a.try_transition_to_shutdown();
    assert!(!s.changed());
    assert_eq!(s.after.lifecycle(), Lifecycle::Shutdown);

    // a worker is left: no tidying yet
    assert!(!a.try_transition_to_tidying().changed());

    let s = a.try_transition_to_stop();
    assert!(s.changed());
    assert_eq!(a.load(), State::new(Lifecycle::Stop, 1));
    assert!(!a.try_transition_to_stop().changed());

    a.dec_worker_count();
    let s = a.try_transition_to_tidying();
    assert!(s.changed());
    assert_eq!(s.before, State::new(Lifecycle::Stop, 0));
    assert_eq!(a.load(), State::new(Lifecycle::Tidying, 0));
    // only one attempt makes the move
    assert!(!a.try_transition_to_tidying().changed());
    assert!(a.is_pending());

    let s = a.transition_to_terminated();
    assert!(s.changed());
    assert_eq!(a.load(), State::new(Lifecycle::Terminated, 0));
    assert!(!a.is_pending());

    // nothing moves a terminated pool
    assert!(!a.try_transition_to_shutdown().changed());
    assert!(!a.try_transition_to_stop().changed());
    assert!(!a.advance(plain(1)).changed());
    assert_eq!(a.load(), State::new(Lifecycle::Terminated, 0));
}
