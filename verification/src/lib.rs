//! A thread pool's coordination core: the packed lifecycle word, the rules by
//! which workers are added and retired, and the submission paths over a
//! bounded job queue.

pub mod lifecycle;
pub mod state;
pub mod atomic;
pub mod invariants;
pub mod config;
pub mod queue;
pub mod pool;
pub mod worker;
