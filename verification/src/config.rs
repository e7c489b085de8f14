//! A pool's settings and the builder that collects them.

use vstd::prelude::*;
use std::time::Duration;

verus! {

/// Number of queue slots a pool gets unless it is told otherwise.
pub const DEFAULT_QUEUE_CAPACITY: usize = 65536;

/// Something a worker thread calls when it starts or when it leaves.
pub trait Hook: Send + Sync {
    /// Runs the hook.
    fn call(&self);
}

/// A closure without arguments, kept as a [`Hook`].
pub struct FnHook<F: Fn()> {
    f: F,
}

impl<F: Fn()> FnHook<F> {
    #[verifier::type_invariant]
    spec fn callable(self) -> bool {
        call_requires(self.f, ())
    }

    /// The closure that the hook runs.
    pub closed spec fn closure(self) -> F {
        self.f
    }

    /// Keeps `f` as a hook.
    pub fn new(f: F) -> (hook: Self)
        requires
            call_requires(f, ()),
        ensures
            hook.closure() == f,
    {
        FnHook { f }
    }
}

impl<F: Fn() + Send + Sync> Hook for FnHook<F> {
    fn call(&self) {
        proof {
            use_type_invariant(self);
        }
        (self.f)()
    }
}

/// The settings of one pool.
pub struct Config {
    /// Number of core workers the pool grows to while jobs arrive.
    pub size: usize,
    /// The most workers the pool may ever have; `None` stands for `size`.
    pub max_size: Option<usize>,
    /// Number of jobs the queue holds before a submission finds it full.
    pub queue_capacity: usize,
    /// How long a worker waits for a job before it counts as idle.
    pub timeout: Option<Duration>,
    /// Stack size of a worker thread, in bytes.
    pub stack_size: Option<usize>,
    /// Called on a worker's thread before its first job.
    pub mount: Option<Box<dyn Hook>>,
    /// Called on a worker's thread after its last job.
    pub unmount: Option<Box<dyn Hook>>,
}

impl Config {
    /// The most workers the pool may have: `max_size`, or `size` where no
    /// `max_size` was given.
    pub open spec fn spec_max_workers(&self) -> usize {
        match self.max_size {
            Some(m) => m,
            None => self.size,
        }
    }

    /// A pool can be built from these settings: it has at least one core
    /// worker and no more core workers than workers.
    pub open spec fn spec_is_valid(&self) -> bool {
        1 <= self.size <= self.spec_max_workers()
    }

    /// The bound on the worker count that applies to a new worker: one that
    /// starts with a job in hand may take the pool up to `max_size`, one that
    /// starts empty-handed only up to `size`.
    pub open spec fn spec_worker_limit(&self, attached: bool) -> usize {
        if attached {
            self.spec_max_workers()
        } else {
            self.size
        }
    }

    /// The most workers the pool may have.
    #[verifier::when_used_as_spec(spec_max_workers)]
    pub fn max_workers(&self) -> (m: usize)
        ensures
            m == self.spec_max_workers(),
    {
        match self.max_size {
            Some(m) => m,
            None => self.size,
        }
    }

    /// Whether a pool can be built from these settings.
    #[verifier::when_used_as_spec(spec_is_valid)]
    pub fn is_valid(&self) -> (ok: bool)
        ensures
            ok == self.spec_is_valid(),
    {
        1 <= self.size && self.size <= self.max_workers()
    }

    /// The bound on the worker count that applies to a new worker.
    #[verifier::when_used_as_spec(spec_worker_limit)]
    pub fn worker_limit(&self, attached: bool) -> (limit: usize)
        ensures
            limit == self.spec_worker_limit(attached),
    {
        if attached {
            self.max_workers()
        } else {
            self.size
        }
    }

    /// Runs the mount hook, if there is one. Tells whether one ran.
    pub fn run_mount(&self) -> (ran: bool)
        ensures
            ran == self.mount.is_some(),
    {
        match &self.mount {
            Some(hook) => {
                hook.call();
                true
            },
            None => false,
        }
    }

    /// Runs the unmount hook, if there is one. Tells whether one ran.
    pub fn run_unmount(&self) -> (ran: bool)
        ensures
            ran == self.unmount.is_some(),
    {
        match &self.unmount {
            Some(hook) => {
                hook.call();
                true
            },
            None => false,
        }
    }
}

/// Calls `num_cpus::get`, the number of logical CPUs that this process may
/// use. Its documentation promises a result of at least one.
#[verifier::external_body]
fn cpu_count() -> (n: usize)
    ensures
        n >= 1,
{
    num_cpus::get()
}

/// Collects the settings of a pool, one call at a time.
pub struct TPBuilder {
    instance: Config,
}

impl View for TPBuilder {
    type V = Config;

    /// The settings collected so far.
    closed spec fn view(&self) -> Config {
        self.instance
    }
}

impl TPBuilder {
    /// The settings collected so far.
    pub fn config(&self) -> (c: &Config)
        ensures
            *c == self@,
    {
        &self.instance
    }

    /// A builder with the defaults for a machine of `cpus` CPUs: one core
    /// worker per CPU and no worker beyond them, the default queue capacity,
    /// no timeout, no stack size and no hooks.
    pub fn with_cpus(cpus: usize) -> (b: TPBuilder)
        ensures
            b@.size == cpus,
            b@.max_size is None,
            b@.max_workers() == cpus,
            b@.queue_capacity == DEFAULT_QUEUE_CAPACITY,
            b@.timeout is None,
            b@.stack_size is None,
            b@.mount is None,
            b@.unmount is None,
            b@.is_valid() == (cpus >= 1),
    {
        TPBuilder {
            instance: Config {
                size: cpus,
                max_size: None,
                queue_capacity: DEFAULT_QUEUE_CAPACITY,
                timeout: None,
                stack_size: None,
                mount: None,
                unmount: None,
            },
        }
    }

    /// A builder with the defaults for this machine: what
    /// [`TPBuilder::with_cpus`] gives for the number of CPUs that the process
    /// may use, which is at least one.
    pub fn new() -> (b: TPBuilder)
        ensures
            b@.size >= 1,
            b@.max_size is None,
            b@.max_workers() == b@.size,
            b@.queue_capacity == DEFAULT_QUEUE_CAPACITY,
            b@.timeout is None,
            b@.stack_size is None,
            b@.mount is None,
            b@.unmount is None,
            b@.is_valid(),
    {
        Self::with_cpus(cpu_count())
    }

    /// Sets the number of core workers.
    pub fn size(self, val: usize) -> (b: Self)
        ensures
            b@ == (Config { size: val, ..self@ }),
    {
        let mut b = self;
        b.instance.size = val;
        b
    }

    /// Sets the most workers the pool may have.
    pub fn max_size(self, val: usize) -> (b: Self)
        ensures
            b@ == (Config { max_size: Some(val), ..self@ }),
    {
        let mut b = self;
        b.instance.max_size = Some(val);
        b
    }

    /// Sets the number of jobs the queue holds.
    pub fn queue_capacity(self, val: usize) -> (b: Self)
        ensures
            b@ == (Config { queue_capacity: val, ..self@ }),
    {
        let mut b = self;
        b.instance.queue_capacity = val;
        b
    }

    /// Sets how long a worker waits for a job before it counts as idle.
    pub fn timeout(self, val: Duration) -> (b: Self)
        ensures
            b@ == (Config { timeout: Some(val), ..self@ }),
    {
        let mut b = self;
        b.instance.timeout = Some(val);
        b
    }

    /// Sets the stack size of the worker threads, in bytes.
    pub fn stack_size(self, val: usize) -> (b: Self)
        ensures
            b@ == (Config { stack_size: Some(val), ..self@ }),
    {
        let mut b = self;
        b.instance.stack_size = Some(val);
        b
    }

    /// Sets the hook that each worker calls when its thread starts.
    pub fn mount<F>(self, f: F) -> (b: Self) where F: Fn() + Send + Sync + 'static
        requires
            call_requires(f, ()),
        ensures
            b@.mount is Some,
            b@ == (Config { mount: b@.mount, ..self@ }),
    {
        let mut b = self;
        b.instance.mount = Some(Box::new(FnHook::new(f)));
        b
    }

    /// Sets the hook that each worker calls when its thread is about to end.
    pub fn unmount<F>(self, f: F) -> (b: Self) where F: Fn() + Send + Sync + 'static
        requires
            call_requires(f, ()),
        ensures
            b@.unmount is Some,
            b@ == (Config { unmount: b@.unmount, ..self@ }),
    {
        let mut b = self;
        b.instance.unmount = Some(Box::new(FnHook::new(f)));
        b
    }

    /// Hands out the settings.
    pub fn into_config(self) -> (c: Config)
        ensures
            c == self@,
    {
        self.instance
    }
}

} // verus!
