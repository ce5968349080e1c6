//! The benchmark configuration: target, duration, and worker count.

use vstd::prelude::*;

verus! {

/// Nanoseconds per second, used to convert the configured duration into the
/// resolution of elapsed-time readings.
pub const NANOS_PER_SEC: u128 = 1_000_000_000;

/// The immutable run configuration, shared read-only by every worker.
///
/// The target is carried as plain text; the library never interprets it.
/// Validation of the target as a URL, like the transport itself, is the
/// caller's concern.
#[derive(Clone, Debug)]
pub struct Config {
    /// Where probes are sent, as the caller supplied it.
    pub target: String,
    /// Wall-clock budget of each worker's probe loop, in whole seconds.
    pub duration_secs: u64,
    /// How many concurrent workers the run uses.
    pub worker_count: usize,
}

impl Config {
    /// A configuration is well formed when it names at least one worker.
    pub open spec fn wf(self) -> bool {
        self.worker_count >= 1
    }

    /// The duration expressed in nanoseconds.
    pub open spec fn budget_nanos(self) -> int {
        self.duration_secs * (NANOS_PER_SEC as int)
    }

    pub fn new(target: String, duration_secs: u64, worker_count: usize) -> (c: Config)
        requires
            worker_count >= 1,
        ensures
            c.wf(),
            c.target == target,
            c.duration_secs == duration_secs,
            c.worker_count == worker_count,
    {
        Config { target, duration_secs, worker_count }
    }

    /// The loop-top decision of a worker: keep probing exactly while the
    /// elapsed wall-clock time is still below the configured budget.
    pub fn within_budget(&self, elapsed_nanos: u128) -> (r: bool)
        ensures
            r <==> (elapsed_nanos as int) < self.budget_nanos(),
    {
        elapsed_nanos < (self.duration_secs as u128) * NANOS_PER_SEC
    }
}

} // verus!
