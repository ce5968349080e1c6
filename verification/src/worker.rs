//! One worker's probe loop: time-bounded counting of probe outcomes.

use vstd::prelude::*;

use crate::config::Config;
use crate::outcome::ProbeOutcome;

verus! {

/// What one worker hands back when its time budget runs out: how many probes
/// it issued and how many of them came to any kind of failure.
#[derive(Clone, Copy, Debug, PartialEq, Eq, Structural)]
pub struct WorkerResult {
    pub request_count: u64,
    pub unsuccessful_count: u64,
}

impl WorkerResult {
    /// A result never counts more failures than probes.
    pub open spec fn wf(self) -> bool {
        self.unsuccessful_count <= self.request_count
    }

    /// Fresh counters, before any probe.
    pub fn new() -> (r: WorkerResult)
        ensures
            r.wf(),
            r.request_count == 0,
            r.unsuccessful_count == 0,
    {
        WorkerResult { request_count: 0, unsuccessful_count: 0 }
    }

    /// Count one finished probe: every probe raises the request count, and
    /// any failure — bad status or transport fault alike — raises the
    /// unsuccessful count. Whatever the outcome, the failure count stays at
    /// or below the request count.
    pub fn record(&mut self, outcome: ProbeOutcome)
        requires
            old(self).wf(),
            old(self).request_count < u64::MAX,
        ensures
            final(self).wf(),
            final(self).request_count == old(self).request_count + 1,
            final(self).unsuccessful_count == old(self).unsuccessful_count
                + outcome.failure_weight(),
    {
        self.request_count = self.request_count + 1;
        if !matches!(outcome, ProbeOutcome::Success) {
            self.unsuccessful_count = self.unsuccessful_count + 1;
        }
    }
}

/// One loop iteration as a worker would see it: the clock reading taken at
/// loop-top, and the outcome the probe comes to if it is issued.
#[derive(Clone, Copy, Debug)]
pub struct ProbeEvent {
    pub elapsed_nanos: u128,
    pub outcome: ProbeOutcome,
}

/// How many of the first `k` events are failures of any kind.
pub open spec fn failures_before(events: Seq<ProbeEvent>, k: int) -> int
    decreases k,
{
    if k <= 0 {
        0
    } else {
        failures_before(events, k - 1) + events[k - 1].outcome.failure_weight()
    }
}

/// The worker loop, run against a given trace of clock readings and probe
/// outcomes: at each loop-top the elapsed time is checked against the
/// budget, and while it is within, one more probe is issued and counted.
///
/// The trace stands in for the wall clock and the transport, so the loop's
/// behaviour is fixed by its inputs: the probes issued are exactly the
/// longest prefix of the trace whose clock readings lie below the budget.
/// The deadline is checked only at loop-top, so a reading just under the
/// budget still issues its probe — the accepted overshoot of at most one
/// in-flight request.
pub fn run_worker(cfg: &Config, events: &Vec<ProbeEvent>) -> (r: WorkerResult)
    ensures
        r.wf(),
        r.request_count <= events@.len(),
        forall|j: int|
            0 <= j < r.request_count ==> #[trigger] events@[j].elapsed_nanos
                < cfg.budget_nanos(),
        r.request_count < events@.len() ==> events@[r.request_count as int].elapsed_nanos
            >= cfg.budget_nanos(),
        r.unsuccessful_count == failures_before(events@, r.request_count as int),
{
    let mut r = WorkerResult::new();
    let mut i: usize = 0;
    while i < events.len() && cfg.within_budget(events[i].elapsed_nanos)
        invariant
            i <= events@.len(),
            r.wf(),
            r.request_count == i,
            r.unsuccessful_count == failures_before(events@, i as int),
            forall|j: int|
                0 <= j < i ==> #[trigger] events@[j].elapsed_nanos < cfg.budget_nanos(),
        decreases events@.len() - i,
    {
        r.record(events[i].outcome);
        i = i + 1;
    }
    r
}

/// A worker given a zero duration issues no probe at all: its very first
/// loop-top check already finds the budget spent, so both of its counts are
/// zero. The premises are exactly what `run_worker` guarantees of any result
/// it returns.
pub proof fn lemma_zero_duration_yields_no_requests(
    cfg: Config,
    events: Seq<ProbeEvent>,
    r: WorkerResult,
)
    requires
        cfg.duration_secs == 0,
        r.request_count <= events.len(),
        forall|j: int|
            0 <= j < r.request_count ==> #[trigger] events[j].elapsed_nanos
                < cfg.budget_nanos(),
        r.unsuccessful_count == failures_before(events, r.request_count as int),
    ensures
        r.request_count == 0,
        r.unsuccessful_count == 0,
{
    if r.request_count > 0 {
        assert(events[0].elapsed_nanos < cfg.budget_nanos());
    }
}

} // verus!
