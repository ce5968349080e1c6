//! Summation of worker results into one set of totals.

use vstd::prelude::*;

use crate::config::Config;
use crate::worker::WorkerResult;

verus! {

/// The field-wise sums of every worker's result.
#[derive(Clone, Copy, Debug, PartialEq, Eq, Structural)]
pub struct AggregateTotals {
    pub request_count: u64,
    pub unsuccessful_count: u64,
}

impl AggregateTotals {
    /// The totals keep the per-worker invariant: never more failures than
    /// probes.
    pub open spec fn wf(self) -> bool {
        self.unsuccessful_count <= self.request_count
    }
}

/// The sum of the request counts of a sequence of worker results.
pub open spec fn sum_requests(s: Seq<WorkerResult>) -> int
    decreases s.len(),
{
    if s.len() == 0 {
        0
    } else {
        sum_requests(s.drop_last()) + s.last().request_count
    }
}

/// The sum of the unsuccessful counts of a sequence of worker results.
pub open spec fn sum_unsuccessful(s: Seq<WorkerResult>) -> int
    decreases s.len(),
{
    if s.len() == 0 {
        0
    } else {
        sum_unsuccessful(s.drop_last()) + s.last().unsuccessful_count
    }
}

/// Both sums are sums of unsigned counts, so they never go below zero.
pub proof fn lemma_sums_nonneg(s: Seq<WorkerResult>)
    ensures
        sum_requests(s) >= 0,
        sum_unsuccessful(s) >= 0,
    decreases s.len(),
{
    if s.len() > 0 {
        lemma_sums_nonneg(s.drop_last());
    }
}

/// Each sum is bounded by one maximal count per element.
pub proof fn lemma_sums_bounded(s: Seq<WorkerResult>)
    ensures
        sum_requests(s) <= s.len() * u64::MAX,
        sum_unsuccessful(s) <= s.len() * u64::MAX,
    decreases s.len(),
{
    if s.len() > 0 {
        lemma_sums_bounded(s.drop_last());
        assert(s.len() * u64::MAX == (s.len() - 1) * u64::MAX + u64::MAX)
            by (nonlinear_arith);
    }
}

/// When every result is well formed, the failures summed stay at or below
/// the requests summed.
pub proof fn lemma_sum_unsuccessful_le_requests(s: Seq<WorkerResult>)
    requires
        forall|j: int| 0 <= j < s.len() ==> (#[trigger] s[j]).wf(),
    ensures
        sum_unsuccessful(s) <= sum_requests(s),
    decreases s.len(),
{
    if s.len() > 0 {
        assert(forall|j: int|
            0 <= j < s.drop_last().len() ==> (#[trigger] s.drop_last()[j]).wf());
        lemma_sum_unsuccessful_le_requests(s.drop_last());
        assert(s.last().wf());
    }
}

/// Summation distributes over concatenation.
pub proof fn lemma_sums_append(s1: Seq<WorkerResult>, s2: Seq<WorkerResult>)
    ensures
        sum_requests(s1 + s2) == sum_requests(s1) + sum_requests(s2),
        sum_unsuccessful(s1 + s2) == sum_unsuccessful(s1) + sum_unsuccessful(s2),
    decreases s2.len(),
{
    if s2.len() == 0 {
        assert(s1 + s2 =~= s1);
    } else {
        lemma_sums_append(s1, s2.drop_last());
        assert((s1 + s2).drop_last() =~= s1 + s2.drop_last());
        assert((s1 + s2).last() == s2.last());
    }
}

/// Removing one result lowers each sum by exactly that result's count.
pub proof fn lemma_sums_remove(s: Seq<WorkerResult>, i: int)
    requires
        0 <= i < s.len(),
    ensures
        sum_requests(s.remove(i)) == sum_requests(s) - s[i].request_count,
        sum_unsuccessful(s.remove(i)) == sum_unsuccessful(s) - s[i].unsuccessful_count,
    decreases s.len(),
{
    if i == s.len() - 1 {
        assert(s.remove(i) =~= s.drop_last());
    } else {
        assert(s.remove(i).drop_last() =~= s.drop_last().remove(i));
        assert(s.remove(i).last() == s.last());
        lemma_sums_remove(s.drop_last(), i);
    }
}

/// Aggregation is order-independent: two collections holding the same
/// worker results — however their arrival order was shuffled — sum to the
/// same totals.
pub proof fn lemma_sums_order_independent(s1: Seq<WorkerResult>, s2: Seq<WorkerResult>)
    requires
        s1.to_multiset() == s2.to_multiset(),
    ensures
        sum_requests(s1) == sum_requests(s2),
        sum_unsuccessful(s1) == sum_unsuccessful(s2),
    decreases s1.len(),
{
    broadcast use vstd::seq_lib::group_to_multiset_ensures;

    s1.to_multiset_ensures();
    s2.to_multiset_ensures();
    if s1.len() == 0 {
        assert(s2.len() == 0);
    } else {
        let x = s1.last();
        assert(s1.to_multiset().count(x) > 0) by {
            assert(s1.contains(x));
        }
        assert(s2.contains(x));
        let i = choose|i: int| 0 <= i < s2.len() && s2[i] == x;
        assert(s1.drop_last() =~= s1.remove(s1.len() - 1));
        assert(s1.drop_last().to_multiset() == s1.to_multiset().remove(x));
        assert(s2.remove(i).to_multiset() == s2.to_multiset().remove(x));
        lemma_sums_order_independent(s1.drop_last(), s2.remove(i));
        lemma_sums_remove(s2, i);
    }
}

/// More workers never lower the totals: a run extended by further worker
/// results sums to at least as many requests, and at least as many
/// failures, as before.
pub proof fn lemma_more_workers_no_fewer(s1: Seq<WorkerResult>, s2: Seq<WorkerResult>)
    ensures
        sum_requests(s1 + s2) >= sum_requests(s1),
        sum_unsuccessful(s1 + s2) >= sum_unsuccessful(s1),
{
    lemma_sums_append(s1, s2);
    lemma_sums_nonneg(s2);
}

/// The aggregation barrier's condition: totals may be formed only once
/// exactly one result per configured worker has arrived. A missing shard
/// must abort the run, never pass as zero.
pub fn have_all_results(cfg: &Config, results: &Vec<WorkerResult>) -> (r: bool)
    ensures
        r <==> results@.len() == cfg.worker_count,
{
    results.len() == cfg.worker_count
}

/// Sum all worker results field-wise. The totals come back whenever they
/// fit the counters, and with them the run's invariant: failures at or
/// below requests. Only a request sum beyond the counter's range — more
/// than the machine can count — is refused.
pub fn aggregate(results: &Vec<WorkerResult>) -> (t: Option<AggregateTotals>)
    requires
        forall|j: int| 0 <= j < results@.len() ==> (#[trigger] results@[j]).wf(),
    ensures
        match t {
            Some(t) => t.wf() && t.request_count == sum_requests(results@)
                && t.unsuccessful_count == sum_unsuccessful(results@),
            None => sum_requests(results@) > u64::MAX,
        },
        sum_requests(results@) <= u64::MAX ==> t is Some,
{
    let ghost s = results@;
    let mut req_acc: u128 = 0;
    let mut unsucc_acc: u128 = 0;
    let mut i: usize = 0;
    while i < results.len()
        invariant
            s == results@,
            i <= s.len(),
            req_acc == sum_requests(s.take(i as int)),
            unsucc_acc == sum_unsuccessful(s.take(i as int)),
        decreases s.len() - i,
    {
        proof {
            lemma_sums_bounded(s.take(i as int + 1));
            assert(s.take(i as int + 1).drop_last() =~= s.take(i as int));
            assert(s.take(i as int + 1).last() == s[i as int]);
            assert((i + 1) * u64::MAX <= u64::MAX * u64::MAX) by (nonlinear_arith)
                requires i + 1 <= u64::MAX;
        }
        req_acc = req_acc + results[i].request_count as u128;
        unsucc_acc = unsucc_acc + results[i].unsuccessful_count as u128;
        i = i + 1;
    }
    proof {
        assert(s.take(s.len() as int) =~= s);
        lemma_sum_unsuccessful_le_requests(s);
        lemma_sums_nonneg(s);
    }
    if req_acc <= u64::MAX as u128 {
        Some(AggregateTotals {
            request_count: req_acc as u64,
            unsuccessful_count: unsucc_acc as u64,
        })
    } else {
        None
    }
}

} // verus!
