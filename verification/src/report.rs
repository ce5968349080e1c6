//! Derived statistics: the human-facing metrics of a finished run.

use vstd::prelude::*;

use vstd::arithmetic::div_mod::lemma_div_is_ordered;
use vstd::arithmetic::div_mod::lemma_div_multiples_vanish;
use vstd::arithmetic::div_mod::lemma_fundamental_div_mod;
use vstd::arithmetic::div_mod::lemma_mod_bound;

use crate::aggregate::AggregateTotals;

verus! {

/// Milliseconds per second, used when a duration meets a per-request time.
pub const MILLIS_PER_SEC: u64 = 1000;

/// The scale of the fixed-point metrics: each carries hundredths, so a
/// stored `150` reads as `1.50`.
pub const HUNDREDTHS: u64 = 100;

/// The read-only view of a finished run, derived from the totals and the
/// configured duration.
///
/// The ratio and the two rates are fixed-point values in hundredths,
/// truncated toward zero, so that the figures typically shown with two
/// decimals are exact integers here. A metric whose divisor is zero — the
/// ratio and the per-request time when nothing was sent, the throughput
/// when the duration is zero — is `None` rather than an arbitrary number.
#[derive(Clone, Copy, Debug, PartialEq, Eq)]
pub struct Report {
    /// Probes that came back with a success status.
    pub successful_count: u64,
    /// `successful_count / request_count`, in hundredths.
    pub success_ratio_hundredths: Option<u64>,
    /// `request_count / duration_secs`, in hundredths.
    pub requests_per_second_hundredths: Option<u128>,
    /// `duration_millis / request_count`, in hundredths.
    pub millis_per_request_hundredths: Option<u128>,
}

/// Compute the report from the aggregated totals and the configured
/// duration: the success count by subtraction, and each fixed-point metric
/// as its quotient in hundredths, present exactly when its divisor is not
/// zero.
pub fn make_report(totals: &AggregateTotals, duration_secs: u64) -> (r: Report)
    requires
        totals.wf(),
    ensures
        r.successful_count == totals.request_count - totals.unsuccessful_count,
        r.success_ratio_hundredths is Some <==> totals.request_count > 0,
        totals.request_count > 0 ==> r.success_ratio_hundredths == Some(
            ((totals.request_count - totals.unsuccessful_count) * HUNDREDTHS
                / totals.request_count as int) as u64,
        ),
        totals.request_count > 0 ==> r.success_ratio_hundredths.unwrap() <= HUNDREDTHS,
        r.requests_per_second_hundredths is Some <==> duration_secs > 0,
        duration_secs > 0 ==> r.requests_per_second_hundredths == Some(
            (totals.request_count * HUNDREDTHS / duration_secs as int) as u128,
        ),
        r.millis_per_request_hundredths is Some <==> totals.request_count > 0,
        totals.request_count > 0 ==> r.millis_per_request_hundredths == Some(
            (duration_secs * MILLIS_PER_SEC * HUNDREDTHS
                / totals.request_count as int) as u128,
        ),
{
    let successful_count: u64 = totals.request_count - totals.unsuccessful_count;

    let success_ratio_hundredths: Option<u64> = if totals.request_count > 0 {
        let scaled: u128 = successful_count as u128 * HUNDREDTHS as u128;
        let ratio: u128 = scaled / totals.request_count as u128;
        proof {
            lemma_div_is_ordered(
                scaled as int,
                totals.request_count * HUNDREDTHS,
                totals.request_count as int,
            );
            lemma_div_multiples_vanish(
                HUNDREDTHS as int,
                totals.request_count as int,
            );
        }
        Some(ratio as u64)
    } else {
        None
    };

    let requests_per_second_hundredths: Option<u128> = if duration_secs > 0 {
        Some(totals.request_count as u128 * HUNDREDTHS as u128 / duration_secs as u128)
    } else {
        None
    };

    let millis_per_request_hundredths: Option<u128> = if totals.request_count > 0 {
        proof {
            assert(duration_secs * MILLIS_PER_SEC * HUNDREDTHS <= u64::MAX
                * MILLIS_PER_SEC * HUNDREDTHS) by (nonlinear_arith)
                requires duration_secs <= u64::MAX;
        }
        Some(
            duration_secs as u128 * MILLIS_PER_SEC as u128 * HUNDREDTHS as u128
                / totals.request_count as u128,
        )
    } else {
        None
    };

    Report {
        successful_count,
        success_ratio_hundredths,
        requests_per_second_hundredths,
        millis_per_request_hundredths,
    }
}

/// Throughput and duration stay consistent: the reported requests per
/// second (in hundredths), multiplied back by the duration, recovers the
/// scaled request count to within one second's worth of truncation. The
/// premise on the rate is exactly what `make_report` guarantees of it.
pub proof fn lemma_throughput_round_trip(
    request_count: u64,
    duration_secs: u64,
    rps_hundredths: u128,
)
    requires
        duration_secs > 0,
        rps_hundredths == request_count * HUNDREDTHS / duration_secs as int,
    ensures
        rps_hundredths * duration_secs <= request_count * HUNDREDTHS,
        request_count * HUNDREDTHS - rps_hundredths * duration_secs < duration_secs,
{
    let n = request_count * HUNDREDTHS;
    let d = duration_secs as int;
    lemma_fundamental_div_mod(n, d);
    lemma_mod_bound(n, d);
}

} // verus!
