//! Tests of outcome classification, the worker loop, and aggregation.

use wb::aggregate::{aggregate, have_all_results, AggregateTotals};
use wb::config::Config;
use wb::outcome::{classify_probe, classify_status, ProbeOutcome};
use wb::report::make_report;
use wb::worker::{run_worker, ProbeEvent, WorkerResult};

fn cfg(duration_secs: u64, worker_count: usize) -> Config {
    Config::new(String::from("http://localhost:8080/"), duration_secs, worker_count)
}

fn event(elapsed_nanos: u128, outcome: ProbeOutcome) -> ProbeEvent {
    ProbeEvent { elapsed_nanos, outcome }
}

#[test]
fn classify_status_success_range_edges() {
    assert_eq!(classify_status(199), ProbeOutcome::FailedResponse);
    assert_eq!(classify_status(200), ProbeOutcome::Success);
    assert_eq!(classify_status(204), ProbeOutcome::Success);
    assert_eq!(classify_status(299), ProbeOutcome::Success);
    assert_eq!(classify_status(300), ProbeOutcome::FailedResponse);
    assert_eq!(classify_status(404), ProbeOutcome::FailedResponse);
    assert_eq!(classify_status(500), ProbeOutcome::FailedResponse);
}

#[test]
fn classify_probe_maps_transport_faults() {
    assert_eq!(classify_probe(None), ProbeOutcome::TransportError);
    assert_eq!(classify_probe(Some(200)), ProbeOutcome::Success);
    assert_eq!(classify_probe(Some(503)), ProbeOutcome::FailedResponse);
}

#[test]
fn record_counts_every_probe_and_only_failures() {
    let mut w = WorkerResult::new();
    w.record(ProbeOutcome::Success);
    w.record(ProbeOutcome::FailedResponse);
    w.record(ProbeOutcome::TransportError);
    w.record(ProbeOutcome::Success);
    assert_eq!(w.request_count, 4);
    assert_eq!(w.unsuccessful_count, 2);
    assert!(w.unsuccessful_count <= w.request_count);
}

#[test]
fn failure_count_never_exceeds_request_count() {
    let outcomes = [
        ProbeOutcome::TransportError,
        ProbeOutcome::TransportError,
        ProbeOutcome::FailedResponse,
        ProbeOutcome::Success,
        ProbeOutcome::TransportError,
    ];
    let mut w = WorkerResult::new();
    for o in outcomes {
        w.record(o);
        assert!(w.unsuccessful_count <= w.request_count);
    }
}

#[test]
fn zero_duration_issues_no_probes() {
    let c = cfg(0, 1);
    let events = vec![
        event(0, ProbeOutcome::Success),
        event(5, ProbeOutcome::Success),
    ];
    let r = run_worker(&c, &events);
    assert_eq!(r.request_count, 0);
    assert_eq!(r.unsuccessful_count, 0);
}

#[test]
fn worker_stops_at_first_reading_over_budget() {
    let c = cfg(1, 1);
    let events = vec![
        event(0, ProbeOutcome::Success),
        event(300_000_000, ProbeOutcome::FailedResponse),
        event(999_999_999, ProbeOutcome::Success),
        event(1_000_000_000, ProbeOutcome::Success),
        event(1_500_000_000, ProbeOutcome::Success),
    ];
    let r = run_worker(&c, &events);
    assert_eq!(r.request_count, 3);
    assert_eq!(r.unsuccessful_count, 1);
}

#[test]
fn aggregate_sums_field_wise() {
    let results = vec![
        WorkerResult { request_count: 3, unsuccessful_count: 1 },
        WorkerResult { request_count: 5, unsuccessful_count: 2 },
        WorkerResult { request_count: 7, unsuccessful_count: 0 },
    ];
    let t = aggregate(&results).unwrap();
    assert_eq!(t.request_count, 15);
    assert_eq!(t.unsuccessful_count, 3);
}

#[test]
fn aggregate_is_order_independent() {
    let a = vec![
        WorkerResult { request_count: 3, unsuccessful_count: 1 },
        WorkerResult { request_count: 5, unsuccessful_count: 2 },
        WorkerResult { request_count: 7, unsuccessful_count: 0 },
    ];
    let b = vec![a[2], a[0], a[1]];
    let ta = aggregate(&a).unwrap();
    let tb = aggregate(&b).unwrap();
    assert_eq!(ta, tb);
}

#[test]
fn aggregate_of_no_results_is_zero() {
    let t = aggregate(&vec![]).unwrap();
    assert_eq!(t.request_count, 0);
    assert_eq!(t.unsuccessful_count, 0);
}

#[test]
fn aggregate_refuses_sum_beyond_the_counter() {
    let results = vec![
        WorkerResult { request_count: u64::MAX, unsuccessful_count: 0 },
        WorkerResult { request_count: 1, unsuccessful_count: 0 },
    ];
    assert_eq!(aggregate(&results), None);
}

#[test]
fn more_workers_never_lower_the_totals() {
    let one = vec![WorkerResult { request_count: 40, unsuccessful_count: 3 }];
    let mut two = one.clone();
    two.push(WorkerResult { request_count: 38, unsuccessful_count: 0 });
    let t1 = aggregate(&one).unwrap();
    let t2 = aggregate(&two).unwrap();
    assert!(t2.request_count >= t1.request_count);
    assert!(t2.unsuccessful_count >= t1.unsuccessful_count);
}

#[test]
fn barrier_accepts_exactly_one_result_per_worker() {
    let c = cfg(30, 2);
    let one = vec![WorkerResult::new()];
    let two = vec![WorkerResult::new(), WorkerResult::new()];
    let three = vec![WorkerResult::new(), WorkerResult::new(), WorkerResult::new()];
    assert!(!have_all_results(&c, &one));
    assert!(have_all_results(&c, &two));
    assert!(!have_all_results(&c, &three));
}

#[test]
fn all_success_run_with_two_workers() {
    let c = cfg(1, 2);
    let trace = vec![
        event(0, ProbeOutcome::Success),
        event(400_000_000, ProbeOutcome::Success),
        event(800_000_000, ProbeOutcome::Success),
        event(1_200_000_000, ProbeOutcome::Success),
    ];
    let r1 = run_worker(&c, &trace);
    let r2 = run_worker(&c, &trace);
    let results = vec![r1, r2];
    assert!(have_all_results(&c, &results));
    let t = aggregate(&results).unwrap();
    assert_eq!(t.unsuccessful_count, 0);
    let report = make_report(&t, 1);
    assert_eq!(report.successful_count, t.request_count);
    assert_eq!(report.success_ratio_hundredths, Some(100));
}

#[test]
fn all_transport_error_run_with_one_worker() {
    let c = cfg(1, 1);
    let trace = vec![
        event(0, ProbeOutcome::TransportError),
        event(500_000_000, ProbeOutcome::TransportError),
        event(1_000_000_000, ProbeOutcome::TransportError),
    ];
    let r = run_worker(&c, &trace);
    let results = vec![r];
    let t = aggregate(&results).unwrap();
    assert_eq!(t.unsuccessful_count, t.request_count);
    assert_eq!(t.request_count, 2);
    let report = make_report(&t, 1);
    assert_eq!(report.successful_count, 0);
    assert_eq!(report.success_ratio_hundredths, Some(0));
}

#[test]
fn mixed_outcomes_give_an_exact_half_ratio() {
    let c = cfg(1, 1);
    let trace = vec![
        event(0, ProbeOutcome::Success),
        event(200_000_000, ProbeOutcome::FailedResponse),
        event(400_000_000, ProbeOutcome::Success),
        event(600_000_000, ProbeOutcome::TransportError),
        event(1_000_000_000, ProbeOutcome::Success),
    ];
    let r = run_worker(&c, &trace);
    assert_eq!(r.request_count, 4);
    assert_eq!(r.unsuccessful_count, 2);
    let t = aggregate(&vec![r]).unwrap();
    let report = make_report(&t, 1);
    assert_eq!(report.success_ratio_hundredths, Some(50));
}

#[test]
fn totals_keep_the_worker_invariant() {
    let results = vec![
        WorkerResult { request_count: 9, unsuccessful_count: 9 },
        WorkerResult { request_count: 4, unsuccessful_count: 0 },
    ];
    let t: AggregateTotals = aggregate(&results).unwrap();
    assert!(t.unsuccessful_count <= t.request_count);
    assert_eq!(t.request_count, 13);
    assert_eq!(t.unsuccessful_count, 9);
}
