use lumina_latency_monitor::prometheus::dec_in_flight;
use lumina_latency_monitor::prometheus::record_broadcast_failure;
use lumina_latency_monitor::prometheus::record_checktx_latency;
use lumina_latency_monitor::prometheus::record_confirm;
use lumina_latency_monitor::prometheus::record_confirm_failure;
use lumina_latency_monitor::prometheus::record_submit;
use lumina_latency_monitor::prometheus::Histogram;
use lumina_latency_monitor::prometheus::Metrics;

const SECOND: u64 = 1_000_000_000;

#[test]
fn new_metrics_are_all_zero() {
    let m = Metrics::new();
    assert_eq!(m.tx_submitted, 0);
    assert_eq!(m.tx_confirmed, 0);
    assert_eq!(m.tx_broadcast_failed, 0);
    assert_eq!(m.tx_confirm_failed, 0);
    assert_eq!(m.tx_in_flight, 0);
    assert_eq!(m.bytes_confirmed, 0);
    assert_eq!(m.latency.bounds.len(), 12);
    assert_eq!(m.latency.counts, vec![0u64; 13]);
    assert_eq!(m.latency.bounds[0], SECOND / 2);
    assert_eq!(m.latency.bounds[11], 120 * SECOND);
    assert_eq!(m.checktx.bounds.len(), 11);
    assert_eq!(m.checktx.counts, vec![0u64; 12]);
    assert_eq!(m.checktx.bounds[0], 10_000_000);
    assert_eq!(m.checktx.bounds[10], 5 * SECOND);
}

#[test]
fn a_submission_is_counted_and_in_flight() {
    let mut m = Metrics::new();
    record_submit(&mut m);
    record_submit(&mut m);
    assert_eq!(m.tx_submitted, 2);
    assert_eq!(m.tx_in_flight, 2);
    assert_eq!(m.tx_confirmed, 0);
}

#[test]
fn a_confirmation_counts_bytes_and_latency() {
    let mut m = Metrics::new();
    record_submit(&mut m);
    record_confirm(&mut m, 3 * SECOND, 512);
    assert_eq!(m.tx_confirmed, 1);
    assert_eq!(m.tx_in_flight, 0);
    assert_eq!(m.bytes_confirmed, 512);
    assert_eq!(m.latency.count, 1);
    assert_eq!(m.latency.sum, (3 * SECOND) as u128);
    // three seconds fall in the bucket up to five seconds
    assert_eq!(m.latency.counts[3], 1);
    assert_eq!(m.latency.counts.iter().sum::<u64>(), 1);
}

#[test]
fn a_broadcast_latency_is_observed() {
    let mut m = Metrics::new();
    record_checktx_latency(&mut m, 10_000_000);
    record_checktx_latency(&mut m, 10_000_001);
    record_checktx_latency(&mut m, 9 * SECOND);
    assert_eq!(m.checktx.count, 3);
    assert_eq!(m.checktx.counts[0], 1);
    assert_eq!(m.checktx.counts[1], 1);
    assert_eq!(m.checktx.counts[11], 1);
    assert_eq!(m.tx_in_flight, 0);
    assert_eq!(m.latency.count, 0);
}

#[test]
fn a_broadcast_failure_leaves_the_gauge() {
    let mut m = Metrics::new();
    record_broadcast_failure(&mut m);
    assert_eq!(m.tx_broadcast_failed, 1);
    assert_eq!(m.tx_in_flight, 0);
    assert_eq!(m.tx_submitted, 0);
}

#[test]
fn a_confirmation_failure_lowers_the_gauge() {
    let mut m = Metrics::new();
    record_submit(&mut m);
    record_confirm_failure(&mut m);
    assert_eq!(m.tx_confirm_failed, 1);
    assert_eq!(m.tx_in_flight, 0);
    assert_eq!(m.tx_confirmed, 0);
}

#[test]
fn a_cancellation_only_lowers_the_gauge() {
    let mut m = Metrics::new();
    record_submit(&mut m);
    dec_in_flight(&mut m);
    assert_eq!(m.tx_in_flight, 0);
    assert_eq!(m.tx_confirm_failed, 0);
    assert_eq!(m.tx_confirmed, 0);
    dec_in_flight(&mut m);
    assert_eq!(m.tx_in_flight, -1);
}

#[test]
fn a_histogram_sorts_values_into_buckets() {
    let mut h = Histogram::new(vec![10, 20, 30]);
    assert_eq!(h.counts, vec![0, 0, 0, 0]);
    assert_eq!(h.bucket_index(0), 0);
    assert_eq!(h.bucket_index(10), 0);
    assert_eq!(h.bucket_index(11), 1);
    assert_eq!(h.bucket_index(30), 2);
    assert_eq!(h.bucket_index(31), 3);
    for value in [5, 10, 15, 31, 1000] {
        h.observe(value);
    }
    assert_eq!(h.counts, vec![2, 1, 0, 2]);
    assert_eq!(h.count, 5);
    assert_eq!(h.sum, 1061);
}

#[test]
fn a_histogram_without_bounds_has_one_bucket() {
    let mut h = Histogram::new(Vec::new());
    h.observe(7);
    assert_eq!(h.counts, vec![1]);
    assert_eq!(h.bucket_index(u64::MAX), 0);
}
