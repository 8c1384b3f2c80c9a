use lumina_latency_monitor::metrics::floor_sqrt;
use lumina_latency_monitor::metrics::Statistics;
use lumina_latency_monitor::tx::TxResult;

fn confirmed_after(latency_ms: u64) -> TxResult {
    TxResult::success(
        1_000_000_000,
        1_000_000_000 + latency_ms * 1_000_000,
        latency_ms * 1_000_000,
        String::from("ABCDEF0123456789"),
        0,
        42,
    )
}

fn refused(reason: &str) -> TxResult {
    TxResult::failure(1_000_000_000, String::from(reason))
}

fn percent(num: u128, den: u128) -> f64 {
    num as f64 / den as f64
}

#[test]
fn three_confirmations_mean_and_deviation() {
    let results = vec![confirmed_after(100), confirmed_after(200), confirmed_after(300)];
    let stats = Statistics::calculate(&results);
    assert_eq!(stats.total_count, 3);
    assert_eq!(stats.success_count, 3);
    assert_eq!(stats.failure_count, 0);
    assert_eq!(stats.latency_sum_ms, 600);
    assert_eq!(stats.latency_square_sum_ms, Some(140_000));
    let mean = stats.mean_latency_ms();
    assert_eq!(percent(mean.num, mean.den), 200.0);
    let variance = stats.variance_ms().unwrap();
    assert_eq!(variance.num, 60_000);
    assert_eq!(variance.den, 6);
    assert_eq!(stats.std_dev_ms(), Some(100));
    let deviation = (variance.num as f64 / variance.den as f64).sqrt();
    assert!((deviation - 100.0).abs() < 1e-9);
    let rate = stats.success_rate();
    assert_eq!(percent(rate.num, rate.den), 100.0);
    let failures = stats.failure_rate();
    assert_eq!(failures.num, 0);
}

#[test]
fn two_successes_and_one_failure() {
    let results = vec![confirmed_after(150), refused("rejected"), confirmed_after(250)];
    let stats = Statistics::calculate(&results);
    assert_eq!(stats.total_count, 3);
    assert_eq!(stats.success_count, 2);
    assert_eq!(stats.failure_count, 1);
    let rate = stats.success_rate();
    assert_eq!(rate.num, 200);
    assert_eq!(rate.den, 3);
    assert!((percent(rate.num, rate.den) - 66.7).abs() < 0.05);
    let failures = stats.failure_rate();
    assert_eq!(failures.num, 100);
    assert_eq!(failures.den, 3);
    assert_eq!(rate.num + failures.num, 100 * rate.den);
}

#[test]
fn the_latency_of_a_failure_does_not_count() {
    let mut failed = refused("timeout");
    failed.latency = 9_000_000_000;
    let results = vec![confirmed_after(10), failed];
    let stats = Statistics::calculate(&results);
    assert_eq!(stats.latency_sum_ms, 10);
    assert_eq!(stats.latency_square_sum_ms, Some(100));
    let mean = stats.mean_latency_ms();
    assert_eq!((mean.num, mean.den), (10, 1));
}

#[test]
fn no_results_give_zero_rates() {
    let stats = Statistics::calculate(&[]);
    assert_eq!(stats.total_count, 0);
    assert_eq!(stats.success_count, 0);
    assert_eq!(stats.failure_count, 0);
    let rate = stats.success_rate();
    let failures = stats.failure_rate();
    assert_eq!((rate.num, rate.den), (0, 1));
    assert_eq!((failures.num, failures.den), (0, 1));
    let mean = stats.mean_latency_ms();
    assert_eq!((mean.num, mean.den), (0, 1));
    assert_eq!(stats.std_dev_ms(), Some(0));
}

#[test]
fn default_statistics_are_those_of_no_results() {
    let stats = Statistics::default();
    let empty = Statistics::calculate(&[]);
    assert_eq!(stats.total_count, empty.total_count);
    assert_eq!(stats.success_count, empty.success_count);
    assert_eq!(stats.failure_count, empty.failure_count);
    assert_eq!(stats.latency_sum_ms, empty.latency_sum_ms);
    assert_eq!(stats.latency_square_sum_ms, empty.latency_square_sum_ms);
}

#[test]
fn one_success_has_no_spread() {
    let stats = Statistics::calculate(&[confirmed_after(500)]);
    let variance = stats.variance_ms().unwrap();
    assert_eq!((variance.num, variance.den), (0, 1));
    assert_eq!(stats.std_dev_ms(), Some(0));
}

#[test]
fn statistics_computed_twice_are_the_same() {
    let results = vec![
        confirmed_after(120),
        refused("a"),
        confirmed_after(80),
        confirmed_after(2000),
        refused("b"),
    ];
    let first = Statistics::calculate(&results);
    let second = Statistics::calculate(&results);
    assert_eq!(first.total_count, second.total_count);
    assert_eq!(first.success_count, second.success_count);
    assert_eq!(first.failure_count, second.failure_count);
    assert_eq!(first.latency_sum_ms, second.latency_sum_ms);
    assert_eq!(first.latency_square_sum_ms, second.latency_square_sum_ms);
    assert_eq!(first.std_dev_ms(), second.std_dev_ms());
}

#[test]
fn counts_partition_the_results() {
    let results = vec![refused("x"), confirmed_after(1), refused("y"), refused("z")];
    let stats = Statistics::calculate(&results);
    assert_eq!(stats.success_count + stats.failure_count, stats.total_count);
    assert_eq!(stats.success_count, 1);
    assert_eq!(stats.failure_count, 3);
}

#[test]
fn latency_is_counted_in_whole_milliseconds() {
    let result = TxResult::success(0, 1_999_999, 1_999_999, String::new(), 0, 1);
    assert_eq!(result.latency_millis(), 1);
    let stats = Statistics::calculate(&[result]);
    assert_eq!(stats.latency_sum_ms, 1);
}

#[test]
fn sums_too_large_for_the_variance_give_none() {
    let huge = u64::MAX;
    let results = vec![
        TxResult::success(0, huge, huge, String::new(), 0, 1),
        TxResult::success(0, huge, huge - 1_000_000, String::new(), 0, 1),
    ];
    let mut stats = Statistics::calculate(&results);
    assert!(stats.variance_ms().is_some());
    stats.latency_square_sum_ms = Some(u128::MAX);
    assert_eq!(stats.variance_ms().map(|v| v.num), None);
    assert_eq!(stats.std_dev_ms(), None);
    stats.latency_square_sum_ms = None;
    assert!(stats.variance_ms().is_none());
}

#[test]
fn square_roots_round_down() {
    assert_eq!(floor_sqrt(0), 0);
    assert_eq!(floor_sqrt(1), 1);
    assert_eq!(floor_sqrt(3), 1);
    assert_eq!(floor_sqrt(4), 2);
    assert_eq!(floor_sqrt(9_999), 99);
    assert_eq!(floor_sqrt(10_000), 100);
    assert_eq!(floor_sqrt(u128::MAX), u64::MAX);
}
