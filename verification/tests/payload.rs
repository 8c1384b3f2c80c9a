use lumina_latency_monitor::tx::generate_random_data;
use lumina_latency_monitor::tx::TxResult;

#[test]
fn equal_bounds_give_that_size() {
    for size in [1usize, 2, 17, 1024] {
        for _ in 0..20 {
            let (reported, data) = generate_random_data(size, size);
            assert_eq!(reported, size);
            assert_eq!(data.len(), size);
        }
    }
}

#[test]
fn sizes_lie_within_the_bounds() {
    for _ in 0..200 {
        let (size, data) = generate_random_data(5, 9);
        assert!((5..=9).contains(&size));
        assert_eq!(data.len(), size);
    }
}

#[test]
fn every_size_within_narrow_bounds_is_drawn() {
    let mut seen = [false; 3];
    for _ in 0..2000 {
        let (size, _) = generate_random_data(1, 3);
        seen[size - 1] = true;
    }
    assert_eq!(seen, [true, true, true]);
}

#[test]
fn reversed_bounds_give_the_lower_bound() {
    let (size, data) = generate_random_data(8, 3);
    assert_eq!(size, 8);
    assert_eq!(data.len(), 8);
}

#[test]
fn payloads_are_not_all_zero() {
    let (_, data) = generate_random_data(64, 64);
    assert!(data.iter().any(|byte| *byte != 0));
}

#[test]
fn a_success_carries_what_it_was_given() {
    let result = TxResult::success(10, 25, 15, String::from("HASH"), 3, 77);
    assert_eq!(result.submit_time, 10);
    assert_eq!(result.commit_time, 25);
    assert_eq!(result.latency, 15);
    assert_eq!(result.tx_hash, "HASH");
    assert_eq!(result.code, 3);
    assert_eq!(result.height, 77);
    assert!(!result.failed);
    assert_eq!(result.error_msg, "");
}

#[test]
fn a_failure_carries_only_its_error() {
    let result = TxResult::failure(10, String::from("rejected by the ledger"));
    assert_eq!(result.submit_time, 10);
    assert_eq!(result.commit_time, 0);
    assert_eq!(result.latency, 0);
    assert_eq!(result.tx_hash, "");
    assert_eq!(result.code, 0);
    assert_eq!(result.height, 0);
    assert!(result.failed);
    assert_eq!(result.error_msg, "rejected by the ledger");
}
