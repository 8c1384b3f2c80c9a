use lumina_latency_monitor::admission::AdmissionController;
use lumina_latency_monitor::admission::DEFAULT_CAPACITY;

#[test]
fn a_new_pool_holds_nothing() {
    let pool = AdmissionController::new(3);
    assert_eq!(pool.permits(), 3);
    assert_eq!(pool.held(), 0);
    assert_eq!(pool.available(), 3);
}

#[test]
fn the_default_pool_has_a_hundred_permits() {
    let pool = AdmissionController::default();
    assert_eq!(DEFAULT_CAPACITY, 100);
    assert_eq!(pool.permits(), 100);
    assert_eq!(pool.held(), 0);
}

#[test]
fn no_more_permits_are_granted_than_there_are() {
    let mut pool = AdmissionController::new(2);
    assert!(pool.try_acquire());
    assert!(pool.try_acquire());
    assert!(!pool.try_acquire());
    assert_eq!(pool.held(), 2);
    assert_eq!(pool.available(), 0);
}

#[test]
fn a_released_permit_can_be_taken_again() {
    let mut pool = AdmissionController::new(1);
    assert!(pool.try_acquire());
    assert!(!pool.try_acquire());
    pool.release();
    assert_eq!(pool.held(), 0);
    assert!(pool.try_acquire());
    assert_eq!(pool.held(), 1);
}

#[test]
fn an_empty_pool_grants_nothing() {
    let mut pool = AdmissionController::new(0);
    assert!(!pool.try_acquire());
    assert_eq!(pool.held(), 0);
}

#[test]
fn held_permits_never_exceed_the_capacity() {
    let mut pool = AdmissionController::new(4);
    let mut held = 0usize;
    for round in 0..100usize {
        if round % 3 == 2 && held > 0 {
            pool.release();
            held -= 1;
        } else if pool.try_acquire() {
            held += 1;
        }
        assert!(pool.held() <= pool.permits());
        assert_eq!(pool.held(), held);
    }
}
