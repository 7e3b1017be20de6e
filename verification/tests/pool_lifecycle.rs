use backend::http::ServiceError;
use backend::pool::{init_pool, AcquireOutcome, Pool, ACQUIRE_TIMEOUT_MS};

#[test]
fn acquire_grants_until_capacity_then_enqueues() {
    let mut pool = Pool::new(2);
    assert_eq!(pool.acquire(), AcquireOutcome::Acquired);
    assert_eq!(pool.acquire(), AcquireOutcome::Acquired);
    assert_eq!(pool.checked_out, 2);

    let outcome = pool.acquire();
    assert!(matches!(outcome, AcquireOutcome::Enqueued(_)));
    assert_eq!(pool.checked_out, 2);
    assert_eq!(pool.waiters.len(), 1);
}

#[test]
fn saturated_acquire_times_out_with_pool_timeout() {
    let mut pool = Pool::new(1);
    assert_eq!(pool.acquire(), AcquireOutcome::Acquired);
    let ticket = match pool.acquire() {
        AcquireOutcome::Enqueued(t) => t,
        AcquireOutcome::Acquired => panic!("saturated pool granted a connection"),
    };
    let err = pool.on_timeout(ticket);
    assert_eq!(err, ServiceError::PoolTimeout);
    assert_eq!(pool.waiters.len(), 0);
    assert_eq!(pool.checked_out, 1);
}

#[test]
fn release_before_timeout_serves_the_waiting_acquirer() {
    let mut pool = Pool::new(1);
    assert_eq!(pool.acquire(), AcquireOutcome::Acquired);
    let ticket = match pool.acquire() {
        AcquireOutcome::Enqueued(t) => t,
        AcquireOutcome::Acquired => panic!("saturated pool granted a connection"),
    };
    let served = pool.release();
    assert_eq!(served, Some(ticket));
    assert_eq!(pool.checked_out, 1);
    assert_eq!(pool.waiters.len(), 0);
}

#[test]
fn waiters_are_served_in_arrival_order() {
    let mut pool = Pool::new(1);
    assert_eq!(pool.acquire(), AcquireOutcome::Acquired);
    let first = match pool.acquire() {
        AcquireOutcome::Enqueued(t) => t,
        AcquireOutcome::Acquired => panic!("saturated pool granted a connection"),
    };
    let second = match pool.acquire() {
        AcquireOutcome::Enqueued(t) => t,
        AcquireOutcome::Acquired => panic!("saturated pool granted a connection"),
    };
    assert_ne!(first, second);
    assert_eq!(pool.release(), Some(first));
    assert_eq!(pool.release(), Some(second));
    assert_eq!(pool.release(), None);
    assert_eq!(pool.checked_out, 0);
}

#[test]
fn release_with_no_waiters_returns_connection_to_idle_set() {
    let mut pool = Pool::new(3);
    assert_eq!(pool.acquire(), AcquireOutcome::Acquired);
    assert_eq!(pool.acquire(), AcquireOutcome::Acquired);
    assert_eq!(pool.release(), None);
    assert_eq!(pool.checked_out, 1);
}

#[test]
fn timeout_of_middle_waiter_keeps_the_others_in_order() {
    let mut pool = Pool::new(1);
    assert_eq!(pool.acquire(), AcquireOutcome::Acquired);
    let tickets: Vec<u64> = (0..3)
        .map(|_| match pool.acquire() {
            AcquireOutcome::Enqueued(t) => t,
            AcquireOutcome::Acquired => panic!("saturated pool granted a connection"),
        })
        .collect();
    let err = pool.on_timeout(tickets[1]);
    assert_eq!(err, ServiceError::PoolTimeout);
    assert_eq!(pool.release(), Some(tickets[0]));
    assert_eq!(pool.release(), Some(tickets[2]));
    assert_eq!(pool.release(), None);
}

#[test]
fn init_pool_fails_fast_when_backend_is_unreachable() {
    let r = init_pool(false, 5);
    assert!(matches!(r, Err(ServiceError::ConnectionError)));
}

#[test]
fn init_pool_starts_empty_when_backend_is_reachable() {
    let pool = init_pool(true, 5).unwrap();
    assert_eq!(pool.capacity, 5);
    assert_eq!(pool.checked_out, 0);
    assert_eq!(pool.waiters.len(), 0);
}

#[test]
fn acquisition_timeout_is_one_second() {
    assert_eq!(ACQUIRE_TIMEOUT_MS, 1000);
}
