use orcamento_api::database::{Acquire, LeasedConnection, Pool, PoolError};
use orcamento_api::errors::{normalize, ApiError, ErrorKind, Failure};

fn lease(pool: &mut Pool) -> LeasedConnection {
    match pool.acquire(0, true) {
        Acquire::Leased(lease) => lease,
        other => panic!("no lease: {:?}", other),
    }
}

#[test]
fn a_pool_without_connections_is_refused() {
    assert!(Pool::new(0, 1_000).is_none());
    assert!(Pool::new(1, 0).is_some());
}

#[test]
fn a_new_pool_has_nothing_leased() {
    let pool = Pool::new(3, 5_000).unwrap();
    assert_eq!(pool.capacity(), 3);
    assert_eq!(pool.leased(), 0);
    assert_eq!(pool.available(), 3);
    assert_eq!(pool.timeout_ms(), 5_000);
}

#[test]
fn leases_are_granted_up_to_the_capacity() {
    let mut pool = Pool::new(2, 1_000).unwrap();
    let _a = lease(&mut pool);
    assert_eq!(pool.leased(), 1);
    assert_eq!(pool.available(), 1);
    let _b = lease(&mut pool);
    assert_eq!(pool.leased(), 2);
    assert_eq!(pool.available(), 0);
    assert!(matches!(pool.acquire(0, true), Acquire::Wait(1_000)));
    assert_eq!(pool.leased(), 2);
}

#[test]
fn a_full_pool_tells_how_long_to_wait() {
    let mut pool = Pool::new(1, 1_000).unwrap();
    let _a = lease(&mut pool);
    assert!(matches!(pool.acquire(0, true), Acquire::Wait(1_000)));
    assert!(matches!(pool.acquire(1, true), Acquire::Wait(999)));
    assert!(matches!(pool.acquire(999, true), Acquire::Wait(1)));
}

#[test]
fn a_full_pool_fails_as_exhausted_once_the_timeout_has_passed() {
    let mut pool = Pool::new(2, 1_000).unwrap();
    let _a = lease(&mut pool);
    let _b = lease(&mut pool);
    assert!(matches!(pool.acquire(1_000, true), Acquire::Failed(PoolError::Exhausted)));
    assert!(matches!(pool.acquire(1_001, true), Acquire::Failed(PoolError::Exhausted)));
    assert!(matches!(pool.acquire(u64::MAX, false), Acquire::Failed(PoolError::Exhausted)));
    assert_eq!(pool.leased(), 2);
    let outward = normalize(Failure::Pool(PoolError::Exhausted));
    assert_eq!(outward.kind(), ErrorKind::ResourceExhausted);
    assert_eq!(outward, ApiError::ResourceExhausted("Service busy".into()));
}

#[test]
fn a_pool_with_no_timeout_fails_at_once_when_full() {
    let mut pool = Pool::new(1, 0).unwrap();
    let _a = lease(&mut pool);
    assert!(matches!(pool.acquire(0, true), Acquire::Failed(PoolError::Exhausted)));
}

#[test]
fn an_unreachable_backend_fails_a_free_connection() {
    let mut pool = Pool::new(1, 1_000).unwrap();
    assert!(matches!(pool.acquire(0, false), Acquire::Failed(PoolError::BackendUnavailable)));
    assert_eq!(pool.leased(), 0);
    assert!(matches!(pool.acquire(5_000, false), Acquire::Failed(PoolError::BackendUnavailable)));
    // a free connection is granted however long the request has waited
    assert!(matches!(pool.acquire(5_000, true), Acquire::Leased(_)));
}

#[test]
fn a_lease_that_comes_back_can_be_granted_again() {
    let mut pool = Pool::new(1, 1_000).unwrap();
    let a = lease(&mut pool);
    assert!(matches!(pool.acquire(10, true), Acquire::Wait(990)));
    assert!(pool.release(a));
    assert_eq!(pool.leased(), 0);
    let _b = lease(&mut pool);
    assert_eq!(pool.leased(), 1);
}

#[test]
fn a_lease_of_another_pool_does_not_upset_the_books() {
    let mut one = Pool::new(1, 1_000).unwrap();
    let mut other = Pool::new(1, 1_000).unwrap();
    let a = lease(&mut one);
    assert!(!other.release(a));
    assert_eq!(other.leased(), 0);
    assert_eq!(one.leased(), 1);
}

#[test]
fn never_more_leases_than_connections() {
    let mut pool = Pool::new(3, 100).unwrap();
    let mut held = Vec::new();
    for round in 0u64..20 {
        match pool.acquire(round % 7, round % 5 != 0) {
            Acquire::Leased(lease) => held.push(lease),
            Acquire::Wait(ms) => assert!(ms > 0 && ms <= 100),
            Acquire::Failed(_) => {}
        }
        if round % 4 == 3 {
            if let Some(lease) = held.pop() {
                assert!(pool.release(lease));
            }
        }
        assert!(pool.leased() <= pool.capacity());
        assert_eq!(pool.leased(), held.len());
        assert_eq!(pool.available(), pool.capacity() - held.len());
    }
}

#[test]
fn a_request_fails_as_exhausted_only_after_the_timeout_with_everything_leased() {
    let mut pool = Pool::new(2, 100).unwrap();
    for waited in [0u64, 99, 100, 1_000] {
        assert!(matches!(pool.acquire(waited, true), Acquire::Leased(_)));
        assert_eq!(pool.leased(), 1);
        let mut other = Pool::new(1, 100).unwrap();
        let a = lease(&mut other);
        assert_eq!(
            matches!(other.acquire(waited, true), Acquire::Failed(PoolError::Exhausted)),
            waited >= 100
        );
        assert!(other.release(a));
        assert!(matches!(other.acquire(waited, true), Acquire::Leased(_)));
        pool = Pool::new(2, 100).unwrap();
    }
}
