use sqlite_rw_pool::pool::acquire_outcome;
use sqlite_rw_pool::pool::pool_capacity;
use sqlite_rw_pool::pool::pool_min_idle;
use sqlite_rw_pool::pool::PoolState;
use sqlite_rw_pool::pool::TeardownState;
use sqlite_rw_pool::Error;

#[test]
fn writer_pools_always_have_capacity_one() {
    assert_eq!(pool_capacity(true, 16), 1);
    assert_eq!(pool_capacity(false, 16), 16);
    assert_eq!(pool_min_idle(true, None), Some(1));
    assert_eq!(pool_min_idle(false, Some(4)), Some(4));
}

#[test]
fn reader_admission_stops_at_capacity() {
    let mut s = PoolState::new(2);
    assert!(s.try_acquire_read());
    assert!(s.try_acquire_read());
    // A third concurrent reader is refused until one is released.
    assert!(!s.try_acquire_read());
    s.release_read();
    assert!(s.try_acquire_read());
}

#[test]
fn writer_admission_is_exclusive() {
    let mut s = PoolState::new(8);
    assert!(s.try_acquire_write());
    assert!(!s.try_acquire_write());
    s.release_write();
    assert!(s.try_acquire_write());
}

#[test]
fn readers_and_writer_use_separate_permits() {
    let mut s = PoolState::new(1);
    assert!(s.try_acquire_read());
    assert!(s.try_acquire_write());
    assert!(!s.try_acquire_read());
    assert!(!s.try_acquire_write());
}

#[test]
fn no_permit_is_a_timeout_error() {
    // An exhausted pool with a zero timeout grants no permit; the attempt
    // must fail with the timeout error, not a connection error.
    let r: Result<i32, Error> = acquire_outcome(false, Ok(5));
    assert_eq!(r, Err(Error::ConnectionPermitRetrievalTimeout));
}

#[test]
fn failed_checkout_after_permit_is_a_connection_failure() {
    let r: Result<i32, Error> = acquire_outcome(true, Err("pool closed".to_string()));
    assert_eq!(r, Err(Error::ConnectionFailure("pool closed".to_string())));
}

#[test]
fn granted_permit_hands_the_connection_out() {
    let r: Result<i32, Error> = acquire_outcome(true, Ok(7));
    assert_eq!(r, Ok(7));
}

#[test]
fn teardown_closes_before_releasing() {
    let mut t = TeardownState::begin();
    assert!(!t.connection_closed);
    assert!(!t.permit_released);
    t.close_connection();
    assert!(t.connection_closed);
    assert!(!t.permit_released);
    t.release_permit();
    assert!(t.permit_released);
}
