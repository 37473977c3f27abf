use net_bandwidth_limiter::errors::RelayError;
use net_bandwidth_limiter::limiter::RateLimiter;

#[test]
fn rejects_zero_rate() {
    let r = RateLimiter::try_new(0, 0);
    assert_eq!(r.unwrap_err(), RelayError::Config);
}

#[test]
fn accepts_positive_rate_and_starts_ready() {
    let l = RateLimiter::try_new(1024, 77).unwrap();
    assert_eq!(l.rate_bytes_per_sec, 1024);
    assert_eq!(l.next_admission_nanos, 77);
    assert_eq!(l.time_until_admitted(77), 0);
}

#[test]
fn wait_is_remaining_time_before_deadline() {
    let l = RateLimiter { rate_bytes_per_sec: 10, next_admission_nanos: 1_000 };
    assert_eq!(l.time_until_admitted(0), 1_000);
    assert_eq!(l.time_until_admitted(999), 1);
    assert_eq!(l.time_until_admitted(1_000), 0);
    assert_eq!(l.time_until_admitted(2_000), 0);
}

#[test]
fn record_transfer_charges_exact_delay() {
    // 102 bytes at 1024 B/s is 102 / 1024 s = 99_609_375 ns exactly.
    let mut l = RateLimiter::try_new(1024, 0).unwrap();
    l.record_transfer(0, 102);
    assert_eq!(l.next_admission_nanos, 99_609_375);
}

#[test]
fn record_transfer_starts_from_now_when_idle() {
    // The limiter was ready long before `now`: the delay counts from `now`,
    // not from the stale deadline, so idleness earns no credit.
    let mut l = RateLimiter::try_new(1_000_000_000, 0).unwrap();
    l.record_transfer(5_000, 3);
    assert_eq!(l.next_admission_nanos, 5_003);
}

#[test]
fn record_transfer_queues_behind_pending_deadline() {
    // Two back-to-back transfers: the second delay starts where the first
    // deadline ended.
    let mut l = RateLimiter::try_new(1_000, 0).unwrap();
    l.record_transfer(0, 1); // 1 B at 1000 B/s = 1_000_000 ns
    assert_eq!(l.next_admission_nanos, 1_000_000);
    l.record_transfer(10, 1);
    assert_eq!(l.next_admission_nanos, 2_000_000);
}

#[test]
fn deadline_never_moves_backwards() {
    let mut l = RateLimiter::try_new(50, 0).unwrap();
    let mut prev = l.next_admission_nanos;
    for i in 0..20u64 {
        l.record_transfer(i * 3, 7);
        assert!(l.next_admission_nanos >= prev);
        prev = l.next_admission_nanos;
    }
}

#[test]
fn deadline_saturates_at_the_largest_instant() {
    // The largest possible transfer at the lowest rate overflows any clock:
    // the deadline pins to the end of representable time instead.
    let mut l = RateLimiter::try_new(1, 0).unwrap();
    l.record_transfer(0, u64::MAX);
    assert_eq!(l.next_admission_nanos, u64::MAX);
    // And it stays there.
    l.record_transfer(1_000, 1);
    assert_eq!(l.next_admission_nanos, u64::MAX);
}

#[test]
fn no_division_by_zero_at_runtime() {
    // A limiter can only be built with a positive rate, so pacing arithmetic
    // never divides by zero even for degenerate transfers.
    let mut l = RateLimiter::try_new(1, 0).unwrap();
    l.record_transfer(0, 0);
    assert_eq!(l.next_admission_nanos, 0);
}
