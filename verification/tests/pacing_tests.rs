//! End-to-end pacing behaviour, driven on a simulated monotonic clock: a
//! saturated source always has a full buffer ready, and a transfer happens
//! the moment the limiter admits it.

use net_bandwidth_limiter::errors::RelayError;
use net_bandwidth_limiter::limiter::RateLimiter;
use net_bandwidth_limiter::pacing::AuditedLimiter;
use net_bandwidth_limiter::tunnel::NetBandwidthLimitter;

const NANOS_PER_SEC: u64 = 1_000_000_000;

/// Drives one limiter with a saturating source for `total_bytes` bytes in
/// chunks of at most `buffer` bytes, starting at time zero. Returns the
/// (time, cumulative bytes) pairs observed right after each transfer.
fn saturate(rate: u64, buffer: u64, total_bytes: u64) -> Vec<(u64, u64)> {
    let mut limiter = RateLimiter::try_new(rate, 0).unwrap();
    let mut now: u64 = 0;
    let mut moved: u64 = 0;
    let mut log = Vec::new();
    while moved < total_bytes {
        let wait = limiter.time_until_admitted(now);
        if wait > 0 {
            now += wait;
            continue;
        }
        let chunk = buffer.min(total_bytes - moved);
        limiter.record_transfer(now, chunk);
        moved += chunk;
        log.push((now, moved));
    }
    log
}

#[test]
fn saturating_stream_stays_under_rate_plus_one_buffer() {
    // Rate 1000 B/s, buffer 100 B, 10 s worth of traffic: at every instant
    // the cumulative bytes admitted stay within rate * elapsed + buffer.
    let rate: u64 = 1_000;
    let buffer: u64 = 100;
    let log = saturate(rate, buffer, 10_000);
    for &(t, moved) in &log {
        let allowance = (rate as u128 * t as u128) / NANOS_PER_SEC as u128 + buffer as u128;
        assert!(
            moved as u128 <= allowance,
            "at {t} ns: {moved} bytes exceed allowance {allowance}"
        );
    }
}

#[test]
fn pacing_bound_holds_for_any_chunk_size_the_source_picks() {
    // The source hands over ragged chunks, never more than the buffer; the
    // bound must hold regardless of the split.
    let rate: u64 = 4_096;
    let buffer: u64 = 409;
    // Each transfer's delay is rounded down to whole nanoseconds, so the
    // allowance carries one nanosecond of slack per transfer made.
    let chunks = [1u64, 409, 200, 409, 3, 57, 409, 409, 128, 400, 9, 301];
    let mut limiter = RateLimiter::try_new(rate, 0).unwrap();
    let mut now: u64 = 0;
    let mut moved: u64 = 0;
    let mut steps: u64 = 0;
    for &chunk in chunks.iter().cycle().take(200) {
        now += limiter.time_until_admitted(now);
        limiter.record_transfer(now, chunk);
        moved += chunk;
        steps += 1;
        let allowance =
            (rate as u128 * (now as u128 + steps as u128)) / NANOS_PER_SEC as u128 + buffer as u128;
        assert!(moved as u128 <= allowance);
    }
}

#[test]
fn shared_limiter_caps_aggregate_not_per_session() {
    // Two sessions saturating the same direction through one shared limiter:
    // their aggregate converges to one rate's worth, not two.
    let rate: u64 = 1_000;
    let buffer: u64 = 100;
    let mut limiter = RateLimiter::try_new(rate, 0).unwrap();
    let mut now: u64 = 0;
    let mut per_session: [u64; 2] = [0, 0];
    let mut turn = 0usize;
    let horizon = 10 * NANOS_PER_SEC;
    while now < horizon {
        let wait = limiter.time_until_admitted(now);
        if wait > 0 {
            now += wait;
            continue;
        }
        limiter.record_transfer(now, buffer);
        per_session[turn] += buffer;
        turn = 1 - turn;
    }
    let aggregate = per_session[0] + per_session[1];
    // One rate for 10 s plus one buffer of slack, not 2 * rate * 10 s.
    assert!(aggregate <= rate * 10 + buffer);
    // And the cap was actually used: the aggregate is close to rate * T.
    assert!(aggregate >= rate * 10 - buffer);
}

#[test]
fn private_limiters_pace_sessions_independently() {
    // Sharing disabled: each of two sessions has its own limiter and each
    // independently achieves its full rate, so the aggregate is about twice
    // the per-session cap.
    let rate: u64 = 1_000;
    let buffer: u64 = 100;
    let mut totals = Vec::new();
    for _session in 0..2 {
        let log = saturate(rate, buffer, rate * 10);
        let (end, moved) = *log.last().unwrap();
        // The full 10 s of traffic went through in about 10 s of simulated
        // time (the last chunk is admitted just before the 10 s mark).
        assert!(end <= 10 * NANOS_PER_SEC);
        assert!(end >= 10 * NANOS_PER_SEC - NANOS_PER_SEC / 5);
        totals.push(moved);
    }
    assert_eq!(totals[0] + totals[1], 2 * rate * 10);
}

#[test]
fn audited_limiter_admits_only_at_the_deadline() {
    match AuditedLimiter::new(0, 0) {
        Err(e) => assert_eq!(e, RelayError::Config),
        Ok(_) => panic!("a zero rate must be rejected"),
    }
    let mut audited = match AuditedLimiter::new(1_000, 0) {
        Ok(a) => a,
        Err(_) => panic!("a positive rate must be accepted"),
    };
    // First cycle admits immediately; an early retry is refused; once the
    // deadline passes the next cycle is admitted again.
    assert!(audited.admit_and_record(0, 100, 1));
    assert_eq!(audited.time_until_admitted(0), 100_000_000);
    assert!(!audited.admit_and_record(99_999_999, 100, 2));
    assert!(audited.admit_and_record(100_000_000, 100, 2));
    assert_eq!(audited.limiter.next_admission_nanos, 200_000_000);
}

#[test]
fn concrete_scenario_1024_bytes_per_second() {
    // Outbound rate 1024 B/s; the client writes 4096 bytes at once. The
    // backend receives everything, never ahead of 1024 * t + buffer, and the
    // last byte is admitted at about 4096 / 1024 = 4 s after the first.
    let tunnel = NetBandwidthLimitter::try_new(
        String::from("127.0.0.1:11111"),
        String::from("127.0.0.1:22222"),
        1024,
        1024,
        false,
        0,
    )
    .unwrap();
    let buffer = tunnel.outbound_buffer_size();
    assert_eq!(buffer, 102);
    let (mut outbound, _inbound) = tunnel.session_limiters(0);
    let mut now: u64 = 0;
    let mut received: u64 = 0;
    let mut first_admission: Option<u64> = None;
    while received < 4096 {
        let wait = outbound.time_until_admitted(now);
        if wait > 0 {
            now += wait;
            continue;
        }
        let chunk = buffer.min(4096 - received);
        outbound.record_transfer(now, chunk);
        received += chunk;
        if first_admission.is_none() {
            first_admission = Some(now);
        }
        // Warm-up bound: cumulative delivery never exceeds 1024 * t + buffer.
        let allowance = (1024u128 * now as u128) / NANOS_PER_SEC as u128 + buffer as u128;
        assert!(received as u128 <= allowance);
    }
    assert_eq!(received, 4096);
    let elapsed = now - first_admission.unwrap();
    // Full delivery completes at about 4 s after the first byte was admitted.
    assert!(elapsed <= 4 * NANOS_PER_SEC);
    assert!(elapsed >= 4 * NANOS_PER_SEC - 2 * NANOS_PER_SEC / 10);
}
