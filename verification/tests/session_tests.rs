use net_bandwidth_limiter::errors::RelayError;
use net_bandwidth_limiter::limiter::RateLimiter;
use net_bandwidth_limiter::session::{
    plan_iteration, step, Direction, DirectionRelay, SessionAction, SessionEvent, SessionState,
};

#[test]
fn dial_success_starts_relaying() {
    let r = step(SessionState::Connecting, SessionEvent::DialSucceeded);
    assert_eq!(r.state, SessionState::Relaying);
    assert_eq!(r.action, SessionAction::Proceed);
    assert_eq!(r.fault, None);
}

#[test]
fn dial_failure_fails_fast() {
    // An unreachable backend ends the session in one step: the client link is
    // closed, a connect fault is reported, and nothing else is touched.
    let r = step(SessionState::Connecting, SessionEvent::DialFailed);
    assert_eq!(r.state, SessionState::Closed);
    assert_eq!(r.action, SessionAction::CloseClientLink);
    assert_eq!(r.fault, Some(RelayError::Connect));
}

#[test]
fn eof_closes_both_links_in_one_step() {
    for direction in [Direction::Outbound, Direction::Inbound] {
        let r = step(SessionState::Relaying, SessionEvent::EndOfStream { direction });
        assert_eq!(r.state, SessionState::Closing);
        assert_eq!(r.action, SessionAction::ShutdownBothLinks);
        assert_eq!(r.fault, None);
        let done = step(r.state, SessionEvent::LinksShutDown { shutdown_failed: false });
        assert_eq!(done.state, SessionState::Closed);
        assert_eq!(done.action, SessionAction::Finish);
        assert_eq!(done.fault, None);
    }
}

#[test]
fn io_error_closes_both_links_with_fault() {
    let r = step(
        SessionState::Relaying,
        SessionEvent::LinkFailed { direction: Direction::Inbound },
    );
    assert_eq!(r.state, SessionState::Closing);
    assert_eq!(r.action, SessionAction::ShutdownBothLinks);
    assert_eq!(r.fault, Some(RelayError::Io));
}

#[test]
fn shutdown_errors_are_swallowed() {
    let r = step(SessionState::Closing, SessionEvent::LinksShutDown { shutdown_failed: true });
    assert_eq!(r.state, SessionState::Closed);
    assert_eq!(r.action, SessionAction::Finish);
    assert_eq!(r.fault, None);
}

#[test]
fn relaying_continues_on_transfer_and_tick() {
    let r = step(
        SessionState::Relaying,
        SessionEvent::ChunkRelayed { direction: Direction::Outbound, bytes: 42 },
    );
    assert_eq!(r.state, SessionState::Relaying);
    assert_eq!(r.action, SessionAction::Proceed);
    assert_eq!(r.fault, None);
    let t = step(SessionState::Relaying, SessionEvent::WakeTimerElapsed);
    assert_eq!(t.state, SessionState::Relaying);
    assert_eq!(t.action, SessionAction::Proceed);
}

#[test]
fn closed_is_terminal_and_stray_events_are_ignored() {
    let r = step(SessionState::Closed, SessionEvent::DialSucceeded);
    assert_eq!(r.state, SessionState::Closed);
    assert_eq!(r.action, SessionAction::Ignore);
    let s = step(SessionState::Connecting, SessionEvent::WakeTimerElapsed);
    assert_eq!(s.state, SessionState::Connecting);
    assert_eq!(s.action, SessionAction::Ignore);
}

#[test]
fn plan_marks_each_direction_independently() {
    let outbound = RateLimiter { rate_bytes_per_sec: 10, next_admission_nanos: 100 };
    let inbound = RateLimiter { rate_bytes_per_sec: 10, next_admission_nanos: 50 };
    let p = plan_iteration(&outbound, &inbound, 60);
    assert!(!p.outbound_eligible);
    assert!(p.inbound_eligible);
    assert_eq!(p.wake_at_nanos, Some(100));
}

#[test]
fn plan_with_both_eligible_needs_no_timer() {
    let outbound = RateLimiter { rate_bytes_per_sec: 10, next_admission_nanos: 100 };
    let inbound = RateLimiter { rate_bytes_per_sec: 10, next_admission_nanos: 50 };
    let p = plan_iteration(&outbound, &inbound, 100);
    assert!(p.outbound_eligible);
    assert!(p.inbound_eligible);
    assert_eq!(p.wake_at_nanos, None);
}

#[test]
fn plan_with_neither_eligible_wakes_at_earliest_deadline() {
    let outbound = RateLimiter { rate_bytes_per_sec: 10, next_admission_nanos: 100 };
    let inbound = RateLimiter { rate_bytes_per_sec: 10, next_admission_nanos: 50 };
    let p = plan_iteration(&outbound, &inbound, 10);
    assert!(!p.outbound_eligible);
    assert!(!p.inbound_eligible);
    assert_eq!(p.wake_at_nanos, Some(50));
}

#[test]
fn chunk_passes_through_unchanged() {
    let mut pump = DirectionRelay::new(Direction::Outbound, 8);
    let mut buffer = vec![0u8; 8];
    buffer[0] = 0xde;
    buffer[1] = 0xad;
    buffer[2] = 0xbe;
    let out = pump.accept_chunk(&buffer, 3);
    assert_eq!(out, vec![0xde, 0xad, 0xbe]);
    assert_eq!(pump.bytes_relayed, 3);
}

#[test]
fn stream_is_delivered_in_order_across_reads() {
    // The client hands over a message split across reads of varying size; the
    // forwarded chunks, concatenated, are the identical byte sequence.
    let message: Vec<u8> = (0u8..=255).collect();
    let mut pump = DirectionRelay::new(Direction::Outbound, 64);
    let mut delivered: Vec<u8> = Vec::new();
    let mut offset = 0usize;
    for read_len in [1usize, 63, 64, 17, 40, 64, 7] {
        let n = read_len.min(message.len() - offset);
        if n == 0 {
            break;
        }
        let mut buffer = vec![0u8; 64];
        buffer[..n].copy_from_slice(&message[offset..offset + n]);
        let out = pump.accept_chunk(&buffer, n);
        delivered.extend_from_slice(&out);
        offset += n;
    }
    assert_eq!(offset, 256);
    assert_eq!(delivered, message);
    assert_eq!(pump.bytes_relayed, 256);
}
