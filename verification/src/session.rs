//! The per-connection relay session.
//!
//! A session owns one client link and one backend link and pumps bytes both
//! ways. Its life is the linear state machine `Connecting -> Relaying ->
//! Closing -> Closed`; each loop iteration services exactly one event. The
//! decisions — which direction may read, what a read outcome means, which
//! bytes go to the destination, when the links close — are made here on plain
//! values; the sockets, timers and the loop that feeds events in live with
//! the caller.

use vstd::prelude::*;
use vstd::seq_lib::*;
use crate::errors::RelayError;
use crate::limiter::RateLimiter;

verus! {

/// One of the two traffic directions of a session.
///
/// Outbound carries client bytes to the backend; inbound carries backend
/// bytes to the client.
#[derive(Clone, Copy, Debug, PartialEq, Eq, Structural)]
pub enum Direction {
    Outbound,
    Inbound,
}

/// The linear life of a session: dial, relay, shut both links, done.
#[derive(Clone, Copy, Debug, PartialEq, Eq, Structural)]
pub enum SessionState {
    Connecting,
    Relaying,
    Closing,
    Closed,
}

/// One event fed to the session per loop iteration.
#[derive(Clone, Copy, Debug, PartialEq, Eq, Structural)]
pub enum SessionEvent {
    /// The backend dial completed.
    DialSucceeded,
    /// The backend dial failed.
    DialFailed,
    /// One chunk was read from the source link and fully written to the
    /// destination link of `direction`.
    ChunkRelayed { direction: Direction, bytes: u64 },
    /// A read on `direction`'s source link returned zero bytes: the peer
    /// closed its write side.
    EndOfStream { direction: Direction },
    /// A read or write on `direction` failed.
    LinkFailed { direction: Direction },
    /// An admission timer elapsed; nothing was transferred, the next
    /// iteration re-evaluates eligibility.
    WakeTimerElapsed,
    /// Both links have been shut down; `shutdown_failed` reports whether
    /// closing an already-broken peer failed.
    LinksShutDown { shutdown_failed: bool },
}

/// What the caller must do after a step.
#[derive(Clone, Copy, Debug, PartialEq, Eq, Structural)]
pub enum SessionAction {
    /// Run the next relay iteration.
    Proceed,
    /// Close the client link only; no backend link was ever opened.
    CloseClientLink,
    /// Shut down both links, best effort.
    ShutdownBothLinks,
    /// The session is over; release its resources.
    Finish,
    /// The event does not belong to this state; do nothing.
    Ignore,
}

/// The outcome of one step: the next state, the caller's duty, and the fault
/// to report, if any.
pub struct StepResult {
    pub state: SessionState,
    pub action: SessionAction,
    pub fault: Option<RelayError>,
}

/// The session transition table.
///
/// - A failed dial ends the session at once: the client link is closed and a
///   connect fault is reported; the listener is not involved.
/// - End of stream or an I/O fault while relaying moves to `Closing` with
///   both links to be shut down; only the I/O fault is reported, end of
///   stream is a normal end.
/// - A shutdown failure on an already-broken link is swallowed: the session
///   still finishes and no fault is reported.
/// - `Closed` is terminal; stray events change nothing.
pub open spec fn step_spec(state: SessionState, event: SessionEvent) -> StepResult {
    match (state, event) {
        (SessionState::Connecting, SessionEvent::DialSucceeded) => StepResult {
            state: SessionState::Relaying,
            action: SessionAction::Proceed,
            fault: None,
        },
        (SessionState::Connecting, SessionEvent::DialFailed) => StepResult {
            state: SessionState::Closed,
            action: SessionAction::CloseClientLink,
            fault: Some(RelayError::Connect),
        },
        (SessionState::Relaying, SessionEvent::ChunkRelayed { .. }) => StepResult {
            state: SessionState::Relaying,
            action: SessionAction::Proceed,
            fault: None,
        },
        (SessionState::Relaying, SessionEvent::WakeTimerElapsed) => StepResult {
            state: SessionState::Relaying,
            action: SessionAction::Proceed,
            fault: None,
        },
        (SessionState::Relaying, SessionEvent::EndOfStream { .. }) => StepResult {
            state: SessionState::Closing,
            action: SessionAction::ShutdownBothLinks,
            fault: None,
        },
        (SessionState::Relaying, SessionEvent::LinkFailed { .. }) => StepResult {
            state: SessionState::Closing,
            action: SessionAction::ShutdownBothLinks,
            fault: Some(RelayError::Io),
        },
        (SessionState::Closing, SessionEvent::LinksShutDown { .. }) => StepResult {
            state: SessionState::Closed,
            action: SessionAction::Finish,
            fault: None,
        },
        _ => StepResult { state, action: SessionAction::Ignore, fault: None },
    }
}

/// Advances the session by one event.
pub fn step(state: SessionState, event: SessionEvent) -> (r: StepResult)
    ensures
        r == step_spec(state, event),
{
    match (state, event) {
        (SessionState::Connecting, SessionEvent::DialSucceeded) => StepResult {
            state: SessionState::Relaying,
            action: SessionAction::Proceed,
            fault: None,
        },
        (SessionState::Connecting, SessionEvent::DialFailed) => StepResult {
            state: SessionState::Closed,
            action: SessionAction::CloseClientLink,
            fault: Some(RelayError::Connect),
        },
        (SessionState::Relaying, SessionEvent::ChunkRelayed { .. }) => StepResult {
            state: SessionState::Relaying,
            action: SessionAction::Proceed,
            fault: None,
        },
        (SessionState::Relaying, SessionEvent::WakeTimerElapsed) => StepResult {
            state: SessionState::Relaying,
            action: SessionAction::Proceed,
            fault: None,
        },
        (SessionState::Relaying, SessionEvent::EndOfStream { .. }) => StepResult {
            state: SessionState::Closing,
            action: SessionAction::ShutdownBothLinks,
            fault: None,
        },
        (SessionState::Relaying, SessionEvent::LinkFailed { .. }) => StepResult {
            state: SessionState::Closing,
            action: SessionAction::ShutdownBothLinks,
            fault: Some(RelayError::Io),
        },
        (SessionState::Closing, SessionEvent::LinksShutDown { .. }) => StepResult {
            state: SessionState::Closed,
            action: SessionAction::Finish,
            fault: None,
        },
        (s, _) => StepResult { state: s, action: SessionAction::Ignore, fault: None },
    }
}

/// What one relay iteration may do: which directions are eligible to read
/// now, and if one is not, when to wake and re-evaluate.
pub struct IterationPlan {
    pub outbound_eligible: bool,
    pub inbound_eligible: bool,
    /// The earliest pending admission instant among the ineligible
    /// directions; absent when both may read now.
    pub wake_at_nanos: Option<u64>,
}

/// The wake deadline an iteration contributes: the smaller of the two
/// admission deadlines that still lie in the future, if any.
pub open spec fn wake_deadline(outbound_next: u64, inbound_next: u64, now: u64) -> Option<u64> {
    if now >= outbound_next && now >= inbound_next {
        None
    } else if now >= outbound_next {
        Some(inbound_next)
    } else if now >= inbound_next {
        Some(outbound_next)
    } else if outbound_next <= inbound_next {
        Some(outbound_next)
    } else {
        Some(inbound_next)
    }
}

/// Evaluates, independently for each direction, whether its next read is
/// admitted at `now_nanos`; an ineligible direction contributes its admission
/// deadline as a wake timer instead.
pub fn plan_iteration(outbound: &RateLimiter, inbound: &RateLimiter, now_nanos: u64) -> (p:
    IterationPlan)
    ensures
        p.outbound_eligible <==> now_nanos >= outbound.next_admission_nanos,
        p.inbound_eligible <==> now_nanos >= inbound.next_admission_nanos,
        p.wake_at_nanos == wake_deadline(
            outbound.next_admission_nanos,
            inbound.next_admission_nanos,
            now_nanos,
        ),
        p.wake_at_nanos is None <==> p.outbound_eligible && p.inbound_eligible,
        p.wake_at_nanos matches Some(t) ==> t > now_nanos,
{
    let outbound_wait = outbound.time_until_admitted(now_nanos);
    let inbound_wait = inbound.time_until_admitted(now_nanos);
    let outbound_eligible = outbound_wait == 0;
    let inbound_eligible = inbound_wait == 0;
    let wake_at_nanos = if outbound_eligible && inbound_eligible {
        None
    } else if outbound_eligible {
        Some(inbound.next_admission_nanos)
    } else if inbound_eligible {
        Some(outbound.next_admission_nanos)
    } else if outbound.next_admission_nanos <= inbound.next_admission_nanos {
        Some(outbound.next_admission_nanos)
    } else {
        Some(inbound.next_admission_nanos)
    };
    IterationPlan { outbound_eligible, inbound_eligible, wake_at_nanos }
}

/// The bytes a stream carries: its chunks, in order, laid end to end.
pub open spec fn stream_bytes(chunks: Seq<Seq<u8>>) -> Seq<u8> {
    chunks.flatten()
}

/// One direction's pump: it accounts the chunks read from the source link and
/// the chunks handed over for the destination link, and keeps them identical.
pub struct DirectionRelay {
    pub direction: Direction,
    /// Fixed read-buffer capacity in bytes; positive, sized from the rate.
    pub buffer_capacity: usize,
    /// Cumulative bytes relayed, saturating at the largest count.
    pub bytes_relayed: u64,
    /// The chunks read from the source link, oldest first.
    pub received: Ghost<Seq<Seq<u8>>>,
    /// The chunks fully written to the destination link, oldest first.
    pub forwarded: Ghost<Seq<Seq<u8>>>,
}

impl DirectionRelay {
    /// Every chunk read so far has been forwarded unchanged and in order.
    pub open spec fn wf(self) -> bool {
        &&& self.buffer_capacity > 0
        &&& self.forwarded@ == self.received@
    }

    /// A fresh pump that has relayed nothing.
    pub fn new(direction: Direction, buffer_capacity: usize) -> (r: DirectionRelay)
        requires
            buffer_capacity > 0,
        ensures
            r.direction == direction,
            r.buffer_capacity == buffer_capacity,
            r.bytes_relayed == 0,
            r.received@ == Seq::<Seq<u8>>::empty(),
            r.forwarded@ == Seq::<Seq<u8>>::empty(),
            r.wf(),
    {
        DirectionRelay {
            direction,
            buffer_capacity,
            bytes_relayed: 0,
            received: Ghost(Seq::empty()),
            forwarded: Ghost(Seq::empty()),
        }
    }

    /// Takes the `len` bytes a read put at the front of `buffer` and hands
    /// back exactly those bytes, in order, for the destination link. The
    /// caller must write all of them before reading this direction again.
    pub fn accept_chunk(&mut self, buffer: &Vec<u8>, len: usize) -> (out: Vec<u8>)
        requires
            old(self).wf(),
            0 < len <= buffer.len(),
            buffer.len() == old(self).buffer_capacity,
        ensures
            final(self).wf(),
            out@ == buffer@.subrange(0, len as int),
            final(self).received@ == old(self).received@.push(buffer@.subrange(0, len as int)),
            final(self).forwarded@ == old(self).forwarded@.push(out@),
            final(self).direction == old(self).direction,
            final(self).buffer_capacity == old(self).buffer_capacity,
            final(self).bytes_relayed == (if old(self).bytes_relayed + len <= u64::MAX {
                old(self).bytes_relayed + len
            } else {
                u64::MAX as int
            }),
            stream_bytes(final(self).forwarded@) == stream_bytes(final(self).received@),
    {
        let mut out: Vec<u8> = Vec::new();
        let mut i: usize = 0;
        while i < len
            invariant
                i <= len,
                len <= buffer.len(),
                out@ == buffer@.subrange(0, i as int),
            decreases len - i,
        {
            out.push(buffer[i]);
            i = i + 1;
            proof {
                assert(out@ =~= buffer@.subrange(0, i as int));
            }
        }
        self.bytes_relayed = if self.bytes_relayed <= u64::MAX - (len as u64) {
            self.bytes_relayed + (len as u64)
        } else {
            u64::MAX
        };
        let ghost new_received = self.received@.push(buffer@.subrange(0, len as int));
        let ghost new_forwarded = self.forwarded@.push(out@);
        self.received = Ghost(new_received);
        self.forwarded = Ghost(new_forwarded);
        out
    }
}

/// Pass-through correctness: a well-formed pump has forwarded to its
/// destination exactly the byte stream it received from its source — no byte
/// dropped, duplicated, or reordered within the direction.
pub proof fn lemma_pass_through(relay: DirectionRelay)
    requires
        relay.wf(),
    ensures
        stream_bytes(relay.forwarded@) == stream_bytes(relay.received@),
{
}

/// Fail fast on an unreachable backend: a failed dial closes the client link
/// and ends the session in one step, reporting a connect fault — it never
/// reaches the relay loop and never touches the listener.
pub proof fn lemma_fail_fast_on_dial_failure()
    ensures
        step_spec(SessionState::Connecting, SessionEvent::DialFailed) == (StepResult {
            state: SessionState::Closed,
            action: SessionAction::CloseClientLink,
            fault: Some(RelayError::Connect),
        }),
{
}

/// End-of-stream propagation: a zero-length read on either link orders both
/// links shut in the very step that observes it, and the following shutdown
/// acknowledgement finishes the session — even when closing the other,
/// already-broken link fails.
pub proof fn lemma_eof_closes_both_links(direction: Direction, shutdown_failed: bool)
    ensures
        step_spec(SessionState::Relaying, SessionEvent::EndOfStream { direction }) == (StepResult {
            state: SessionState::Closing,
            action: SessionAction::ShutdownBothLinks,
            fault: None,
        }),
        step_spec(SessionState::Closing, SessionEvent::LinksShutDown { shutdown_failed })
            == (StepResult {
            state: SessionState::Closed,
            action: SessionAction::Finish,
            fault: None,
        }),
{
}

/// A shutdown failure on an already-closed peer is swallowed: it is never
/// reported as a fault of the relay.
pub proof fn lemma_shutdown_errors_swallowed(shutdown_failed: bool)
    ensures
        step_spec(SessionState::Closing, SessionEvent::LinksShutDown { shutdown_failed }).fault
            is None,
{
}

/// `Closed` is terminal: no event moves the session out of it.
pub proof fn lemma_closed_is_terminal(event: SessionEvent)
    ensures
        step_spec(SessionState::Closed, event).state == SessionState::Closed,
{
}

} // verus!
