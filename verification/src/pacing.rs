//! The pacing laws: what the admission discipline guarantees over time.
//!
//! The model is a trace of transfers against one limiter. Each transfer
//! carries the session that made it, the instant it was admitted, and its
//! byte count; the limiter's deadline folds over the trace exactly as
//! `RateLimiter::record_transfer` advances it (short of saturation). A trace
//! is admissible when every transfer waited for the deadline the earlier
//! ones had promised. From admissibility alone follow the throughput bounds:
//! one rate's worth of bytes per second plus one buffer of slack, whether the
//! limiter is private to a session or shared by many.

use vstd::prelude::*;
use vstd::arithmetic::div_mod::{lemma_fundamental_div_mod, lemma_mod_division_less_than_divisor};
use vstd::arithmetic::mul::{
    lemma_mul_by_zero_is_zero,
    lemma_mul_inequality,
    lemma_mul_is_commutative,
    lemma_mul_is_distributive_add,
    lemma_mul_is_distributive_add_other_way,
};
use crate::errors::RelayError;
use crate::limiter::{NANOS_PER_SEC, RateLimiter, advanced_deadline, pacing_delay_nanos};

verus! {

/// One admitted transfer: which session made it, when, and how many bytes.
pub struct Transfer {
    pub session: u64,
    pub at_nanos: u64,
    pub bytes: u64,
}

/// The limiter's admission deadline after the whole trace, starting from
/// deadline `start`: each transfer moves it to the later of the previous
/// deadline and the transfer's instant, plus the transfer's pacing delay.
pub open spec fn deadline_after(start: int, rate: int, trace: Seq<Transfer>) -> int
    recommends
        rate > 0,
    decreases trace.len(),
{
    if trace.len() == 0 {
        start
    } else {
        let prev = deadline_after(start, rate, trace.drop_last());
        let t = trace.last();
        let base = if prev >= t.at_nanos as int {
            prev
        } else {
            t.at_nanos as int
        };
        base + pacing_delay_nanos(t.bytes as int, rate)
    }
}

/// A trace is admissible when every transfer happened no earlier than the
/// deadline left by the transfers before it.
pub open spec fn admissible(start: int, rate: int, trace: Seq<Transfer>) -> bool {
    forall|i: int|
        0 <= i < trace.len() ==> (#[trigger] trace[i]).at_nanos as int >= deadline_after(
            start,
            rate,
            trace.take(i),
        )
}

/// The bytes the whole trace moved.
pub open spec fn total_bytes(trace: Seq<Transfer>) -> int
    decreases trace.len(),
{
    if trace.len() == 0 {
        0
    } else {
        total_bytes(trace.drop_last()) + trace.last().bytes
    }
}

/// The pacing delay the whole trace earned.
pub open spec fn total_delay(rate: int, trace: Seq<Transfer>) -> int
    recommends
        rate > 0,
    decreases trace.len(),
{
    if trace.len() == 0 {
        0
    } else {
        total_delay(rate, trace.drop_last()) + pacing_delay_nanos(trace.last().bytes as int, rate)
    }
}

/// The deadline after a nonempty trace lies at least the trace's whole
/// pacing delay past the first transfer's instant.
proof fn lemma_deadline_lower_bound(start: int, rate: int, trace: Seq<Transfer>)
    requires
        rate > 0,
        trace.len() > 0,
    ensures
        deadline_after(start, rate, trace) >= trace[0].at_nanos + total_delay(rate, trace),
    decreases trace.len(),
{
    if trace.len() == 1 {
        assert(trace.drop_last().len() == 0);
        assert(deadline_after(start, rate, trace.drop_last()) == start);
        assert(total_delay(rate, trace.drop_last()) == 0);
    } else {
        lemma_deadline_lower_bound(start, rate, trace.drop_last());
    }
}

/// In an admissible trace, the elapsed time from first to last transfer
/// covers the pacing delay of everything but the last transfer.
proof fn lemma_elapsed_covers_delay(start: int, rate: int, trace: Seq<Transfer>)
    requires
        rate > 0,
        trace.len() >= 2,
        admissible(start, rate, trace),
    ensures
        trace.last().at_nanos >= trace[0].at_nanos + total_delay(rate, trace.drop_last()),
{
    let k = trace.len() - 1;
    assert(trace[k].at_nanos as int >= deadline_after(start, rate, trace.take(k)));
    assert(trace.take(k) =~= trace.drop_last());
    lemma_deadline_lower_bound(start, rate, trace.drop_last());
}

/// Nanoseconds-scaled bytes never exceed the rate-scaled delay they earn,
/// up to one byte's worth of rounding per transfer.
proof fn lemma_bytes_bounded_by_delay(rate: int, trace: Seq<Transfer>)
    requires
        rate > 0,
    ensures
        NANOS_PER_SEC * total_bytes(trace) <= rate * total_delay(rate, trace) + (rate - 1)
            * trace.len(),
    decreases trace.len(),
{
    if trace.len() > 0 {
        let prefix = trace.drop_last();
        let b = trace.last().bytes as int;
        let d = pacing_delay_nanos(b, rate);
        lemma_bytes_bounded_by_delay(rate, prefix);
        lemma_fundamental_div_mod(b * NANOS_PER_SEC, rate);
        lemma_mod_division_less_than_divisor(b * NANOS_PER_SEC, rate);
        assert((b * NANOS_PER_SEC) == rate * d + (b * NANOS_PER_SEC) % rate);
        assert(NANOS_PER_SEC * b <= rate * d + (rate - 1));
        lemma_mul_is_distributive_add(rate, total_delay(rate, prefix), d);
        lemma_mul_is_distributive_add(rate - 1, prefix.len() as int, 1);
        assert(NANOS_PER_SEC * total_bytes(trace) == NANOS_PER_SEC * total_bytes(prefix)
            + NANOS_PER_SEC * b) by {
            lemma_mul_is_distributive_add(NANOS_PER_SEC as int, total_bytes(prefix), b);
        }
    }
}

/// Pacing bound: an admissible trace whose single transfers are capped at
/// `cap` bytes (the read-buffer size) moves, scaled to nanoseconds, at most
/// the rate times the elapsed time, plus one buffer of slack, plus less than
/// one byte of rounding per transfer.
///
/// In bytes per second: throughput over the window from first to last
/// transfer stays below `rate`, with one buffer's worth of burst and a
/// vanishing rounding term (`len * rate / NANOS_PER_SEC`) of slack.
pub proof fn lemma_pacing_bound(start: int, rate: int, cap: int, trace: Seq<Transfer>)
    requires
        rate > 0,
        trace.len() > 0,
        admissible(start, rate, trace),
        forall|i: int| 0 <= i < trace.len() ==> (#[trigger] trace[i]).bytes <= cap,
    ensures
        NANOS_PER_SEC * total_bytes(trace) <= rate * (trace.last().at_nanos
            - trace[0].at_nanos) + trace.len() * rate + NANOS_PER_SEC * cap,
{
    let first: int = trace[0].at_nanos as int;
    let last: int = trace.last().at_nanos as int;
    let k: int = trace.len() as int;
    let b = trace.last().bytes as int;
    assert(NANOS_PER_SEC * b <= NANOS_PER_SEC * cap) by {
        lemma_mul_inequality(b, cap, NANOS_PER_SEC as int);
    }
    if trace.len() == 1 {
        assert(trace.drop_last().len() == 0);
        assert(total_bytes(trace.drop_last()) == 0);
        assert(total_bytes(trace) == b);
        assert(rate * (last - first) == 0) by {
            assert(last == first);
        }
        assert(k * rate == rate);
    } else {
        let prefix = trace.drop_last();
        lemma_bytes_bounded_by_delay(rate, prefix);
        lemma_elapsed_covers_delay(start, rate, trace);
        assert(rate * total_delay(rate, prefix) <= rate * (last - first)) by {
            lemma_mul_inequality(total_delay(rate, prefix), last - first, rate);
        }
        assert(NANOS_PER_SEC * total_bytes(trace) == NANOS_PER_SEC * total_bytes(prefix)
            + NANOS_PER_SEC * b) by {
            lemma_mul_is_distributive_add(NANOS_PER_SEC as int, total_bytes(prefix), b);
        }
        assert((rate - 1) * (k - 1) <= k * rate) by (nonlinear_arith)
            requires
                k >= 1,
                rate >= 1,
        ;
    }
}

/// `RateLimiter::record_transfer` advances its deadline exactly as the trace
/// model does: recording transfer `t` at a limiter whose deadline matches a
/// trace extends that trace by `t`, as long as the deadline does not
/// saturate.
pub proof fn lemma_record_extends_trace(
    start: int,
    rate: u64,
    trace: Seq<Transfer>,
    t: Transfer,
    next: u64,
    now: u64,
)
    requires
        rate > 0,
        next as int == deadline_after(start, rate as int, trace),
        t.at_nanos == now,
        (if next >= now {
            next as int
        } else {
            now as int
        }) + pacing_delay_nanos(t.bytes as int, rate as int) <= u64::MAX as int,
    ensures
        deadline_after(start, rate as int, trace.push(t)) == advanced_deadline(
            next,
            now,
            t.bytes,
            rate,
        ),
{
    assert(trace.push(t).drop_last() =~= trace);
    assert(trace.push(t).last() == t);
}

/// A limiter together with the ghost trace of every transfer it admitted.
///
/// The relay uses a limiter in one cycle: check admission, transfer, record.
/// Driving that cycle through this wrapper proves that the recorded history
/// is always admissible, so the pacing bounds below apply to it — the
/// executable limiter cannot be talked into exceeding them.
pub struct AuditedLimiter {
    pub limiter: RateLimiter,
    /// The deadline the limiter started with, at its creation.
    pub start: Ghost<int>,
    /// Every admitted transfer, in admission order.
    pub trace: Ghost<Seq<Transfer>>,
}

impl AuditedLimiter {
    /// The limiter's deadline is exactly the trace model's fold of its
    /// history, and that history is admissible.
    pub open spec fn wf(self) -> bool {
        &&& self.limiter.wf()
        &&& self.limiter.next_admission_nanos as int == deadline_after(
            self.start@,
            self.limiter.rate_bytes_per_sec as int,
            self.trace@,
        )
        &&& admissible(self.start@, self.limiter.rate_bytes_per_sec as int, self.trace@)
    }

    /// Wraps a fresh limiter with an empty history. A zero rate is a
    /// configuration error, exactly as for the bare limiter.
    pub fn new(rate_bytes_per_sec: u64, now_nanos: u64) -> (r: Result<AuditedLimiter, RelayError>)
        ensures
            rate_bytes_per_sec > 0 ==> (r matches Ok(a) && a.wf() && a.trace@.len() == 0
                && a.limiter.rate_bytes_per_sec == rate_bytes_per_sec
                && a.limiter.next_admission_nanos == now_nanos),
            rate_bytes_per_sec == 0 ==> (r matches Err(e) && e == RelayError::Config),
    {
        let limiter = match RateLimiter::try_new(rate_bytes_per_sec, now_nanos) {
            Ok(l) => l,
            Err(e) => {
                return Err(e);
            },
        };
        let audited = AuditedLimiter {
            limiter,
            start: Ghost(now_nanos as int),
            trace: Ghost(Seq::empty()),
        };
        proof {
            assert(audited.trace@.len() == 0);
            assert(deadline_after(
                audited.start@,
                audited.limiter.rate_bytes_per_sec as int,
                audited.trace@,
            ) == audited.start@);
        }
        Ok(audited)
    }

    /// One admission cycle for `session` at `now_nanos`: if the deadline has
    /// not been reached nothing happens and the cycle reports false;
    /// otherwise the transfer of `bytes` is admitted, recorded, and appended
    /// to the history — which stays admissible.
    pub fn admit_and_record(&mut self, now_nanos: u64, bytes: u64, session: u64) -> (admitted:
        bool)
        requires
            old(self).wf(),
            now_nanos as int + pacing_delay_nanos(
                bytes as int,
                old(self).limiter.rate_bytes_per_sec as int,
            ) <= u64::MAX as int,
        ensures
            final(self).wf(),
            admitted <==> now_nanos >= old(self).limiter.next_admission_nanos,
            !admitted ==> *final(self) == *old(self),
            admitted ==> final(self).trace@ == old(self).trace@.push(
                (Transfer { session, at_nanos: now_nanos, bytes }),
            ),
            admitted ==> final(self).limiter.next_admission_nanos == advanced_deadline(
                old(self).limiter.next_admission_nanos,
                now_nanos,
                bytes,
                old(self).limiter.rate_bytes_per_sec,
            ),
            final(self).start == old(self).start,
            final(self).limiter.rate_bytes_per_sec == old(self).limiter.rate_bytes_per_sec,
    {
        if now_nanos < self.limiter.next_admission_nanos {
            return false;
        }
        let ghost start = self.start@;
        let ghost rate = self.limiter.rate_bytes_per_sec as int;
        let ghost old_trace = self.trace@;
        let ghost old_next = self.limiter.next_admission_nanos;
        let ghost t = Transfer { session, at_nanos: now_nanos, bytes };
        let ghost new_trace = old_trace.push(t);
        proof {
            lemma_record_extends_trace(
                start,
                self.limiter.rate_bytes_per_sec,
                old_trace,
                t,
                old_next,
                now_nanos,
            );
            assert forall|i: int|
                0 <= i < new_trace.len() implies (#[trigger] new_trace[i]).at_nanos as int
                >= deadline_after(start, rate, new_trace.take(i)) by {
                if i < old_trace.len() {
                    assert(new_trace.take(i) =~= old_trace.take(i));
                    assert(new_trace[i] == old_trace[i]);
                    assert(old_trace[i].at_nanos as int >= deadline_after(
                        start,
                        rate,
                        old_trace.take(i),
                    ));
                } else {
                    assert(new_trace.take(i) =~= old_trace);
                }
            }
        }
        self.limiter.record_transfer(now_nanos, bytes);
        self.trace = Ghost(new_trace);
        true
    }

    /// How long the caller must still wait, as for the bare limiter.
    pub fn time_until_admitted(&self, now_nanos: u64) -> (wait: u64)
        ensures
            wait == (if now_nanos >= self.limiter.next_admission_nanos {
                0int
            } else {
                self.limiter.next_admission_nanos - now_nanos
            }),
            wait == 0 <==> now_nanos >= self.limiter.next_admission_nanos,
    {
        self.limiter.time_until_admitted(now_nanos)
    }
}

/// The pacing bound, stated of an audited limiter's own history: whatever
/// cycle of checks and transfers produced it, its bytes obey the rate.
pub proof fn lemma_audited_history_bounded(audited: AuditedLimiter, cap: int)
    requires
        audited.wf(),
        audited.trace@.len() > 0,
        forall|i: int| 0 <= i < audited.trace@.len() ==> (#[trigger] audited.trace@[i]).bytes <= cap,
    ensures
        NANOS_PER_SEC * total_bytes(audited.trace@) <= audited.limiter.rate_bytes_per_sec * (
        audited.trace@.last().at_nanos - audited.trace@[0].at_nanos) + audited.trace@.len()
            * audited.limiter.rate_bytes_per_sec + NANOS_PER_SEC * cap,
{
    lemma_pacing_bound(
        audited.start@,
        audited.limiter.rate_bytes_per_sec as int,
        cap,
        audited.trace@,
    );
}

/// The bytes one session contributed to a trace.
pub open spec fn session_bytes(trace: Seq<Transfer>, session: u64) -> int
    decreases trace.len(),
{
    if trace.len() == 0 {
        0
    } else {
        session_bytes(trace.drop_last(), session) + if trace.last().session == session {
            trace.last().bytes as int
        } else {
            0
        }
    }
}

/// The aggregate bytes of the listed sessions.
pub open spec fn sessions_bytes_sum(trace: Seq<Transfer>, sessions: Seq<u64>) -> int
    decreases sessions.len(),
{
    if sessions.len() == 0 {
        0
    } else {
        session_bytes(trace, sessions[0]) + sessions_bytes_sum(trace, sessions.drop_first())
    }
}

/// Dropping a trace's last transfer drops exactly that transfer's bytes from
/// the aggregate, provided no session is listed twice.
proof fn lemma_sum_last_contribution(trace: Seq<Transfer>, sessions: Seq<u64>)
    requires
        trace.len() > 0,
        sessions.no_duplicates(),
    ensures
        sessions_bytes_sum(trace, sessions) == sessions_bytes_sum(trace.drop_last(), sessions) + (
        if sessions.contains(trace.last().session) {
            trace.last().bytes as int
        } else {
            0
        }),
    decreases sessions.len(),
{
    let x = trace.last().session;
    if sessions.len() == 0 {
        assert(!sessions.contains(x));
    } else {
        let s0 = sessions[0];
        let rest = sessions.drop_first();
        assert(rest.no_duplicates()) by {
            assert forall|i: int, j: int|
                0 <= i < rest.len() && 0 <= j < rest.len() && i != j implies rest[i]
                != rest[j] by {
                assert(rest[i] == sessions[i + 1]);
                assert(rest[j] == sessions[j + 1]);
            }
        }
        lemma_sum_last_contribution(trace, rest);
        if x == s0 {
            assert(sessions.contains(x)) by {
                assert(sessions[0] == x);
            }
            assert(!rest.contains(x)) by {
                assert forall|j: int| 0 <= j < rest.len() implies rest[j] != x by {
                    assert(rest[j] == sessions[j + 1]);
                }
            }
        } else if rest.contains(x) {
            let j = choose|j: int| 0 <= j < rest.len() && rest[j] == x;
            assert(sessions[j + 1] == x);
            assert(sessions.contains(x));
        } else {
            assert(!sessions.contains(x)) by {
                assert forall|i: int| 0 <= i < sessions.len() implies sessions[i] != x by {
                    if i >= 1 {
                        assert(rest[i - 1] == sessions[i]);
                        assert(rest[i - 1] != x);
                    }
                }
            }
        }
    }
}

/// A sum over a trace of an empty prefix of sessions, or over an empty
/// trace, is zero.
proof fn lemma_sum_empty_trace(trace: Seq<Transfer>, sessions: Seq<u64>)
    requires
        trace.len() == 0,
    ensures
        sessions_bytes_sum(trace, sessions) == 0,
    decreases sessions.len(),
{
    if sessions.len() > 0 {
        lemma_sum_empty_trace(trace, sessions.drop_first());
    }
}

/// Counting by session loses nothing: when every transfer belongs to one of
/// the listed sessions and no session is listed twice, the per-session
/// aggregate equals the trace's total.
pub proof fn lemma_session_decomposition(trace: Seq<Transfer>, sessions: Seq<u64>)
    requires
        sessions.no_duplicates(),
        forall|i: int| 0 <= i < trace.len() ==> sessions.contains((#[trigger] trace[i]).session),
    ensures
        sessions_bytes_sum(trace, sessions) == total_bytes(trace),
    decreases trace.len(),
{
    if trace.len() == 0 {
        lemma_sum_empty_trace(trace, sessions);
    } else {
        let prefix = trace.drop_last();
        assert(forall|i: int|
            0 <= i < prefix.len() ==> sessions.contains((#[trigger] prefix[i]).session)) by {
            assert(forall|i: int| 0 <= i < prefix.len() ==> prefix[i] == trace[i]);
        }
        lemma_session_decomposition(prefix, sessions);
        lemma_sum_last_contribution(trace, sessions);
        assert(sessions.contains(trace[trace.len() - 1].session));
    }
}

/// Shared quota: when sharing is enabled, every session's transfers run
/// through the same limiter, so one admissible trace records them all — and
/// the aggregate bytes of all the sessions together obey the single-rate
/// pacing bound, not one rate per session.
pub proof fn lemma_shared_quota_bound(
    start: int,
    rate: int,
    cap: int,
    trace: Seq<Transfer>,
    sessions: Seq<u64>,
)
    requires
        rate > 0,
        trace.len() > 0,
        admissible(start, rate, trace),
        forall|i: int| 0 <= i < trace.len() ==> (#[trigger] trace[i]).bytes <= cap,
        sessions.no_duplicates(),
        forall|i: int| 0 <= i < trace.len() ==> sessions.contains((#[trigger] trace[i]).session),
    ensures
        NANOS_PER_SEC * sessions_bytes_sum(trace, sessions) <= rate * (trace.last().at_nanos
            - trace[0].at_nanos) + trace.len() * rate + NANOS_PER_SEC * cap,
{
    lemma_session_decomposition(trace, sessions);
    lemma_pacing_bound(start, rate, cap, trace);
}

/// One session's trace, as the independent-quota law needs it: nonempty,
/// admissible against that session's own limiter, each transfer within the
/// byte cap and inside the observation window.
pub open spec fn session_trace_ok(
    trace: Seq<Transfer>,
    start: int,
    rate: int,
    cap: int,
    t0: int,
    t1: int,
) -> bool {
    &&& trace.len() > 0
    &&& admissible(start, rate, trace)
    &&& forall|i: int|
        0 <= i < trace.len() ==> (#[trigger] trace[i]).bytes <= cap && t0 <= trace[i].at_nanos
            <= t1
}

/// The bytes moved by a family of per-session traces together.
pub open spec fn grand_total(traces: Seq<Seq<Transfer>>) -> int
    decreases traces.len(),
{
    if traces.len() == 0 {
        0
    } else {
        grand_total(traces.drop_last()) + total_bytes(traces.last())
    }
}

/// The number of transfers in a family of traces.
pub open spec fn total_transfers(traces: Seq<Seq<Transfer>>) -> int
    decreases traces.len(),
{
    if traces.len() == 0 {
        0
    } else {
        total_transfers(traces.drop_last()) + traces.last().len()
    }
}

/// Independent quota: when sharing is disabled each session paces against
/// its own limiter, so over a common window each admissible session trace
/// independently earns the single-session pacing bound, and `k` sessions
/// together may move up to `k` times it — rate times window plus one buffer
/// per session, plus the per-transfer rounding term.
pub proof fn lemma_independent_quota(
    rate: int,
    cap: int,
    t0: int,
    t1: int,
    traces: Seq<Seq<Transfer>>,
    starts: Seq<int>,
)
    requires
        rate > 0,
        traces.len() == starts.len(),
        forall|j: int|
            0 <= j < traces.len() ==> session_trace_ok(
                #[trigger] traces[j],
                starts[j],
                rate,
                cap,
                t0,
                t1,
            ),
    ensures
        NANOS_PER_SEC * grand_total(traces) <= traces.len() * (rate * (t1 - t0) + NANOS_PER_SEC
            * cap) + total_transfers(traces) * rate,
    decreases traces.len(),
{
    let per_session_bound = rate * (t1 - t0) + NANOS_PER_SEC * cap;
    if traces.len() == 0 {
        assert(grand_total(traces) == 0);
        assert(total_transfers(traces) == 0);
        assert(traces.len() * per_session_bound == 0) by {
            lemma_mul_by_zero_is_zero(per_session_bound);
        }
        assert(total_transfers(traces) * rate == 0) by {
            lemma_mul_by_zero_is_zero(rate);
        }
    } else {
        let k: int = traces.len() as int;
        let tr = traces.last();
        let head = traces.drop_last();
        assert(forall|j: int| 0 <= j < head.len() ==> head[j] == traces[j]);
        assert(forall|j: int| 0 <= j < head.len() ==> starts.drop_last()[j] == starts[j]);
        lemma_independent_quota(rate, cap, t0, t1, head, starts.drop_last());
        assert(session_trace_ok(tr, starts[k - 1], rate, cap, t0, t1));
        lemma_pacing_bound(starts[k - 1], rate, cap, tr);
        assert(tr[0].at_nanos >= t0);
        assert(tr.last().at_nanos <= t1) by {
            assert(tr[tr.len() - 1].at_nanos <= t1);
        }
        assert(rate * (tr.last().at_nanos - tr[0].at_nanos) <= rate * (t1 - t0)) by {
            lemma_mul_inequality(
                tr.last().at_nanos - tr[0].at_nanos,
                t1 - t0,
                rate,
            );
            lemma_mul_is_commutative(rate, tr.last().at_nanos - tr[0].at_nanos);
            lemma_mul_is_commutative(rate, t1 - t0);
        }
        assert(NANOS_PER_SEC * grand_total(traces) == NANOS_PER_SEC * grand_total(head)
            + NANOS_PER_SEC * total_bytes(tr)) by {
            lemma_mul_is_distributive_add(NANOS_PER_SEC as int, grand_total(head), total_bytes(tr));
        }
        assert(k * per_session_bound == (k - 1) * per_session_bound + per_session_bound) by {
            lemma_mul_is_distributive_add_other_way(per_session_bound, k - 1, 1);
        }
        assert(total_transfers(traces) * rate == total_transfers(head) * rate + tr.len() * rate)
            by {
            lemma_mul_is_distributive_add_other_way(rate, total_transfers(head), tr.len() as int);
        }
    }
}

} // verus!
