//! Leaky-bucket pacing expressed as a single admission deadline.
//!
//! A `RateLimiter` tracks, for one traffic direction, the earliest instant at
//! which further bytes may be admitted without exceeding its configured
//! average rate. Time is a monotonic clock in nanoseconds, supplied by the
//! caller as a plain integer.

use vstd::prelude::*;
use crate::errors::RelayError;

verus! {

/// Nanoseconds in one second; pacing delays are computed at this resolution.
pub const NANOS_PER_SEC: u64 = 1_000_000_000;

/// The delay, in nanoseconds, that transferring `bytes` earns at `rate`
/// bytes/second: `bytes / rate` seconds, rounded down to whole nanoseconds.
pub open spec fn pacing_delay_nanos(bytes: int, rate: int) -> int
    recommends
        rate > 0,
{
    (bytes * NANOS_PER_SEC) / rate
}

/// The admission deadline after recording a transfer of `bytes` at time
/// `now`, starting from deadline `next`: the pacing delay is added to the
/// later of the old deadline and `now`, saturating at the largest
/// representable instant.
pub open spec fn advanced_deadline(next: u64, now: u64, bytes: u64, rate: u64) -> int
    recommends
        rate > 0,
{
    let base: int = if next >= now { next as int } else { now as int };
    let d: int = pacing_delay_nanos(bytes as int, rate as int);
    if base + d > u64::MAX as int {
        u64::MAX as int
    } else {
        base + d
    }
}

/// One direction's pacing state: a fixed positive byte rate and the earliest
/// instant at which the next read may be admitted.
#[derive(Clone, Copy, Debug, PartialEq, Eq, Structural)]
pub struct RateLimiter {
    /// Average throughput cap in bytes per second; positive, fixed at creation.
    pub rate_bytes_per_sec: u64,
    /// Monotonic instant (nanoseconds) before which no further bytes are
    /// admitted; non-decreasing over the limiter's lifetime.
    pub next_admission_nanos: u64,
}

impl RateLimiter {
    /// A limiter is well formed when its rate is positive, so pacing never
    /// divides by zero.
    pub open spec fn wf(self) -> bool {
        self.rate_bytes_per_sec > 0
    }

    /// Creates a limiter that admits its first read immediately.
    /// A zero rate is a configuration error.
    pub fn try_new(rate_bytes_per_sec: u64, now_nanos: u64) -> (r: Result<RateLimiter, RelayError>)
        ensures
            rate_bytes_per_sec > 0 ==> r == Ok::<RateLimiter, RelayError>(
                (RateLimiter { rate_bytes_per_sec, next_admission_nanos: now_nanos }),
            ),
            rate_bytes_per_sec == 0 ==> r == Err::<RateLimiter, RelayError>(RelayError::Config),
            r matches Ok(l) ==> l.wf(),
    {
        if rate_bytes_per_sec == 0 {
            Err(RelayError::Config)
        } else {
            Ok(RateLimiter { rate_bytes_per_sec, next_admission_nanos: now_nanos })
        }
    }

    /// How long the caller must still wait before the next read is admitted:
    /// zero exactly when `now_nanos` has reached the admission deadline.
    pub fn time_until_admitted(&self, now_nanos: u64) -> (wait: u64)
        ensures
            wait == (if now_nanos >= self.next_admission_nanos {
                0int
            } else {
                self.next_admission_nanos - now_nanos
            }),
            wait == 0 <==> now_nanos >= self.next_admission_nanos,
    {
        if now_nanos >= self.next_admission_nanos {
            0
        } else {
            self.next_admission_nanos - now_nanos
        }
    }

    /// Records a completed transfer of `bytes` at time `now_nanos`: the
    /// deadline moves to the later of its old value and `now_nanos`, plus the
    /// pacing delay the transfer earns. The deadline never moves backwards.
    pub fn record_transfer(&mut self, now_nanos: u64, bytes: u64)
        requires
            old(self).wf(),
        ensures
            final(self).rate_bytes_per_sec == old(self).rate_bytes_per_sec,
            final(self).wf(),
            final(self).next_admission_nanos == advanced_deadline(
                old(self).next_admission_nanos,
                now_nanos,
                bytes,
                old(self).rate_bytes_per_sec,
            ),
            final(self).next_admission_nanos >= old(self).next_admission_nanos,
            final(self).next_admission_nanos >= now_nanos,
    {
        let base: u64 = if self.next_admission_nanos >= now_nanos {
            self.next_admission_nanos
        } else {
            now_nanos
        };
        proof {
            assert((bytes as int) * (NANOS_PER_SEC as int) <= (u64::MAX as int) * (
            NANOS_PER_SEC as int)) by (nonlinear_arith)
                requires
                    bytes <= u64::MAX,
            ;
        }
        let numerator: u128 = (bytes as u128) * (NANOS_PER_SEC as u128);
        let delay: u128 = numerator / (self.rate_bytes_per_sec as u128);
        proof {
            assert(delay <= numerator) by (nonlinear_arith)
                requires
                    delay == numerator / (self.rate_bytes_per_sec as u128),
                    self.rate_bytes_per_sec >= 1,
                    numerator >= 0,
            ;
        }
        let advanced: u128 = (base as u128) + delay;
        self.next_admission_nanos = if advanced > (u64::MAX as u128) {
            u64::MAX
        } else {
            advanced as u64
        };
    }
}

} // verus!
