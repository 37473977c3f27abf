//! Process-wide holder of the shared limiter pair.
//!
//! When quota sharing is enabled, one outbound and one inbound limiter are
//! created once at startup and every session paces against them; when sharing
//! is disabled the registry stays empty and each session builds its own pair.

use vstd::prelude::*;
use crate::errors::RelayError;
use crate::limiter::RateLimiter;

verus! {

/// The two process-wide limiters used when quota sharing is enabled; both
/// present, or both absent.
#[derive(Debug)]
pub struct LimiterRegistry {
    pub outbound: Option<RateLimiter>,
    pub inbound: Option<RateLimiter>,
}

impl LimiterRegistry {
    /// Both limiters are present together and, where present, well formed.
    pub open spec fn wf(self) -> bool {
        &&& (self.outbound is Some <==> self.inbound is Some)
        &&& (self.outbound matches Some(l) ==> l.wf())
        &&& (self.inbound matches Some(l) ==> l.wf())
    }

    /// Whether sharing is active: the registry holds the shared pair.
    pub open spec fn is_shared(self) -> bool {
        self.outbound is Some
    }

    /// The empty registry, for the configuration in which every session paces
    /// against private limiters.
    pub fn disabled() -> (r: LimiterRegistry)
        ensures
            r.outbound is None,
            r.inbound is None,
            r.wf(),
            !r.is_shared(),
    {
        LimiterRegistry { outbound: None, inbound: None }
    }

    /// Builds the shared pair once, before the listener starts accepting.
    /// Each limiter starts ready to admit at `now_nanos`; a zero rate on
    /// either direction is a configuration error and nothing is built.
    pub fn create_shared(outbound_rate: u64, inbound_rate: u64, now_nanos: u64) -> (r: Result<
        LimiterRegistry,
        RelayError,
    >)
        ensures
            outbound_rate > 0 && inbound_rate > 0 ==> (r matches Ok(reg) && reg
                == (LimiterRegistry {
                outbound: Some(
                    RateLimiter {
                        rate_bytes_per_sec: outbound_rate,
                        next_admission_nanos: now_nanos,
                    },
                ),
                inbound: Some(
                    RateLimiter {
                        rate_bytes_per_sec: inbound_rate,
                        next_admission_nanos: now_nanos,
                    },
                ),
            })),
            outbound_rate == 0 || inbound_rate == 0 ==> r == Err::<LimiterRegistry, RelayError>(
                RelayError::Config,
            ),
            r matches Ok(reg) ==> reg.wf() && reg.is_shared(),
    {
        let outbound = match RateLimiter::try_new(outbound_rate, now_nanos) {
            Ok(l) => l,
            Err(e) => {
                return Err(e);
            },
        };
        let inbound = match RateLimiter::try_new(inbound_rate, now_nanos) {
            Ok(l) => l,
            Err(e) => {
                return Err(e);
            },
        };
        Ok(LimiterRegistry { outbound: Some(outbound), inbound: Some(inbound) })
    }
}

} // verus!
