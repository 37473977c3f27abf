//! The tunnel's validated configuration and its limiter policy.
//!
//! `NetBandwidthLimitter` holds everything the relay decides with: the two
//! addresses, the two byte rates, and whether all sessions share one limiter
//! pair or each builds its own. Binding, accepting and dialing sockets is the
//! caller's work; the type only validates and hands out limiters.

use vstd::prelude::*;
use crate::errors::RelayError;
use crate::limiter::RateLimiter;
use crate::registry::LimiterRegistry;

verus! {

/// Each direction's read buffer holds about one sampling interval's worth of
/// bytes at the configured rate: rate / 10, i.e. 100 ms of traffic. This caps
/// the largest chunk one admission can let through.
pub open spec fn buffer_size_spec(rate: u64) -> int {
    rate as int / 10
}

/// The bandwidth-limited relay: listen address, backend address, one byte
/// rate per direction, and the quota-sharing policy with its registry.
#[derive(Debug)]
pub struct NetBandwidthLimitter {
    /// Address the listener binds, as `host:port`.
    pub src_socket: String,
    /// Backend address each session dials, as `host:port`.
    pub dst_socket: String,
    /// Client-to-backend rate cap in bytes per second.
    pub outbound_bandwidth_limit: u64,
    /// Backend-to-client rate cap in bytes per second.
    pub inbound_bandwidth_limit: u64,
    /// When set, all sessions pace against the registry's shared pair;
    /// otherwise each session gets private limiters.
    pub share_bandwidth_limit: bool,
    /// The shared limiter pair; filled exactly when sharing is enabled.
    pub registry: LimiterRegistry,
}

impl NetBandwidthLimitter {
    /// Rates are large enough that both buffers hold at least one byte, and
    /// the registry matches the sharing policy, with the configured rates.
    pub open spec fn wf(self) -> bool {
        &&& buffer_size_spec(self.outbound_bandwidth_limit) >= 1
        &&& buffer_size_spec(self.inbound_bandwidth_limit) >= 1
        &&& self.registry.wf()
        &&& self.registry.is_shared() == self.share_bandwidth_limit
        &&& (self.registry.outbound matches Some(l) ==> l.rate_bytes_per_sec
            == self.outbound_bandwidth_limit)
        &&& (self.registry.inbound matches Some(l) ==> l.rate_bytes_per_sec
            == self.inbound_bandwidth_limit)
    }

    /// Validates the configuration before any socket is opened.
    ///
    /// A rate of zero, or one so small that its direction's read buffer would
    /// round to zero bytes, is rejected with a configuration fault. On
    /// success, and with sharing enabled, the shared limiter pair is created
    /// once, ready to admit at `now_nanos`.
    pub fn try_new(
        src_socket: String,
        dst_socket: String,
        outbound_bandwidth_limit: u64,
        inbound_bandwidth_limit: u64,
        share_bandwidth_limit: bool,
        now_nanos: u64,
    ) -> (r: Result<NetBandwidthLimitter, RelayError>)
        ensures
            r is Ok <==> buffer_size_spec(outbound_bandwidth_limit) >= 1 && buffer_size_spec(
                inbound_bandwidth_limit,
            ) >= 1,
            r is Err ==> r == Err::<NetBandwidthLimitter, RelayError>(RelayError::Config),
            r matches Ok(t) ==> {
                &&& t.wf()
                &&& t.src_socket == src_socket
                &&& t.dst_socket == dst_socket
                &&& t.outbound_bandwidth_limit == outbound_bandwidth_limit
                &&& t.inbound_bandwidth_limit == inbound_bandwidth_limit
                &&& t.share_bandwidth_limit == share_bandwidth_limit
                &&& (share_bandwidth_limit ==> t.registry.outbound == Some(
                    RateLimiter {
                        rate_bytes_per_sec: outbound_bandwidth_limit,
                        next_admission_nanos: now_nanos,
                    },
                ) && t.registry.inbound == Some(
                    RateLimiter {
                        rate_bytes_per_sec: inbound_bandwidth_limit,
                        next_admission_nanos: now_nanos,
                    },
                ))
                &&& (!share_bandwidth_limit ==> t.registry.outbound is None
                    && t.registry.inbound is None)
            },
    {
        if outbound_bandwidth_limit / 10 == 0 || inbound_bandwidth_limit / 10 == 0 {
            return Err(RelayError::Config);
        }
        let registry = if share_bandwidth_limit {
            match LimiterRegistry::create_shared(
                outbound_bandwidth_limit,
                inbound_bandwidth_limit,
                now_nanos,
            ) {
                Ok(reg) => reg,
                Err(e) => {
                    return Err(e);
                },
            }
        } else {
            LimiterRegistry::disabled()
        };
        Ok(
            NetBandwidthLimitter {
                src_socket,
                dst_socket,
                outbound_bandwidth_limit,
                inbound_bandwidth_limit,
                share_bandwidth_limit,
                registry,
            },
        )
    }

    /// The outbound read-buffer size in bytes: 100 ms of traffic at the
    /// outbound rate.
    pub fn outbound_buffer_size(&self) -> (n: u64)
        requires
            self.wf(),
        ensures
            n == buffer_size_spec(self.outbound_bandwidth_limit),
            n >= 1,
    {
        self.outbound_bandwidth_limit / 10
    }

    /// The inbound read-buffer size in bytes: 100 ms of traffic at the
    /// inbound rate.
    pub fn inbound_buffer_size(&self) -> (n: u64)
        requires
            self.wf(),
        ensures
            n == buffer_size_spec(self.inbound_bandwidth_limit),
            n >= 1,
    {
        self.inbound_bandwidth_limit / 10
    }

    /// A fresh private limiter pair for one session, used when sharing is
    /// disabled: each session then paces independently, starting ready to
    /// admit at `now_nanos`.
    pub fn session_limiters(&self, now_nanos: u64) -> (r: (RateLimiter, RateLimiter))
        requires
            self.wf(),
        ensures
            r.0 == (RateLimiter {
                rate_bytes_per_sec: self.outbound_bandwidth_limit,
                next_admission_nanos: now_nanos,
            }),
            r.1 == (RateLimiter {
                rate_bytes_per_sec: self.inbound_bandwidth_limit,
                next_admission_nanos: now_nanos,
            }),
            r.0.wf() && r.1.wf(),
    {
        (
            RateLimiter {
                rate_bytes_per_sec: self.outbound_bandwidth_limit,
                next_admission_nanos: now_nanos,
            },
            RateLimiter {
                rate_bytes_per_sec: self.inbound_bandwidth_limit,
                next_admission_nanos: now_nanos,
            },
        )
    }
}

} // verus!
