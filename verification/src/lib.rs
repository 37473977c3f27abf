//! A bandwidth-limited TCP relay core.
//!
//! The crate verifies the rate-limiting and session logic of a byte-transparent
//! tunnel: a leaky-bucket pacing limiter expressed as a single admission
//! deadline, an optional process-wide registry of shared limiters, and the
//! per-connection relay state machine. All time is carried as nanoseconds on a
//! monotonic clock supplied by the caller; all I/O stays outside the library.

pub mod errors;
pub mod limiter;
pub mod pacing;
pub mod registry;
pub mod session;
pub mod tunnel;
