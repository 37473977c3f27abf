//! Error kinds of the relay.

use vstd::prelude::*;

verus! {

/// The failure kinds the relay distinguishes.
///
/// - `Config`: an invalid rate (zero) or a read buffer that would round to
///   zero bytes; fatal at startup, before any connection is accepted.
/// - `Connect`: the backend dial failed; local to one session.
/// - `Io`: a read or write on either link failed while relaying; local to one
///   session.
/// - `Shutdown`: closing an already-broken link failed; swallowed, never
///   escalated.
#[derive(Clone, Copy, Debug, PartialEq, Eq, Structural)]
pub enum RelayError {
    Config,
    Connect,
    Io,
    Shutdown,
}

} // verus!
