//! Error taxonomy of the orchestration.
//!
//! A transport failure (`BusError`) and an abandoned correlation channel
//! are fatal for one `locate` run; a service-level error envelope is not an
//! error of the orchestration at all (see `Envelope`) and does not appear
//! here.

use vstd::prelude::*;

verus! {

/// A transport-level failure: a connection, method call or subscription
/// attempt that the bus itself reported as failed. The code is whatever
/// the transport handed back; the orchestration never interprets it, it
/// only carries it to the caller unchanged.
#[derive(Clone, Copy, Debug, PartialEq, Eq, Structural)]
pub struct BusError {
    pub code: u64,
}

/// Everything that can make one `locate` run fail.
#[derive(Clone, Copy, Debug, PartialEq, Eq, Structural)]
pub enum LocateError {
    /// The caller-chosen session token does not satisfy the bus's
    /// handle-token grammar. Raised before any call reaches the transport.
    Validation,
    /// A transport-level failure, carried unchanged.
    Bus(BusError),
    /// The producer side of a correlation channel was dropped before
    /// delivering: the signal stream ended before the awaited value arrived.
    ChannelAbandoned,
}

} // verus!
