//! The value shapes that travel over the bus: the Ok/Err envelope every
//! asynchronous service reply takes, and the payloads the location service
//! delivers.

use vstd::prelude::*;

verus! {

/// Why the service answered a request with its error envelope. This is a
/// normal, successfully delivered outcome of the workflow ("user declined"
/// and the like), distinct from a transport failure.
#[derive(Clone, Copy, Debug, PartialEq, Eq, Structural)]
pub enum ErrReason {
    /// The user or a policy declined the request.
    Denied,
    /// The interaction was cancelled before it finished.
    Cancelled,
    /// Any other service-side reason.
    Other,
}

/// The canonical tagged shape of every asynchronous reply from the service.
/// The orchestrator inspects the tag before trusting the payload.
#[derive(Clone, Copy, Debug, PartialEq, Eq)]
pub enum Envelope<T> {
    /// The service granted the request; the payload follows.
    Granted(T),
    /// The service answered with its own error envelope.
    ServiceErr(ErrReason),
}

/// The (empty) payload of a request-completion reply: completion itself
/// carries no data beyond the envelope tag.
#[derive(Clone, Copy, Debug, PartialEq, Eq, Structural)]
pub struct BasicResult {}

/// One location update, as plain scaled integers. The orchestration treats
/// the fields as opaque pass-through data: it never interprets them.
#[derive(Clone, Copy, Debug, PartialEq, Eq, Structural)]
pub struct LocationSample {
    /// Latitude in ten-millionths of a degree.
    pub latitude_e7: i64,
    /// Longitude in ten-millionths of a degree.
    pub longitude_e7: i64,
    /// Horizontal accuracy in millimetres.
    pub accuracy_mm: i64,
    /// Altitude in millimetres.
    pub altitude_mm: i64,
    /// Speed in millimetres per second.
    pub speed_mms: i64,
    /// Heading in thousandths of a degree.
    pub heading_mdeg: i64,
    /// Timestamp in microseconds.
    pub timestamp_us: u64,
}

} // verus!
