//! Session-based request/response/signal choreography for a location
//! capability negotiated over an asynchronous, signal-driven IPC bus.
//!
//! The crate models the protocol layer: establishing a logical session,
//! issuing a start request, awaiting exactly one correlated completion
//! signal, branching on the embedded success/error envelope, capturing one
//! value from a continuous update stream, and tearing the session down
//! deterministically on every exit path.

mod channel;
mod dispatch;
mod errors;
mod orchestrator;
mod protocol;
mod session;
mod token;

pub use channel::CorrelationChannel;
pub use channel::SendOutcome;
pub use channel::Slot;
pub use dispatch::SignalStream;
pub use dispatch::StreamEnd;
pub use dispatch::await_outcome;
pub use dispatch::await_signal;
pub use dispatch::drain;
pub use errors::BusError;
pub use errors::LocateError;
pub use orchestrator::TransportScript;
pub use orchestrator::lemma_cleanup_failures_do_not_mask;
pub use orchestrator::lemma_close_on_every_exit;
pub use orchestrator::lemma_validation_precedes_transport;
pub use orchestrator::locate;
pub use orchestrator::locate_result;
pub use orchestrator::locate_trace;
pub use protocol::BasicResult;
pub use protocol::Envelope;
pub use protocol::ErrReason;
pub use protocol::LocationSample;
pub use session::Request;
pub use session::Session;
pub use session::Trace;
pub use session::UpdateSubscription;
pub use session::completion_outcome;
pub use session::completion_trace;
pub use token::SessionToken;
pub use token::valid_token;
pub use token::valid_token_char;
