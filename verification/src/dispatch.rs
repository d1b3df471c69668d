//! The signal dispatch loop: drain a filtered view of a subscription's
//! traffic, delivering each arriving signal through a correlation channel,
//! until the stream ends.
//!
//! The loop is intentionally dumb: it does no content filtering itself and
//! its only termination condition is end of stream. "Stop after the first
//! relevant signal" comes from combining it with a correlation channel:
//! the single-winner rule keeps the first signal and drops the rest, and
//! the side that awaits the channel tears the subscription down, which is
//! what makes the stream end. Loop exit and value delivery are two
//! separate facts; only `receive` tells them apart.

use vstd::prelude::*;

use crate::channel::CorrelationChannel;
use crate::channel::Slot;
use crate::errors::BusError;
use crate::errors::LocateError;

verus! {

/// How a subscription's signal stream terminated.
#[derive(Clone, Copy, Debug, PartialEq, Eq, Structural)]
pub enum StreamEnd {
    /// The transport closed the stream (subscription torn down).
    Closed,
    /// Asking for the next signal failed at the transport level.
    Failed(BusError),
}

/// The filtered view of one subscription during one wait: the signals the
/// transport delivered, in arrival order, and how the stream ended.
pub struct SignalStream<T> {
    pub signals: Vec<T>,
    pub end: StreamEnd,
}

/// What awaiting one value over `stream` yields: a transport failure ends
/// the wait with that failure; otherwise the first delivered signal wins,
/// and a stream that closed without delivering abandons the consumer.
pub open spec fn await_outcome<T>(stream: SignalStream<T>) -> Result<T, LocateError> {
    match stream.end {
        StreamEnd::Failed(e) => Err(LocateError::Bus(e)),
        StreamEnd::Closed => if stream.signals@.len() > 0 {
            Ok(stream.signals@[0])
        } else {
            Err(LocateError::ChannelAbandoned)
        },
    }
}

/// The dispatch loop proper: invokes the delivery callback — a send on the
/// correlation channel — once per arriving signal, in order. Only the
/// first delivery wins; duplicates are dropped by the channel, never by
/// the loop.
pub fn drain<T: Copy>(signals: &Vec<T>, channel: &mut CorrelationChannel<T>)
    requires
        !(old(channel).state() is Abandoned),
    ensures
        old(channel).state() matches Slot::Delivered(v) ==> final(channel).state()
            == Slot::Delivered(v),
        old(channel).state() is Pending && signals@.len() > 0 ==> final(channel).state()
            == Slot::Delivered(signals@[0]),
        old(channel).state() is Pending && signals@.len() == 0 ==> final(channel).state()
            is Pending,
    {
    let mut i: usize = 0;
    while i < signals.len()
        invariant
            i <= signals@.len(),
            !(channel.state() is Abandoned),
            old(channel).state() matches Slot::Delivered(v) ==> channel.state()
                == Slot::Delivered(v),
            old(channel).state() is Pending && i > 0 ==> channel.state() == Slot::Delivered(
                signals@[0],
            ),
            old(channel).state() is Pending && i == 0 ==> channel.state() is Pending,
        decreases signals@.len() - i,
    {
        let value = signals[i];
        let _ = channel.send(value);
        i += 1;
    }
}

/// One complete wait for a correlated value: run the dispatch loop over
/// the stream, then resolve the channel. The producer side disappears with
/// the subscription, so a stream that closed without delivering leaves the
/// channel abandoned and the wait fails with `ChannelAbandoned`; a
/// transport failure while draining is reported as that failure.
pub fn await_signal<T: Copy>(stream: &SignalStream<T>) -> (r: Result<T, LocateError>)
    ensures
        r == await_outcome(*stream),
{
    let mut channel = CorrelationChannel::<T>::new();
    drain(&stream.signals, &mut channel);
    match &stream.end {
        StreamEnd::Failed(e) => Err(LocateError::Bus(*e)),
        StreamEnd::Closed => {
            channel.abandon();
            channel.receive()
        },
    }
}

} // verus!
