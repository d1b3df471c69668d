//! The correlation channel: a single-use handoff that bridges a signal
//! callback to one awaiting consumer.
//!
//! The channel is a single-assignment slot with claim-and-set semantics:
//! at most one value is ever delivered, and a later delivery attempt is
//! dropped as a non-fatal duplicate. In the running system the producer
//! side is shared by however many times the callback fires — possibly from
//! a dispatch context the caller does not control — and this single-winner
//! rule, not scheduler determinism, is what keeps delivery exclusive. The
//! slot state below is that protocol; the asynchronous plumbing around it
//! (shared handles, task wakeups) carries no further decisions.

use vstd::prelude::*;

use crate::errors::LocateError;

verus! {

/// The state of the single-assignment slot.
pub enum Slot<T> {
    /// Nothing delivered yet; the producer may still send.
    Pending,
    /// Exactly one value was delivered; it is waiting for the consumer.
    Delivered(T),
    /// The producer was dropped without delivering: the awaited value will
    /// never arrive.
    Abandoned,
}

/// What a delivery attempt reports.
#[derive(Clone, Copy, Debug, PartialEq, Eq, Structural)]
pub enum SendOutcome {
    /// This attempt won: its value is the one the consumer will see.
    Accepted,
    /// A value had already been delivered; this attempt was dropped.
    /// Non-fatal: duplicate signal delivery is tolerated by design.
    AlreadyDelivered,
}

/// A single-use, single-winner handoff slot.
pub struct CorrelationChannel<T> {
    slot: Slot<T>,
}

impl<T> CorrelationChannel<T> {
    /// The slot's current state.
    pub closed spec fn state(&self) -> Slot<T> {
        self.slot
    }

    /// A fresh channel: nothing delivered, producer alive.
    pub fn new() -> (c: CorrelationChannel<T>)
        ensures
            c.state() is Pending,
    {
        CorrelationChannel { slot: Slot::Pending }
    }

    /// Delivers `value` if nothing was delivered yet; otherwise drops it and
    /// reports the duplicate. Delivery happens at most once: the first
    /// sender wins and every later attempt leaves the slot unchanged.
    ///
    /// A send can only come from a live producer handle, so the slot cannot
    /// be abandoned here.
    pub fn send(&mut self, value: T) -> (r: SendOutcome)
        requires
            !(old(self).state() is Abandoned),
        ensures
            old(self).state() is Pending ==> final(self).state() == Slot::Delivered(value)
                && r == SendOutcome::Accepted,
            old(self).state() is Delivered ==> final(self).state() == old(self).state()
                && r == SendOutcome::AlreadyDelivered,
    {
        match &self.slot {
            Slot::Pending => {
                self.slot = Slot::Delivered(value);
                SendOutcome::Accepted
            },
            _ => SendOutcome::AlreadyDelivered,
        }
    }

    /// Records that the producer side was dropped. A value already
    /// delivered stays delivered; only a pending slot becomes abandoned.
    pub fn abandon(&mut self)
        ensures
            old(self).state() is Pending ==> final(self).state() is Abandoned,
            !(old(self).state() is Pending) ==> final(self).state() == old(self).state(),
    {
        match &self.slot {
            Slot::Pending => {
                self.slot = Slot::Abandoned;
            },
            _ => {},
        }
    }

    /// Takes the delivered value, or fails with `ChannelAbandoned` if the
    /// producer was dropped without sending.
    ///
    /// In the running system the consumer suspends while the slot is
    /// pending and resumes only once it is resolved; that is modelled by
    /// requiring a resolved slot here.
    pub fn receive(self) -> (r: Result<T, LocateError>)
        requires
            !(self.state() is Pending),
        ensures
            self.state() matches Slot::Delivered(v) ==> r == Ok::<T, LocateError>(v),
            self.state() is Abandoned ==> r == Err::<T, LocateError>(
                LocateError::ChannelAbandoned,
            ),
    {
        match self.slot {
            Slot::Delivered(v) => Ok(v),
            _ => Err(LocateError::ChannelAbandoned),
        }
    }
}

} // verus!
