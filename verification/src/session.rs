//! Session and request handles, and the trace of transport interactions.
//!
//! A session is a server-tracked logical context opened before the
//! capability request and closed exactly once on every exit path. A
//! request is one outstanding operation the server completes
//! asynchronously, through a completion-signal subscription that is
//! disconnected only after the awaited value has been received. Close and
//! disconnect are best-effort: a failure there is reported (counted as
//! logged) but never changes an already-decided outcome, and a repeated
//! close or disconnect is a no-op.
//!
//! The transport's replies enter these functions as plain values; the
//! calls themselves are asynchronous I/O and live outside the library.

use vstd::prelude::*;

use crate::dispatch::SignalStream;
use crate::dispatch::await_outcome;
use crate::dispatch::await_signal;
use crate::errors::BusError;
use crate::errors::LocateError;
use crate::protocol::BasicResult;
use crate::protocol::Envelope;
use crate::token::SessionToken;

verus! {

/// A count of every interaction one orchestration run had with the
/// transport, by kind, plus how many cleanup failures were swallowed and
/// logged instead of propagated.
#[derive(Clone, Copy, Debug, PartialEq, Eq, Structural)]
pub struct Trace {
    /// Session-creation calls.
    pub create_calls: u64,
    /// Start-request calls.
    pub start_calls: u64,
    /// Subscriptions to the request's completion signal.
    pub completion_subscribes: u64,
    /// Disconnections of the completion subscription.
    pub completion_disconnects: u64,
    /// Subscriptions to the continuous update signal.
    pub update_subscribes: u64,
    /// Disconnections of the update subscription.
    pub update_disconnects: u64,
    /// Session-close calls.
    pub close_calls: u64,
    /// Cleanup failures (close or disconnect) swallowed and logged.
    pub logged_cleanup_failures: u64,
}

impl Trace {
    /// No transport interaction yet.
    pub open spec fn zero() -> Trace {
        Trace {
            create_calls: 0,
            start_calls: 0,
            completion_subscribes: 0,
            completion_disconnects: 0,
            update_subscribes: 0,
            update_disconnects: 0,
            close_calls: 0,
            logged_cleanup_failures: 0,
        }
    }

    /// How many calls reached the transport in all.
    pub open spec fn transport_calls(self) -> int {
        self.create_calls + self.start_calls + self.completion_subscribes
            + self.completion_disconnects + self.update_subscribes + self.update_disconnects
            + self.close_calls
    }

    pub open spec fn after_create(self) -> Trace {
        Trace { create_calls: (self.create_calls + 1) as u64, ..self }
    }

    pub open spec fn after_start(self) -> Trace {
        Trace { start_calls: (self.start_calls + 1) as u64, ..self }
    }

    pub open spec fn after_completion_subscribe(self) -> Trace {
        Trace { completion_subscribes: (self.completion_subscribes + 1) as u64, ..self }
    }

    pub open spec fn after_logged(self, failed: bool) -> Trace {
        if failed {
            Trace { logged_cleanup_failures: (self.logged_cleanup_failures + 1) as u64, ..self }
        } else {
            self
        }
    }

    pub open spec fn after_completion_disconnect(self, failed: bool) -> Trace {
        Trace {
            completion_disconnects: (self.completion_disconnects + 1) as u64,
            ..self
        }.after_logged(failed)
    }

    pub open spec fn after_update_subscribe(self) -> Trace {
        Trace { update_subscribes: (self.update_subscribes + 1) as u64, ..self }
    }

    pub open spec fn after_update_disconnect(self, failed: bool) -> Trace {
        Trace { update_disconnects: (self.update_disconnects + 1) as u64, ..self }.after_logged(
            failed,
        )
    }

    pub open spec fn after_close(self, failed: bool) -> Trace {
        Trace { close_calls: (self.close_calls + 1) as u64, ..self }.after_logged(failed)
    }

    /// Room for one more interaction of every kind, so counting cannot
    /// overflow.
    pub open spec fn has_headroom(self) -> bool {
        &&& self.create_calls < u64::MAX
        &&& self.start_calls < u64::MAX
        &&& self.completion_subscribes < u64::MAX
        &&& self.completion_disconnects < u64::MAX
        &&& self.update_subscribes < u64::MAX
        &&& self.update_disconnects < u64::MAX
        &&& self.close_calls < u64::MAX
        &&& self.logged_cleanup_failures < u64::MAX
    }

    pub fn new() -> (t: Trace)
        ensures
            t == Trace::zero(),
    {
        Trace {
            create_calls: 0,
            start_calls: 0,
            completion_subscribes: 0,
            completion_disconnects: 0,
            update_subscribes: 0,
            update_disconnects: 0,
            close_calls: 0,
            logged_cleanup_failures: 0,
        }
    }
}

/// A server-side logical session: a validated token and whether the close
/// call has been issued yet.
pub struct Session {
    token: SessionToken,
    closed: bool,
}

impl Session {
    /// The token the session was created with.
    pub closed spec fn token_text(&self) -> Seq<char> {
        self.token@
    }

    /// Whether the session's close call has already been issued.
    pub closed spec fn is_closed(&self) -> bool {
        self.closed
    }

    /// Issues the session-creation call. The token is caller-chosen and is
    /// never regenerated here: retrying requires a fresh token. A bus
    /// failure aborts with that failure and leaves nothing to clean up.
    pub fn create(token: SessionToken, reply: Result<(), BusError>, trace: &mut Trace) -> (r:
        Result<Session, BusError>)
        requires
            old(trace).create_calls < u64::MAX,
        ensures
            *final(trace) == old(trace).after_create(),
            reply is Ok <==> r is Ok,
            r matches Ok(s) ==> s.token_text() == token@ && !s.is_closed(),
            reply matches Err(e) ==> r == Err::<Session, BusError>(e),
    {
        trace.create_calls = trace.create_calls + 1;
        match reply {
            Ok(_) => Ok(Session { token, closed: false }),
            Err(e) => Err(e),
        }
    }

    /// Issues the close call, best-effort and exactly once: the first call
    /// counts against the transport and reports (for logging) a failed
    /// reply without propagating it; any later call is a no-op that leaves
    /// both the session and the trace untouched.
    pub fn close(&mut self, reply: Result<(), BusError>, trace: &mut Trace) -> (logged: Option<
        BusError,
    >)
        requires
            old(trace).close_calls < u64::MAX,
            old(trace).logged_cleanup_failures < u64::MAX,
        ensures
            final(self).is_closed(),
            final(self).token_text() == old(self).token_text(),
            !old(self).is_closed() ==> *final(trace) == old(trace).after_close(reply is Err),
            !old(self).is_closed() ==> (match reply {
                Ok(_) => logged is None,
                Err(e) => logged == Some(e),
            }),
            old(self).is_closed() ==> *final(trace) == *old(trace) && logged is None,
    {
        if self.closed {
            return None;
        }
        self.closed = true;
        trace.close_calls = trace.close_calls + 1;
        match reply {
            Ok(_) => None,
            Err(e) => {
                trace.logged_cleanup_failures = trace.logged_cleanup_failures + 1;
                Some(e)
            },
        }
    }
}

/// What awaiting the request's completion yields, given the transport's
/// reply to the subscription attempt and the completion stream: a failed
/// subscription fails the wait; otherwise the stream decides.
pub open spec fn completion_outcome(
    subscribe_reply: Result<(), BusError>,
    stream: SignalStream<Envelope<BasicResult>>,
) -> Result<Envelope<BasicResult>, LocateError> {
    match subscribe_reply {
        Err(e) => Err(LocateError::Bus(e)),
        Ok(_) => await_outcome(stream),
    }
}

/// The trace left behind by one completion wait: the subscription attempt
/// always counts; the disconnect counts only when a value was received,
/// because unsubscribing before the matching callback has run is not
/// allowed on the transport.
pub open spec fn completion_trace(
    t: Trace,
    subscribe_reply: Result<(), BusError>,
    stream: SignalStream<Envelope<BasicResult>>,
    disconnect_reply: Result<(), BusError>,
) -> Trace {
    let subscribed = t.after_completion_subscribe();
    if completion_outcome(subscribe_reply, stream) is Ok {
        subscribed.after_completion_disconnect(disconnect_reply is Err)
    } else {
        subscribed
    }
}

/// One outstanding operation the server will complete asynchronously: the
/// window context it was started with, and whether its completion-signal
/// subscription is currently active.
pub struct Request {
    window: String,
    subscribed: bool,
}

impl Request {
    /// The window/display context handed through to the start call,
    /// unchanged. An empty context is valid.
    pub closed spec fn window(&self) -> Seq<char> {
        self.window@
    }

    /// Whether the completion-signal subscription is active.
    pub closed spec fn has_subscription(&self) -> bool {
        self.subscribed
    }

    /// Issues the start call with the window context, which is passed
    /// through unchanged.
    pub fn start(window: String, reply: Result<(), BusError>, trace: &mut Trace) -> (r: Result<
        Request,
        BusError,
    >)
        requires
            old(trace).start_calls < u64::MAX,
        ensures
            *final(trace) == old(trace).after_start(),
            reply is Ok <==> r is Ok,
            r matches Ok(req) ==> req.window() == window@ && !req.has_subscription(),
            reply matches Err(e) ==> r == Err::<Request, BusError>(e),
    {
        trace.start_calls = trace.start_calls + 1;
        match reply {
            Ok(_) => Ok(Request { window, subscribed: false }),
            Err(e) => Err(e),
        }
    }

    /// Awaits the request's single completion: subscribes to the
    /// completion signal, runs the dispatch loop with a correlation
    /// channel, and unsubscribes — only after the awaited value has been
    /// received, never mid-callback. On a failed wait the subscription is
    /// left for the session teardown; the failure itself is what the
    /// caller sees.
    pub fn await_completion(
        &mut self,
        subscribe_reply: Result<(), BusError>,
        stream: &SignalStream<Envelope<BasicResult>>,
        disconnect_reply: Result<(), BusError>,
        trace: &mut Trace,
    ) -> (r: Result<Envelope<BasicResult>, LocateError>)
        requires
            !old(self).has_subscription(),
            old(trace).has_headroom(),
        ensures
            r == completion_outcome(subscribe_reply, *stream),
            *final(trace) == completion_trace(
                *old(trace),
                subscribe_reply,
                *stream,
                disconnect_reply,
            ),
            final(self).window() == old(self).window(),
            final(self).has_subscription() <==> (subscribe_reply is Ok && completion_outcome(
                subscribe_reply,
                *stream,
            ) is Err),
    {
        trace.completion_subscribes = trace.completion_subscribes + 1;
        if let Err(e) = subscribe_reply {
            return Err(LocateError::Bus(e));
        }
        self.subscribed = true;
        let outcome = await_signal(stream);
        match outcome {
            Ok(envelope) => {
                self.subscribed = false;
                trace.completion_disconnects = trace.completion_disconnects + 1;
                if disconnect_reply.is_err() {
                    trace.logged_cleanup_failures = trace.logged_cleanup_failures + 1;
                }
                Ok(envelope)
            },
            Err(le) => Err(le),
        }
    }
}

/// The continuous-update signal subscription, disconnected exactly once
/// after the first sample has been captured.
pub struct UpdateSubscription {
    active: bool,
}

impl UpdateSubscription {
    /// Whether the subscription is still active.
    pub closed spec fn is_active(&self) -> bool {
        self.active
    }

    /// Issues the subscription call for the update signal.
    pub fn subscribe(reply: Result<(), BusError>, trace: &mut Trace) -> (r: Result<
        UpdateSubscription,
        BusError,
    >)
        requires
            old(trace).update_subscribes < u64::MAX,
        ensures
            *final(trace) == old(trace).after_update_subscribe(),
            reply is Ok <==> r is Ok,
            r matches Ok(sub) ==> sub.is_active(),
            reply matches Err(e) ==> r == Err::<UpdateSubscription, BusError>(e),
    {
        trace.update_subscribes = trace.update_subscribes + 1;
        match reply {
            Ok(_) => Ok(UpdateSubscription { active: true }),
            Err(e) => Err(e),
        }
    }

    /// Disconnects, best-effort and exactly once, like `Session::close`:
    /// the first call counts and logs a failed reply without propagating
    /// it; any later call changes nothing.
    pub fn disconnect(&mut self, reply: Result<(), BusError>, trace: &mut Trace) -> (logged:
        Option<BusError>)
        requires
            old(trace).update_disconnects < u64::MAX,
            old(trace).logged_cleanup_failures < u64::MAX,
        ensures
            !final(self).is_active(),
            old(self).is_active() ==> *final(trace) == old(trace).after_update_disconnect(
                reply is Err,
            ),
            old(self).is_active() ==> (match reply {
                Ok(_) => logged is None,
                Err(e) => logged == Some(e),
            }),
            !old(self).is_active() ==> *final(trace) == *old(trace) && logged is None,
    {
        if !self.active {
            return None;
        }
        self.active = false;
        trace.update_disconnects = trace.update_disconnects + 1;
        match reply {
            Ok(_) => None,
            Err(e) => {
                trace.logged_cleanup_failures = trace.logged_cleanup_failures + 1;
                Some(e)
            },
        }
    }
}

} // verus!
