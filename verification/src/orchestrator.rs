//! The location request orchestrator: the full workflow from token
//! validation to the final envelope, with deterministic teardown on every
//! exit path.
//!
//! The workflow runs `Init → SessionCreated → RequestStarted →
//! AwaitingCompletion → {CompletionOk | CompletionErr} → (if Ok)
//! AwaitingFirstSample → SampleReceived → Cleanup → Done`. Its policy:
//! a malformed token aborts before anything reaches the transport; a bus
//! failure before the session exists propagates with nothing to clean up;
//! any failure after that closes the session, best-effort, before
//! propagating; a service error envelope on completion is a normal result,
//! returned as such after teardown; on a granted completion exactly one
//! update sample is captured, both subscriptions are disconnected exactly
//! once, the session is closed exactly once, and the sample is returned.
//!
//! The transport's side of one run enters as a [`TransportScript`] of
//! plain values: the reply to each call and the signal traffic of each
//! subscription. The asynchronous calls that produce those values are I/O
//! and live outside the library; every decision taken on them is verified
//! here.

use vstd::prelude::*;

use crate::dispatch::SignalStream;
use crate::dispatch::await_outcome;
use crate::dispatch::await_signal;
use crate::errors::BusError;
use crate::errors::LocateError;
use crate::protocol::BasicResult;
use crate::protocol::Envelope;
use crate::protocol::LocationSample;
use crate::session::Request;
use crate::session::Session;
use crate::session::Trace;
use crate::session::UpdateSubscription;
use crate::session::completion_outcome;
use crate::session::completion_trace;
use crate::token::SessionToken;
use crate::token::valid_token;

verus! {

/// Everything the transport does during one orchestration run, as plain
/// values: the reply to each method call and subscription attempt, and the
/// filtered signal traffic of the two waits. Replies to close and
/// disconnect are listed too, but they are best-effort by design and never
/// decide the outcome.
pub struct TransportScript {
    /// Reply to the session-creation call.
    pub create_reply: Result<(), BusError>,
    /// Reply to the start call.
    pub start_reply: Result<(), BusError>,
    /// Reply to subscribing to the completion signal.
    pub completion_subscribe_reply: Result<(), BusError>,
    /// The completion subscription's traffic until its stream ended.
    pub completion_stream: SignalStream<Envelope<BasicResult>>,
    /// Reply to disconnecting the completion subscription (best-effort).
    pub completion_disconnect_reply: Result<(), BusError>,
    /// Reply to subscribing to the update signal.
    pub update_subscribe_reply: Result<(), BusError>,
    /// The update subscription's traffic until its stream ended.
    pub update_stream: SignalStream<LocationSample>,
    /// Reply to disconnecting the update subscription (best-effort).
    pub update_disconnect_reply: Result<(), BusError>,
    /// Reply to closing the session (best-effort).
    pub close_reply: Result<(), BusError>,
}

/// The outcome `locate` owes for every token and every behaviour of the
/// transport. A service error envelope on completion is a *successful*
/// return carrying that envelope; only validation, transport failures and
/// an abandoned wait fail the run.
pub open spec fn locate_result(token: Seq<char>, s: TransportScript) -> Result<
    Envelope<LocationSample>,
    LocateError,
> {
    if !valid_token(token) {
        Err(LocateError::Validation)
    } else {
        match s.create_reply {
            Err(e) => Err(LocateError::Bus(e)),
            Ok(_) => match s.start_reply {
                Err(e) => Err(LocateError::Bus(e)),
                Ok(_) => match completion_outcome(
                    s.completion_subscribe_reply,
                    s.completion_stream,
                ) {
                    Err(le) => Err(le),
                    Ok(Envelope::ServiceErr(reason)) => Ok(Envelope::ServiceErr(reason)),
                    Ok(Envelope::Granted(_)) => match s.update_subscribe_reply {
                        Err(e) => Err(LocateError::Bus(e)),
                        Ok(_) => match await_outcome(s.update_stream) {
                            Err(le) => Err(le),
                            Ok(sample) => Ok(Envelope::Granted(sample)),
                        },
                    },
                },
            },
        }
    }
}

/// The transport interactions `locate` owes on every path: which calls are
/// made, and that teardown is exact — no close before a session exists,
/// one close once it does, each subscription disconnected exactly once on
/// the paths that received their value.
pub open spec fn locate_trace(token: Seq<char>, s: TransportScript) -> Trace {
    if !valid_token(token) {
        Trace::zero()
    } else if s.create_reply is Err {
        Trace::zero().after_create()
    } else if s.start_reply is Err {
        Trace::zero().after_create().after_start().after_close(s.close_reply is Err)
    } else {
        let after_wait = completion_trace(
            Trace::zero().after_create().after_start(),
            s.completion_subscribe_reply,
            s.completion_stream,
            s.completion_disconnect_reply,
        );
        match completion_outcome(s.completion_subscribe_reply, s.completion_stream) {
            Err(_) => after_wait.after_close(s.close_reply is Err),
            Ok(Envelope::ServiceErr(_)) => after_wait.after_close(s.close_reply is Err),
            Ok(Envelope::Granted(_)) => {
                let subscribed = after_wait.after_update_subscribe();
                if s.update_subscribe_reply is Err {
                    subscribed.after_close(s.close_reply is Err)
                } else {
                    match await_outcome(s.update_stream) {
                        Err(_) => subscribed.after_close(s.close_reply is Err),
                        Ok(_) => subscribed.after_update_disconnect(
                            s.update_disconnect_reply is Err,
                        ).after_close(s.close_reply is Err),
                    }
                }
            },
        }
    }
}

/// The full workflow: validate the token, create the session, start the
/// request, await its single completion, branch on the envelope, capture
/// exactly one update sample if granted, and tear everything down. The
/// result and the complete transport trace are pinned for every input.
pub fn locate(token_text: String, window: String, script: &TransportScript) -> (out: (
    Result<Envelope<LocationSample>, LocateError>,
    Trace,
))
    ensures
        out.0 == locate_result(token_text@, *script),
        out.1 == locate_trace(token_text@, *script),
{
    let mut trace = Trace::new();
    let token = match SessionToken::new(token_text) {
        Err(_) => {
            return (Err(LocateError::Validation), trace);
        },
        Ok(t) => t,
    };
    let mut session = match Session::create(token, script.create_reply, &mut trace) {
        Err(e) => {
            return (Err(LocateError::Bus(e)), trace);
        },
        Ok(s) => s,
    };
    let mut request = match Request::start(window, script.start_reply, &mut trace) {
        Err(e) => {
            let _ = session.close(script.close_reply, &mut trace);
            return (Err(LocateError::Bus(e)), trace);
        },
        Ok(r) => r,
    };
    let envelope = match request.await_completion(
        script.completion_subscribe_reply,
        &script.completion_stream,
        script.completion_disconnect_reply,
        &mut trace,
    ) {
        Err(le) => {
            let _ = session.close(script.close_reply, &mut trace);
            return (Err(le), trace);
        },
        Ok(env) => env,
    };
    if let Envelope::ServiceErr(reason) = envelope {
        let _ = session.close(script.close_reply, &mut trace);
        return (Ok(Envelope::ServiceErr(reason)), trace);
    }
    let mut updates = match UpdateSubscription::subscribe(
        script.update_subscribe_reply,
        &mut trace,
    ) {
        Err(e) => {
            let _ = session.close(script.close_reply, &mut trace);
            return (Err(LocateError::Bus(e)), trace);
        },
        Ok(u) => u,
    };
    let sample = match await_signal(&script.update_stream) {
        Err(le) => {
            let _ = session.close(script.close_reply, &mut trace);
            return (Err(le), trace);
        },
        Ok(s) => s,
    };
    let _ = updates.disconnect(script.update_disconnect_reply, &mut trace);
    let _ = session.close(script.close_reply, &mut trace);
    (Ok(Envelope::Granted(sample)), trace)
}

/// Law: validation precedes the transport. For every malformed token the
/// run fails with `ValidationError` and not a single call reaches the
/// transport.
pub proof fn lemma_validation_precedes_transport(token: Seq<char>, s: TransportScript)
    requires
        !valid_token(token),
    ensures
        locate_result(token, s) == Err::<Envelope<LocationSample>, LocateError>(
            LocateError::Validation,
        ),
        locate_trace(token, s) == Trace::zero(),
        locate_trace(token, s).transport_calls() == 0,
{
}

/// Law: cleanup failures never mask the primary outcome. Two transport
/// behaviours that differ only in the replies to close and disconnect —
/// the best-effort teardown calls — give the same result, for every token.
pub proof fn lemma_cleanup_failures_do_not_mask(
    token: Seq<char>,
    s1: TransportScript,
    s2: TransportScript,
)
    requires
        s1.create_reply == s2.create_reply,
        s1.start_reply == s2.start_reply,
        s1.completion_subscribe_reply == s2.completion_subscribe_reply,
        s1.completion_stream.signals@ == s2.completion_stream.signals@,
        s1.completion_stream.end == s2.completion_stream.end,
        s1.update_subscribe_reply == s2.update_subscribe_reply,
        s1.update_stream.signals@ == s2.update_stream.signals@,
        s1.update_stream.end == s2.update_stream.end,
    ensures
        locate_result(token, s1) == locate_result(token, s2),
{
}

/// Law: a session is closed exactly once on every path on which it was
/// created, and never before one exists. Every path that fails earlier —
/// a malformed token or a failed creation call — issues no close at all.
pub proof fn lemma_close_on_every_exit(token: Seq<char>, s: TransportScript)
    ensures
        locate_trace(token, s).close_calls == if valid_token(token) && s.create_reply is Ok {
            1int
        } else {
            0int
        },
{
}

} // verus!
