use portal_locate::BasicResult;
use portal_locate::BusError;
use portal_locate::Envelope;
use portal_locate::ErrReason;
use portal_locate::LocateError;
use portal_locate::LocationSample;
use portal_locate::SignalStream;
use portal_locate::StreamEnd;
use portal_locate::TransportScript;
use portal_locate::locate;

fn sample_turin() -> LocationSample {
    LocationSample {
        latitude_e7: (45.0f64 * 1e7) as i64,
        longitude_e7: (7.0f64 * 1e7) as i64,
        accuracy_mm: 12_000,
        altitude_mm: 240_000,
        speed_mms: 0,
        heading_mdeg: 0,
        timestamp_us: 1_700_000_000_000_000,
    }
}

fn granted_script() -> TransportScript {
    TransportScript {
        create_reply: Ok(()),
        start_reply: Ok(()),
        completion_subscribe_reply: Ok(()),
        completion_stream: SignalStream {
            signals: vec![Envelope::Granted(BasicResult {})],
            end: StreamEnd::Closed,
        },
        completion_disconnect_reply: Ok(()),
        update_subscribe_reply: Ok(()),
        update_stream: SignalStream { signals: vec![sample_turin()], end: StreamEnd::Closed },
        update_disconnect_reply: Ok(()),
        close_reply: Ok(()),
    }
}

#[test]
fn malformed_token_fails_before_any_transport_call() {
    let script = granted_script();
    let (result, trace) = locate(String::from("bad token!"), String::new(), &script);
    assert_eq!(result, Err(LocateError::Validation));
    assert_eq!(trace.create_calls, 0);
    assert_eq!(trace.start_calls, 0);
    assert_eq!(trace.completion_subscribes, 0);
    assert_eq!(trace.completion_disconnects, 0);
    assert_eq!(trace.update_subscribes, 0);
    assert_eq!(trace.update_disconnects, 0);
    assert_eq!(trace.close_calls, 0);
}

#[test]
fn service_error_on_completion_is_a_successful_outcome() {
    // Scenario: the service answers the request with its denied envelope.
    let mut script = granted_script();
    script.completion_stream = SignalStream {
        signals: vec![Envelope::ServiceErr(ErrReason::Denied)],
        end: StreamEnd::Closed,
    };
    let (result, trace) = locate(String::from("token_a"), String::new(), &script);
    assert_eq!(result, Ok(Envelope::ServiceErr(ErrReason::Denied)));
    assert_eq!(trace.close_calls, 1);
    assert_eq!(trace.update_subscribes, 0);
    assert_eq!(trace.completion_subscribes, 1);
    assert_eq!(trace.completion_disconnects, 1);
}

#[test]
fn granted_completion_captures_one_sample() {
    // Scenario: completion succeeds, then one update arrives at 45.0, 7.0.
    let script = granted_script();
    let (result, trace) = locate(String::from("token_b"), String::from("wayland:xyz"), &script);
    let sample = sample_turin();
    assert_eq!(result, Ok(Envelope::Granted(sample)));
    assert_eq!(sample.latitude_e7, 450_000_000);
    assert_eq!(sample.longitude_e7, 70_000_000);
    assert_eq!(trace.completion_subscribes, 1);
    assert_eq!(trace.completion_disconnects, 1);
    assert_eq!(trace.update_subscribes, 1);
    assert_eq!(trace.update_disconnects, 1);
    assert_eq!(trace.close_calls, 1);
    assert_eq!(trace.logged_cleanup_failures, 0);
}

#[test]
fn failed_create_call_propagates_and_closes_nothing() {
    // Scenario: the session-creation call itself fails on the bus.
    let mut script = granted_script();
    script.create_reply = Err(BusError { code: 99 });
    let (result, trace) = locate(String::from("token_c"), String::new(), &script);
    assert_eq!(result, Err(LocateError::Bus(BusError { code: 99 })));
    assert_eq!(trace.create_calls, 1);
    assert_eq!(trace.close_calls, 0);
    assert_eq!(trace.start_calls, 0);
}

#[test]
fn update_stream_ending_early_abandons_but_still_closes() {
    // Scenario: completion succeeds but the update stream ends before any
    // sample arrives.
    let mut script = granted_script();
    script.update_stream = SignalStream { signals: vec![], end: StreamEnd::Closed };
    let (result, trace) = locate(String::from("token_d"), String::new(), &script);
    assert_eq!(result, Err(LocateError::ChannelAbandoned));
    assert_eq!(trace.close_calls, 1);
    assert_eq!(trace.update_subscribes, 1);
    assert_eq!(trace.update_disconnects, 0);
}

#[test]
fn failed_start_still_closes_the_session() {
    let mut script = granted_script();
    script.start_reply = Err(BusError { code: 4 });
    let (result, trace) = locate(String::from("token_e"), String::new(), &script);
    assert_eq!(result, Err(LocateError::Bus(BusError { code: 4 })));
    assert_eq!(trace.close_calls, 1);
    assert_eq!(trace.completion_subscribes, 0);
}

#[test]
fn completion_stream_ending_early_abandons_but_still_closes() {
    let mut script = granted_script();
    script.completion_stream = SignalStream { signals: vec![], end: StreamEnd::Closed };
    let (result, trace) = locate(String::from("token_f"), String::new(), &script);
    assert_eq!(result, Err(LocateError::ChannelAbandoned));
    assert_eq!(trace.close_calls, 1);
    assert_eq!(trace.completion_disconnects, 0);
}

#[test]
fn completion_stream_bus_failure_propagates() {
    let mut script = granted_script();
    script.completion_stream = SignalStream {
        signals: vec![Envelope::Granted(BasicResult {})],
        end: StreamEnd::Failed(BusError { code: 8 }),
    };
    let (result, trace) = locate(String::from("token_g"), String::new(), &script);
    assert_eq!(result, Err(LocateError::Bus(BusError { code: 8 })));
    assert_eq!(trace.close_calls, 1);
}

#[test]
fn duplicate_completion_signals_use_the_first() {
    let mut script = granted_script();
    script.completion_stream = SignalStream {
        signals: vec![
            Envelope::ServiceErr(ErrReason::Cancelled),
            Envelope::Granted(BasicResult {}),
        ],
        end: StreamEnd::Closed,
    };
    let (result, trace) = locate(String::from("token_h"), String::new(), &script);
    assert_eq!(result, Ok(Envelope::ServiceErr(ErrReason::Cancelled)));
    assert_eq!(trace.update_subscribes, 0);
}

#[test]
fn failed_completion_subscription_closes_the_session() {
    let mut script = granted_script();
    script.completion_subscribe_reply = Err(BusError { code: 14 });
    let (result, trace) = locate(String::from("token_k"), String::new(), &script);
    assert_eq!(result, Err(LocateError::Bus(BusError { code: 14 })));
    assert_eq!(trace.completion_subscribes, 1);
    assert_eq!(trace.completion_disconnects, 0);
    assert_eq!(trace.close_calls, 1);
}

#[test]
fn failed_update_subscription_closes_the_session() {
    let mut script = granted_script();
    script.update_subscribe_reply = Err(BusError { code: 15 });
    let (result, trace) = locate(String::from("token_l"), String::new(), &script);
    assert_eq!(result, Err(LocateError::Bus(BusError { code: 15 })));
    assert_eq!(trace.update_subscribes, 1);
    assert_eq!(trace.update_disconnects, 0);
    assert_eq!(trace.close_calls, 1);
}

#[test]
fn cleanup_failures_are_logged_never_propagated() {
    let mut script = granted_script();
    script.completion_disconnect_reply = Err(BusError { code: 21 });
    script.update_disconnect_reply = Err(BusError { code: 22 });
    script.close_reply = Err(BusError { code: 23 });
    let (result, trace) = locate(String::from("token_i"), String::new(), &script);
    assert_eq!(result, Ok(Envelope::Granted(sample_turin())));
    assert_eq!(trace.logged_cleanup_failures, 3);
    assert_eq!(trace.close_calls, 1);
}

#[test]
fn close_failure_does_not_mask_a_service_error() {
    let mut script = granted_script();
    script.completion_stream = SignalStream {
        signals: vec![Envelope::ServiceErr(ErrReason::Other)],
        end: StreamEnd::Closed,
    };
    script.close_reply = Err(BusError { code: 31 });
    let (result, trace) = locate(String::from("token_j"), String::new(), &script);
    assert_eq!(result, Ok(Envelope::ServiceErr(ErrReason::Other)));
    assert_eq!(trace.logged_cleanup_failures, 1);
}
