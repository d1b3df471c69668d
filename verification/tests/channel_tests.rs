use portal_locate::CorrelationChannel;
use portal_locate::LocateError;
use portal_locate::SendOutcome;

#[test]
fn delivers_once() {
    let mut c: CorrelationChannel<u32> = CorrelationChannel::new();
    assert_eq!(c.send(41), SendOutcome::Accepted);
    assert_eq!(c.receive(), Ok(41));
}

#[test]
fn second_send_reports_already_delivered_and_first_value_wins() {
    let mut c: CorrelationChannel<u32> = CorrelationChannel::new();
    assert_eq!(c.send(1), SendOutcome::Accepted);
    assert_eq!(c.send(2), SendOutcome::AlreadyDelivered);
    assert_eq!(c.send(3), SendOutcome::AlreadyDelivered);
    assert_eq!(c.receive(), Ok(1));
}

#[test]
fn abandoned_before_send_fails_receive() {
    let mut c: CorrelationChannel<u32> = CorrelationChannel::new();
    c.abandon();
    assert_eq!(c.receive(), Err(LocateError::ChannelAbandoned));
}

#[test]
fn abandon_after_send_keeps_value() {
    let mut c: CorrelationChannel<u32> = CorrelationChannel::new();
    let _ = c.send(9);
    c.abandon();
    assert_eq!(c.receive(), Ok(9));
}
