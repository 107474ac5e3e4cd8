use echo_guest::bridge::BridgeReply;
use echo_guest::bridge::HostBridge;
use echo_guest::errors::HandlerError;

#[test]
fn the_bridge_answers_with_the_scripted_success() {
    let mut bridge = HostBridge::new(BridgeReply::Success(b"pong".to_vec()));
    let r = bridge.call("wapc", "testing", "echo", b"ping".to_vec());
    assert_eq!(r.unwrap(), b"pong".to_vec());
}

#[test]
fn the_bridge_answers_with_the_scripted_failure() {
    let mut bridge = HostBridge::new(BridgeReply::Failure("host refused".to_string()));
    let r = bridge.call("wapc", "testing", "echo", b"ping".to_vec());
    let e = r.unwrap_err();
    assert_eq!(e, HandlerError::BridgeCall("host refused".to_string()));
    assert_eq!(e.message(), "host refused");
}

#[test]
fn the_bridge_logs_every_call_in_order() {
    let mut bridge = HostBridge::new(BridgeReply::Success(Vec::new()));
    let _ = bridge.call("wapc", "testing", "first", b"1".to_vec());
    let _ = bridge.call("wapc", "testing", "second", b"2".to_vec());
    assert_eq!(bridge.call_count(), 2);
    assert_eq!(bridge.call_at(0).operation, "first");
    assert_eq!(bridge.call_at(1).operation, "second");
    assert_eq!(bridge.call_at(1).payload, b"2".to_vec());
}
