use gca_control::dispatch::process_message;
use gca_control::dispatch::run_dispatcher;
use gca_control::dispatch::str_eq;
use gca_control::dispatch::ConnEvent;
use gca_control::dispatch::Outcome;
use gca_control::dispatch::UNLOCK_HOLD_SECS;

#[test]
fn unlock_fires_on_exact_topic_and_payload() {
    let r = process_message(Some("gca/api-gateway/unlock"), b"true".as_slice());
    assert_eq!(r, Outcome::Unlock);
}

#[test]
fn uppercase_payload_does_not_fire() {
    let r = process_message(Some("gca/api-gateway/unlock"), b"TRUE".as_slice());
    assert_eq!(r, Outcome::Unrecognized);
}

#[test]
fn padded_payload_does_not_fire() {
    let r = process_message(Some("gca/api-gateway/unlock"), b"true ".as_slice());
    assert_eq!(r, Outcome::Unrecognized);
}

#[test]
fn numeric_payload_does_not_fire() {
    let r = process_message(Some("gca/api-gateway/unlock"), b"1".as_slice());
    assert_eq!(r, Outcome::Unrecognized);
}

#[test]
fn wrong_topic_does_not_fire() {
    let r = process_message(Some("gca/api-gateway/lock"), b"true".as_slice());
    assert_eq!(r, Outcome::Unrecognized);
    let r = process_message(Some("gca/control-device/status"), b"true".as_slice());
    assert_eq!(r, Outcome::Unrecognized);
}

#[test]
fn missing_topic_does_not_fire() {
    let r = process_message(None, b"true".as_slice());
    assert_eq!(r, Outcome::Unrecognized);
}

#[test]
fn non_utf8_payload_is_malformed() {
    let r = process_message(Some("gca/api-gateway/unlock"), [0xff, 0xfe, 0x00].as_slice());
    assert_eq!(r, Outcome::Malformed);
}

#[test]
fn empty_payload_is_well_formed_but_unrecognized() {
    let r = process_message(Some("gca/api-gateway/unlock"), b"".as_slice());
    assert_eq!(r, Outcome::Unrecognized);
}

#[test]
fn unlock_hold_is_five_seconds() {
    assert_eq!(UNLOCK_HOLD_SECS, 5);
}

#[test]
fn str_eq_compares_by_content() {
    assert!(str_eq("gca/api-gateway/unlock", "gca/api-gateway/unlock"));
    assert!(!str_eq("true", "TRUE"));
    assert!(!str_eq("true", "true "));
}

fn received(topic: Option<&str>, data: &[u8]) -> ConnEvent {
    ConnEvent::Received { topic: topic.map(|t| t.to_string()), data: data.to_vec() }
}

#[test]
fn dispatcher_processes_queued_messages_in_order() {
    let events = vec![
        received(Some("gca/api-gateway/unlock"), b"true"),
        received(Some("gca/api-gateway/unlock"), b"false"),
        ConnEvent::Status,
        received(Some("other/topic"), b"true"),
    ];
    let log = run_dispatcher(&events);
    assert_eq!(
        log,
        vec![Outcome::Unlock, Outcome::Unrecognized, Outcome::NonMessage, Outcome::Unrecognized]
    );
}

#[test]
fn dispatcher_decides_each_message_before_the_next() {
    // Two unlock commands queued before dispatch begins: both are decided,
    // in arrival order, neither dropped.
    let events = vec![
        received(Some("gca/api-gateway/unlock"), b"true"),
        received(Some("gca/api-gateway/unlock"), b"true"),
    ];
    let log = run_dispatcher(&events);
    assert_eq!(log, vec![Outcome::Unlock, Outcome::Unlock]);
}

#[test]
fn dispatcher_exits_cleanly_on_close() {
    let events = vec![
        received(Some("gca/api-gateway/unlock"), b"true"),
        ConnEvent::Closed,
        received(Some("gca/api-gateway/unlock"), b"true"),
    ];
    let log = run_dispatcher(&events);
    // The worker stops at the close, returns normally, and never sees events
    // queued after it.
    assert_eq!(log, vec![Outcome::Unlock]);
}

#[test]
fn dispatcher_handles_immediate_close() {
    let events = vec![ConnEvent::Closed];
    let log = run_dispatcher(&events);
    assert!(log.is_empty());
}

#[test]
fn malformed_message_is_reported_not_fatal() {
    let events = vec![
        received(Some("gca/api-gateway/unlock"), &[0x80, 0x80]),
        received(Some("gca/api-gateway/unlock"), b"true"),
    ];
    let log = run_dispatcher(&events);
    // The malformed payload is recorded and the loop continues.
    assert_eq!(log, vec![Outcome::Malformed, Outcome::Unlock]);
}
