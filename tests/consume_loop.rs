use candybar::{ConsumeLoop, DecodeError, Delivery, Document, LoopPhase, Step, StopReason};

fn to_document(v: serde_json::Value) -> Document {
    match v {
        serde_json::Value::Null => Document::Null,
        serde_json::Value::Bool(b) => Document::Bool(b),
        serde_json::Value::Number(n) => Document::Number(n.to_string()),
        serde_json::Value::String(s) => Document::Text(s),
        serde_json::Value::Array(items) => Document::Array(items.into_iter().map(to_document).collect()),
        serde_json::Value::Object(m) => Document::Object(m.into_iter().map(|(k, v)| (k, to_document(v))).collect()),
    }
}

fn delivery(body: &[u8]) -> Delivery {
    match serde_json::from_slice::<serde_json::Value>(body) {
        Ok(v) => Delivery::Message(to_document(v)),
        Err(_) => Delivery::Unreadable,
    }
}

fn envelope(event_type: &str) -> Vec<u8> {
    format!(
        "{{\"event_id\":\"id-1\",\"event_type\":\"{}\",\"timestamp\":\"2024-01-01T00:00:00Z\",\
         \"source\":{{\"host\":\"h\",\"app\":\"a\",\"type\":\"t\"}},\"payload\":{{\"n\":1}}}}",
        event_type
    )
    .into_bytes()
}

#[test]
fn one_published_event_reaches_the_sink_once() {
    let mut l = ConsumeLoop::new();
    let steps = vec![l.step(delivery(&envelope("donor.registered")))];
    let events: Vec<&Step> = steps.iter().filter(|s| matches!(s, Step::Deliver(_))).collect();
    assert_eq!(events.len(), 1);
    match events[0] {
        Step::Deliver(e) => assert_eq!(e.event_type, "donor.registered"),
        _ => unreachable!(),
    }
    assert_eq!(l.phase(), LoopPhase::Running);
}

#[test]
fn unparsable_body_is_discarded_and_acknowledged() {
    let mut l = ConsumeLoop::new();
    let s = l.step(delivery(b"{not json"));
    assert!(matches!(s, Step::Discard(DecodeError::Malformed)));
    assert!(!matches!(s, Step::Stop(_)));
    assert_eq!(l.phase(), LoopPhase::Running);
}

#[test]
fn invalid_utf8_body_is_discarded() {
    let mut l = ConsumeLoop::new();
    let s = l.step(delivery(&[0x22, 0xff, 0xfe, 0x22]));
    assert!(matches!(s, Step::Discard(DecodeError::Malformed)));
}

#[test]
fn decode_failure_does_not_stop_later_events() {
    let mut l = ConsumeLoop::new();
    let first = l.step(delivery(b"{\"event_id\":\"x\"}"));
    assert!(matches!(first, Step::Discard(DecodeError::Missing(_))));
    let second = l.step(delivery(b"[1,2"));
    assert!(matches!(second, Step::Discard(DecodeError::Malformed)));
    let third = l.step(delivery(&envelope("donor.updated")));
    assert!(matches!(third, Step::Deliver(ref e) if e.event_type == "donor.updated"));
    assert_eq!(l.phase(), LoopPhase::Running);
}

#[test]
fn nothing_is_delivered_after_cancel() {
    let mut l = ConsumeLoop::new();
    l.cancel();
    assert_eq!(l.phase(), LoopPhase::Cancelled);
    for _ in 0..3 {
        let s = l.step(delivery(&envelope("donor.registered")));
        assert!(matches!(s, Step::Stop(StopReason::Cancelled)));
    }
    assert_eq!(l.phase(), LoopPhase::Cancelled);
}

#[test]
fn stream_end_finishes_the_loop() {
    let mut l = ConsumeLoop::new();
    assert!(matches!(l.step(Delivery::Ended), Step::Stop(StopReason::Ended)));
    assert_eq!(l.phase(), LoopPhase::Finished);
    l.cancel();
    assert_eq!(l.phase(), LoopPhase::Finished);
    assert!(matches!(l.step(delivery(&envelope("x"))), Step::Stop(StopReason::Ended)));
}

#[test]
fn stream_error_finishes_the_loop() {
    let mut l = ConsumeLoop::new();
    assert!(matches!(l.step(Delivery::Failed), Step::Stop(StopReason::Failed)));
    assert_eq!(l.phase(), LoopPhase::Finished);
}
