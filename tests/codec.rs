use candybar::{decode, encode, AgentContext, BloodbankEvent, DecodeError, Document, EventSource, Field};

fn text(s: &str) -> Document {
    Document::Text(s.to_string())
}

fn object(entries: Vec<(&str, Document)>) -> Document {
    Document::Object(entries.into_iter().map(|(k, v)| (k.to_string(), v)).collect())
}

fn source() -> Document {
    object(vec![("host", text("box1")), ("app", text("donors")), ("type", text("service"))])
}

fn minimal_entries() -> Vec<(&'static str, Document)> {
    vec![
        ("event_id", text("e-1")),
        ("event_type", text("donor.registered")),
        ("timestamp", text("2024-01-01T00:00:00Z")),
        ("source", source()),
        ("payload", object(vec![("id", Document::Number("42".to_string()))])),
    ]
}

fn without(key: &str) -> Document {
    object(minimal_entries().into_iter().filter(|(k, _)| *k != key).collect())
}

fn sample_event() -> BloodbankEvent {
    BloodbankEvent {
        event_id: "e-7".to_string(),
        event_type: "donor.updated".to_string(),
        timestamp: "2024-05-06T07:08:09Z".to_string(),
        source: EventSource {
            host: "h".to_string(),
            app: "a".to_string(),
            source_type: "t".to_string(),
        },
        correlation_ids: vec!["c1".to_string(), "c2".to_string()],
        agent_context: Some(AgentContext {
            agent_name: Some("agent".to_string()),
            session_id: None,
            project: Some("proj".to_string()),
        }),
        payload: Document::Array(vec![Document::Bool(true), Document::Null]),
    }
}

#[test]
fn decode_minimal_envelope_fills_optional_fields_empty() {
    let e = decode(object(minimal_entries())).unwrap();
    assert_eq!(e.event_id, "e-1");
    assert_eq!(e.event_type, "donor.registered");
    assert_eq!(e.timestamp, "2024-01-01T00:00:00Z");
    assert_eq!(e.source.host, "box1");
    assert_eq!(e.source.app, "donors");
    assert_eq!(e.source.source_type, "service");
    assert!(e.correlation_ids.is_empty());
    assert!(e.agent_context.is_none());
    assert!(matches!(e.payload, Document::Object(ref es) if es.len() == 1 && es[0].0 == "id"));
}

#[test]
fn decode_ignores_unknown_fields_and_reads_null_agent_context() {
    let mut entries = minimal_entries();
    entries.push(("extra", Document::Bool(false)));
    entries.push(("agent_context", Document::Null));
    entries.push(("correlation_ids", Document::Array(vec![text("x")])));
    let e = decode(object(entries)).unwrap();
    assert!(e.agent_context.is_none());
    assert_eq!(e.correlation_ids, vec!["x".to_string()]);
}

#[test]
fn round_trip_gives_back_the_event() {
    let e = decode(encode(sample_event())).unwrap();
    let s = sample_event();
    assert_eq!(e.event_id, s.event_id);
    assert_eq!(e.event_type, s.event_type);
    assert_eq!(e.timestamp, s.timestamp);
    assert_eq!(e.source.host, s.source.host);
    assert_eq!(e.source.app, s.source.app);
    assert_eq!(e.source.source_type, s.source.source_type);
    assert_eq!(e.correlation_ids, s.correlation_ids);
    let a = e.agent_context.unwrap();
    assert_eq!(a.agent_name.as_deref(), Some("agent"));
    assert_eq!(a.session_id, None);
    assert_eq!(a.project.as_deref(), Some("proj"));
    assert!(matches!(
        e.payload,
        Document::Array(ref v) if v.len() == 2 && matches!(v[0], Document::Bool(true)) && matches!(v[1], Document::Null)
    ));
}

#[test]
fn encode_writes_canonical_field_order() {
    let mut s = sample_event();
    s.agent_context = None;
    match encode(s) {
        Document::Object(es) => {
            let keys: Vec<&str> = es.iter().map(|(k, _)| k.as_str()).collect();
            assert_eq!(
                keys,
                vec!["event_id", "event_type", "timestamp", "source", "correlation_ids", "agent_context", "payload"]
            );
            assert!(matches!(es[5].1, Document::Null));
        }
        _ => panic!("not a mapping"),
    }
}

#[test]
fn decode_reports_each_missing_required_field() {
    let cases = [
        ("event_id", Field::EventId),
        ("event_type", Field::EventType),
        ("timestamp", Field::Timestamp),
        ("source", Field::Source),
        ("payload", Field::Payload),
    ];
    for (key, field) in cases {
        assert_eq!(decode(without(key)).unwrap_err(), DecodeError::Missing(field));
    }
}

#[test]
fn decode_reports_missing_source_type() {
    let mut entries = minimal_entries();
    entries[3] = ("source", object(vec![("host", text("h")), ("app", text("a"))]));
    assert_eq!(decode(object(entries)).unwrap_err(), DecodeError::Missing(Field::SourceType));
}

#[test]
fn decode_rejects_a_non_mapping() {
    assert_eq!(decode(Document::Array(vec![])).unwrap_err(), DecodeError::NotAnObject);
    assert_eq!(decode(text("x")).unwrap_err(), DecodeError::NotAnObject);
}

#[test]
fn decode_rejects_wrong_kinds() {
    let mut entries = minimal_entries();
    entries[0] = ("event_id", Document::Number("1".to_string()));
    assert_eq!(decode(object(entries)).unwrap_err(), DecodeError::WrongType(Field::EventId));

    let mut entries = minimal_entries();
    entries.push(("correlation_ids", Document::Array(vec![text("a"), Document::Null])));
    assert_eq!(decode(object(entries)).unwrap_err(), DecodeError::WrongType(Field::CorrelationIds));

    let mut entries = minimal_entries();
    entries.push(("agent_context", object(vec![("project", Document::Bool(true))])));
    assert_eq!(decode(object(entries)).unwrap_err(), DecodeError::WrongType(Field::Project));

    let mut entries = minimal_entries();
    entries[3] = ("source", text("somewhere"));
    assert_eq!(decode(object(entries)).unwrap_err(), DecodeError::WrongType(Field::Source));
}

#[test]
fn decode_takes_the_first_of_repeated_keys() {
    let mut entries = minimal_entries();
    entries.push(("event_id", text("later")));
    assert_eq!(decode(object(entries)).unwrap().event_id, "e-1");
}

#[test]
fn null_payload_is_present() {
    let mut entries = minimal_entries();
    entries[4] = ("payload", Document::Null);
    assert!(matches!(decode(object(entries)).unwrap().payload, Document::Null));
}
