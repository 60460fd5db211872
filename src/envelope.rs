use vstd::prelude::*;
use crate::document::{find_entry, lemma_lookup_first, lemma_position_lookup, lookup, Document};

verus! {

/// Where an event was produced.
#[derive(Debug)]
pub struct EventSource {
    pub host: String,
    pub app: String,
    pub source_type: String,
}

/// The agent session that an event belongs to, where there is one.
#[derive(Debug)]
pub struct AgentContext {
    pub agent_name: Option<String>,
    pub session_id: Option<String>,
    pub project: Option<String>,
}

/// One event envelope, as read from a delivery.
#[derive(Debug)]
pub struct BloodbankEvent {
    pub event_id: String,
    pub event_type: String,
    pub timestamp: String,
    pub source: EventSource,
    pub correlation_ids: Vec<String>,
    pub agent_context: Option<AgentContext>,
    pub payload: Document,
}

/// A field of the envelope, named in decode errors.
#[derive(Clone, Copy, Debug, PartialEq, Eq, Structural)]
pub enum Field {
    EventId,
    EventType,
    Timestamp,
    Source,
    SourceHost,
    SourceApp,
    SourceType,
    CorrelationIds,
    AgentContext,
    AgentName,
    SessionId,
    Project,
    Payload,
}

/// Why a delivery's body is not an event envelope.
#[derive(Clone, Copy, Debug, PartialEq, Eq, Structural)]
pub enum DecodeError {
    /// The body is not UTF-8 text holding one well-formed document.
    Malformed,
    /// The document is not a mapping.
    NotAnObject,
    /// A required field is absent.
    Missing(Field),
    /// A field holds a value of the wrong kind.
    WrongType(Field),
}

pub open spec fn first_error(a: Option<DecodeError>, b: Option<DecodeError>) -> Option<DecodeError> {
    if a is Some {
        a
    } else {
        b
    }
}

/// A required string field.
pub open spec fn text_error(v: Option<Document>, f: Field) -> Option<DecodeError> {
    match v {
        None => Some(DecodeError::Missing(f)),
        Some(Document::Text(_)) => None,
        Some(_) => Some(DecodeError::WrongType(f)),
    }
}

/// An optional string field: absent or null reads as no value.
pub open spec fn optional_text_error(v: Option<Document>, f: Field) -> Option<DecodeError> {
    match v {
        None => None,
        Some(Document::Null) => None,
        Some(Document::Text(_)) => None,
        Some(_) => Some(DecodeError::WrongType(f)),
    }
}

pub open spec fn all_text(items: Seq<Document>) -> bool {
    forall|i: int| 0 <= i < items.len() ==> items[i] is Text
}

/// The correlation identifiers: absent reads as none at all.
pub open spec fn ids_error(v: Option<Document>) -> Option<DecodeError> {
    match v {
        None => None,
        Some(Document::Array(items)) => if all_text(items@) {
            None
        } else {
            Some(DecodeError::WrongType(Field::CorrelationIds))
        },
        Some(_) => Some(DecodeError::WrongType(Field::CorrelationIds)),
    }
}

pub open spec fn source_error(v: Option<Document>) -> Option<DecodeError> {
    match v {
        None => Some(DecodeError::Missing(Field::Source)),
        Some(Document::Object(es)) => first_error(
            text_error(lookup(es@, "host"@), Field::SourceHost),
            first_error(
                text_error(lookup(es@, "app"@), Field::SourceApp),
                text_error(lookup(es@, "type"@), Field::SourceType),
            ),
        ),
        Some(_) => Some(DecodeError::WrongType(Field::Source)),
    }
}

pub open spec fn agent_error(v: Option<Document>) -> Option<DecodeError> {
    match v {
        None => None,
        Some(Document::Null) => None,
        Some(Document::Object(es)) => first_error(
            optional_text_error(lookup(es@, "agent_name"@), Field::AgentName),
            first_error(
                optional_text_error(lookup(es@, "session_id"@), Field::SessionId),
                optional_text_error(lookup(es@, "project"@), Field::Project),
            ),
        ),
        Some(_) => Some(DecodeError::WrongType(Field::AgentContext)),
    }
}

pub open spec fn payload_error(v: Option<Document>) -> Option<DecodeError> {
    match v {
        None => Some(DecodeError::Missing(Field::Payload)),
        Some(_) => None,
    }
}

/// What is wrong with `d` as an envelope, checked field by field in
/// envelope order; `None` when it is one.
pub open spec fn envelope_error(d: Document) -> Option<DecodeError> {
    match d {
        Document::Object(es) => {
            let es = es@;
            first_error(
                text_error(lookup(es, "event_id"@), Field::EventId),
                first_error(
                    text_error(lookup(es, "event_type"@), Field::EventType),
                    first_error(
                        text_error(lookup(es, "timestamp"@), Field::Timestamp),
                        first_error(
                            source_error(lookup(es, "source"@)),
                            first_error(
                                ids_error(lookup(es, "correlation_ids"@)),
                                first_error(
                                    agent_error(lookup(es, "agent_context"@)),
                                    payload_error(lookup(es, "payload"@)),
                                ),
                            ),
                        ),
                    ),
                ),
            )
        },
        _ => Some(DecodeError::NotAnObject),
    }
}

pub open spec fn optional_text_reads(v: Option<Document>, o: Option<String>) -> bool {
    match v {
        None => o is None,
        Some(Document::Null) => o is None,
        Some(Document::Text(s)) => o == Some(s),
        Some(_) => false,
    }
}

pub open spec fn ids_read(v: Option<Document>, ids: Seq<String>) -> bool {
    match v {
        None => ids.len() == 0,
        Some(Document::Array(items)) => items@.len() == ids.len() && forall|i: int|
            0 <= i < ids.len() ==> items@[i] == Document::Text(ids[i]),
        Some(_) => false,
    }
}

pub open spec fn source_reads(v: Option<Document>, s: EventSource) -> bool {
    match v {
        Some(Document::Object(es)) => {
            &&& lookup(es@, "host"@) == Some(Document::Text(s.host))
            &&& lookup(es@, "app"@) == Some(Document::Text(s.app))
            &&& lookup(es@, "type"@) == Some(Document::Text(s.source_type))
        },
        _ => false,
    }
}

pub open spec fn agent_reads(v: Option<Document>, a: Option<AgentContext>) -> bool {
    match v {
        None => a is None,
        Some(Document::Null) => a is None,
        Some(Document::Object(es)) => match a {
            Some(c) => {
                &&& optional_text_reads(lookup(es@, "agent_name"@), c.agent_name)
                &&& optional_text_reads(lookup(es@, "session_id"@), c.session_id)
                &&& optional_text_reads(lookup(es@, "project"@), c.project)
            },
            None => false,
        },
        Some(_) => false,
    }
}

/// `e` is what the envelope `d` says, field by field.
pub open spec fn reads_as(d: Document, e: BloodbankEvent) -> bool {
    match d {
        Document::Object(es) => {
            let es = es@;
            &&& lookup(es, "event_id"@) == Some(Document::Text(e.event_id))
            &&& lookup(es, "event_type"@) == Some(Document::Text(e.event_type))
            &&& lookup(es, "timestamp"@) == Some(Document::Text(e.timestamp))
            &&& source_reads(lookup(es, "source"@), e.source)
            &&& ids_read(lookup(es, "correlation_ids"@), e.correlation_ids@)
            &&& agent_reads(lookup(es, "agent_context"@), e.agent_context)
            &&& lookup(es, "payload"@) == Some(e.payload)
        },
        _ => false,
    }
}

/// Two events that agree in every field.
pub open spec fn same_event(a: BloodbankEvent, b: BloodbankEvent) -> bool {
    &&& a.event_id == b.event_id
    &&& a.event_type == b.event_type
    &&& a.timestamp == b.timestamp
    &&& a.source == b.source
    &&& a.correlation_ids@ == b.correlation_ids@
    &&& a.agent_context == b.agent_context
    &&& a.payload == b.payload
}


fn entry_value<'a>(es: &'a Vec<(String, Document)>, key: &str) -> (r: Option<&'a Document>)
    ensures
        r matches Some(v) ==> lookup(es@, key@) == Some(*v),
        r is None ==> lookup(es@, key@) is None,
{
    let k = String::from_str(key);
    proof {
        lemma_position_lookup(es@, key@);
    }
    match find_entry(es, &k) {
        Some(i) => Some(&es[i].1),
        None => None,
    }
}

fn text_field(es: &Vec<(String, Document)>, key: &str, f: Field) -> (r: Result<String, DecodeError>)
    ensures
        r is Ok <==> text_error(lookup(es@, key@), f) is None,
        r matches Ok(s) ==> lookup(es@, key@) == Some(Document::Text(s)),
        r matches Err(x) ==> text_error(lookup(es@, key@), f) == Some(x),
{
    match entry_value(es, key) {
        None => Err(DecodeError::Missing(f)),
        Some(Document::Text(s)) => Ok(s.clone()),
        Some(_) => Err(DecodeError::WrongType(f)),
    }
}

fn optional_text_field(es: &Vec<(String, Document)>, key: &str, f: Field) -> (r: Result<
    Option<String>,
    DecodeError,
>)
    ensures
        r is Ok <==> optional_text_error(lookup(es@, key@), f) is None,
        r matches Ok(o) ==> optional_text_reads(lookup(es@, key@), o),
        r matches Err(x) ==> optional_text_error(lookup(es@, key@), f) == Some(x),
{
    match entry_value(es, key) {
        None => Ok(None),
        Some(Document::Null) => Ok(None),
        Some(Document::Text(s)) => Ok(Some(s.clone())),
        Some(_) => Err(DecodeError::WrongType(f)),
    }
}

fn ids_field(es: &Vec<(String, Document)>) -> (r: Result<Vec<String>, DecodeError>)
    ensures
        r is Ok <==> ids_error(lookup(es@, "correlation_ids"@)) is None,
        r matches Ok(ids) ==> ids_read(lookup(es@, "correlation_ids"@), ids@),
        r matches Err(x) ==> ids_error(lookup(es@, "correlation_ids"@)) == Some(x),
{
    match entry_value(es, "correlation_ids") {
        None => Ok(Vec::new()),
        Some(Document::Array(items)) => {
            let mut ids: Vec<String> = Vec::new();
            let mut i: usize = 0;
            while i < items.len()
                invariant
                    i <= items@.len(),
                    lookup(es@, "correlation_ids"@) == Some(Document::Array(*items)),
                    ids@.len() == i,
                    forall|j: int| 0 <= j < i ==> items@[j] == Document::Text(ids@[j]),
                decreases items@.len() - i,
            {
                match &items[i] {
                    Document::Text(s) => {
                        ids.push(s.clone());
                    },
                    _ => {
                        assert(!(items@[i as int] is Text));
                        return Err(DecodeError::WrongType(Field::CorrelationIds));
                    },
                }
                i = i + 1;
            }
            Ok(ids)
        },
        Some(_) => Err(DecodeError::WrongType(Field::CorrelationIds)),
    }
}

fn source_field(es: &Vec<(String, Document)>) -> (r: Result<EventSource, DecodeError>)
    ensures
        r is Ok <==> source_error(lookup(es@, "source"@)) is None,
        r matches Ok(s) ==> source_reads(lookup(es@, "source"@), s),
        r matches Err(x) ==> source_error(lookup(es@, "source"@)) == Some(x),
{
    match entry_value(es, "source") {
        None => Err(DecodeError::Missing(Field::Source)),
        Some(Document::Object(ss)) => {
            let host = match text_field(ss, "host", Field::SourceHost) {
                Ok(v) => v,
                Err(x) => return Err(x),
            };
            let app = match text_field(ss, "app", Field::SourceApp) {
                Ok(v) => v,
                Err(x) => return Err(x),
            };
            let source_type = match text_field(ss, "type", Field::SourceType) {
                Ok(v) => v,
                Err(x) => return Err(x),
            };
            Ok(EventSource { host, app, source_type })
        },
        Some(_) => Err(DecodeError::WrongType(Field::Source)),
    }
}

fn agent_field(es: &Vec<(String, Document)>) -> (r: Result<Option<AgentContext>, DecodeError>)
    ensures
        r is Ok <==> agent_error(lookup(es@, "agent_context"@)) is None,
        r matches Ok(a) ==> agent_reads(lookup(es@, "agent_context"@), a),
        r matches Err(x) ==> agent_error(lookup(es@, "agent_context"@)) == Some(x),
{
    match entry_value(es, "agent_context") {
        None => Ok(None),
        Some(Document::Null) => Ok(None),
        Some(Document::Object(cs)) => {
            let agent_name = match optional_text_field(cs, "agent_name", Field::AgentName) {
                Ok(v) => v,
                Err(x) => return Err(x),
            };
            let session_id = match optional_text_field(cs, "session_id", Field::SessionId) {
                Ok(v) => v,
                Err(x) => return Err(x),
            };
            let project = match optional_text_field(cs, "project", Field::Project) {
                Ok(v) => v,
                Err(x) => return Err(x),
            };
            Ok(Some(AgentContext { agent_name, session_id, project }))
        },
        Some(_) => Err(DecodeError::WrongType(Field::AgentContext)),
    }
}

/// Reads an event envelope out of a document. Succeeds exactly when every
/// required field is present with a value of the right kind and every
/// optional one is absent, null or of the right kind; the error names the
/// first field, in envelope order, that is not.
pub fn decode(d: Document) -> (r: Result<BloodbankEvent, DecodeError>)
    ensures
        r is Ok <==> envelope_error(d) is None,
        r matches Ok(e) ==> reads_as(d, e),
        r matches Err(x) ==> envelope_error(d) == Some(x),
{
    let ghost whole = d;
    match d {
        Document::Object(mut es) => {
            let ghost entries = es@;
            let event_id = match text_field(&es, "event_id", Field::EventId) {
                Ok(v) => v,
                Err(x) => return Err(x),
            };
            let event_type = match text_field(&es, "event_type", Field::EventType) {
                Ok(v) => v,
                Err(x) => return Err(x),
            };
            let timestamp = match text_field(&es, "timestamp", Field::Timestamp) {
                Ok(v) => v,
                Err(x) => return Err(x),
            };
            let source = match source_field(&es) {
                Ok(v) => v,
                Err(x) => return Err(x),
            };
            let correlation_ids = match ids_field(&es) {
                Ok(v) => v,
                Err(x) => return Err(x),
            };
            let agent_context = match agent_field(&es) {
                Ok(v) => v,
                Err(x) => return Err(x),
            };
            let key = String::from_str("payload");
            proof {
                lemma_position_lookup(es@, "payload"@);
            }
            match find_entry(&es, &key) {
                None => Err(DecodeError::Missing(Field::Payload)),
                Some(i) => {
                    let (_, payload) = es.remove(i);
                    let e = BloodbankEvent {
                        event_id,
                        event_type,
                        timestamp,
                        source,
                        correlation_ids,
                        agent_context,
                        payload,
                    };
                    assert(entries[i as int].1 == payload);
                    Ok(e)
                },
            }
        },
        _ => Err(DecodeError::NotAnObject),
    }
}

pub open spec fn optional_text_doc(o: Option<String>) -> Document {
    match o {
        None => Document::Null,
        Some(s) => Document::Text(s),
    }
}

pub open spec fn entry_is(e: (String, Document), key: Seq<char>, v: Document) -> bool {
    e.0@ == key && e.1 == v
}

pub open spec fn source_encodes(s: EventSource, d: Document) -> bool {
    match d {
        Document::Object(es) => {
            &&& es@.len() == 3
            &&& entry_is(es@[0], "host"@, Document::Text(s.host))
            &&& entry_is(es@[1], "app"@, Document::Text(s.app))
            &&& entry_is(es@[2], "type"@, Document::Text(s.source_type))
        },
        _ => false,
    }
}

pub open spec fn ids_encode(ids: Seq<String>, d: Document) -> bool {
    match d {
        Document::Array(items) => items@.len() == ids.len() && forall|i: int|
            0 <= i < ids.len() ==> items@[i] == Document::Text(ids[i]),
        _ => false,
    }
}

pub open spec fn agent_encodes(a: Option<AgentContext>, d: Document) -> bool {
    match a {
        None => d == Document::Null,
        Some(c) => match d {
            Document::Object(es) => {
                &&& es@.len() == 3
                &&& entry_is(es@[0], "agent_name"@, optional_text_doc(c.agent_name))
                &&& entry_is(es@[1], "session_id"@, optional_text_doc(c.session_id))
                &&& entry_is(es@[2], "project"@, optional_text_doc(c.project))
            },
            _ => false,
        },
    }
}

/// `d` is the canonical document of `e`: a mapping with every field of the
/// envelope once, in envelope order, absent optional values written as null.
pub open spec fn encodes(e: BloodbankEvent, d: Document) -> bool {
    match d {
        Document::Object(es) => {
            let es = es@;
            &&& es.len() == 7
            &&& entry_is(es[0], "event_id"@, Document::Text(e.event_id))
            &&& entry_is(es[1], "event_type"@, Document::Text(e.event_type))
            &&& entry_is(es[2], "timestamp"@, Document::Text(e.timestamp))
            &&& es[3].0@ == "source"@ && source_encodes(e.source, es[3].1)
            &&& es[4].0@ == "correlation_ids"@ && ids_encode(e.correlation_ids@, es[4].1)
            &&& es[5].0@ == "agent_context"@ && agent_encodes(e.agent_context, es[5].1)
            &&& entry_is(es[6], "payload"@, e.payload)
        },
        _ => false,
    }
}

fn optional_text_document(o: Option<String>) -> (r: Document)
    ensures
        r == optional_text_doc(o),
{
    match o {
        None => Document::Null,
        Some(s) => Document::Text(s),
    }
}

/// Writes an event as its canonical document.
pub fn encode(e: BloodbankEvent) -> (d: Document)
    ensures
        encodes(e, d),
{
    let BloodbankEvent {
        event_id,
        event_type,
        timestamp,
        source,
        correlation_ids,
        agent_context,
        payload,
    } = e;
    let mut src: Vec<(String, Document)> = Vec::new();
    src.push((String::from_str("host"), Document::Text(source.host)));
    src.push((String::from_str("app"), Document::Text(source.app)));
    src.push((String::from_str("type"), Document::Text(source.source_type)));
    let mut items: Vec<Document> = Vec::new();
    let mut i: usize = 0;
    while i < correlation_ids.len()
        invariant
            i <= correlation_ids@.len(),
            items@.len() == i,
            forall|j: int| 0 <= j < i ==> items@[j] == Document::Text(correlation_ids@[j]),
        decreases correlation_ids@.len() - i,
    {
        items.push(Document::Text(correlation_ids[i].clone()));
        i = i + 1;
    }
    let agent = match agent_context {
        None => Document::Null,
        Some(c) => {
            let mut cs: Vec<(String, Document)> = Vec::new();
            cs.push((String::from_str("agent_name"), optional_text_document(c.agent_name)));
            cs.push((String::from_str("session_id"), optional_text_document(c.session_id)));
            cs.push((String::from_str("project"), optional_text_document(c.project)));
            Document::Object(cs)
        },
    };
    let mut es: Vec<(String, Document)> = Vec::new();
    es.push((String::from_str("event_id"), Document::Text(event_id)));
    es.push((String::from_str("event_type"), Document::Text(event_type)));
    es.push((String::from_str("timestamp"), Document::Text(timestamp)));
    es.push((String::from_str("source"), Document::Object(src)));
    es.push((String::from_str("correlation_ids"), Document::Array(items)));
    es.push((String::from_str("agent_context"), agent));
    es.push((String::from_str("payload"), payload));
    Document::Object(es)
}

proof fn lemma_optional_text_round_trip(o: Option<String>)
    ensures
        optional_text_error(Some(optional_text_doc(o)), Field::AgentName) is None,
        optional_text_error(Some(optional_text_doc(o)), Field::SessionId) is None,
        optional_text_error(Some(optional_text_doc(o)), Field::Project) is None,
        optional_text_reads(Some(optional_text_doc(o)), o),
{
}

proof fn lemma_optional_text_reads_unique(v: Option<Document>, a: Option<String>, b: Option<String>)
    requires
        optional_text_reads(v, a),
        optional_text_reads(v, b),
    ensures
        a == b,
{
}

/// What an envelope says pins every field of the event read from it.
pub proof fn lemma_reads_as_unique(d: Document, a: BloodbankEvent, b: BloodbankEvent)
    requires
        reads_as(d, a),
        reads_as(d, b),
    ensures
        same_event(a, b),
{
    let es = d->Object_0@;
    match lookup(es, "correlation_ids"@) {
        Some(Document::Array(items)) => {
            assert forall|i: int| 0 <= i < a.correlation_ids@.len() implies a.correlation_ids@[i]
                == b.correlation_ids@[i] by {
                assert(items@[i] == Document::Text(a.correlation_ids@[i]));
                assert(items@[i] == Document::Text(b.correlation_ids@[i]));
            }
            assert(a.correlation_ids@ =~= b.correlation_ids@);
        },
        _ => {
            assert(a.correlation_ids@ =~= b.correlation_ids@);
        },
    }
    match lookup(es, "agent_context"@) {
        Some(Document::Object(cs)) => {
            let ca = a.agent_context->Some_0;
            let cb = b.agent_context->Some_0;
            lemma_optional_text_reads_unique(lookup(cs@, "agent_name"@), ca.agent_name, cb.agent_name);
            lemma_optional_text_reads_unique(lookup(cs@, "session_id"@), ca.session_id, cb.session_id);
            lemma_optional_text_reads_unique(lookup(cs@, "project"@), ca.project, cb.project);
        },
        _ => {},
    }
}

/// Decoding the canonical document of an event succeeds and gives back that
/// same event, field for field.
pub proof fn lemma_round_trip(e: BloodbankEvent, d: Document)
    requires
        encodes(e, d),
    ensures
        envelope_error(d) is None,
        reads_as(d, e),
        forall|e2: BloodbankEvent| reads_as(d, e2) ==> same_event(e2, e),
{
    reveal_strlit("event_id");
    reveal_strlit("event_type");
    reveal_strlit("timestamp");
    reveal_strlit("source");
    reveal_strlit("correlation_ids");
    reveal_strlit("agent_context");
    reveal_strlit("payload");
    reveal_strlit("host");
    reveal_strlit("app");
    reveal_strlit("type");
    reveal_strlit("agent_name");
    reveal_strlit("session_id");
    reveal_strlit("project");
    assert("event_type"@.len() != "event_id"@.len());
    assert("timestamp"@.len() != "event_id"@.len());
    assert("timestamp"@.len() != "event_type"@.len());
    assert("source"@.len() != "event_id"@.len());
    assert("source"@.len() != "event_type"@.len());
    assert("source"@.len() != "timestamp"@.len());
    assert("correlation_ids"@.len() != "event_id"@.len());
    assert("correlation_ids"@.len() != "event_type"@.len());
    assert("correlation_ids"@.len() != "timestamp"@.len());
    assert("correlation_ids"@.len() != "source"@.len());
    assert("agent_context"@.len() != "event_id"@.len());
    assert("agent_context"@.len() != "event_type"@.len());
    assert("agent_context"@.len() != "timestamp"@.len());
    assert("agent_context"@.len() != "source"@.len());
    assert("agent_context"@.len() != "correlation_ids"@.len());
    assert("payload"@.len() != "event_id"@.len());
    assert("payload"@.len() != "event_type"@.len());
    assert("payload"@.len() != "timestamp"@.len());
    assert("payload"@.len() != "source"@.len());
    assert("payload"@.len() != "correlation_ids"@.len());
    assert("payload"@.len() != "agent_context"@.len());
    assert("app"@.len() != "host"@.len());
    assert("type"@.len() != "app"@.len());
    assert("type"@[0] != "host"@[0]);
    assert("session_id"@[0] != "agent_name"@[0]);
    assert("project"@.len() != "agent_name"@.len());
    assert("project"@.len() != "session_id"@.len());
    let es = d->Object_0@;
    lemma_lookup_first(es, "event_id"@, 0);
    lemma_lookup_first(es, "event_type"@, 1);
    lemma_lookup_first(es, "timestamp"@, 2);
    lemma_lookup_first(es, "source"@, 3);
    lemma_lookup_first(es, "correlation_ids"@, 4);
    lemma_lookup_first(es, "agent_context"@, 5);
    lemma_lookup_first(es, "payload"@, 6);
    let ss = es[3].1->Object_0@;
    lemma_lookup_first(ss, "host"@, 0);
    lemma_lookup_first(ss, "app"@, 1);
    lemma_lookup_first(ss, "type"@, 2);
    match e.agent_context {
        Some(c) => {
            let cs = es[5].1->Object_0@;
            lemma_lookup_first(cs, "agent_name"@, 0);
            lemma_lookup_first(cs, "session_id"@, 1);
            lemma_lookup_first(cs, "project"@, 2);
            lemma_optional_text_round_trip(c.agent_name);
            lemma_optional_text_round_trip(c.session_id);
            lemma_optional_text_round_trip(c.project);
        },
        None => {},
    }
    assert forall|e2: BloodbankEvent| reads_as(d, e2) implies same_event(e2, e) by {
        lemma_reads_as_unique(d, e2, e);
    }
}

/// A document that lacks one of the required top-level fields is refused.
pub proof fn lemma_missing_field_rejected(d: Document, key: Seq<char>)
    requires
        d matches Document::Object(es) && lookup(es@, key) is None,
        key == "event_id"@ || key == "event_type"@ || key == "timestamp"@ || key == "source"@
            || key == "payload"@,
    ensures
        envelope_error(d) is Some,
{
}

/// A document whose source lacks its host, its application or its type is
/// refused.
pub proof fn lemma_missing_source_field_rejected(d: Document, key: Seq<char>)
    requires
        d matches Document::Object(es) && lookup(es@, "source"@) matches Some(
            Document::Object(ss),
        ) && lookup(ss@, key) is None,
        key == "host"@ || key == "app"@ || key == "type"@,
    ensures
        envelope_error(d) is Some,
{
}

} // verus!
