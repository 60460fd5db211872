use vstd::prelude::*;
use crate::config::RabbitConfig;

verus! {

/// One broker operation of setting up a subscription, in the order they run.
#[derive(Debug)]
pub enum TopologyStep {
    /// Declare a durable topic exchange; safe when it already exists alike.
    DeclareExchange { exchange: String },
    /// Declare a non-durable, exclusive, auto-deleting queue.
    DeclareQueue { queue: String },
    /// Bind the queue to the exchange under one routing pattern.
    Bind { queue: String, exchange: String, routing_key: String },
    /// Start consuming from the queue under a fixed consumer tag.
    Consume { queue: String, consumer_tag: String },
}

/// Which step of setting up the subscription failed.
#[derive(Debug)]
pub enum ProvisionError {
    ExchangeDeclareFailed,
    QueueDeclareFailed,
    /// Names the routing pattern whose binding failed.
    BindFailed(String),
    ConsumeStartFailed,
}

pub open spec fn is_lower_hex(c: char) -> bool {
    ('0' <= c && c <= '9') || ('a' <= c && c <= 'f')
}

/// The hyphenated text form of a UUID: 36 lower-case hexadecimal digits
/// and hyphens, the hyphens after the 8th, 12th, 16th and 20th digit.
pub open spec fn is_hyphenated_uuid(s: Seq<char>) -> bool {
    &&& s.len() == 36
    &&& forall|i: int|
        0 <= i < 36 ==> if i == 8 || i == 13 || i == 18 || i == 23 {
            s[i] == '-'
        } else {
            is_lower_hex(#[trigger] s[i])
        }
}

pub open spec fn queue_prefix() -> Seq<char> {
    "candybar."@
}

pub open spec fn consumer_tag() -> Seq<char> {
    "candybar-consumer"@
}

/// Relies on `uuid::Uuid::new_v4` and its hyphenated text form: a fresh
/// random identifier, written as 36 characters. The crate panics only when
/// the operating system cannot supply random bytes.
#[verifier::external_body]
fn fresh_uuid() -> (r: String)
    ensures
        is_hyphenated_uuid(r@),
{
    uuid::Uuid::new_v4().hyphenated().to_string()
}

/// The queue name for an identifier: the application's prefix, then the
/// identifier.
pub fn queue_name_for(id: &String) -> (r: String)
    ensures
        r@ == queue_prefix() + id@,
{
    let r = String::from_str("candybar.");
    r.concat(id.as_str())
}

/// A queue name that no other bridge will pick: the prefix and a fresh
/// random UUID.
pub fn new_queue_name() -> (r: String)
    ensures
        r@.len() == queue_prefix().len() + 36,
        r@.subrange(0, queue_prefix().len() as int) == queue_prefix(),
        is_hyphenated_uuid(r@.subrange(queue_prefix().len() as int, r@.len() as int)),
{
    let id = fresh_uuid();
    let r = queue_name_for(&id);
    proof {
        reveal_strlit("candybar.");
        assert(r@.subrange(0, 9) =~= queue_prefix());
        assert(r@.subrange(9, r@.len() as int) =~= id@);
    }
    r
}

/// The steps that set up a subscription for `config` on the queue `queue`:
/// declare the exchange, declare the queue, bind it once per routing
/// pattern in the given order, and start consuming.
pub fn topology_plan(config: &RabbitConfig, queue: &String) -> (r: Vec<TopologyStep>)
    ensures
        r@.len() == config.routing_keys@.len() + 3,
        r@[0] == (TopologyStep::DeclareExchange { exchange: config.exchange }),
        r@[1] == (TopologyStep::DeclareQueue { queue: *queue }),
        forall|i: int|
            0 <= i < config.routing_keys@.len() ==> #[trigger] r@[i + 2] == (TopologyStep::Bind {
                queue: *queue,
                exchange: config.exchange,
                routing_key: config.routing_keys@[i],
            }),
        r@[r@.len() - 1] matches TopologyStep::Consume { queue: q, consumer_tag: t } && q == *queue
            && t@ == consumer_tag(),
{
    let mut r: Vec<TopologyStep> = Vec::new();
    r.push(TopologyStep::DeclareExchange { exchange: config.exchange.clone() });
    r.push(TopologyStep::DeclareQueue { queue: queue.clone() });
    let mut i: usize = 0;
    while i < config.routing_keys.len()
        invariant
            i <= config.routing_keys@.len(),
            r@.len() == i + 2,
            r@[0] == (TopologyStep::DeclareExchange { exchange: config.exchange }),
            r@[1] == (TopologyStep::DeclareQueue { queue: *queue }),
            forall|j: int|
                0 <= j < i ==> #[trigger] r@[j + 2] == (TopologyStep::Bind {
                    queue: *queue,
                    exchange: config.exchange,
                    routing_key: config.routing_keys@[j],
                }),
        decreases config.routing_keys@.len() - i,
    {
        r.push(
            TopologyStep::Bind {
                queue: queue.clone(),
                exchange: config.exchange.clone(),
                routing_key: config.routing_keys[i].clone(),
            },
        );
        i = i + 1;
    }
    r.push(
        TopologyStep::Consume { queue: queue.clone(), consumer_tag: String::from_str("candybar-consumer") },
    );
    r
}

/// The error that reports a failure of `step`.
pub fn step_failure(step: &TopologyStep) -> (r: ProvisionError)
    ensures
        match *step {
            TopologyStep::DeclareExchange { .. } => r is ExchangeDeclareFailed,
            TopologyStep::DeclareQueue { .. } => r is QueueDeclareFailed,
            TopologyStep::Bind { routing_key, .. } => r == ProvisionError::BindFailed(routing_key),
            TopologyStep::Consume { .. } => r is ConsumeStartFailed,
        },
{
    match step {
        TopologyStep::DeclareExchange { .. } => ProvisionError::ExchangeDeclareFailed,
        TopologyStep::DeclareQueue { .. } => ProvisionError::QueueDeclareFailed,
        TopologyStep::Bind { routing_key, .. } => ProvisionError::BindFailed(routing_key.clone()),
        TopologyStep::Consume { .. } => ProvisionError::ConsumeStartFailed,
    }
}

} // verus!
