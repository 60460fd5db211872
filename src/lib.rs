//! Consumer-side bridge to a topic-based message broker: connection
//! settings, the event envelope codec, the subscription topology, the
//! per-delivery decisions of the consume loop and the connection lifecycle.

pub mod config;
pub mod consume;
pub mod controller;
pub mod document;
pub mod envelope;
pub mod topology;

pub use config::{rabbitmq_default_config, RabbitConfig};
pub use consume::{ConsumeLoop, Delivery, LoopPhase, Step, StopReason};
pub use controller::{BridgeState, ConnectError, RabbitState};
pub use document::Document;
pub use envelope::{decode, encode, AgentContext, BloodbankEvent, DecodeError, EventSource, Field};
pub use topology::{new_queue_name, topology_plan, ProvisionError, TopologyStep};
