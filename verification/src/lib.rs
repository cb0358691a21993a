//! HEP3 (Homer) shipping: the packets that a node sends about its calls and
//! about itself, the lines that they carry, and the decisions around sending
//! them.
//!
//! - [`telemetry`]: building the handle, and composing packets.
//! - [`lifecycle`]: one line when a bridged call starts and one when it ends.
//! - [`node`] and [`reporter`]: a node's health as a timeline of its own.
//! - [`counters`]: mirroring a sink's counters into the metrics registry.
//! - [`teardown`]: draining and stopping the background tasks.
//! - [`text`] and [`decimal`]: the one-line `key=value` format.
//! - [`packet`]: the packets themselves.

pub mod counters;
pub mod decimal;
pub mod lifecycle;
pub mod node;
pub mod packet;
pub mod reporter;
pub mod teardown;
pub mod telemetry;
pub mod text;

pub use counters::{
    publish_collector_up, publish_counters, CounterReadings, CounterSample, CounterSampler,
    MetricsUpdate, HEP_COLLECTOR_UP, HEP_METRICS_SAMPLE_INTERVAL_MS, HEP_NODE_EVENTS_TOTAL,
    HEP_PACKETS_DROPPED_TOTAL, HEP_PACKETS_SENT_TOTAL,
};
pub use lifecycle::{call_lifecycle_line, CallLifecycle};
pub use node::{
    node_correlation_id, node_health_line, node_transition, NodeEvent, RegistrationsSummary,
    StatusResponse,
};
pub use packet::{unspecified_addr, Endpoint, HepPacket, HepProtocol, IpProto};
pub use reporter::{NodeHealthReporter, Tick, NODE_HEALTH_POLL_MS};
pub use teardown::{
    HepWorkerHandle, PendingDrain, ReporterTask, TaskAction, WorkerAction, HEP_DRAIN_GRACE_MS,
    NODE_HEALTH_STOP_GRACE_MS,
};
pub use telemetry::{
    BuildStep, BuiltWithUdp, EventCount, HepBuildError, HepTelemetry, HepTelemetryBuild,
    NodeHealthEmission, PendingBuild, SinkLegs,
};
pub use text::push_field;
