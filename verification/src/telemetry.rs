//! The telemetry handle: how it is put together from its configuration, and
//! the packets that it composes.
//!
//! A leg stands for one destination of packets, of whatever type the caller
//! has for it; opening sockets and sending are the caller's.
use vstd::prelude::*;

use std::time::SystemTime;

use crate::counters;
use crate::counters::{CounterReadings, CounterSampler, MetricsUpdate, HEP_NODE_EVENTS_TOTAL};
use crate::lifecycle;
use crate::lifecycle::{call_lifecycle_line, CallLifecycle};
use crate::node;
use crate::node::{node_correlation_id, node_health_line, NodeEvent, StatusResponse};
use crate::packet;
use crate::packet::{
    clone_opt_string, own_opt_str, unspecified_addr, Endpoint, HepPacket, HepProtocol, IpProto,
    PacketView,
};
use crate::teardown::HepWorkerHandle;
use crate::text;

verus! {

/// Where packets go.
#[derive(Debug)]
pub enum SinkLegs<L> {
    /// The one destination, used as it is.
    Direct(L),
    /// A fan-out to each of these, in order.
    FanOut(Vec<L>),
}

/// What a sink is made of.
pub enum SinkView<L> {
    Direct(L),
    FanOut(Seq<L>),
}

impl<L> View for SinkLegs<L> {
    type V = SinkView<L>;

    open spec fn view(&self) -> SinkView<L> {
        match self {
            SinkLegs::Direct(leg) => SinkView::Direct(*leg),
            SinkLegs::FanOut(legs) => SinkView::FanOut(legs@),
        }
    }
}

impl<L> SinkView<L> {
    /// The destinations that a packet reaches, in order.
    pub open spec fn legs(self) -> Seq<L> {
        match self {
            SinkView::Direct(leg) => seq![leg],
            SinkView::FanOut(legs) => legs,
        }
    }
}

/// The sink over some legs: one leg stays one leg.
pub open spec fn sink_over<L>(legs: Seq<L>) -> SinkView<L> {
    if legs.len() == 1 {
        SinkView::Direct(legs[0])
    } else {
        SinkView::FanOut(legs)
    }
}

/// Puts legs together. The fan-out is only interposed where there is not
/// exactly one destination, so that a lone leg is used directly.
fn assemble<L>(legs: Vec<L>) -> (sink: SinkLegs<L>)
    ensures
        sink@ == sink_over(legs@),
        legs@.len() == 1 ==> sink@ == SinkView::Direct(legs@[0]),
        legs@.len() != 1 ==> sink@ == SinkView::FanOut(legs@),
{
    let mut legs = legs;
    if legs.len() == 1 {
        let ghost all = legs@;
        match legs.pop() {
            Some(leg) => SinkLegs::Direct(leg),
            None => {
                assert(all.len() == 0);
                SinkLegs::FanOut(legs)
            },
        }
    } else {
        SinkLegs::FanOut(legs)
    }
}

/// A sink reaches every leg that it was put together from, in order, and is a
/// fan-out exactly where it has not one leg.
pub proof fn law_sink_reaches_every_leg<L>(legs: Seq<L>)
    ensures
        sink_over(legs).legs() == legs,
        sink_over(legs) is Direct <==> legs.len() == 1,
        forall|leg: L| #[trigger] SinkView::Direct(leg).legs() == seq![leg],
        forall|all: Seq<L>| #[trigger] SinkView::FanOut(all).legs() == all,
{
    assert(sink_over(legs).legs() =~= legs);
}

/// What a telemetry handle is built from.
#[derive(Debug)]
pub struct HepTelemetryBuild<L> {
    /// UDP collector to ship to. Without one there is no UDP leg and no socket
    /// is opened; the packet stream still exists for the other legs.
    pub collector: Option<Endpoint>,
    /// Capture id to stamp on every packet.
    pub capture_id: u32,
    /// Shared password to stamp on every packet, if any.
    pub capture_password: Option<String>,
    /// How many packets the UDP leg may queue.
    pub queue_capacity: usize,
    /// The configured id of this node.
    pub node_id: String,
    /// Legs in this process, fanned out alongside the UDP one.
    pub extra_sinks: Vec<L>,
}

/// What a build configuration holds.
pub struct BuildView<L> {
    pub collector: Option<Endpoint>,
    pub capture_id: u32,
    pub capture_password: Option<Seq<char>>,
    pub queue_capacity: usize,
    pub node_id: Seq<char>,
    pub extra_sinks: Seq<L>,
}

impl<L> View for HepTelemetryBuild<L> {
    type V = BuildView<L>;

    open spec fn view(&self) -> BuildView<L> {
        BuildView {
            collector: self.collector,
            capture_id: self.capture_id,
            capture_password: packet::opt_string(self.capture_password),
            queue_capacity: self.queue_capacity,
            node_id: self.node_id@,
            extra_sinks: self.extra_sinks@,
        }
    }
}

/// The telemetry handle: the sink, and what is stamped on the packets that are
/// composed here.
#[derive(Debug)]
pub struct HepTelemetry<L> {
    sink: SinkLegs<L>,
    capture_id: u32,
    capture_password: Option<String>,
    node_id: String,
}

/// What a telemetry handle holds.
pub struct TelemetryView<L> {
    pub sink: SinkView<L>,
    pub capture_id: u32,
    pub capture_password: Option<Seq<char>>,
    pub node_id: Seq<char>,
}

impl<L> View for HepTelemetry<L> {
    type V = TelemetryView<L>;

    closed spec fn view(&self) -> TelemetryView<L> {
        TelemetryView {
            sink: self.sink@,
            capture_id: self.capture_id,
            capture_password: packet::opt_string(self.capture_password),
            node_id: self.node_id@,
        }
    }
}

/// The handle that a configuration makes over some legs.
pub open spec fn telemetry_over<L>(args: BuildView<L>, legs: Seq<L>) -> TelemetryView<L> {
    TelemetryView {
        sink: sink_over(legs),
        capture_id: args.capture_id,
        capture_password: args.capture_password,
        node_id: args.node_id,
    }
}

/// The handle over some legs reaches exactly those legs, in their order,
/// directly where there is one of them, and carries the capture id, the
/// password and the node id that were configured. None of these depends on any
/// other part of the configuration.
pub proof fn law_handle_reaches_every_leg<L>(args: BuildView<L>, legs: Seq<L>)
    ensures
        telemetry_over(args, legs).sink.legs() == legs,
        legs.len() == 1 <==> telemetry_over(args, legs).sink is Direct,
        legs.len() == 1 ==> telemetry_over(args, legs).sink == SinkView::Direct(legs[0]),
        legs.len() != 1 ==> telemetry_over(args, legs).sink == SinkView::FanOut(legs),
        telemetry_over(args, legs).capture_id == args.capture_id,
        telemetry_over(args, legs).capture_password == args.capture_password,
        telemetry_over(args, legs).node_id == args.node_id,
{
    law_sink_reaches_every_leg(legs);
}

/// Two configurations give the same sink over the same legs, in whatever they
/// differ: no password, capture id, node id or collector loses a leg.
pub proof fn law_no_setting_loses_a_leg<L>(a: BuildView<L>, b: BuildView<L>, legs: Seq<L>)
    ensures
        telemetry_over(a, legs).sink == telemetry_over(b, legs).sink,
        forall|leg: L| #[trigger]
            legs.contains(leg) ==> telemetry_over(a, legs).sink.legs().contains(leg),
{
    law_handle_reaches_every_leg(a, legs);
    law_handle_reaches_every_leg(b, legs);
}

/// A configuration is seen as it is.
pub proof fn law_configuration_is_seen_as_it_is<L>(args: HepTelemetryBuild<L>)
    ensures
        args@.collector == args.collector,
        args@.capture_id == args.capture_id,
        args@.queue_capacity == args.queue_capacity,
        args@.node_id == args.node_id@,
        args@.extra_sinks == args.extra_sinks@,
        match args.capture_password {
            Some(password) => args@.capture_password == Some(password@),
            None => args@.capture_password is None,
        },
{
}

/// How building a telemetry handle goes on.
#[derive(Debug)]
pub enum BuildStep<L> {
    /// The handle is built; there is no UDP leg, and no worker to drain.
    Built(HepTelemetry<L>),
    /// A UDP leg is to be started, and its outcome handed to the pending build.
    StartUdp { collector: Endpoint, queue_capacity: usize, pending: PendingBuild<L> },
}

/// A build that waits for its UDP leg.
#[derive(Debug)]
pub struct PendingBuild<L> {
    args: HepTelemetryBuild<L>,
}

impl<L> View for PendingBuild<L> {
    type V = BuildView<L>;

    closed spec fn view(&self) -> BuildView<L> {
        self.args@
    }
}

/// A telemetry handle that has a UDP leg, and what comes with the leg.
#[derive(Debug)]
pub struct BuiltWithUdp<L> {
    /// The handle.
    pub telemetry: HepTelemetry<L>,
    /// The tasks behind the UDP leg, to be drained on shutdown.
    pub worker: HepWorkerHandle,
    /// The mirror of the UDP leg's counters, to be run from now on.
    pub sampler: CounterSampler,
    /// What the mirror publishes before anything can be sent.
    pub update: MetricsUpdate,
}

/// Failure modes of building a telemetry handle.
#[derive(Debug)]
pub enum HepBuildError<E> {
    /// The UDP leg could not be started: a misconfigured collector address
    /// surfaces here.
    Udp(E),
}

impl<L> HepTelemetry<L> {
    /// Builds a handle from its configuration. A UDP leg is called for exactly
    /// where a collector is configured.
    pub fn build(args: HepTelemetryBuild<L>) -> (step: BuildStep<L>)
        ensures
            match args.collector {
                None => step matches BuildStep::Built(telemetry) && telemetry@ == telemetry_over(
                    args@,
                    args@.extra_sinks,
                ),
                Some(address) => step matches BuildStep::StartUdp {
                    collector,
                    queue_capacity,
                    pending,
                } && collector == address && queue_capacity == args.queue_capacity && pending@
                    == args@,
            },
            args.collector is None ==> step is Built,
            step matches BuildStep::Built(telemetry) ==> telemetry@.capture_id == args.capture_id
                && telemetry@.node_id == args.node_id@ && (match args.capture_password {
                Some(password) => telemetry@.capture_password == Some(password@),
                None => telemetry@.capture_password is None,
            }),
            step matches BuildStep::Built(telemetry) ==> telemetry@.sink.legs()
                == args.extra_sinks@,
            step matches BuildStep::Built(telemetry) ==> (if args.extra_sinks@.len() == 1 {
                telemetry@.sink == SinkView::Direct(args.extra_sinks@[0])
            } else {
                telemetry@.sink == SinkView::FanOut(args.extra_sinks@)
            }),
            args.collector is Some ==> step is StartUdp,
            step matches BuildStep::StartUdp { collector, queue_capacity, pending } ==> Some(
                collector,
            ) == args.collector && queue_capacity == args.queue_capacity && pending@.capture_id
                == args.capture_id && pending@.node_id == args.node_id@ && pending@.extra_sinks
                == args.extra_sinks@ && (match args.capture_password {
                Some(password) => pending@.capture_password == Some(password@),
                None => pending@.capture_password is None,
            }),
    {
        proof {
            law_sink_reaches_every_leg(args.extra_sinks@);
        }
        match args.collector {
            Some(collector) => BuildStep::StartUdp {
                collector,
                queue_capacity: args.queue_capacity,
                pending: PendingBuild { args },
            },
            None => BuildStep::Built(
                HepTelemetry {
                    sink: assemble(args.extra_sinks),
                    capture_id: args.capture_id,
                    capture_password: args.capture_password,
                    node_id: args.node_id,
                },
            ),
        }
    }
}

impl<L> PendingBuild<L> {
    /// Goes on with a build once the UDP leg was started, or failed to. The UDP
    /// leg comes first, then the extra ones in their order.
    pub fn udp_started<E>(self, outcome: Result<(L, CounterReadings), E>) -> (built: Result<
        BuiltWithUdp<L>,
        HepBuildError<E>,
    >)
        ensures
            match outcome {
                Ok((leg, readings)) => built matches Ok(b) && b.telemetry@ == telemetry_over(
                    self@,
                    seq![leg] + self@.extra_sinks,
                ) && b.worker == (HepWorkerHandle { worker: true, sampler: true })
                    && b.sampler.previous_failures == readings.send_failures
                    && counters::samples_view(b.update.counters@) == counters::counter_series(
                    readings,
                ) && b.update.collector_up,
                Err(error) => built == Err::<BuiltWithUdp<L>, HepBuildError<E>>(
                    HepBuildError::Udp(error),
                ),
            },
            outcome is Ok <==> built is Ok,
            outcome matches Ok((leg, readings)) ==> built matches Ok(b)
                && b.telemetry@.sink.legs() == seq![leg] + self@.extra_sinks,
            outcome matches Ok((leg, readings)) ==> built matches Ok(b) && (if self@
                .extra_sinks.len() == 0 {
                b.telemetry@.sink == SinkView::Direct(leg)
            } else {
                b.telemetry@.sink == SinkView::FanOut(seq![leg] + self@.extra_sinks)
            }),
            built matches Ok(b) ==> b.telemetry@.capture_id == self@.capture_id
                && b.telemetry@.capture_password == self@.capture_password
                && b.telemetry@.node_id == self@.node_id,
            outcome matches Ok((leg, readings)) ==> built matches Ok(b)
                && b.update.counters@.len() == 3 && b.update.counters@[0].value == readings.sent
                && b.update.counters@[1].value == readings.drops && b.update.counters@[2].value
                == readings.send_failures,
    {
        match outcome {
            Err(error) => Err(HepBuildError::Udp(error)),
            Ok((leg, readings)) => {
                let (sampler, update) = CounterSampler::start(&readings);
                proof {
                    law_sink_reaches_every_leg(seq![leg] + self@.extra_sinks);
                }
                let mut extra_sinks = self.args.extra_sinks;
                let mut legs: Vec<L> = Vec::new();
                legs.push(leg);
                legs.append(&mut extra_sinks);
                assert(legs@ =~= seq![leg] + self@.extra_sinks);
                let telemetry = HepTelemetry {
                    sink: assemble(legs),
                    capture_id: self.args.capture_id,
                    capture_password: self.args.capture_password,
                    node_id: self.args.node_id,
                };
                Ok(
                    BuiltWithUdp {
                        telemetry,
                        worker: HepWorkerHandle { worker: true, sampler: true },
                        sampler,
                        update,
                    },
                )
            },
        }
    }
}

/// A log packet, as a handle stamps it.
pub open spec fn log_view<L>(
    telemetry: TelemetryView<L>,
    message: Seq<char>,
    correlation_id: Option<Seq<char>>,
    peer_hint: Option<Endpoint>,
    timestamp: SystemTime,
) -> PacketView {
    let peer = match peer_hint {
        Some(peer) => peer,
        None => packet::unspecified(),
    };
    PacketView {
        capture_id: telemetry.capture_id,
        capture_password: telemetry.capture_password,
        protocol: HepProtocol::Log,
        transport: IpProto::Udp,
        src: peer,
        dst: peer,
        timestamp,
        correlation_id,
        payload: vstd::utf8::encode_utf8(message),
    }
}

/// A verdict packet, as a handle stamps it.
pub open spec fn verstat_view<L>(
    telemetry: TelemetryView<L>,
    payload: Seq<u8>,
    correlation_id: Seq<char>,
    timestamp: SystemTime,
) -> PacketView {
    PacketView {
        capture_id: telemetry.capture_id,
        capture_password: telemetry.capture_password,
        protocol: HepProtocol::Verstat,
        transport: IpProto::Udp,
        src: packet::unspecified(),
        dst: packet::unspecified(),
        timestamp,
        correlation_id: Some(correlation_id),
        payload,
    }
}

/// One more to add to an event counter.
#[derive(Debug, Clone, Copy)]
pub struct EventCount {
    /// The counter.
    pub name: &'static str,
    /// The `event` label.
    pub event: &'static str,
    /// How many to add.
    pub increment: u64,
}

/// A node-health packet, and how it is counted.
#[derive(Debug)]
pub struct NodeHealthEmission {
    pub packet: HepPacket,
    pub count: EventCount,
}

impl<L> HepTelemetry<L> {
    /// Composes an application log line as a packet. The payload is the text
    /// verbatim. Where a peer is hinted at, it is the packet's source and
    /// destination; both are the placeholder `0.0.0.0:0` where the caller does
    /// not know.
    pub fn log_packet(
        &self,
        message: &str,
        correlation_id: Option<&str>,
        peer_hint: Option<Endpoint>,
        timestamp: SystemTime,
    ) -> (packet: HepPacket)
        ensures
            packet@ == log_view(
                self@,
                message@,
                packet::opt_str(correlation_id),
                peer_hint,
                timestamp,
            ),
            packet.capture_id == self@.capture_id,
            match packet.capture_password {
                Some(password) => self@.capture_password == Some(password@),
                None => self@.capture_password is None,
            },
            packet.protocol == HepProtocol::Log,
            packet.transport == IpProto::Udp,
            match correlation_id {
                Some(id) => packet.correlation_id matches Some(own) && own@ == id@,
                None => packet.correlation_id is None,
            },
            match peer_hint {
                Some(peer) => packet.src == peer && packet.dst == peer,
                None => packet.src == (Endpoint::V4 { ipv4: 0, port: 0 }) && packet.dst == (
                Endpoint::V4 { ipv4: 0, port: 0 }),
            },
            packet.payload@ == vstd::utf8::encode_utf8(message@),
            packet.timestamp == timestamp,
    {
        let peer = match peer_hint {
            Some(peer) => peer,
            None => unspecified_addr(),
        };
        HepPacket {
            capture_id: self.capture_id,
            capture_password: clone_opt_string(&self.capture_password),
            protocol: HepProtocol::Log,
            transport: IpProto::Udp,
            src: peer,
            dst: peer,
            timestamp,
            correlation_id: own_opt_str(correlation_id),
            payload: vstd::slice::slice_to_vec(message.as_bytes()),
        }
    }

    /// Composes a caller-identity verdict, already serialized, as a packet
    /// correlated by the call's SIP id.
    pub fn verstat_packet(
        &self,
        payload: &[u8],
        correlation_id: &str,
        timestamp: SystemTime,
    ) -> (packet: HepPacket)
        ensures
            packet@ == verstat_view(self@, payload@, correlation_id@, timestamp),
            packet.capture_id == self@.capture_id,
            match packet.capture_password {
                Some(password) => self@.capture_password == Some(password@),
                None => self@.capture_password is None,
            },
            packet.protocol == HepProtocol::Verstat,
            packet.transport == IpProto::Udp,
            packet.correlation_id matches Some(own) && own@ == correlation_id@,
            packet.src == (Endpoint::V4 { ipv4: 0, port: 0 }),
            packet.dst == (Endpoint::V4 { ipv4: 0, port: 0 }),
            packet.payload@ == payload@,
            packet.timestamp == timestamp,
    {
        HepPacket {
            capture_id: self.capture_id,
            capture_password: clone_opt_string(&self.capture_password),
            protocol: HepProtocol::Verstat,
            transport: IpProto::Udp,
            src: unspecified_addr(),
            dst: unspecified_addr(),
            timestamp,
            correlation_id: Some(correlation_id.to_owned()),
            payload: vstd::slice::slice_to_vec(payload),
        }
    }

    /// The packet for an application log line of this moment, to be handed to
    /// the sink.
    pub fn emit_log(
        &self,
        message: &str,
        correlation_id: Option<&str>,
        peer_hint: Option<Endpoint>,
    ) -> (packet: HepPacket)
        ensures
            packet@ == log_view(
                self@,
                message@,
                packet::opt_str(correlation_id),
                peer_hint,
                packet@.timestamp,
            ),
            packet.capture_id == self@.capture_id,
            match packet.capture_password {
                Some(password) => self@.capture_password == Some(password@),
                None => self@.capture_password is None,
            },
            packet.protocol == HepProtocol::Log,
            packet.transport == IpProto::Udp,
            match correlation_id {
                Some(id) => packet.correlation_id matches Some(own) && own@ == id@,
                None => packet.correlation_id is None,
            },
            match peer_hint {
                Some(peer) => packet.src == peer && packet.dst == peer,
                None => packet.src == (Endpoint::V4 { ipv4: 0, port: 0 }) && packet.dst == (
                Endpoint::V4 { ipv4: 0, port: 0 }),
            },
            packet.payload@ == vstd::utf8::encode_utf8(message@),
    {
        self.log_packet(message, correlation_id, peer_hint, SystemTime::now())
    }

    /// The packet for one call lifecycle moment, to be handed to the sink. It
    /// is correlated by the call's SIP id, so that it lands on the same call
    /// view as the signaling; the bridge's call id rides the text.
    pub fn emit_call_lifecycle(
        &self,
        sip_call_id: &str,
        call_id: &str,
        direction: &str,
        event: CallLifecycle<'_>,
    ) -> (packet: HepPacket)
        ensures
            packet@ == log_view(
                self@,
                lifecycle::lifecycle_text(self@.node_id, call_id@, direction@, event),
                Some(sip_call_id@),
                None,
                packet@.timestamp,
            ),
            packet.capture_id == self@.capture_id,
            match packet.capture_password {
                Some(password) => self@.capture_password == Some(password@),
                None => self@.capture_password is None,
            },
            packet.protocol == HepProtocol::Log,
            packet.transport == IpProto::Udp,
            packet.correlation_id matches Some(own) && own@ == sip_call_id@,
            packet.src == (Endpoint::V4 { ipv4: 0, port: 0 }),
            packet.dst == (Endpoint::V4 { ipv4: 0, port: 0 }),
            packet.payload@ == vstd::utf8::encode_utf8(
                lifecycle::lifecycle_text(self@.node_id, call_id@, direction@, event),
            ),
            text::is_one_line_utf8(packet@.payload),
            text::read_line(vstd::utf8::decode_utf8(packet@.payload)) == (
                lifecycle::lifecycle_name(event),
                lifecycle::lifecycle_fields(self@.node_id, call_id@, direction@, event),
            ),
    {
        let line = call_lifecycle_line(self.node_id.as_str(), call_id, direction, event);
        proof {
            text::law_utf8_keeps_one_line(line@);
        }
        self.emit_log(line.as_str(), Some(sip_call_id), None)
    }

    /// The packet for one node-health moment, to be handed to the sink, and its
    /// count. It is correlated by the node and not by any call, so that a
    /// node's health is a timeline of its own.
    pub fn emit_node_health(
        &self,
        event: NodeEvent,
        status: &StatusResponse,
        ready: bool,
    ) -> (emission: NodeHealthEmission)
        ensures
            emission.packet@ == log_view(
                self@,
                node::health_text(self@.node_id, event, *status, ready),
                Some(node::node_correlation(self@.node_id)),
                None,
                emission.packet@.timestamp,
            ),
            emission.packet.capture_id == self@.capture_id,
            match emission.packet.capture_password {
                Some(password) => self@.capture_password == Some(password@),
                None => self@.capture_password is None,
            },
            emission.packet.protocol == HepProtocol::Log,
            emission.packet.transport == IpProto::Udp,
            emission.packet.correlation_id matches Some(own) && own@ == "node:"@ + self@.node_id,
            emission.packet.src == (Endpoint::V4 { ipv4: 0, port: 0 }),
            emission.packet.dst == (Endpoint::V4 { ipv4: 0, port: 0 }),
            emission.packet.payload@ == vstd::utf8::encode_utf8(
                node::health_text(self@.node_id, event, *status, ready),
            ),
            text::is_one_line_utf8(emission.packet@.payload),
            text::read_line(vstd::utf8::decode_utf8(emission.packet@.payload)) == (
                event.name(),
                node::health_fields(self@.node_id, *status, ready),
            ),
            emission.count.name@ == HEP_NODE_EVENTS_TOTAL@,
            emission.count.name@ == "siphon_ai_hep_node_events_total"@,
            emission.count.event@ == event.name(),
            emission.count.increment == 1,
    {
        let line = node_health_line(self.node_id.as_str(), event, status, ready);
        let correlation_id = node_correlation_id(self.node_id.as_str());
        proof {
            text::law_utf8_keeps_one_line(line@);
        }
        let packet = self.emit_log(line.as_str(), Some(correlation_id.as_str()), None);
        NodeHealthEmission {
            packet,
            count: EventCount { name: HEP_NODE_EVENTS_TOTAL, event: event.as_str(), increment: 1 },
        }
    }

    /// The packet for a caller-identity verdict of this moment, to be handed to
    /// the sink. The correlation id must be the call's SIP id, so that the
    /// verdict is threaded onto the call.
    pub fn emit_verstat(&self, payload: &[u8], correlation_id: &str) -> (packet: HepPacket)
        ensures
            packet@ == verstat_view(self@, payload@, correlation_id@, packet@.timestamp),
            packet.capture_id == self@.capture_id,
            match packet.capture_password {
                Some(password) => self@.capture_password == Some(password@),
                None => self@.capture_password is None,
            },
            packet.protocol == HepProtocol::Verstat,
            packet.transport == IpProto::Udp,
            packet.correlation_id matches Some(own) && own@ == correlation_id@,
            packet.src == (Endpoint::V4 { ipv4: 0, port: 0 }),
            packet.dst == (Endpoint::V4 { ipv4: 0, port: 0 }),
            packet.payload@ == payload@,
    {
        self.verstat_packet(payload, correlation_id, SystemTime::now())
    }

    /// The configured id of this node.
    pub fn node_id(&self) -> (id: &str)
        ensures
            id@ == self@.node_id,
    {
        self.node_id.as_str()
    }

    /// The sink, for those who compose packets of their own.
    pub fn sink(&self) -> (sink: &SinkLegs<L>)
        ensures
            sink@ == self@.sink,
            match sink {
                SinkLegs::Direct(leg) => self@.sink == SinkView::Direct(*leg),
                SinkLegs::FanOut(legs) => self@.sink == SinkView::FanOut(legs@),
            },
    {
        &self.sink
    }

    /// The capture id, for those who compose packets of their own.
    pub fn capture_id(&self) -> (id: u32)
        ensures
            id == self@.capture_id,
    {
        self.capture_id
    }

    /// The shared password, if set, for those who compose packets of their own.
    pub fn capture_password(&self) -> (password: Option<&str>)
        ensures
            packet::opt_str(password) == self@.capture_password,
            match password {
                Some(text) => self@.capture_password == Some(text@),
                None => self@.capture_password is None,
            },
    {
        match &self.capture_password {
            Some(password) => Some(password.as_str()),
            None => None,
        }
    }
}

/// A log packet holds its message and nothing else, is correlated by what it is
/// given, and has the hinted peer at both ends, or the placeholder `0.0.0.0:0`
/// at both where none is hinted at. A verdict packet holds the verdict as it
/// is, is correlated by its call, and has the placeholder at both ends.
pub proof fn law_packets_hold_what_they_are_given<L>(
    telemetry: TelemetryView<L>,
    message: Seq<char>,
    payload: Seq<u8>,
    correlation_id: Seq<char>,
    log_correlation_id: Option<Seq<char>>,
    peer: Endpoint,
    timestamp: SystemTime,
)
    ensures
        ({
            let hinted = log_view(telemetry, message, log_correlation_id, Some(peer), timestamp);
            let log = log_view(telemetry, message, log_correlation_id, None, timestamp);
            let verstat = verstat_view(telemetry, payload, correlation_id, timestamp);
            let placeholder = Endpoint::V4 { ipv4: 0, port: 0 };
            &&& hinted.protocol == HepProtocol::Log && log.protocol == HepProtocol::Log
            &&& hinted.src == peer && hinted.dst == peer
            &&& log.src == placeholder && log.dst == placeholder
            &&& vstd::utf8::decode_utf8(hinted.payload) == message
            &&& vstd::utf8::decode_utf8(log.payload) == message
            &&& hinted.correlation_id == log_correlation_id
            &&& log.correlation_id == log_correlation_id
            &&& hinted.timestamp == timestamp && log.timestamp == timestamp
            &&& verstat.protocol == HepProtocol::Verstat
            &&& verstat.src == placeholder && verstat.dst == placeholder
            &&& verstat.payload == payload
            &&& verstat.correlation_id == Some(correlation_id)
            &&& verstat.timestamp == timestamp
        }),
{
    vstd::utf8::encode_utf8_decode_utf8(message);
}

/// Every packet that a handle composes carries the capture id and the password
/// that the handle was built with, over whatever legs, and is marked UDP.
pub proof fn law_packets_carry_what_was_configured<L>(
    args: BuildView<L>,
    legs: Seq<L>,
    message: Seq<char>,
    payload: Seq<u8>,
    correlation_id: Seq<char>,
    log_correlation_id: Option<Seq<char>>,
    peer_hint: Option<Endpoint>,
    timestamp: SystemTime,
)
    ensures
        ({
            let telemetry = telemetry_over(args, legs);
            let log = log_view(telemetry, message, log_correlation_id, peer_hint, timestamp);
            let verstat = verstat_view(telemetry, payload, correlation_id, timestamp);
            &&& log.capture_id == args.capture_id && verstat.capture_id == args.capture_id
            &&& log.capture_password == args.capture_password
            &&& verstat.capture_password == args.capture_password
            &&& log.transport == IpProto::Udp && verstat.transport == IpProto::Udp
        }),
{
}

} // verus!
