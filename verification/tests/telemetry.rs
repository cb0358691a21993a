use std::cell::RefCell;
use std::rc::Rc;
use std::time::SystemTime;

use siphon_ai_telemetry::{
    unspecified_addr, BuildStep, CallLifecycle, CounterReadings, Endpoint, HepBuildError,
    HepPacket, HepProtocol, HepTelemetry, HepTelemetryBuild, HepWorkerHandle, IpProto, NodeEvent,
    RegistrationsSummary, SinkLegs, StatusResponse,
};

/// In-memory leg that records every packet.
#[derive(Debug, Default)]
struct Capture {
    seen: RefCell<Vec<HepPacket>>,
}

fn legs<L>(telemetry: &HepTelemetry<L>) -> Vec<&L> {
    match telemetry.sink() {
        SinkLegs::Direct(leg) => vec![leg],
        SinkLegs::FanOut(legs) => legs.iter().collect(),
    }
}

fn send(telemetry: &HepTelemetry<Rc<Capture>>, packet: HepPacket) {
    let legs = legs(telemetry);
    assert_eq!(legs.len(), 1);
    legs[0].seen.borrow_mut().push(packet);
}

fn built<L>(step: BuildStep<L>) -> HepTelemetry<L> {
    match step {
        BuildStep::Built(telemetry) => telemetry,
        BuildStep::StartUdp { .. } => panic!("no UDP leg is called for"),
    }
}

fn telemetry_with(leg: Rc<Capture>) -> HepTelemetry<Rc<Capture>> {
    built(HepTelemetry::build(HepTelemetryBuild {
        collector: None,
        capture_id: 2002,
        capture_password: Some("homer-secret".into()),
        queue_capacity: 8,
        node_id: "node-a".into(),
        extra_sinks: vec![leg],
    }))
}

fn node_status(draining: bool, active_calls: usize) -> StatusResponse {
    StatusResponse {
        version: "9.9.9".into(),
        uptime_secs: 42,
        active_calls,
        registrations: RegistrationsSummary { registered: 1, total: 2 },
        draining,
        hep_enabled: true,
    }
}

// With `[hep]` off but the ladder on, the packet stream must still exist.
#[test]
fn build_without_a_collector_opens_no_socket_and_still_feeds_extra_sinks() {
    let capture = Rc::new(Capture::default());
    let telemetry = built(HepTelemetry::build(HepTelemetryBuild {
        collector: None,
        capture_id: 0,
        capture_password: None,
        queue_capacity: 8,
        node_id: "ring-only".into(),
        extra_sinks: vec![capture.clone()],
    }));

    send(&telemetry, telemetry.emit_log("hello", Some("call-1"), None));
    let seen = capture.seen.borrow();
    assert_eq!(seen.len(), 1, "the extra leg still receives packets");
    assert_eq!(seen[0].correlation_id.as_deref(), Some("call-1"));
    assert_eq!(seen[0].payload, b"hello");
}

// With one destination the fan-out must not be interposed.
#[test]
fn a_single_leg_is_used_directly_rather_than_wrapped() {
    let capture = Rc::new(Capture::default());
    let telemetry = built(HepTelemetry::build(HepTelemetryBuild {
        collector: None,
        capture_id: 7,
        capture_password: None,
        queue_capacity: 8,
        node_id: "one-leg".into(),
        extra_sinks: vec![capture.clone()],
    }));
    match telemetry.sink() {
        SinkLegs::Direct(leg) => assert!(Rc::ptr_eq(leg, &capture)),
        SinkLegs::FanOut(_) => panic!("the sole leg is the sink itself, not a fan-out around it"),
    }
}

#[test]
fn several_legs_or_none_are_fanned_out() {
    for extra_sinks in [vec![], vec![1, 2], vec![1, 2, 3]] {
        let telemetry = built(HepTelemetry::build(HepTelemetryBuild {
            collector: None,
            capture_id: 7,
            capture_password: None,
            queue_capacity: 8,
            node_id: "legs".into(),
            extra_sinks: extra_sinks.clone(),
        }));
        match telemetry.sink() {
            SinkLegs::FanOut(legs) => assert_eq!(legs, &extra_sinks),
            SinkLegs::Direct(_) => panic!("not one leg"),
        }
    }
}

fn with_collector(extra_sinks: Vec<&'static str>) -> BuildStep<&'static str> {
    HepTelemetry::build(HepTelemetryBuild {
        collector: Some(Endpoint::V4 { ipv4: 0x7f00_0001, port: 9060 }),
        capture_id: 2001,
        capture_password: None,
        queue_capacity: 64,
        node_id: "hep-node".into(),
        extra_sinks,
    })
}

#[test]
fn a_collector_calls_for_a_udp_leg_in_front() {
    for extra_sinks in [vec![], vec!["ring"], vec!["ring", "file"]] {
        let readings = CounterReadings { sent: 3, drops: 2, send_failures: 1 };
        match with_collector(extra_sinks.clone()) {
            BuildStep::Built(_) => panic!("a UDP leg is called for"),
            BuildStep::StartUdp { collector, queue_capacity, pending } => {
                assert_eq!(collector, Endpoint::V4 { ipv4: 0x7f00_0001, port: 9060 });
                assert_eq!(queue_capacity, 64);
                let built = pending.udp_started::<()>(Ok(("udp", readings))).unwrap();
                let mut expected = vec!["udp"];
                expected.extend(extra_sinks.clone());
                let found: Vec<&str> = legs(&built.telemetry).into_iter().copied().collect();
                assert_eq!(found, expected);
                assert_eq!(
                    matches!(built.telemetry.sink(), SinkLegs::Direct(_)),
                    extra_sinks.is_empty()
                );
                assert_eq!(built.telemetry.capture_id(), 2001);
                assert_eq!(built.telemetry.capture_password(), None);
                assert_eq!(built.telemetry.node_id(), "hep-node");
                assert_eq!(built.worker, HepWorkerHandle { worker: true, sampler: true });
                assert_eq!(built.sampler.previous_failures, 1);
                assert!(built.update.collector_up);
                assert_eq!(built.update.counters.len(), 3);
            }
        }
    }
}

#[test]
fn a_udp_leg_that_does_not_start_fails_the_build() {
    match with_collector(vec!["ring"]) {
        BuildStep::Built(_) => panic!("a UDP leg is called for"),
        BuildStep::StartUdp { pending, .. } => match pending.udp_started(Err("bind")) {
            Ok(_) => panic!("the leg did not start"),
            Err(HepBuildError::Udp(error)) => assert_eq!(error, "bind"),
        },
    }
}

#[test]
fn emit_verstat_composes_verstat_chunk_with_correlation() {
    let cap = Rc::new(Capture::default());
    let tel = telemetry_with(cap.clone());

    let payload = br#"{"attest":"A","signature_valid":true}"#;
    send(&tel, tel.emit_verstat(payload, "abc-123@pbx.example.com"));

    let seen = cap.seen.borrow();
    assert_eq!(seen.len(), 1);
    let pkt = &seen[0];
    assert_eq!(pkt.protocol, HepProtocol::Verstat);
    assert_eq!(pkt.capture_id, 2002);
    assert_eq!(pkt.capture_password.as_deref(), Some("homer-secret"));
    // Correlation is the SIP Call-ID — the stitch into the call view.
    assert_eq!(
        pkt.correlation_id.as_deref(),
        Some("abc-123@pbx.example.com")
    );
    assert_eq!(pkt.payload, payload);
    assert_eq!(pkt.transport, IpProto::Udp);
    assert_eq!(pkt.src, unspecified_addr());
    assert_eq!(pkt.dst, unspecified_addr());
}

// Lifecycle chunks correlate by SIP Call-ID (the key the call view threads
// on), not the bridge id — which rides the text.
#[test]
fn call_lifecycle_chunks_correlate_by_sip_call_id() {
    let cap = Rc::new(Capture::default());
    let tel = telemetry_with(cap.clone());

    send(
        &tel,
        tel.emit_call_lifecycle(
            "abc-123@pbx.example.com",
            "siphon-4380c265",
            "inbound",
            CallLifecycle::Started {
                route: "main_reception",
                from: "+13125551234",
                to: "5000",
            },
        ),
    );
    send(
        &tel,
        tel.emit_call_lifecycle(
            "abc-123@pbx.example.com",
            "siphon-4380c265",
            "inbound",
            CallLifecycle::Ended {
                cause: "remote_bye",
                duration_ms: 110_234,
            },
        ),
    );

    let seen = cap.seen.borrow();
    assert_eq!(seen.len(), 2);
    for pkt in seen.iter() {
        assert_eq!(pkt.protocol, HepProtocol::Log);
        assert_eq!(pkt.capture_id, 2002);
        assert_eq!(pkt.capture_password.as_deref(), Some("homer-secret"));
        assert_eq!(
            pkt.correlation_id.as_deref(),
            Some("abc-123@pbx.example.com")
        );
    }
    assert_eq!(
        std::str::from_utf8(&seen[0].payload).unwrap(),
        "call_started call_id=siphon-4380c265 direction=inbound node=node-a \
         route=main_reception from=+13125551234 to=5000"
    );
    assert_eq!(
        std::str::from_utf8(&seen[1].payload).unwrap(),
        "call_ended call_id=siphon-4380c265 direction=inbound node=node-a \
         cause=remote_bye duration_ms=110234"
    );
}

// Node health is keyed by the node, not a call — and namespaced so it
// can never collide with a SIP Call-ID in a search.
#[test]
fn node_health_chunk_is_keyed_by_node_not_a_call() {
    let cap = Rc::new(Capture::default());
    let tel = telemetry_with(cap.clone());

    let emission = tel.emit_node_health(NodeEvent::Status, &node_status(false, 3), true);
    assert_eq!(emission.count.name, "siphon_ai_hep_node_events_total");
    assert_eq!(emission.count.event, "node_status");
    assert_eq!(emission.count.increment, 1);
    send(&tel, emission.packet);

    let lines: Vec<(String, Option<String>)> = cap
        .seen
        .borrow()
        .iter()
        .filter(|p| p.protocol == HepProtocol::Log)
        .map(|p| (String::from_utf8(p.payload.clone()).unwrap(), p.correlation_id.clone()))
        .collect();
    assert_eq!(lines.len(), 1);
    assert_eq!(lines[0].1.as_deref(), Some("node:node-a"));
    assert_eq!(
        lines[0].0,
        "node_status node=node-a version=9.9.9 ready=true draining=false \
         active_calls=3 registrations=1/2 uptime_secs=42"
    );
}

#[test]
fn a_hinted_peer_is_both_ends() {
    let tel = telemetry_with(Rc::new(Capture::default()));
    let peer = Endpoint::V6 { ipv6: 1, port: 5060, flowinfo: 0, scope_id: 2 };
    let packet = tel.emit_log("J\u{fc}rgen\n", None, Some(peer));
    assert_eq!(packet.src, peer);
    assert_eq!(packet.dst, peer);
    assert_eq!(packet.correlation_id, None);
    assert_eq!(packet.payload, "J\u{fc}rgen\n".as_bytes());
    let packet = tel.emit_log("", None, None);
    assert_eq!(packet.src, Endpoint::V4 { ipv4: 0, port: 0 });
    assert_eq!(packet.dst, Endpoint::V4 { ipv4: 0, port: 0 });
    assert!(packet.payload.is_empty());
}

#[test]
fn packets_are_stamped_with_the_time() {
    let tel = telemetry_with(Rc::new(Capture::default()));
    let before = SystemTime::now();
    let log = tel.emit_log("now", None, None);
    let verstat = tel.emit_verstat(b"now", "call-1");
    let after = SystemTime::now();
    assert!(before <= log.timestamp && log.timestamp <= after);
    assert!(before <= verstat.timestamp && verstat.timestamp <= after);
    let epoch = SystemTime::UNIX_EPOCH;
    assert_eq!(tel.log_packet("then", None, None, epoch).timestamp, epoch);
    assert_eq!(tel.verstat_packet(b"then", "call-1", epoch).timestamp, epoch);
}

#[test]
fn the_configuration_is_surfaced() {
    let tel = telemetry_with(Rc::new(Capture::default()));
    assert_eq!(tel.node_id(), "node-a");
    assert_eq!(tel.capture_id(), 2002);
    assert_eq!(tel.capture_password(), Some("homer-secret"));
}
