use metrics::{Key, Label, Level, Metadata};
use metrics_exporter_prometheus::PrometheusBuilder;
use siphon_ai_telemetry::{
    publish_collector_up, publish_counters, CounterReadings, CounterSample, CounterSampler,
    HepWorkerHandle, NodeEvent, NodeHealthReporter, RegistrationsSummary, ReporterTask,
    StatusResponse, TaskAction, Tick, WorkerAction, HEP_COLLECTOR_UP, HEP_DRAIN_GRACE_MS,
    NODE_HEALTH_STOP_GRACE_MS,
};

/// Render the metrics endpoint under a per-test recorder.
fn rendered<F: FnOnce(&dyn metrics::Recorder)>(f: F) -> String {
    let recorder = PrometheusBuilder::new().build_recorder();
    let handle = recorder.handle();
    f(&recorder);
    handle.render()
}

fn set_counters(recorder: &dyn metrics::Recorder, samples: &[CounterSample]) {
    let metadata = Metadata::new("hep", Level::INFO, None);
    for sample in samples {
        let key = match sample.reason {
            Some(reason) => {
                Key::from_parts(sample.name, vec![Label::from_static_parts("reason", reason)])
            }
            None => Key::from_name(sample.name),
        };
        recorder.register_counter(&key, &metadata).absolute(sample.value);
    }
}

fn set_collector_up(recorder: &dyn metrics::Recorder, up: bool) {
    let metadata = Metadata::new("hep", Level::INFO, None);
    let value = if up { 1.0 } else { 0.0 };
    recorder.register_gauge(&Key::from_name(HEP_COLLECTOR_UP), &metadata).set(value);
}

// The gauge is derived over a sample window, so the alternating
// success/failure a connected UDP socket produces against a dead collector
// reads as a steady 0, and a quiet interval after recovery reads as 1.
#[test]
fn collector_up_follows_send_failures_over_the_window() {
    let out = rendered(|r| set_collector_up(r, publish_collector_up(0, 0)));
    assert!(out.contains("siphon_ai_hep_collector_up 1"), "{out}");
    let out = rendered(|r| set_collector_up(r, publish_collector_up(3, 7)));
    assert!(out.contains("siphon_ai_hep_collector_up 0"), "{out}");
    let out = rendered(|r| set_collector_up(r, publish_collector_up(7, 7)));
    assert!(out.contains("siphon_ai_hep_collector_up 1"), "{out}");
}

// Every series must exist before the first packet, so an alert can be written
// against them directly.
#[test]
fn counters_are_published_from_startup() {
    let readings = CounterReadings { sent: 0, drops: 0, send_failures: 0 };
    let (_, update) = CounterSampler::start(&readings);
    let out = rendered(|r| set_counters(r, &update.counters));
    assert!(out.contains("siphon_ai_hep_packets_sent_total 0"), "{out}");
    assert!(
        out.contains(r#"siphon_ai_hep_packets_dropped_total{reason="queue_full"} 0"#),
        "{out}"
    );
    assert!(
        out.contains(r#"siphon_ai_hep_packets_dropped_total{reason="collector_down"} 0"#),
        "{out}"
    );
}

#[test]
fn queue_full_drops_reach_the_registry() {
    let readings = CounterReadings { sent: 5, drops: 63, send_failures: 9 };
    let (samples, failures) = publish_counters(&readings);
    assert_eq!(failures, 9);
    let out = rendered(|r| set_counters(r, &samples));
    assert!(out.contains("siphon_ai_hep_packets_sent_total 5"), "{out}");
    let expected = format!(
        r#"siphon_ai_hep_packets_dropped_total{{reason="queue_full"}} {}"#,
        readings.drops
    );
    assert!(out.contains(&expected), "wanted {expected:?} in:\n{out}");
    assert!(
        out.contains(r#"siphon_ai_hep_packets_dropped_total{reason="collector_down"} 9"#),
        "{out}"
    );
}

#[test]
fn a_sampler_holds_each_reading_against_the_one_before() {
    let reading = |send_failures| CounterReadings { sent: 100, drops: 0, send_failures };
    let (mut sampler, first) = CounterSampler::start(&reading(4));
    assert!(first.collector_up, "presumed reachable");
    let ups: Vec<bool> = [4, 5, 8, 8, 8, 9]
        .into_iter()
        .map(|failures| sampler.sample(&reading(failures)).collector_up)
        .collect();
    assert_eq!(ups, [true, false, false, true, true, false]);
    assert_eq!(sampler.previous_failures, 9);
}

#[test]
fn the_worker_is_drained_before_the_last_publication() {
    let (steps, pending) = HepWorkerHandle { worker: true, sampler: true }.shutdown();
    assert_eq!(
        steps,
        [
            WorkerAction::AbortSampler,
            WorkerAction::SignalDrain,
            WorkerAction::AwaitWorker { grace_ms: 2000 },
        ]
    );
    let pending = pending.expect("a worker is waited for");
    assert_eq!(pending.finish(true), [WorkerAction::PublishCounters]);
    assert_eq!(
        pending.finish(false),
        [
            WorkerAction::AbortWorker,
            WorkerAction::PublishCounters,
            WorkerAction::WarnUndrained { grace_ms: HEP_DRAIN_GRACE_MS },
        ]
    );
}

#[test]
fn without_a_worker_the_counters_are_published_at_once() {
    let (steps, pending) = HepWorkerHandle { worker: false, sampler: true }.shutdown();
    assert_eq!(steps, [WorkerAction::AbortSampler, WorkerAction::PublishCounters]);
    assert!(pending.is_none());
    let (steps, pending) = HepWorkerHandle { worker: false, sampler: false }.shutdown();
    assert_eq!(steps, [WorkerAction::PublishCounters]);
    assert!(pending.is_none());
}

#[test]
fn a_reporter_task_is_told_to_stop_waited_for_and_else_aborted() {
    let mut task = ReporterTask::spawned();
    assert_eq!(
        task.stop(),
        [TaskAction::SignalStop, TaskAction::AwaitTask { grace_ms: 1000 }]
    );
    assert_eq!(ReporterTask::awaited(true), []);
    assert_eq!(
        ReporterTask::awaited(false),
        [
            TaskAction::AbortTask,
            TaskAction::WarnUnstopped { grace_ms: NODE_HEALTH_STOP_GRACE_MS },
        ]
    );
    assert_eq!(task.release(), None);
    assert_eq!(task.stop(), []);
}

#[test]
fn a_reporter_task_that_was_not_stopped_is_aborted() {
    let mut task = ReporterTask::spawned();
    assert_eq!(task.release(), Some(TaskAction::AbortTask));
    assert_eq!(task.release(), None);
}

fn node_status(draining: bool) -> StatusResponse {
    StatusResponse {
        version: "9.9.9".into(),
        uptime_secs: 42,
        active_calls: 0,
        registrations: RegistrationsSummary { registered: 1, total: 2 },
        draining,
        hep_enabled: true,
    }
}

#[test]
fn reporter_ships_start_ready_heartbeat_draining_and_stopping() {
    let (mut reporter, started) = NodeHealthReporter::spawn(&node_status(false), false, true);
    let mut events = vec![started];
    events.extend(reporter.tick(Tick::Poll, &node_status(false), false));
    events.extend(reporter.tick(Tick::Poll, &node_status(false), true));
    events.extend(reporter.tick(Tick::Heartbeat, &node_status(false), true));
    events.extend(reporter.tick(Tick::Poll, &node_status(false), true));
    // A drain faster than a poll: `stop` must still report it.
    events.extend(reporter.stop(&node_status(true), false));
    let names: Vec<&str> = events.iter().map(|event| event.as_str()).collect();
    assert_eq!(
        names,
        ["node_started", "node_ready", "node_status", "node_draining", "node_stopping"]
    );
}

#[test]
fn heartbeat_off_sends_transitions_only() {
    let (mut reporter, started) = NodeHealthReporter::spawn(&node_status(false), false, false);
    let mut events = vec![started];
    for _ in 0..8 {
        events.extend(reporter.tick(Tick::Poll, &node_status(false), false));
        events.extend(reporter.tick(Tick::Heartbeat, &node_status(false), false));
    }
    events.extend(reporter.stop(&node_status(false), false));
    let names: Vec<&str> = events.iter().map(|event| event.as_str()).collect();
    assert_eq!(names, ["node_started", "node_stopping"]);
}

// A heartbeat in between does not swallow the change that the next poll finds.
#[test]
fn a_heartbeat_leaves_changes_to_the_poll() {
    let (mut reporter, _) = NodeHealthReporter::spawn(&node_status(false), true, true);
    assert_eq!(
        reporter.tick(Tick::Heartbeat, &node_status(false), false),
        Some(NodeEvent::Status)
    );
    assert_eq!(
        reporter.tick(Tick::Poll, &node_status(false), false),
        Some(NodeEvent::NotReady)
    );
    assert_eq!(reporter.tick(Tick::Poll, &node_status(true), false), Some(NodeEvent::Draining));
    assert_eq!(reporter.tick(Tick::Poll, &node_status(true), false), None);
    assert_eq!(reporter.stop(&node_status(true), false), [NodeEvent::Stopping]);
}
