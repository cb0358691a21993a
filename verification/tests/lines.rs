use siphon_ai_telemetry::{
    call_lifecycle_line, node_correlation_id, node_health_line, node_transition, push_field,
    CallLifecycle, NodeEvent, RegistrationsSummary, StatusResponse,
};

fn node_status(draining: bool, active_calls: usize) -> StatusResponse {
    StatusResponse {
        version: "9.9.9".into(),
        uptime_secs: 42,
        active_calls,
        registrations: RegistrationsSummary { registered: 1, total: 2 },
        draining,
        hep_enabled: true,
    }
}

fn field(value: &str) -> String {
    let mut line = String::from("event");
    push_field(&mut line, "key", value);
    line
}

// `from`/`to` are caller-controlled: a newline must not forge a
// second line, and a space or `=` must not forge a field.
#[test]
fn lifecycle_values_that_are_not_plain_tokens_are_quoted() {
    let line = call_lifecycle_line(
        "node-a",
        "siphon-1",
        "inbound",
        CallLifecycle::Started {
            route: "r",
            from: "Alice Smith <sip:a@b>",
            to: "x\ncall_ended cause=forged",
        },
    );
    assert_eq!(
        line,
        "call_started call_id=siphon-1 direction=inbound node=node-a route=r \
         from=\"Alice Smith <sip:a@b>\" to=\"x\\ncall_ended cause=forged\""
    );
    assert!(!line.contains('\n'));
    // An empty value still reads as a present-but-empty field.
    let empty = call_lifecycle_line(
        "",
        "siphon-1",
        "outbound",
        CallLifecycle::Ended { cause: "local_shutdown", duration_ms: 0 },
    );
    assert!(empty.contains(" node=\"\" "), "{empty}");
}

#[test]
fn plain_values_stand_as_they_are() {
    assert_eq!(field("main_reception"), "event key=main_reception");
    assert_eq!(field("+13125551234"), "event key=+13125551234");
    assert_eq!(field("!#$%&'()*+,-./:;<>?@[\\]^_`{|}~"), "event key=!#$%&'()*+,-./:;<>?@[\\]^_`{|}~");
}

#[test]
fn every_other_value_is_quoted_and_escaped() {
    assert_eq!(field(""), "event key=\"\"");
    assert_eq!(field(" "), "event key=\" \"");
    assert_eq!(field("a=b"), "event key=\"a=b\"");
    assert_eq!(field("a\"b"), "event key=\"a\\\"b\"");
    assert_eq!(field("a b\\"), "event key=\"a b\\\\\"");
    assert_eq!(field("\" forged=1"), "event key=\"\\\" forged=1\"");
    assert_eq!(field("\r\n\t\0"), "event key=\"\\r\\n\\t\\0\"");
    assert_eq!(field("\u{1}\u{7f}"), "event key=\"\\u{1}\\u{7f}\"");
    assert_eq!(field("J\u{fc}rgen"), "event key=\"J\u{fc}rgen\"");
    assert_eq!(field("\u{2028}"), "event key=\"\\u{2028}\"");
}

// The quoted form opens and closes as a reader expects, holds no control
// character, and differs for different values, over all of ASCII and samples
// beyond it, alone and between backslashes and quotes.
#[test]
fn quoted_values_are_delimited_and_tell_values_apart() {
    let mut values: Vec<String> = Vec::new();
    let mut points: Vec<u32> = (0..0x180).collect();
    points.extend([0x300, 0x200b, 0x2028, 0xfeff, 0xfffd, 0x1f600, 0xe0001, 0x10ffff]);
    for point in points {
        let c = char::from_u32(point).unwrap();
        values.push(format!("{c} "));
        values.push(format!("\\{c}\\ "));
        values.push(format!("\"{c}\" "));
        values.push(format!(" {c}\\"));
    }
    let mut seen: Vec<String> = Vec::new();
    for value in &values {
        let line = field(value);
        let text: Vec<char> = line["event key=".len()..].chars().collect();
        assert_eq!(text[0], '"', "{line}");
        let mut at = 1;
        while at < text.len() && text[at] != '"' {
            at += if text[at] == '\\' { 2 } else { 1 };
        }
        assert_eq!(at, text.len() - 1, "{line}");
        assert!(text.iter().all(|c| !c.is_control()), "{line}");
        seen.push(line);
    }
    seen.sort();
    values.sort();
    seen.dedup();
    values.dedup();
    assert_eq!(seen.len(), values.len());
}

#[test]
fn lines_that_differ_in_any_value_differ() {
    let started = |route, from, to| CallLifecycle::Started { route, from, to };
    let base = call_lifecycle_line("n", "c", "inbound", started("r", "f", "t"));
    let others = [
        call_lifecycle_line("n2", "c", "inbound", started("r", "f", "t")),
        call_lifecycle_line("n", "c2", "inbound", started("r", "f", "t")),
        call_lifecycle_line("n", "c", "outbound", started("r", "f", "t")),
        call_lifecycle_line("n", "c", "inbound", started("r from=f", "f", "t")),
        call_lifecycle_line("n", "c", "inbound", started("r", "f to=t", "t")),
        call_lifecycle_line("n", "c", "inbound", started("r", "f", "\"t\"")),
        call_lifecycle_line(
            "n",
            "c",
            "inbound",
            CallLifecycle::Ended { cause: "r", duration_ms: 1 },
        ),
    ];
    for other in &others {
        assert_ne!(&base, other);
    }
}

#[test]
fn durations_are_decimal() {
    for (duration_ms, text) in [
        (0, "0"),
        (9, "9"),
        (10, "10"),
        (110_234, "110234"),
        (1_000_000_007, "1000000007"),
        (u64::MAX, "18446744073709551615"),
    ] {
        let line = call_lifecycle_line(
            "node-a",
            "siphon-1",
            "outbound",
            CallLifecycle::Ended { cause: "remote_bye", duration_ms },
        );
        assert_eq!(
            line,
            format!(
                "call_ended call_id=siphon-1 direction=outbound node=node-a cause=remote_bye \
                 duration_ms={text}"
            )
        );
    }
}

#[test]
fn node_lines_hold_the_snapshot() {
    let mut status = node_status(true, usize::MAX);
    status.version = "1.0 beta".into();
    status.uptime_secs = u64::MAX;
    status.registrations = RegistrationsSummary { registered: 0, total: 10 };
    assert_eq!(
        node_health_line("node a", NodeEvent::Draining, &status, false),
        format!(
            "node_draining node=\"node a\" version=\"1.0 beta\" ready=false draining=true \
             active_calls={} registrations=0/10 uptime_secs=18446744073709551615",
            usize::MAX
        )
    );
}

#[test]
fn event_names() {
    assert_eq!(NodeEvent::Started.as_str(), "node_started");
    assert_eq!(NodeEvent::Ready.as_str(), "node_ready");
    assert_eq!(NodeEvent::NotReady.as_str(), "node_not_ready");
    assert_eq!(NodeEvent::Draining.as_str(), "node_draining");
    assert_eq!(NodeEvent::Status.as_str(), "node_status");
    assert_eq!(NodeEvent::Stopping.as_str(), "node_stopping");
}

#[test]
fn node_correlation_ids_are_namespaced() {
    assert_eq!(node_correlation_id("node-a"), "node:node-a");
    assert_eq!(node_correlation_id(""), "node:");
}

#[test]
fn a_drain_reads_as_draining_alone() {
    // (ready, draining) before → after.
    assert_eq!(
        node_transition((false, false), (true, false)),
        Some(NodeEvent::Ready)
    );
    assert_eq!(
        node_transition((true, false), (false, true)),
        Some(NodeEvent::Draining),
        "a drain flips both; it must not also read as not-ready"
    );
    assert_eq!(
        node_transition((true, false), (false, false)),
        Some(NodeEvent::NotReady)
    );
    assert_eq!(node_transition((true, false), (true, false)), None);
    assert_eq!(node_transition((false, true), (false, true)), None);
}

#[test]
fn transitions_in_the_midst_of_a_drain() {
    assert_eq!(node_transition((true, true), (false, true)), None);
    assert_eq!(node_transition((false, true), (true, true)), Some(NodeEvent::Ready));
    assert_eq!(node_transition((false, true), (false, false)), None);
    assert_eq!(node_transition((true, true), (false, false)), Some(NodeEvent::NotReady));
    assert_eq!(node_transition((false, false), (true, true)), Some(NodeEvent::Draining));
}
