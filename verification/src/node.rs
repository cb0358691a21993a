//! Node health: the moments a node reports, the line for each, and which of
//! them a change of state amounts to.
use vstd::prelude::*;

use crate::decimal;
use crate::text;

verus! {

/// The node-health moments that are shipped as log lines.
#[derive(Debug, Clone, Copy, PartialEq, Eq, Structural)]
pub enum NodeEvent {
    /// The reporter started: the first line a node sends after boot.
    Started,
    /// The node began to answer ready.
    Ready,
    /// The node ceased to answer ready without a drain.
    NotReady,
    /// A graceful drain began.
    Draining,
    /// The periodic snapshot.
    Status,
    /// Teardown: the last line.
    Stopping,
}

impl NodeEvent {
    /// The token that the event's line starts with.
    pub open spec fn name(self) -> Seq<char> {
        match self {
            NodeEvent::Started => "node_started"@,
            NodeEvent::Ready => "node_ready"@,
            NodeEvent::NotReady => "node_not_ready"@,
            NodeEvent::Draining => "node_draining"@,
            NodeEvent::Status => "node_status"@,
            NodeEvent::Stopping => "node_stopping"@,
        }
    }

    /// The line's leading token, and the `event` label under which the event
    /// is counted.
    pub fn as_str(self) -> (name: &'static str)
        ensures
            name@ == self.name(),
            match self {
                NodeEvent::Started => name@ == "node_started"@,
                NodeEvent::Ready => name@ == "node_ready"@,
                NodeEvent::NotReady => name@ == "node_not_ready"@,
                NodeEvent::Draining => name@ == "node_draining"@,
                NodeEvent::Status => name@ == "node_status"@,
                NodeEvent::Stopping => name@ == "node_stopping"@,
            },
    {
        match self {
            NodeEvent::Started => "node_started",
            NodeEvent::Ready => "node_ready",
            NodeEvent::NotReady => "node_not_ready",
            NodeEvent::Draining => "node_draining",
            NodeEvent::Status => "node_status",
            NodeEvent::Stopping => "node_stopping",
        }
    }
}

/// No two events share a name.
pub proof fn law_event_names_are_distinct(a: NodeEvent, b: NodeEvent)
    ensures
        a.name() == b.name() <==> a == b,
{
    lemma_event_names_revealed();
}

proof fn lemma_event_names_revealed()
    ensures
        "node_started"@ == seq!['n', 'o', 'd', 'e', '_', 's', 't', 'a', 'r', 't', 'e', 'd'],
        "node_ready"@ == seq!['n', 'o', 'd', 'e', '_', 'r', 'e', 'a', 'd', 'y'],
        "node_not_ready"@ == seq![
            'n', 'o', 'd', 'e', '_', 'n', 'o', 't', '_', 'r', 'e', 'a', 'd', 'y',
        ],
        "node_draining"@ == seq!['n', 'o', 'd', 'e', '_', 'd', 'r', 'a', 'i', 'n', 'i', 'n', 'g'],
        "node_status"@ == seq!['n', 'o', 'd', 'e', '_', 's', 't', 'a', 't', 'u', 's'],
        "node_stopping"@ == seq!['n', 'o', 'd', 'e', '_', 's', 't', 'o', 'p', 'p', 'i', 'n', 'g'],
{
    reveal_strlit("node_started");
    reveal_strlit("node_ready");
    reveal_strlit("node_not_ready");
    reveal_strlit("node_draining");
    reveal_strlit("node_status");
    reveal_strlit("node_stopping");
}

/// How many of the configured registrations are registered.
#[derive(Debug, Clone, Copy)]
pub struct RegistrationsSummary {
    pub registered: usize,
    pub total: usize,
}

/// The snapshot of a node that its status endpoint serves.
#[derive(Debug)]
pub struct StatusResponse {
    pub version: String,
    pub uptime_secs: u64,
    pub active_calls: usize,
    pub registrations: RegistrationsSummary,
    pub draining: bool,
    pub hep_enabled: bool,
}

/// The correlation id of a node's health packets.
pub open spec fn node_correlation(node_id: Seq<char>) -> Seq<char> {
    "node:"@ + node_id
}

/// Correlation id for a node's health packets: `node:` and the node's id. Not
/// a call's id, and namespaced so that it is not taken for one.
pub fn node_correlation_id(node_id: &str) -> (id: String)
    ensures
        id@ == node_correlation(node_id@),
        id@ == "node:"@ + node_id@,
{
    let mut id = String::new();
    id.append("node:");
    id.append(node_id);
    assert(id@ =~= node_correlation(node_id@));
    id
}

/// Nodes are kept apart by their correlation ids, and a correlation id that
/// does not start with `node:` belongs to no node.
pub proof fn law_node_correlation_is_namespaced(a: Seq<char>, b: Seq<char>, other: Seq<char>)
    ensures
        node_correlation(a) == node_correlation(b) <==> a == b,
        !("node:"@.is_prefix_of(other)) ==> node_correlation(a) != other,
        node_correlation(a).len() == 5 + a.len(),
        node_correlation(a).take(5) == "node:"@,
        node_correlation(a).skip(5) == a,
{
    reveal_strlit("node:");
    let prefix = "node:"@;
    assert(node_correlation(a).skip(prefix.len() as int) =~= a);
    assert(node_correlation(b).skip(prefix.len() as int) =~= b);
    assert(prefix =~= node_correlation(a).subrange(0, prefix.len() as int));
    assert(node_correlation(a).take(5) =~= prefix);
}

/// How a flag is written.
pub open spec fn flag_text(on: bool) -> Seq<char> {
    if on {
        "true"@
    } else {
        "false"@
    }
}

fn flag(on: bool) -> (text: &'static str)
    ensures
        text@ == flag_text(on),
{
    if on {
        "true"
    } else {
        "false"
    }
}

/// How registrations are written: those registered, a slash, and the total.
pub open spec fn registrations_text(summary: RegistrationsSummary) -> Seq<char> {
    decimal::decimal(summary.registered as nat) + seq!['/'] + decimal::decimal(
        summary.total as nat,
    )
}

fn registrations_string(summary: &RegistrationsSummary) -> (text: String)
    ensures
        text@ == registrations_text(*summary),
{
    proof {
        reveal_strlit("/");
    }
    let mut text = String::new();
    decimal::push_decimal(&mut text, summary.registered as u64);
    text.append("/");
    decimal::push_decimal(&mut text, summary.total as u64);
    assert(text@ =~= registrations_text(*summary));
    text
}

/// The fields of a node-health line, in order.
pub open spec fn health_fields(
    node_id: Seq<char>,
    status: StatusResponse,
    ready: bool,
) -> Seq<(Seq<char>, Seq<char>)> {
    seq![
        ("node"@, node_id),
        ("version"@, status.version@),
        ("ready"@, flag_text(ready)),
        ("draining"@, flag_text(status.draining)),
        ("active_calls"@, decimal::decimal(status.active_calls as nat)),
        ("registrations"@, registrations_text(status.registrations)),
        ("uptime_secs"@, decimal::decimal(status.uptime_secs as nat)),
    ]
}

/// The line of a node-health moment.
pub open spec fn health_text(
    node_id: Seq<char>,
    event: NodeEvent,
    status: StatusResponse,
    ready: bool,
) -> Seq<char> {
    text::line_text(event.name(), health_fields(node_id, status, ready))
}

/// Composes the line for a node-health moment from the status snapshot and the
/// readiness of the node. It is one line, and a reader gets back the event name
/// and every value as it was.
pub fn node_health_line(
    node_id: &str,
    event: NodeEvent,
    status: &StatusResponse,
    ready: bool,
) -> (line: String)
    ensures
        line@ == health_text(node_id@, event, *status, ready),
        text::is_one_line(line@),
        text::read_line(line@) == (event.name(), health_fields(node_id@, *status, ready)),
        text::read_line(line@).1 == seq![
            ("node"@, node_id@),
            ("version"@, status.version@),
            ("ready"@, if ready {
                "true"@
            } else {
                "false"@
            }),
            ("draining"@, if status.draining {
                "true"@
            } else {
                "false"@
            }),
            ("active_calls"@, decimal::decimal(status.active_calls as nat)),
            (
                "registrations"@,
                decimal::decimal(status.registrations.registered as nat) + seq!['/']
                    + decimal::decimal(status.registrations.total as nat),
            ),
            ("uptime_secs"@, decimal::decimal(status.uptime_secs as nat)),
        ],
{
    let ghost name = event.name();
    let ghost mut fields: Seq<(Seq<char>, Seq<char>)> = Seq::empty();
    let mut line = String::new();
    line.append(event.as_str());
    assert(line@ =~= text::line_text(name, fields));
    text::push_field(&mut line, "node", node_id);
    proof {
        text::lemma_line_push(name, fields, "node"@, node_id@);
        fields = fields.push(("node"@, node_id@));
    }
    text::push_field(&mut line, "version", status.version.as_str());
    proof {
        text::lemma_line_push(name, fields, "version"@, status.version@);
        fields = fields.push(("version"@, status.version@));
    }
    text::push_field(&mut line, "ready", flag(ready));
    proof {
        text::lemma_line_push(name, fields, "ready"@, flag_text(ready));
        fields = fields.push(("ready"@, flag_text(ready)));
    }
    text::push_field(&mut line, "draining", flag(status.draining));
    proof {
        text::lemma_line_push(name, fields, "draining"@, flag_text(status.draining));
        fields = fields.push(("draining"@, flag_text(status.draining)));
    }
    let active_calls = decimal::decimal_string(status.active_calls as u64);
    text::push_field(&mut line, "active_calls", active_calls.as_str());
    proof {
        text::lemma_line_push(name, fields, "active_calls"@, active_calls@);
        fields = fields.push(("active_calls"@, active_calls@));
    }
    let registrations = registrations_string(&status.registrations);
    text::push_field(&mut line, "registrations", registrations.as_str());
    proof {
        text::lemma_line_push(name, fields, "registrations"@, registrations@);
        fields = fields.push(("registrations"@, registrations@));
    }
    let uptime_secs = decimal::decimal_string(status.uptime_secs);
    text::push_field(&mut line, "uptime_secs", uptime_secs.as_str());
    proof {
        text::lemma_line_push(name, fields, "uptime_secs"@, uptime_secs@);
        fields = fields.push(("uptime_secs"@, uptime_secs@));
    }
    proof {
        assert(fields =~= health_fields(node_id@, *status, ready));
        lemma_health_words(node_id@, event, *status, ready);
        text::law_line_reads_back(name, fields);
    }
    line
}

/// The event names and the keys are plain tokens.
proof fn lemma_health_words(
    node_id: Seq<char>,
    event: NodeEvent,
    status: StatusResponse,
    ready: bool,
)
    ensures
        text::is_plain(event.name()),
        ({
            let fields = health_fields(node_id, status, ready);
            forall|i: int| 0 <= i < fields.len() ==> text::is_plain((#[trigger] fields[i]).0)
        }),
{
    lemma_event_names_revealed();
    reveal_strlit("node");
    reveal_strlit("version");
    reveal_strlit("ready");
    reveal_strlit("draining");
    reveal_strlit("active_calls");
    reveal_strlit("registrations");
    reveal_strlit("uptime_secs");
    assert(text::is_plain("node"@));
    assert(text::is_plain("version"@));
    assert(text::is_plain("ready"@));
    assert(text::is_plain("draining"@));
    assert(text::is_plain("active_calls"@));
    assert(text::is_plain("registrations"@));
    assert(text::is_plain("uptime_secs"@));
}

/// Each value of a node-health line stands under its own key, and nothing else
/// does, independently of all the others: `ready` is `true` exactly where the
/// node is ready, `draining` exactly where the status says that it drains, and
/// the counts are those very fields of the status.
pub proof fn law_health_values_stand_under_their_keys(
    node_id: Seq<char>,
    event: NodeEvent,
    status: StatusResponse,
    ready: bool,
)
    ensures
        ({
            let fields = health_fields(node_id, status, ready);
            &&& fields.len() == 7
            &&& forall|v: Seq<char>| #[trigger] fields.contains(("node"@, v)) <==> v == node_id
            &&& forall|v: Seq<char>| #[trigger]
                fields.contains(("version"@, v)) <==> v == status.version@
            &&& fields.contains(("ready"@, "true"@)) <==> ready
            &&& fields.contains(("ready"@, "false"@)) <==> !ready
            &&& fields.contains(("draining"@, "true"@)) <==> status.draining
            &&& fields.contains(("draining"@, "false"@)) <==> !status.draining
            &&& forall|v: Seq<char>| #[trigger]
                fields.contains(("active_calls"@, v)) <==> v == decimal::decimal(
                    status.active_calls as nat,
                )
            &&& forall|v: Seq<char>| #[trigger]
                fields.contains(("registrations"@, v)) <==> v == decimal::decimal(
                    status.registrations.registered as nat,
                ) + seq!['/'] + decimal::decimal(status.registrations.total as nat)
            &&& forall|v: Seq<char>| #[trigger]
                fields.contains(("uptime_secs"@, v)) <==> v == decimal::decimal(
                    status.uptime_secs as nat,
                )
            &&& health_text(node_id, event, status, ready) == text::line_text(event.name(), fields)
        }),
{
    lemma_health_keys_distinct();
    let fields = health_fields(node_id, status, ready);
    assert(fields[0] == ("node"@, node_id) && fields.contains(fields[0]));
    assert(fields[1] == ("version"@, status.version@) && fields.contains(fields[1]));
    assert(fields[2] == ("ready"@, flag_text(ready)) && fields.contains(fields[2]));
    assert(fields[3] == ("draining"@, flag_text(status.draining)) && fields.contains(fields[3]));
    assert(fields[4].0 == "active_calls"@ && fields.contains(fields[4]));
    assert(fields[5].0 == "registrations"@ && fields.contains(fields[5]));
    assert(fields[6].0 == "uptime_secs"@ && fields.contains(fields[6]));
}

/// The keys of a node-health line, and the two flags, differ from one another.
proof fn lemma_health_keys_distinct()
    ensures
        "node"@.len() == 4,
        "version"@.len() == 7,
        "ready"@.len() == 5,
        "draining"@.len() == 8,
        "active_calls"@.len() == 12,
        "registrations"@.len() == 13,
        "uptime_secs"@.len() == 11,
        "true"@.len() == 4,
        "false"@.len() == 5,
{
    reveal_strlit("node");
    reveal_strlit("version");
    reveal_strlit("ready");
    reveal_strlit("draining");
    reveal_strlit("active_calls");
    reveal_strlit("registrations");
    reveal_strlit("uptime_secs");
    reveal_strlit("true");
    reveal_strlit("false");
}

/// The line starts with the name of the event, under which it is also counted.
pub proof fn law_health_line_starts_with_its_event(event: NodeEvent)
    ensures
        event == NodeEvent::Started ==> event.name() == "node_started"@,
        event == NodeEvent::Ready ==> event.name() == "node_ready"@,
        event == NodeEvent::NotReady ==> event.name() == "node_not_ready"@,
        event == NodeEvent::Draining ==> event.name() == "node_draining"@,
        event == NodeEvent::Status ==> event.name() == "node_status"@,
        event == NodeEvent::Stopping ==> event.name() == "node_stopping"@,
{
}

/// A summary is told by its text.
proof fn lemma_registrations_tell_apart(a: RegistrationsSummary, b: RegistrationsSummary)
    requires
        registrations_text(a) == registrations_text(b),
    ensures
        a == b,
{
    let (ra, ta) = (decimal::decimal(a.registered as nat), decimal::decimal(a.total as nat));
    let (rb, tb) = (decimal::decimal(b.registered as nat), decimal::decimal(b.total as nat));
    let whole = registrations_text(a);
    decimal::lemma_decimal_is_plain(a.registered as nat);
    decimal::lemma_decimal_is_plain(b.registered as nat);
    assert(whole[ra.len() as int] == '/');
    assert(registrations_text(b)[rb.len() as int] == '/');
    if ra.len() < rb.len() {
        assert(registrations_text(b)[ra.len() as int] == rb[ra.len() as int]);
    } else if rb.len() < ra.len() {
        assert(whole[rb.len() as int] == ra[rb.len() as int]);
    }
    assert(whole.take(ra.len() as int) =~= ra);
    assert(registrations_text(b).take(rb.len() as int) =~= rb);
    assert(whole.skip(ra.len() as int + 1) =~= ta);
    assert(registrations_text(b).skip(rb.len() as int + 1) =~= tb);
    decimal::lemma_decimal_tells_apart(a.registered as nat, b.registered as nat);
    decimal::lemma_decimal_tells_apart(a.total as nat, b.total as nat);
}

/// Node-health lines are unambiguous: where two composed lines are the same
/// text, they tell of the same event on the same node with the same values.
/// What is required of each line is what [`node_health_line`] ensures of every
/// line that it composes.
pub proof fn law_health_lines_are_unambiguous(
    node_a: Seq<char>,
    event_a: NodeEvent,
    status_a: StatusResponse,
    ready_a: bool,
    node_b: Seq<char>,
    event_b: NodeEvent,
    status_b: StatusResponse,
    ready_b: bool,
)
    requires
        text::read_line(health_text(node_a, event_a, status_a, ready_a)) == (
            event_a.name(),
            health_fields(node_a, status_a, ready_a),
        ),
        text::read_line(health_text(node_b, event_b, status_b, ready_b)) == (
            event_b.name(),
            health_fields(node_b, status_b, ready_b),
        ),
        health_text(node_a, event_a, status_a, ready_a) == health_text(
            node_b,
            event_b,
            status_b,
            ready_b,
        ),
    ensures
        node_a == node_b,
        event_a == event_b,
        ready_a == ready_b,
        status_a.version@ == status_b.version@,
        status_a.draining == status_b.draining,
        status_a.active_calls == status_b.active_calls,
        status_a.registrations == status_b.registrations,
        status_a.uptime_secs == status_b.uptime_secs,
{
    reveal_strlit("true");
    reveal_strlit("false");
    law_event_names_are_distinct(event_a, event_b);
    let a = health_fields(node_a, status_a, ready_a);
    let b = health_fields(node_b, status_b, ready_b);
    assert(a == b);
    assert(a[0].1 == node_a && b[0].1 == node_b);
    assert(a[1].1 == status_a.version@ && b[1].1 == status_b.version@);
    assert("true"@.len() != "false"@.len());
    assert(a[2].1 == flag_text(ready_a) && b[2].1 == flag_text(ready_b));
    assert(a[3].1 == flag_text(status_a.draining) && b[3].1 == flag_text(status_b.draining));
    assert(a[4].1 == decimal::decimal(status_a.active_calls as nat));
    assert(b[4].1 == decimal::decimal(status_b.active_calls as nat));
    decimal::lemma_decimal_tells_apart(
        status_a.active_calls as nat,
        status_b.active_calls as nat,
    );
    assert(a[5].1 == registrations_text(status_a.registrations));
    assert(b[5].1 == registrations_text(status_b.registrations));
    lemma_registrations_tell_apart(status_a.registrations, status_b.registrations);
    assert(a[6].1 == decimal::decimal(status_a.uptime_secs as nat));
    assert(b[6].1 == decimal::decimal(status_b.uptime_secs as nat));
    decimal::lemma_decimal_tells_apart(status_a.uptime_secs as nat, status_b.uptime_secs as nat);
}

/// What a change from one `(ready, draining)` to the next amounts to.
pub open spec fn transition(before: (bool, bool), now: (bool, bool)) -> Option<NodeEvent> {
    if now.1 && !before.1 {
        Some(NodeEvent::Draining)
    } else if now.0 && !before.0 {
        Some(NodeEvent::Ready)
    } else if before.0 && !now.0 && !now.1 {
        Some(NodeEvent::NotReady)
    } else {
        None
    }
}

/// The event a change in `(ready, draining)` amounts to, if any. A drain flips
/// both at once and reads as draining alone: not-ready is implied by it, and
/// reporting both would say the same thing twice.
pub fn node_transition(before: (bool, bool), now: (bool, bool)) -> (event: Option<NodeEvent>)
    ensures
        event == transition(before, now),
        event == Some(NodeEvent::Draining) <==> now.1 && !before.1,
        event == Some(NodeEvent::Ready) <==> now.0 && !before.0 && (!now.1 || before.1),
        event == Some(NodeEvent::NotReady) <==> before.0 && !now.0 && !now.1,
        event matches Some(e) ==> e == NodeEvent::Draining || e == NodeEvent::Ready || e
            == NodeEvent::NotReady,
{
    let ((was_ready, was_draining), (ready, draining)) = (before, now);
    if draining && !was_draining {
        Some(NodeEvent::Draining)
    } else if ready && !was_ready {
        Some(NodeEvent::Ready)
    } else if was_ready && !ready && !draining {
        Some(NodeEvent::NotReady)
    } else {
        None
    }
}

/// A drain reads as draining alone: its beginning is reported as such whatever
/// readiness does, and while it lasts no loss of readiness is reported.
/// Without a change there is nothing to report.
pub proof fn law_drain_reads_as_draining_alone(before: (bool, bool), now: (bool, bool))
    ensures
        transition(before, now) == Some(NodeEvent::Draining) <==> now.1 && !before.1,
        now.1 ==> transition(before, now) != Some(NodeEvent::NotReady),
        transition(before, now) == Some(NodeEvent::NotReady) <==> before.0 && !now.0 && !now.1,
        before == now ==> transition(before, now) is None,
{
}

/// Turning ready is reported exactly where the node turns ready without a drain
/// beginning at the same time, and a change amounts to nothing else than a
/// drain, readiness gained or readiness lost.
pub proof fn law_readiness_gained_is_reported(before: (bool, bool), now: (bool, bool))
    ensures
        transition(before, now) == Some(NodeEvent::Ready) <==> now.0 && !before.0 && (!now.1
            || before.1),
        transition(before, now) matches Some(event) ==> event == NodeEvent::Draining || event
            == NodeEvent::Ready || event == NodeEvent::NotReady,
{
}

} // verus!
