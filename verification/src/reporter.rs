//! The node-health reporter: which events a node reports over its life.
//!
//! The reporter starts with one event, looks at the node at every poll and
//! reports what changed, reports a snapshot at every heartbeat, and ends with
//! one last look and one last event. Its clock, and the reading of the node's
//! state, are elsewhere; here is what it makes of each look.
use vstd::prelude::*;

use crate::node;
use crate::node::{node_transition, NodeEvent, StatusResponse};

verus! {

/// How often the reporter looks for a change of readiness or of the drain
/// flag, in milliseconds: well inside any probe period.
pub const NODE_HEALTH_POLL_MS: u64 = 1_000;

/// What wakes a running reporter.
#[derive(Debug, Clone, Copy, PartialEq, Eq, Structural)]
pub enum Tick {
    /// Time to look for a change.
    Poll,
    /// Time for a snapshot.
    Heartbeat,
}

/// A node's `(ready, draining)` as it is found at some moment.
pub open spec fn state_of(status: StatusResponse, ready: bool) -> (bool, bool) {
    (ready, status.draining)
}

/// Ships a node's health for the life of the daemon: an event when spawned,
/// one whenever readiness or the drain flag has changed, a snapshot at every
/// heartbeat, and a last event when stopped.
#[derive(Debug, Clone, Copy, PartialEq, Eq, Structural)]
pub struct NodeHealthReporter {
    /// Readiness at the last look.
    pub ready: bool,
    /// The drain flag at the last look.
    pub draining: bool,
    /// Whether heartbeats are on.
    pub heartbeat: bool,
}

/// What a tick reports, where the last look found `last` and this one `now`.
pub open spec fn tick_event(
    last: (bool, bool),
    heartbeat: bool,
    tick: Tick,
    now: (bool, bool),
) -> Option<NodeEvent> {
    match tick {
        Tick::Poll => node::transition(last, now),
        Tick::Heartbeat => if heartbeat {
            Some(NodeEvent::Status)
        } else {
            None
        },
    }
}

/// What counts as the last look after a tick: a heartbeat does not look for
/// changes, so that the next poll still finds them.
pub open spec fn after_tick(last: (bool, bool), tick: Tick, now: (bool, bool)) -> (bool, bool) {
    match tick {
        Tick::Poll => now,
        Tick::Heartbeat => last,
    }
}

/// An event, if any, as a sequence.
pub open spec fn as_seq(event: Option<NodeEvent>) -> Seq<NodeEvent> {
    match event {
        Some(event) => seq![event],
        None => Seq::empty(),
    }
}

/// What stopping reports.
pub open spec fn stop_events(last: (bool, bool), now: (bool, bool)) -> Seq<NodeEvent> {
    as_seq(node::transition(last, now)) + seq![NodeEvent::Stopping]
}

impl NodeHealthReporter {
    /// The node's `(ready, draining)` at the last look.
    pub open spec fn last(self) -> (bool, bool) {
        (self.ready, self.draining)
    }

    /// Starts reporting, with or without heartbeats, from the node's state at
    /// this moment. The event is reported at once, of this same state: were it
    /// left to the first tick, a node that turns ready in between would never
    /// be reported as turning ready.
    pub fn spawn(status: &StatusResponse, ready: bool, heartbeat: bool) -> (spawned: (
        NodeHealthReporter,
        NodeEvent,
    ))
        ensures
            spawned.0.last() == state_of(*status, ready),
            spawned.0.ready == ready,
            spawned.0.draining == status.draining,
            spawned.0.heartbeat == heartbeat,
            spawned.1 == NodeEvent::Started,
    {
        (
            NodeHealthReporter { ready, draining: status.draining, heartbeat },
            NodeEvent::Started,
        )
    }

    /// What to report at a tick, given the node's state at this moment.
    pub fn tick(&mut self, tick: Tick, status: &StatusResponse, ready: bool) -> (event: Option<
        NodeEvent,
    >)
        ensures
            event == tick_event(
                old(self).last(),
                old(self).heartbeat,
                tick,
                state_of(*status, ready),
            ),
            final(self).last() == after_tick(old(self).last(), tick, state_of(*status, ready)),
            final(self).heartbeat == old(self).heartbeat,
            tick == Tick::Poll ==> final(self).ready == ready && final(self).draining
                == status.draining,
            tick == Tick::Poll ==> (event == Some(NodeEvent::Draining) <==> status.draining
                && !old(self).draining),
            tick == Tick::Poll ==> (event == Some(NodeEvent::Ready) <==> ready && !old(self).ready
                && (!status.draining || old(self).draining)),
            tick == Tick::Poll ==> (event == Some(NodeEvent::NotReady) <==> old(self).ready
                && !ready && !status.draining),
            tick == Tick::Poll ==> event != Some(NodeEvent::Started) && event != Some(
                NodeEvent::Status,
            ) && event != Some(NodeEvent::Stopping),
            tick == Tick::Heartbeat ==> *final(self) == *old(self),
            tick == Tick::Heartbeat && old(self).heartbeat ==> event == Some(NodeEvent::Status),
            tick == Tick::Heartbeat && !old(self).heartbeat ==> event is None,
    {
        match tick {
            Tick::Poll => {
                let now = (ready, status.draining);
                let event = node_transition((self.ready, self.draining), now);
                self.ready = ready;
                self.draining = status.draining;
                event
            },
            Tick::Heartbeat => if self.heartbeat {
                Some(NodeEvent::Status)
            } else {
                None
            },
        }
    }

    /// What to report when stopped, given the node's state at this moment: one
    /// last change, as a drain shorter than a poll would otherwise go
    /// unreported, and that the reporter stops.
    pub fn stop(self, status: &StatusResponse, ready: bool) -> (events: Vec<NodeEvent>)
        ensures
            events@ == stop_events(self.last(), state_of(*status, ready)),
            status.draining && !self.draining ==> events@ == seq![
                NodeEvent::Draining,
                NodeEvent::Stopping,
            ],
            ready && !self.ready && (!status.draining || self.draining) ==> events@ == seq![
                NodeEvent::Ready,
                NodeEvent::Stopping,
            ],
            self.ready && !ready && !status.draining ==> events@ == seq![
                NodeEvent::NotReady,
                NodeEvent::Stopping,
            ],
            (!status.draining || self.draining) && (!ready || self.ready) && (!self.ready || ready
                || status.draining) ==> events@ == seq![NodeEvent::Stopping],
    {
        let mut events: Vec<NodeEvent> = Vec::new();
        match node_transition((self.ready, self.draining), (ready, status.draining)) {
            Some(event) => {
                events.push(event);
            },
            None => {},
        }
        events.push(NodeEvent::Stopping);
        assert(events@ =~= stop_events(self.last(), state_of(*status, ready)));
        events
    }
}

/// What a look takes in is the readiness and the drain flag themselves: where
/// the last look found no drain and the status says that the node drains, a
/// poll reports the drain, and so does stopping, whatever else the status holds
/// and whatever readiness does. It is never reported as lost readiness.
pub proof fn law_drain_is_reported_at_the_first_look(
    last_ready: bool,
    heartbeat: bool,
    status: StatusResponse,
    ready: bool,
)
    requires
        status.draining,
    ensures
        tick_event((last_ready, false), heartbeat, Tick::Poll, state_of(status, ready)) == Some(
            NodeEvent::Draining,
        ),
        stop_events((last_ready, false), state_of(status, ready)) == seq![
            NodeEvent::Draining,
            NodeEvent::Stopping,
        ],
        after_tick((last_ready, false), Tick::Poll, state_of(status, ready)) == (ready, true),
{
    assert(stop_events((last_ready, false), state_of(status, ready)) =~= seq![
        NodeEvent::Draining,
        NodeEvent::Stopping,
    ]);
}

/// Where the node drains no longer than the last look knew of, a poll reports
/// readiness: gained, or lost outside a drain, and nothing where neither the
/// readiness nor the drain flag tells of a change.
pub proof fn law_poll_reports_readiness_itself(
    last: (bool, bool),
    heartbeat: bool,
    status: StatusResponse,
    ready: bool,
)
    requires
        status.draining ==> last.1,
    ensures
        ({
            let event = tick_event(last, heartbeat, Tick::Poll, state_of(status, ready));
            &&& event == Some(NodeEvent::Ready) <==> ready && !last.0
            &&& event == Some(NodeEvent::NotReady) <==> last.0 && !ready && !status.draining
            &&& event is None <==> ready == last.0 || (!ready && status.draining)
        }),
        after_tick(last, Tick::Poll, state_of(status, ready)) == (ready, status.draining),
{
}

/// Two snapshots that agree on the drain flag are the same to a reporter, in
/// whatever else they differ.
pub proof fn law_only_the_drain_flag_of_a_status_counts(
    last: (bool, bool),
    heartbeat: bool,
    tick: Tick,
    a: StatusResponse,
    b: StatusResponse,
    ready: bool,
)
    requires
        a.draining == b.draining,
    ensures
        state_of(a, ready) == (ready, b.draining),
        tick_event(last, heartbeat, tick, state_of(a, ready)) == tick_event(
            last,
            heartbeat,
            tick,
            state_of(b, ready),
        ),
        stop_events(last, state_of(a, ready)) == stop_events(last, state_of(b, ready)),
{
}

/// A heartbeat reports a snapshot where heartbeats are on and nothing where
/// they are off, whatever it finds, and leaves every change to the next poll.
pub proof fn law_heartbeat_swallows_no_change(
    last: (bool, bool),
    heartbeat: bool,
    now: (bool, bool),
)
    ensures
        heartbeat ==> tick_event(last, heartbeat, Tick::Heartbeat, now) == Some(NodeEvent::Status),
        !heartbeat ==> tick_event(last, heartbeat, Tick::Heartbeat, now) is None,
        after_tick(last, Tick::Heartbeat, now) == last,
{
}

/// A reporter remembers of a look the two flags that it found.
pub proof fn law_last_look_is_remembered(reporter: NodeHealthReporter)
    ensures
        reporter.last() == (reporter.ready, reporter.draining),
{
}

/// Readiness and the drain flag are looked at every second.
pub proof fn law_polls_every_second()
    ensures
        NODE_HEALTH_POLL_MS == 1_000,
{
}

/// What a reporter reports from the look that found `last` on: at each tick,
/// given with the state found at it, and when stopped in state `at_stop`.
pub open spec fn rest_of_report(
    last: (bool, bool),
    heartbeat: bool,
    ticks: Seq<(Tick, (bool, bool))>,
    at_stop: (bool, bool),
) -> Seq<NodeEvent>
    decreases ticks.len(),
{
    if ticks.len() == 0 {
        stop_events(last, at_stop)
    } else {
        let (tick, now) = ticks[0];
        as_seq(tick_event(last, heartbeat, tick, now)) + rest_of_report(
            after_tick(last, tick, now),
            heartbeat,
            ticks.drop_first(),
            at_stop,
        )
    }
}

/// Everything that a reporter reports over its life.
pub open spec fn report(
    at_spawn: (bool, bool),
    heartbeat: bool,
    ticks: Seq<(Tick, (bool, bool))>,
    at_stop: (bool, bool),
) -> Seq<NodeEvent> {
    seq![NodeEvent::Started] + rest_of_report(at_spawn, heartbeat, ticks, at_stop)
}

/// The states that a reporter looks at for changes: at the start, at every
/// poll, and when stopped.
pub open spec fn looks(
    last: (bool, bool),
    ticks: Seq<(Tick, (bool, bool))>,
    at_stop: (bool, bool),
) -> Seq<(bool, bool)>
    decreases ticks.len(),
{
    if ticks.len() == 0 {
        seq![last, at_stop]
    } else {
        let (tick, now) = ticks[0];
        match tick {
            Tick::Poll => seq![last] + looks(now, ticks.drop_first(), at_stop),
            Tick::Heartbeat => looks(last, ticks.drop_first(), at_stop),
        }
    }
}

/// How often an event occurs.
pub open spec fn count(events: Seq<NodeEvent>, event: NodeEvent) -> nat
    decreases events.len(),
{
    if events.len() == 0 {
        0
    } else {
        (if events[0] == event {
            1nat
        } else {
            0
        }) + count(events.drop_first(), event)
    }
}

/// How often one state follows another with a change that amounts to `event`.
pub open spec fn changes(states: Seq<(bool, bool)>, event: NodeEvent) -> nat
    decreases states.len(),
{
    if states.len() < 2 {
        0
    } else {
        (if node::transition(states[0], states[1]) == Some(event) {
            1nat
        } else {
            0
        }) + changes(states.drop_first(), event)
    }
}

/// How many heartbeats are among the ticks.
pub open spec fn heartbeats(ticks: Seq<(Tick, (bool, bool))>) -> nat
    decreases ticks.len(),
{
    if ticks.len() == 0 {
        0
    } else {
        (if ticks[0].0 == Tick::Heartbeat {
            1nat
        } else {
            0
        }) + heartbeats(ticks.drop_first())
    }
}

/// An event occurs in a concatenation as often as in its parts.
proof fn lemma_count_concat(a: Seq<NodeEvent>, b: Seq<NodeEvent>, event: NodeEvent)
    ensures
        count(a + b, event) == count(a, event) + count(b, event),
    decreases a.len(),
{
    if a.len() == 0 {
        assert(a + b =~= b);
    } else {
        assert((a + b).drop_first() =~= a.drop_first() + b);
        lemma_count_concat(a.drop_first(), b, event);
    }
}

/// One event, if any, occurs at most once.
proof fn lemma_count_as_seq(found: Option<NodeEvent>, event: NodeEvent)
    ensures
        count(as_seq(found), event) == (if found == Some(event) {
            1nat
        } else {
            0
        }),
{
    reveal_with_fuel(count, 2);
}

/// The first look is the state that looking starts from.
proof fn lemma_first_look(
    last: (bool, bool),
    ticks: Seq<(Tick, (bool, bool))>,
    at_stop: (bool, bool),
)
    ensures
        looks(last, ticks, at_stop).len() >= 2,
        looks(last, ticks, at_stop)[0] == last,
        looks(last, ticks, at_stop).last() == at_stop,
    decreases ticks.len(),
{
    if ticks.len() > 0 {
        let (tick, now) = ticks[0];
        match tick {
            Tick::Poll => {
                lemma_first_look(now, ticks.drop_first(), at_stop);
            },
            Tick::Heartbeat => {
                lemma_first_look(last, ticks.drop_first(), at_stop);
            },
        }
    }
}

/// Each event occurs in the rest of a report as often as what it stands for.
proof fn lemma_rest_of_report(
    last: (bool, bool),
    heartbeat: bool,
    ticks: Seq<(Tick, (bool, bool))>,
    at_stop: (bool, bool),
    event: NodeEvent,
)
    ensures
        ({
            let events = rest_of_report(last, heartbeat, ticks, at_stop);
            &&& events.len() > 0
            &&& events.last() == NodeEvent::Stopping
            &&& count(events, event) == changes(looks(last, ticks, at_stop), event) + (if event
                == NodeEvent::Status && heartbeat {
                heartbeats(ticks)
            } else {
                0
            }) + (if event == NodeEvent::Stopping {
                1nat
            } else {
                0
            })
        }),
    decreases ticks.len(),
{
    if ticks.len() == 0 {
        let change = node::transition(last, at_stop);
        lemma_count_concat(as_seq(change), seq![NodeEvent::Stopping], event);
        lemma_count_as_seq(change, event);
        lemma_count_as_seq(Some(NodeEvent::Stopping), event);
        let states = seq![last, at_stop];
        assert(changes(states.drop_first(), event) == 0);
    } else {
        let (tick, now) = ticks[0];
        let later = ticks.drop_first();
        let next = after_tick(last, tick, now);
        let found = tick_event(last, heartbeat, tick, now);
        lemma_rest_of_report(next, heartbeat, later, at_stop, event);
        lemma_count_concat(
            as_seq(found),
            rest_of_report(next, heartbeat, later, at_stop),
            event,
        );
        lemma_count_as_seq(found, event);
        lemma_first_look(next, later, at_stop);
        if tick == Tick::Poll {
            let states = looks(last, ticks, at_stop);
            assert(states.drop_first() =~= looks(now, later, at_stop));
        }
    }
}

/// A report starts with the start and ends with the stop, and has each of them
/// once.
pub proof fn law_report_starts_and_stops_once(
    at_spawn: (bool, bool),
    heartbeat: bool,
    ticks: Seq<(Tick, (bool, bool))>,
    at_stop: (bool, bool),
)
    ensures
        ({
            let events = report(at_spawn, heartbeat, ticks, at_stop);
            &&& events[0] == NodeEvent::Started
            &&& events.last() == NodeEvent::Stopping
            &&& count(events, NodeEvent::Started) == 1
            &&& count(events, NodeEvent::Stopping) == 1
        }),
{
    let rest = rest_of_report(at_spawn, heartbeat, ticks, at_stop);
    let states = looks(at_spawn, ticks, at_stop);
    lemma_rest_of_report(at_spawn, heartbeat, ticks, at_stop, NodeEvent::Started);
    lemma_rest_of_report(at_spawn, heartbeat, ticks, at_stop, NodeEvent::Stopping);
    lemma_changes_are_transitions(states, NodeEvent::Started);
    lemma_changes_are_transitions(states, NodeEvent::Stopping);
    lemma_count_started(rest);
}

/// Putting the start in front adds it once, and nothing else.
proof fn lemma_count_started(rest: Seq<NodeEvent>)
    ensures
        forall|event: NodeEvent| #[trigger]
            count(seq![NodeEvent::Started] + rest, event) == count(rest, event) + (if event
                == NodeEvent::Started {
                1nat
            } else {
                0
            }),
{
    assert forall|event: NodeEvent| #[trigger]
        count(seq![NodeEvent::Started] + rest, event) == count(rest, event) + (if event
            == NodeEvent::Started {
            1nat
        } else {
            0
        }) by {
        lemma_count_concat(seq![NodeEvent::Started], rest, event);
        lemma_count_as_seq(Some(NodeEvent::Started), event);
    }
}

/// No change amounts to a start, a snapshot or a stop.
proof fn lemma_changes_are_transitions(states: Seq<(bool, bool)>, event: NodeEvent)
    requires
        event == NodeEvent::Started || event == NodeEvent::Status || event == NodeEvent::Stopping,
    ensures
        changes(states, event) == 0,
    decreases states.len(),
{
    if states.len() >= 2 {
        lemma_changes_are_transitions(states.drop_first(), event);
    }
}

/// Snapshots are reported once per heartbeat, and never where heartbeats are
/// off: then the report holds changes only, between the start and the stop.
pub proof fn law_snapshots_follow_heartbeats(
    at_spawn: (bool, bool),
    heartbeat: bool,
    ticks: Seq<(Tick, (bool, bool))>,
    at_stop: (bool, bool),
)
    ensures
        count(report(at_spawn, heartbeat, ticks, at_stop), NodeEvent::Status) == (if heartbeat {
            heartbeats(ticks)
        } else {
            0
        }),
{
    lemma_rest_of_report(at_spawn, heartbeat, ticks, at_stop, NodeEvent::Status);
    lemma_changes_are_transitions(looks(at_spawn, ticks, at_stop), NodeEvent::Status);
    lemma_count_started(rest_of_report(at_spawn, heartbeat, ticks, at_stop));
}

/// Every change that two consecutive looks find is reported once, and nothing
/// is reported as a change that is none.
pub proof fn law_every_change_is_reported_once(
    at_spawn: (bool, bool),
    heartbeat: bool,
    ticks: Seq<(Tick, (bool, bool))>,
    at_stop: (bool, bool),
    event: NodeEvent,
)
    requires
        event == NodeEvent::Ready || event == NodeEvent::NotReady || event == NodeEvent::Draining,
    ensures
        count(report(at_spawn, heartbeat, ticks, at_stop), event) == changes(
            looks(at_spawn, ticks, at_stop),
            event,
        ),
{
    lemma_rest_of_report(at_spawn, heartbeat, ticks, at_stop, event);
    lemma_count_started(rest_of_report(at_spawn, heartbeat, ticks, at_stop));
}

/// That a drain, once begun, is not taken back.
pub open spec fn drain_lasts(states: Seq<(bool, bool)>) -> bool {
    forall|i: int, j: int|
        0 <= i <= j < states.len() && (#[trigger] states[i]).1 ==> (#[trigger] states[j]).1
}

/// Where a drain lasts, it begins at most once, and it does begin where the
/// last state is draining and the first is not.
proof fn lemma_drain_begins(states: Seq<(bool, bool)>)
    requires
        states.len() > 0,
    ensures
        !states[0].1 && states.last().1 ==> changes(states, NodeEvent::Draining) >= 1,
        drain_lasts(states) ==> changes(states, NodeEvent::Draining) == (if !states[0].1
            && states.last().1 {
            1nat
        } else {
            0
        }),
    decreases states.len(),
{
    if states.len() >= 2 {
        let rest = states.drop_first();
        if drain_lasts(states) {
            assert forall|i: int, j: int|
                0 <= i <= j < rest.len() && (#[trigger] rest[i]).1 implies (
            #[trigger] rest[j]).1 by {
                assert(rest[i] == states[i + 1] && rest[j] == states[j + 1]);
            }
            assert(states[0].1 ==> states[1].1);
            assert(states[1].1 ==> states[states.len() - 1].1);
        }
        lemma_drain_begins(rest);
    }
}

/// A drain is never missed: where the node drains when the reporter is stopped
/// and did not when it was spawned, the drain is reported, however short it
/// was. A drain that lasts is reported once.
pub proof fn law_drain_is_never_missed(
    at_spawn: (bool, bool),
    heartbeat: bool,
    ticks: Seq<(Tick, (bool, bool))>,
    at_stop: (bool, bool),
)
    requires
        !at_spawn.1,
        at_stop.1,
    ensures
        count(report(at_spawn, heartbeat, ticks, at_stop), NodeEvent::Draining) >= 1,
        drain_lasts(looks(at_spawn, ticks, at_stop)) ==> count(
            report(at_spawn, heartbeat, ticks, at_stop),
            NodeEvent::Draining,
        ) == 1,
{
    law_every_change_is_reported_once(
        at_spawn,
        heartbeat,
        ticks,
        at_stop,
        NodeEvent::Draining,
    );
    lemma_first_look(at_spawn, ticks, at_stop);
    lemma_drain_begins(looks(at_spawn, ticks, at_stop));
}

/// A node's ticks as a reporter takes them in, each with the snapshot and the
/// readiness found at it.
pub open spec fn taken_in(ticks: Seq<(Tick, StatusResponse, bool)>) -> Seq<(Tick, (bool, bool))> {
    ticks.map_values(
        |t: (Tick, StatusResponse, bool)| (t.0, state_of(t.1, t.2)),
    )
}

/// A node that does not drain when its reporter is spawned and does when it is
/// stopped is reported as draining, whatever its snapshots hold otherwise and
/// however many calls are up. Where it is ready as long as it does not drain,
/// it is at no time reported as not ready.
pub proof fn law_a_draining_node_is_reported(
    at_spawn: StatusResponse,
    ready_at_spawn: bool,
    heartbeat: bool,
    ticks: Seq<(Tick, StatusResponse, bool)>,
    at_stop: StatusResponse,
    ready_at_stop: bool,
)
    requires
        !at_spawn.draining,
        at_stop.draining,
    ensures
        ({
            let events = report(
                state_of(at_spawn, ready_at_spawn),
                heartbeat,
                taken_in(ticks),
                state_of(at_stop, ready_at_stop),
            );
            &&& events.contains(NodeEvent::Draining)
            &&& (forall|i: int|
                0 <= i < ticks.len() ==> (#[trigger] ticks[i]).2 || ticks[i].1.draining) ==> !(
            events.contains(NodeEvent::NotReady))
        }),
{
    let first = state_of(at_spawn, ready_at_spawn);
    let last = state_of(at_stop, ready_at_stop);
    let seen = taken_in(ticks);
    let events = report(first, heartbeat, seen, last);
    law_drain_is_never_missed(first, heartbeat, seen, last);
    lemma_counted_is_contained(events, NodeEvent::Draining);
    if forall|i: int| 0 <= i < ticks.len() ==> (#[trigger] ticks[i]).2 || ticks[i].1.draining {
        assert forall|i: int| 0 <= i < seen.len() implies (#[trigger] seen[i]).1.0
            || seen[i].1.1 by {
            assert(ticks[i].2 || ticks[i].1.draining);
        }
        lemma_looks_are_ready_or_draining(first, seen, last);
        law_drain_is_not_reported_as_not_ready(first, heartbeat, seen, last);
        lemma_counted_is_contained(events, NodeEvent::NotReady);
    }
}

/// An event is in a report exactly where it is counted there.
proof fn lemma_counted_is_contained(events: Seq<NodeEvent>, event: NodeEvent)
    ensures
        events.contains(event) <==> count(events, event) > 0,
    decreases events.len(),
{
    if events.len() > 0 {
        let rest = events.drop_first();
        lemma_counted_is_contained(rest, event);
        if rest.contains(event) {
            let i = choose|i: int| 0 <= i < rest.len() && rest[i] == event;
            assert(events[i + 1] == event);
        }
        if events.contains(event) && events[0] != event {
            let i = choose|i: int| 0 <= i < events.len() && events[i] == event;
            assert(rest[i - 1] == event);
        }
        if events[0] == event {
            assert(events.contains(event));
        }
    }
}

/// Where every tick and the stop find the node ready or draining, so does every
/// look after the first.
proof fn lemma_looks_are_ready_or_draining(
    last: (bool, bool),
    ticks: Seq<(Tick, (bool, bool))>,
    at_stop: (bool, bool),
)
    requires
        forall|i: int| 0 <= i < ticks.len() ==> (#[trigger] ticks[i]).1.0 || ticks[i].1.1,
        at_stop.0 || at_stop.1,
    ensures
        ({
            let states = looks(last, ticks, at_stop);
            forall|i: int| 0 < i < states.len() ==> (#[trigger] states[i]).0 || states[i].1
        }),
    decreases ticks.len(),
{
    if ticks.len() > 0 {
        let (tick, now) = ticks[0];
        let later = ticks.drop_first();
        assert(ticks[0].1.0 || ticks[0].1.1);
        assert forall|i: int| 0 <= i < later.len() implies (#[trigger] later[i]).1.0
            || later[i].1.1 by {
            assert(later[i] == ticks[i + 1]);
        }
        match tick {
            Tick::Poll => {
                lemma_looks_are_ready_or_draining(now, later, at_stop);
                lemma_first_look(now, later, at_stop);
                let states = looks(last, ticks, at_stop);
                let rest = looks(now, later, at_stop);
                assert forall|i: int| 0 < i < states.len() implies (#[trigger] states[i]).0
                    || states[i].1 by {
                    assert(states[i] == rest[i - 1]);
                    if i == 1 {
                        assert(rest[0] == now);
                    }
                }
            },
            Tick::Heartbeat => {
                lemma_looks_are_ready_or_draining(last, later, at_stop);
                assert(looks(last, ticks, at_stop) == looks(last, later, at_stop));
            },
        }
    } else {
        assert(looks(last, ticks, at_stop) == seq![last, at_stop]);
    }
}

/// Readiness that is only ever lost to a drain is never reported as lost.
pub proof fn law_drain_is_not_reported_as_not_ready(
    at_spawn: (bool, bool),
    heartbeat: bool,
    ticks: Seq<(Tick, (bool, bool))>,
    at_stop: (bool, bool),
)
    requires
        ({
            let states = looks(at_spawn, ticks, at_stop);
            forall|i: int|
                0 < i < states.len() ==> (#[trigger] states[i]).0 || states[i].1 || !states[i
                    - 1].0
        }),
    ensures
        count(report(at_spawn, heartbeat, ticks, at_stop), NodeEvent::NotReady) == 0,
{
    law_every_change_is_reported_once(
        at_spawn,
        heartbeat,
        ticks,
        at_stop,
        NodeEvent::NotReady,
    );
    lemma_never_not_ready(looks(at_spawn, ticks, at_stop));
}

proof fn lemma_never_not_ready(states: Seq<(bool, bool)>)
    requires
        forall|i: int|
            0 < i < states.len() ==> (#[trigger] states[i]).0 || states[i].1 || !states[i - 1].0,
    ensures
        changes(states, NodeEvent::NotReady) == 0,
    decreases states.len(),
{
    if states.len() >= 2 {
        let rest = states.drop_first();
        assert(states[1].0 || states[1].1 || !states[0].0);
        assert forall|i: int| 0 < i < rest.len() implies (#[trigger] rest[i]).0 || rest[i].1
            || !rest[i - 1].0 by {
            assert(states[i + 1].0 || states[i + 1].1 || !states[i].0);
        }
        lemma_never_not_ready(rest);
    }
}

} // verus!
