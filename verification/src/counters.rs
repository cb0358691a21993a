//! Mirroring a sink's own counters into the metrics registry, and telling from
//! them whether its collector is up.
use vstd::prelude::*;

verus! {

/// The counter of packets that went out on the wire.
pub const HEP_PACKETS_SENT_TOTAL: &'static str = "siphon_ai_hep_packets_sent_total";

/// The counter of packets that did not, by reason.
pub const HEP_PACKETS_DROPPED_TOTAL: &'static str = "siphon_ai_hep_packets_dropped_total";

/// The gauge that tells whether the collector takes packets.
pub const HEP_COLLECTOR_UP: &'static str = "siphon_ai_hep_collector_up";

/// The counter of node-health packets, by event.
pub const HEP_NODE_EVENTS_TOTAL: &'static str = "siphon_ai_hep_node_events_total";

/// How often the counters are mirrored, in milliseconds: fresher than any
/// sensible scrape interval.
pub const HEP_METRICS_SAMPLE_INTERVAL_MS: u64 = 10_000;

/// The totals that a sink keeps of itself. Each only ever grows.
#[derive(Debug, Clone, Copy, PartialEq, Eq, Structural)]
pub struct CounterReadings {
    /// Packets sent.
    pub sent: u64,
    /// Packets dropped because the queue was full.
    pub drops: u64,
    /// Packets that the socket refused to send.
    pub send_failures: u64,
}

/// A value for one counter series, to be set as the series' total.
#[derive(Debug, Clone, Copy)]
pub struct CounterSample {
    /// The counter.
    pub name: &'static str,
    /// The `reason` label, where the counter has one.
    pub reason: Option<&'static str>,
    /// The total.
    pub value: u64,
}

/// What a sample holds.
pub struct SampleView {
    pub name: Seq<char>,
    pub reason: Option<Seq<char>>,
    pub value: u64,
}

impl View for CounterSample {
    type V = SampleView;

    open spec fn view(&self) -> SampleView {
        SampleView {
            name: self.name@,
            reason: match self.reason {
                Some(reason) => Some(reason@),
                None => None,
            },
            value: self.value,
        }
    }
}

/// What the samples of a list hold.
pub open spec fn samples_view(samples: Seq<CounterSample>) -> Seq<SampleView> {
    samples.map_values(|sample: CounterSample| sample@)
}

/// The series that a sink's readings are mirrored into, with their totals.
pub open spec fn counter_series(readings: CounterReadings) -> Seq<SampleView> {
    seq![
        SampleView { name: HEP_PACKETS_SENT_TOTAL@, reason: None, value: readings.sent },
        SampleView {
            name: HEP_PACKETS_DROPPED_TOTAL@,
            reason: Some("queue_full"@),
            value: readings.drops,
        },
        SampleView {
            name: HEP_PACKETS_DROPPED_TOTAL@,
            reason: Some("collector_down"@),
            value: readings.send_failures,
        },
    ]
}

/// The samples that mirror a sink's readings, and the reading of send failures
/// that the next one is held against.
///
/// The samples are totals, not increments: mirroring a total cannot drift,
/// whereas a difference taken here would count twice after a missed tick.
pub fn publish_counters(readings: &CounterReadings) -> (published: (Vec<CounterSample>, u64))
    ensures
        samples_view(published.0@) == counter_series(*readings),
        published.0@.len() == 3,
        published.0@[0].name@ == "siphon_ai_hep_packets_sent_total"@,
        published.0@[0].reason is None,
        published.0@[0].value == readings.sent,
        published.0@[1].name@ == "siphon_ai_hep_packets_dropped_total"@,
        published.0@[1].reason matches Some(reason) && reason@ == "queue_full"@,
        published.0@[1].value == readings.drops,
        published.0@[2].name@ == "siphon_ai_hep_packets_dropped_total"@,
        published.0@[2].reason matches Some(reason) && reason@ == "collector_down"@,
        published.0@[2].value == readings.send_failures,
        published.1 == readings.send_failures,
{
    let mut samples: Vec<CounterSample> = Vec::new();
    samples.push(
        CounterSample { name: HEP_PACKETS_SENT_TOTAL, reason: None, value: readings.sent },
    );
    samples.push(
        CounterSample {
            name: HEP_PACKETS_DROPPED_TOTAL,
            reason: Some("queue_full"),
            value: readings.drops,
        },
    );
    samples.push(
        CounterSample {
            name: HEP_PACKETS_DROPPED_TOTAL,
            reason: Some("collector_down"),
            value: readings.send_failures,
        },
    );
    assert(samples_view(samples@) =~= counter_series(*readings));
    (samples, readings.send_failures)
}

/// Whether the collector is up, from two consecutive readings of send
/// failures: up unless a send failed in between.
pub open spec fn collector_up(previous_failures: u64, failures: u64) -> bool {
    failures <= previous_failures
}

/// The collector-up gauge from two consecutive readings of send failures.
/// Derived over a window rather than from the last send, because a connected
/// UDP socket reports a dead collector on the next send: single sends alternate
/// between success and failure, and a point sample would flap.
pub fn publish_collector_up(previous_failures: u64, failures: u64) -> (up: bool)
    ensures
        up == collector_up(previous_failures, failures),
        up <==> !(failures > previous_failures),
{
    !(failures > previous_failures)
}

/// Everything that one round of mirroring publishes.
#[derive(Debug)]
pub struct MetricsUpdate {
    pub counters: Vec<CounterSample>,
    pub collector_up: bool,
}

/// The periodic mirror of a sink's counters.
#[derive(Debug, Clone, Copy, PartialEq, Eq, Structural)]
pub struct CounterSampler {
    /// Send failures at the last reading.
    pub previous_failures: u64,
}

impl CounterSampler {
    /// Starts mirroring. The first round is published before anything can be
    /// sent, so that every series exists from startup, and the collector is
    /// presumed reachable until a send says otherwise.
    pub fn start(readings: &CounterReadings) -> (started: (CounterSampler, MetricsUpdate))
        ensures
            started.0.previous_failures == readings.send_failures,
            samples_view(started.1.counters@) == counter_series(*readings),
            started.1.counters@.len() == 3,
            started.1.counters@[0].name@ == "siphon_ai_hep_packets_sent_total"@,
            started.1.counters@[0].reason is None,
            started.1.counters@[0].value == readings.sent,
            started.1.counters@[1].name@ == "siphon_ai_hep_packets_dropped_total"@,
            started.1.counters@[1].reason matches Some(reason) && reason@ == "queue_full"@,
            started.1.counters@[1].value == readings.drops,
            started.1.counters@[2].name@ == "siphon_ai_hep_packets_dropped_total"@,
            started.1.counters@[2].reason matches Some(reason) && reason@ == "collector_down"@,
            started.1.counters@[2].value == readings.send_failures,
            started.1.collector_up,
    {
        let (counters, failures) = publish_counters(readings);
        let up = publish_collector_up(failures, failures);
        (CounterSampler { previous_failures: failures }, MetricsUpdate { counters, collector_up: up })
    }

    /// One round of mirroring, at each tick of the sample interval.
    pub fn sample(&mut self, readings: &CounterReadings) -> (update: MetricsUpdate)
        ensures
            samples_view(update.counters@) == counter_series(*readings),
            update.counters@.len() == 3,
            update.counters@[0].name@ == "siphon_ai_hep_packets_sent_total"@,
            update.counters@[0].reason is None,
            update.counters@[0].value == readings.sent,
            update.counters@[1].name@ == "siphon_ai_hep_packets_dropped_total"@,
            update.counters@[1].reason matches Some(reason) && reason@ == "queue_full"@,
            update.counters@[1].value == readings.drops,
            update.counters@[2].name@ == "siphon_ai_hep_packets_dropped_total"@,
            update.counters@[2].reason matches Some(reason) && reason@ == "collector_down"@,
            update.counters@[2].value == readings.send_failures,
            update.collector_up == collector_up(
                old(self).previous_failures,
                readings.send_failures,
            ),
            update.collector_up <==> !(readings.send_failures > old(self).previous_failures),
            final(self).previous_failures == readings.send_failures,
    {
        let (counters, failures) = publish_counters(readings);
        let up = publish_collector_up(self.previous_failures, failures);
        self.previous_failures = failures;
        MetricsUpdate { counters, collector_up: up }
    }
}

/// The gauge after each round of a sampler that starts at `previous` and then
/// reads `failures` one after the other.
pub open spec fn gauge_trace(previous: u64, failures: Seq<u64>) -> Seq<bool>
    decreases failures.len(),
{
    if failures.len() == 0 {
        Seq::empty()
    } else {
        seq![collector_up(previous, failures[0])] + gauge_trace(
            failures[0],
            failures.drop_first(),
        )
    }
}

/// The gauge follows send failures over each window: as the count of failures
/// only grows, a round reads up exactly where no send failed since the round
/// before it. Failures in every window read as a steady down, and the first
/// quiet window reads up again.
pub proof fn law_gauge_follows_failures_over_the_window(previous: u64, failures: Seq<u64>, i: int)
    requires
        0 <= i < failures.len(),
        previous <= failures[0],
        forall|j: int, k: int|
            0 <= j <= k < failures.len() ==> #[trigger] failures[j] <= #[trigger] failures[k],
    ensures
        gauge_trace(previous, failures).len() == failures.len(),
        gauge_trace(previous, failures)[i] <==> failures[i] == (if i == 0 {
            previous
        } else {
            failures[i - 1]
        }),
    decreases failures.len(),
{
    let rest = failures.drop_first();
    if rest.len() == 0 {
        assert(gauge_trace(failures[0], rest).len() == 0);
    } else {
        assert(failures[0] <= failures[1]);
        assert(rest[0] == failures[1]);
        assert forall|j: int, k: int| 0 <= j <= k < rest.len() implies #[trigger] rest[j]
            <= #[trigger] rest[k] by {
            assert(rest[j] == failures[j + 1] && rest[k] == failures[k + 1]);
        }
        law_gauge_follows_failures_over_the_window(failures[0], rest, if i == 0 {
            0
        } else {
            i - 1
        });
    }
}

/// Each series holds its own reading, and only that one: the sent counter what
/// was sent, the dropped counter what a full queue dropped under `queue_full`
/// and what the socket refused under `collector_down`.
pub proof fn law_each_series_holds_its_own_reading(readings: CounterReadings)
    ensures
        forall|value: u64|
            counter_series(readings).contains(
                (SampleView {
                    name: "siphon_ai_hep_packets_sent_total"@,
                    reason: None,
                    value,
                }),
            ) <==> value == readings.sent,
        forall|value: u64|
            counter_series(readings).contains(
                (SampleView {
                    name: "siphon_ai_hep_packets_dropped_total"@,
                    reason: Some("queue_full"@),
                    value,
                }),
            ) <==> value == readings.drops,
        forall|value: u64|
            counter_series(readings).contains(
                (SampleView {
                    name: "siphon_ai_hep_packets_dropped_total"@,
                    reason: Some("collector_down"@),
                    value,
                }),
            ) <==> value == readings.send_failures,
        forall|series: SampleView| #[trigger]
            counter_series(readings).contains(series) ==> series.name
                == "siphon_ai_hep_packets_sent_total"@ || series.name
                == "siphon_ai_hep_packets_dropped_total"@,
{
    reveal_strlit("siphon_ai_hep_packets_sent_total");
    reveal_strlit("siphon_ai_hep_packets_dropped_total");
    reveal_strlit("queue_full");
    reveal_strlit("collector_down");
    let series = counter_series(readings);
    assert("siphon_ai_hep_packets_sent_total"@.len()
        != "siphon_ai_hep_packets_dropped_total"@.len());
    assert("queue_full"@.len() != "collector_down"@.len());
    assert(series.contains(series[0]));
    assert(series.contains(series[1]));
    assert(series.contains(series[2]));
}

/// A list of samples is seen as it is: sample by sample, with the name, the
/// reason and the value that each of them has.
pub proof fn law_samples_are_seen_as_they_are(samples: Seq<CounterSample>, i: int)
    requires
        0 <= i < samples.len(),
    ensures
        samples_view(samples).len() == samples.len(),
        samples_view(samples)[i].name == samples[i].name@,
        samples_view(samples)[i].value == samples[i].value,
        match samples[i].reason {
            Some(reason) => samples_view(samples)[i].reason == Some(reason@),
            None => samples_view(samples)[i].reason is None,
        },
{
}

/// The counters are mirrored every ten seconds, under fixed names.
pub proof fn law_metrics_keep_their_names_and_interval()
    ensures
        HEP_METRICS_SAMPLE_INTERVAL_MS == 10_000,
        HEP_PACKETS_SENT_TOTAL@ == "siphon_ai_hep_packets_sent_total"@,
        HEP_PACKETS_DROPPED_TOTAL@ == "siphon_ai_hep_packets_dropped_total"@,
        HEP_COLLECTOR_UP@ == "siphon_ai_hep_collector_up"@,
        HEP_NODE_EVENTS_TOTAL@ == "siphon_ai_hep_node_events_total"@,
{
}

/// The collector reads down exactly where the later of two readings counts
/// more failures than the earlier one. So it reads up where nothing failed, and
/// one more failure than before is enough to read down.
pub proof fn law_any_new_failure_reads_down(previous: u64, failures: u64)
    ensures
        !collector_up(previous, failures) <==> failures > previous,
        collector_up(failures, failures),
        failures < u64::MAX ==> !collector_up(failures, (failures + 1) as u64),
{
}

/// The mirrored series are apart from one another, and together they account
/// for every packet that the sink counted, once.
pub proof fn law_every_reading_is_published_once(readings: CounterReadings)
    ensures
        ({
            let series = counter_series(readings);
            &&& series.len() == 3
            &&& forall|i: int, j: int|
                0 <= i < j < 3 ==> (#[trigger] series[i]).name != (#[trigger] series[j]).name
                    || series[i].reason != series[j].reason
            &&& series[0].value + series[1].value + series[2].value == readings.sent
                + readings.drops + readings.send_failures
        }),
{
    reveal_strlit("siphon_ai_hep_packets_sent_total");
    reveal_strlit("siphon_ai_hep_packets_dropped_total");
    reveal_strlit("queue_full");
    reveal_strlit("collector_down");
    assert(HEP_PACKETS_SENT_TOTAL@.len() != HEP_PACKETS_DROPPED_TOTAL@.len());
    assert("queue_full"@.len() != "collector_down"@.len());
}

} // verus!
