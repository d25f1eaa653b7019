//! What the accumulator and the tracker publish: their reports, turned into
//! the updates of metric families that a registry applies one by one.

use crate::exporter::Metric;
use crate::flow::{bump, SegmentClass, MAX_LOSS_GAP};
use crate::loss::{LossReport, LossSummary, LossTrackerView, PacketReport, TcpConnection};
use crate::packet::TcpSegment;
use crate::sequence::seq_add;
use crate::text::{ipv4_text, ipv4_text_of};
use crate::rates::{IpRate, NetworkMetricsView, RateReport};
use vstd::prelude::*;

verus! {

/// One update of one metric family.
#[derive(Clone, Copy, Debug, PartialEq, Eq)]
pub enum MetricUpdate {
    /// Adds one to a counter.
    Increment { metric: Metric },
    /// Records one observation in a histogram.
    Observe { metric: Metric, value: u32 },
    /// Sets a gauge to a whole number.
    SetCount { metric: Metric, count: u64 },
    /// Sets a gauge to the rate of `bytes` bytes in `elapsed` nanoseconds,
    /// in bytes per second, for the series of `local_ip` where the family
    /// is labelled.
    SetRate { metric: Metric, local_ip: Option<u32>, bytes: u128, elapsed: u64 },
    /// Sets a gauge to `part` in percent of `whole`, and to zero where
    /// `whole` is zero.
    SetPercentage { metric: Metric, part: u128, whole: u128 },
}

impl MetricUpdate {
    /// The family that the update is for.
    pub open spec fn metric_of(self) -> Metric {
        match self {
            MetricUpdate::Increment { metric } => metric,
            MetricUpdate::Observe { metric, .. } => metric,
            MetricUpdate::SetCount { metric, .. } => metric,
            MetricUpdate::SetRate { metric, .. } => metric,
            MetricUpdate::SetPercentage { metric, .. } => metric,
        }
    }

    /// Value of the label `local_ip` of the series that the update is for:
    /// the address in dotted decimal, where the update names an address.
    pub open spec fn label_of(self) -> Option<Seq<char>> {
        match self {
            MetricUpdate::SetRate { local_ip: Some(ip), .. } => Some(ipv4_text_of(ip)),
            _ => None,
        }
    }

    /// Computes [`MetricUpdate::metric_of`].
    pub fn metric(&self) -> (metric: Metric)
        ensures
            metric == self.metric_of(),
    {
        match self {
            MetricUpdate::Increment { metric } => *metric,
            MetricUpdate::Observe { metric, .. } => *metric,
            MetricUpdate::SetCount { metric, .. } => *metric,
            MetricUpdate::SetRate { metric, .. } => *metric,
            MetricUpdate::SetPercentage { metric, .. } => *metric,
        }
    }

    /// Computes [`MetricUpdate::label_of`].
    pub fn label(&self) -> (label: Option<String>)
        ensures
            match (label, self.label_of()) {
                (Some(given), Some(wanted)) => given@ == wanted,
                (None, None) => true,
                _ => false,
            },
    {
        match self {
            MetricUpdate::SetRate { local_ip: Some(ip), .. } => Some(ipv4_text(*ip)),
            _ => None,
        }
    }
}

/// Sets the rate of bytes sent by one address.
pub open spec fn tx_rate_of(entry: IpRate, elapsed: u64) -> MetricUpdate {
    MetricUpdate::SetRate {
        metric: Metric::LocalIpTxBytesRate,
        local_ip: Some(entry.local_ip),
        bytes: entry.tx_bytes as u128,
        elapsed,
    }
}

/// Sets the rate of bytes received by one address.
pub open spec fn rx_rate_of(entry: IpRate, elapsed: u64) -> MetricUpdate {
    MetricUpdate::SetRate {
        metric: Metric::LocalIpRxBytesRate,
        local_ip: Some(entry.local_ip),
        bytes: entry.rx_bytes as u128,
        elapsed,
    }
}

/// Sets a rate of one address to zero.
pub open spec fn zero_rate_of(metric: Metric, local_ip: u32, elapsed: u64) -> MetricUpdate {
    MetricUpdate::SetRate { metric, local_ip: Some(local_ip), bytes: 0, elapsed }
}

/// The two rates of every address, in the order of the entries.
pub open spec fn address_rates(entries: Seq<IpRate>, elapsed: u64) -> Seq<MetricUpdate>
    decreases entries.len(),
{
    if entries.len() == 0 {
        Seq::empty()
    } else {
        address_rates(entries.drop_last(), elapsed).push(tx_rate_of(entries.last(), elapsed)).push(
            rx_rate_of(entries.last(), elapsed),
        )
    }
}

/// The two rates of every evicted address set to zero, in the order of the
/// entries.
pub open spec fn eviction_zeros(entries: Seq<IpRate>, elapsed: u64) -> Seq<MetricUpdate>
    decreases entries.len(),
{
    if entries.len() == 0 {
        Seq::empty()
    } else if entries.last().evicted {
        eviction_zeros(entries.drop_last(), elapsed).push(
            zero_rate_of(Metric::LocalIpTxBytesRate, entries.last().local_ip, elapsed),
        ).push(zero_rate_of(Metric::LocalIpRxBytesRate, entries.last().local_ip, elapsed))
    } else {
        eviction_zeros(entries.drop_last(), elapsed)
    }
}

/// The two total rates.
pub open spec fn total_rates(report: RateReport) -> Seq<MetricUpdate> {
    seq![
        MetricUpdate::SetRate {
            metric: Metric::TotalTxBytesRate,
            local_ip: None,
            bytes: report.total_tx_bytes,
            elapsed: report.elapsed,
        },
        MetricUpdate::SetRate {
            metric: Metric::TotalRxBytesRate,
            local_ip: None,
            bytes: report.total_rx_bytes,
            elapsed: report.elapsed,
        },
    ]
}

/// What a sample publishes: the rates of every address, the totals, and
/// last a zero for the rates of every address that was evicted.
pub open spec fn rate_publications_of(report: RateReport) -> Seq<MetricUpdate> {
    address_rates(report.entries@, report.elapsed) + total_rates(report) + eviction_zeros(
        report.entries@,
        report.elapsed,
    )
}

/// What a tick publishes: nothing where it took no sample.
pub open spec fn tick_publications_of(report: Option<RateReport>) -> Seq<MetricUpdate> {
    match report {
        Some(sample) => rate_publications_of(sample),
        None => Seq::empty(),
    }
}

/// What the class of a segment publishes.
pub open spec fn class_publications_of(class: SegmentClass, gap: u32) -> Seq<MetricUpdate> {
    match class {
        SegmentClass::Gap => seq![
            MetricUpdate::Increment { metric: Metric::PacketLossMissing },
            MetricUpdate::Observe { metric: Metric::PacketLossGap, value: gap },
        ],
        SegmentClass::Duplicate => seq![
            MetricUpdate::Increment { metric: Metric::PacketLossDuplicate },
        ],
        SegmentClass::OutOfOrder => seq![
            MetricUpdate::Increment { metric: Metric::PacketLossOutOfOrder },
        ],
        _ => Seq::empty(),
    }
}

/// What the handling of one TCP segment publishes: a window shrink if there
/// was one, the window, the loss event if there was one, and the number of
/// flows.
pub open spec fn loss_publications_of(report: LossReport) -> Seq<MetricUpdate> {
    (if report.outcome.window_shrunk {
        seq![MetricUpdate::Increment { metric: Metric::WindowShrink }]
    } else {
        Seq::empty()
    }) + seq![
        MetricUpdate::SetCount {
            metric: Metric::CurrentWindowSize,
            count: report.outcome.window as u64,
        },
    ] + class_publications_of(report.outcome.class, report.outcome.gap) + seq![
        MetricUpdate::SetCount {
            metric: Metric::ActiveConnections,
            count: report.active_connections as u64,
        },
    ]
}

/// What the handling of one captured frame publishes.
pub open spec fn packet_publications_of(report: PacketReport) -> Seq<MetricUpdate> {
    seq![MetricUpdate::Increment { metric: Metric::TotalPackets }] + (if report.tcp {
        seq![MetricUpdate::Increment { metric: Metric::TcpPackets }]
    } else {
        Seq::empty()
    }) + (if report.global {
        seq![MetricUpdate::Increment { metric: Metric::GlobalTcpPackets }]
    } else {
        Seq::empty()
    }) + (match report.loss {
        Some(loss) => loss_publications_of(loss),
        None => Seq::empty(),
    })
}

/// What a sweep publishes: the loss events of the surviving flows in percent
/// of their packets.
pub open spec fn summary_publications_of(summary: LossSummary) -> Seq<MetricUpdate> {
    seq![
        MetricUpdate::SetPercentage {
            metric: Metric::PacketLossPercentage,
            part: summary.lost_packets,
            whole: summary.total_packets,
        },
    ]
}

/// Computes [`rate_publications_of`].
pub fn rate_publications(report: &RateReport) -> (updates: Vec<MetricUpdate>)
    ensures
        updates@ == rate_publications_of(*report),
{
    let elapsed = report.elapsed;
    let mut updates: Vec<MetricUpdate> = Vec::new();
    let mut i: usize = 0;
    while i < report.entries.len()
        invariant
            i <= report.entries.len(),
            elapsed == report.elapsed,
            updates@ == address_rates(report.entries@.take(i as int), elapsed),
        decreases report.entries.len() - i,
    {
        let entry = report.entries[i];
        proof {
            assert(report.entries@.take(i as int + 1).drop_last() =~= report.entries@.take(i as int));
        }
        updates.push(
            MetricUpdate::SetRate {
                metric: Metric::LocalIpTxBytesRate,
                local_ip: Some(entry.local_ip),
                bytes: entry.tx_bytes as u128,
                elapsed,
            },
        );
        updates.push(
            MetricUpdate::SetRate {
                metric: Metric::LocalIpRxBytesRate,
                local_ip: Some(entry.local_ip),
                bytes: entry.rx_bytes as u128,
                elapsed,
            },
        );
        i = i + 1;
    }
    updates.push(
        MetricUpdate::SetRate {
            metric: Metric::TotalTxBytesRate,
            local_ip: None,
            bytes: report.total_tx_bytes,
            elapsed,
        },
    );
    updates.push(
        MetricUpdate::SetRate {
            metric: Metric::TotalRxBytesRate,
            local_ip: None,
            bytes: report.total_rx_bytes,
            elapsed,
        },
    );
    let ghost head = address_rates(report.entries@, elapsed) + total_rates(*report);
    proof {
        assert(report.entries@.take(report.entries@.len() as int) =~= report.entries@);
    }
    let mut j: usize = 0;
    while j < report.entries.len()
        invariant
            j <= report.entries.len(),
            elapsed == report.elapsed,
            updates@ == head + eviction_zeros(report.entries@.take(j as int), elapsed),
        decreases report.entries.len() - j,
    {
        let entry = report.entries[j];
        proof {
            assert(report.entries@.take(j as int + 1).drop_last() =~= report.entries@.take(j as int));
        }
        if entry.evicted {
            updates.push(
                MetricUpdate::SetRate {
                    metric: Metric::LocalIpTxBytesRate,
                    local_ip: Some(entry.local_ip),
                    bytes: 0,
                    elapsed,
                },
            );
            updates.push(
                MetricUpdate::SetRate {
                    metric: Metric::LocalIpRxBytesRate,
                    local_ip: Some(entry.local_ip),
                    bytes: 0,
                    elapsed,
                },
            );
        }
        j = j + 1;
    }
    updates
}

/// Computes [`tick_publications_of`].
pub fn tick_publications(report: &Option<RateReport>) -> (updates: Vec<MetricUpdate>)
    ensures
        updates@ == tick_publications_of(*report),
{
    match report {
        Some(sample) => rate_publications(sample),
        None => Vec::new(),
    }
}

/// Computes [`loss_publications_of`].
pub fn loss_publications(report: &LossReport) -> (updates: Vec<MetricUpdate>)
    ensures
        updates@ == loss_publications_of(*report),
{
    let mut updates: Vec<MetricUpdate> = Vec::new();
    if report.outcome.window_shrunk {
        updates.push(MetricUpdate::Increment { metric: Metric::WindowShrink });
    }
    updates.push(
        MetricUpdate::SetCount {
            metric: Metric::CurrentWindowSize,
            count: report.outcome.window as u64,
        },
    );
    match report.outcome.class {
        SegmentClass::Gap => {
            updates.push(MetricUpdate::Increment { metric: Metric::PacketLossMissing });
            updates.push(
                MetricUpdate::Observe { metric: Metric::PacketLossGap, value: report.outcome.gap },
            );
        },
        SegmentClass::Duplicate => {
            updates.push(MetricUpdate::Increment { metric: Metric::PacketLossDuplicate });
        },
        SegmentClass::OutOfOrder => {
            updates.push(MetricUpdate::Increment { metric: Metric::PacketLossOutOfOrder });
        },
        _ => {},
    }
    updates.push(
        MetricUpdate::SetCount {
            metric: Metric::ActiveConnections,
            count: report.active_connections as u64,
        },
    );
    updates
}

/// Computes [`packet_publications_of`].
pub fn packet_publications(report: &PacketReport) -> (updates: Vec<MetricUpdate>)
    ensures
        updates@ == packet_publications_of(*report),
{
    let mut updates: Vec<MetricUpdate> = Vec::new();
    updates.push(MetricUpdate::Increment { metric: Metric::TotalPackets });
    if report.tcp {
        updates.push(MetricUpdate::Increment { metric: Metric::TcpPackets });
    }
    if report.global {
        updates.push(MetricUpdate::Increment { metric: Metric::GlobalTcpPackets });
    }
    match report.loss {
        Some(loss) => {
            let mut more = loss_publications(&loss);
            updates.append(&mut more);
        },
        None => {},
    }
    updates
}

/// Computes [`summary_publications_of`].
pub fn summary_publications(summary: &LossSummary) -> (updates: Vec<MetricUpdate>)
    ensures
        updates@ == summary_publications_of(*summary),
{
    let mut updates: Vec<MetricUpdate> = Vec::new();
    updates.push(
        MetricUpdate::SetPercentage {
            metric: Metric::PacketLossPercentage,
            part: summary.lost_packets,
            whole: summary.total_packets,
        },
    );
    updates
}

/// The ordinary rates of a sample are two updates for each entry.
pub proof fn address_rates_len(entries: Seq<IpRate>, elapsed: u64)
    ensures
        address_rates(entries, elapsed).len() == 2 * entries.len(),
    decreases entries.len(),
{
    if entries.len() > 0 {
        address_rates_len(entries.drop_last(), elapsed);
    }
}

/// The zeros of a sample hold both zeros of every evicted entry.
proof fn eviction_zeros_hold(entries: Seq<IpRate>, elapsed: u64, index: int)
    requires
        0 <= index < entries.len(),
        entries[index].evicted,
    ensures
        eviction_zeros(entries, elapsed).contains(
            zero_rate_of(Metric::LocalIpTxBytesRate, entries[index].local_ip, elapsed),
        ),
        eviction_zeros(entries, elapsed).contains(
            zero_rate_of(Metric::LocalIpRxBytesRate, entries[index].local_ip, elapsed),
        ),
    decreases entries.len(),
{
    let zeros = eviction_zeros(entries, elapsed);
    let front = eviction_zeros(entries.drop_last(), elapsed);
    let tx = zero_rate_of(Metric::LocalIpTxBytesRate, entries[index].local_ip, elapsed);
    let rx = zero_rate_of(Metric::LocalIpRxBytesRate, entries[index].local_ip, elapsed);
    if index == entries.len() - 1 {
        assert(zeros[front.len() as int] == tx);
        assert(zeros[front.len() as int + 1] == rx);
    } else {
        eviction_zeros_hold(entries.drop_last(), elapsed, index);
        let a = choose|a: int| 0 <= a < front.len() && front[a] == tx;
        let b = choose|b: int| 0 <= b < front.len() && front[b] == rx;
        assert(zeros[a] == tx);
        assert(zeros[b] == rx);
    }
}

/// A tick that comes less than the minimum interval after the last sample
/// publishes nothing: no gauge changes.
pub proof fn early_tick_publishes_nothing(
    metrics: NetworkMetricsView,
    now: u64,
    report: Option<RateReport>,
)
    requires
        now - metrics.last_update_time < crate::rates::MIN_SAMPLE_INTERVAL,
        metrics.reports(now, report),
    ensures
        tick_publications_of(report) == Seq::<MetricUpdate>::empty(),
{
}

/// An address that has been idle for longer than the timeout when a sample
/// is taken has both its rates set to zero, behind the ordinary rates of
/// the sample, and has no counters afterwards.
pub proof fn idle_address_is_zeroed_then_dropped(
    metrics: NetworkMetricsView,
    ip: u32,
    now: u64,
    report: RateReport,
) -> (at: (int, int))
    requires
        metrics.counters.contains_key(ip),
        now - metrics.counters[ip].last_active > metrics.inactivity_timeout,
        metrics.samples_at(now),
        metrics.reports(now, Some(report)),
    ensures
        2 * report.entries@.len() + 2 <= at.0 < rate_publications_of(report).len(),
        2 * report.entries@.len() + 2 <= at.1 < rate_publications_of(report).len(),
        rate_publications_of(report)[at.0] == zero_rate_of(
            Metric::LocalIpTxBytesRate,
            ip,
            report.elapsed,
        ),
        rate_publications_of(report)[at.1] == zero_rate_of(
            Metric::LocalIpRxBytesRate,
            ip,
            report.elapsed,
        ),
        !metrics.after_tick(now).counters.contains_key(ip),
{
    let index = crate::rates::idle_address_is_dropped(metrics, ip, now, report);
    let entries = report.entries@;
    eviction_zeros_hold(entries, report.elapsed, index);
    address_rates_len(entries, report.elapsed);
    let zeros = eviction_zeros(entries, report.elapsed);
    let tx = zero_rate_of(Metric::LocalIpTxBytesRate, ip, report.elapsed);
    let rx = zero_rate_of(Metric::LocalIpRxBytesRate, ip, report.elapsed);
    let a = choose|a: int| 0 <= a < zeros.len() && zeros[a] == tx;
    let b = choose|b: int| 0 <= b < zeros.len() && zeros[b] == rx;
    let head = address_rates(entries, report.elapsed) + total_rates(report);
    (head.len() + a, head.len() + b)
}

/// A data segment that starts `gap` bytes behind what its flow expects, for
/// a `gap` below the ceiling, raises the loss count of the flow by one and is
/// published as one more missing-sequence event with one observation of
/// `gap` in the gap histogram.
pub proof fn gap_is_counted_and_observed(
    tracker: LossTrackerView,
    connection: TcpConnection,
    segment: TcpSegment,
    timestamp: i64,
    now: u64,
    gap: u32,
)
    requires
        tracker.flows.contains_key(connection.id()),
        0 < gap < MAX_LOSS_GAP,
        segment.payload_len > 0,
        segment.sequence == seq_add(tracker.flows[connection.id()].expected_seq, gap),
    ensures
        tracker.after_segment(connection, segment, now).flows[connection.id()].lost_packets
            == bump(tracker.flows[connection.id()].lost_packets),
        tracker.outcome_for(connection, segment, now).class is Gap,
        tracker.outcome_for(connection, segment, now).gap == gap,
        tracker.event_for(connection, segment, timestamp, now) matches Some(event)
            && event.loss_type is MissingSequence && event.gap_size == gap,
        class_publications_of(
            tracker.outcome_for(connection, segment, now).class,
            tracker.outcome_for(connection, segment, now).gap,
        ) == seq![
            MetricUpdate::Increment { metric: Metric::PacketLossMissing },
            MetricUpdate::Observe { metric: Metric::PacketLossGap, value: gap },
        ],
{
    crate::flow::single_gap_is_one_loss(tracker.flows[connection.id()], segment, now, gap);
}

} // verus!
