//! TCP loss tracker: one [`TcpConnectionState`] per directed flow, the
//! counters over all flows, and the sweep that drops flows gone quiet.

use crate::flow::{bump, PacketLossType, SegmentOutcome, TcpConnectionState};
use crate::locality::LocalNetworks;
use crate::packet::{IpAddress, PacketInfo, TcpSegment};
use crate::table::{keys_of, sum_by, sum_by_insert};
use std::collections::HashMap;
use vstd::prelude::*;

verus! {

/// Recommended time without a segment after which a flow is dropped: sixty
/// seconds, in nanoseconds.
pub const DEFAULT_FLOW_TIMEOUT: u64 = 60_000_000_000;

/// One directed TCP flow: where its segments come from and where they go.
#[derive(Clone, Copy, Debug, PartialEq, Eq)]
pub struct TcpConnection {
    pub src_ip: u32,
    pub dst_ip: u32,
    pub src_port: u16,
    pub dst_port: u16,
}

/// A loss event, as it is handed to whoever publishes it.
#[derive(Clone, Copy, Debug, PartialEq, Eq)]
pub struct PacketLossEvent {
    /// Capture time of the segment, milliseconds since the Unix epoch.
    pub timestamp: i64,
    pub connection: TcpConnection,
    /// What the flow expected when the segment came.
    pub expected_seq: u32,
    pub received_seq: u32,
    pub gap_size: u32,
    pub loss_type: PacketLossType,
}

/// What handling one TCP segment did.
#[derive(Clone, Copy, Debug, PartialEq, Eq)]
pub struct LossReport {
    /// The segment opened its flow.
    pub created: bool,
    pub outcome: SegmentOutcome,
    pub event: Option<PacketLossEvent>,
    /// Flows tracked once the segment is handled.
    pub active_connections: usize,
}

/// What handling one captured frame did.
#[derive(Clone, Copy, Debug, PartialEq, Eq)]
pub struct PacketReport {
    /// The frame was counted as TCP.
    pub tcp: bool,
    /// The frame was counted as TCP between two non-local addresses.
    pub global: bool,
    pub loss: Option<LossReport>,
}

/// Loss events and window shrinks counted since the counts were last taken.
#[derive(Clone, Copy, Debug, PartialEq, Eq)]
pub struct IntervalStatistics {
    pub missing: u64,
    pub duplicate: u64,
    pub out_of_order: u64,
    pub window_shrink: u64,
}

/// What a sweep leaves: the surviving flows' packet and loss counts added up.
#[derive(Clone, Copy, Debug, PartialEq, Eq)]
pub struct LossSummary {
    pub total_packets: u128,
    pub lost_packets: u128,
    /// Flows that survived.
    pub active_connections: usize,
    /// Flows that the sweep dropped.
    pub evicted: usize,
}

/// The tracker as a mathematical value.
pub struct LossTrackerView {
    pub total_packets: u64,
    pub tcp_packets: u64,
    pub global_tcp_packets: u64,
    /// Flow states by [`TcpConnection::id`].
    pub flows: Map<u128, TcpConnectionState>,
    pub interval: IntervalStatistics,
    pub flow_timeout: u64,
}

/// The TCP loss tracker.
pub struct LossTracker {
    total_packets: u64,
    tcp_packets: u64,
    global_tcp_packets: u64,
    connection_states: HashMap<u128, TcpConnectionState>,
    interval: IntervalStatistics,
    flow_timeout: u64,
}

/// The flow that a decoded packet belongs to, with its segment: present for
/// TCP between two IPv4 addresses, with both ports known.
pub open spec fn tcp_flow_of(packet: PacketInfo) -> Option<(TcpConnection, TcpSegment)> {
    match (packet.tcp, packet.src_ip, packet.dst_ip, packet.src_port, packet.dst_port) {
        (
            Some(segment),
            Some(IpAddress::V4(src_ip)),
            Some(IpAddress::V4(dst_ip)),
            Some(src_port),
            Some(dst_port),
        ) => Some((TcpConnection { src_ip, dst_ip, src_port, dst_port }, segment)),
        _ => None,
    }
}

/// A flow last seen at `last_active` has been quiet for more than `timeout`
/// at `now`.
pub open spec fn is_stale(last_active: u64, now: u64, timeout: u64) -> bool {
    now - last_active > timeout
}

/// The flows that a sweep at `now` keeps.
pub open spec fn surviving(flows: Map<u128, TcpConnectionState>, now: u64, timeout: u64) -> Map<
    u128,
    TcpConnectionState,
> {
    Map::new(
        |id: u128| flows.contains_key(id) && !is_stale(flows[id].last_active, now, timeout),
        |id: u128| flows[id],
    )
}

/// The flows left while a sweep is under way, with the flows in `done`
/// already looked at.
pub open spec fn swept(
    flows: Map<u128, TcpConnectionState>,
    done: Set<u128>,
    now: u64,
    timeout: u64,
) -> Map<u128, TcpConnectionState> {
    Map::new(
        |id: u128|
            flows.contains_key(id) && !(done.contains(id) && is_stale(
                flows[id].last_active,
                now,
                timeout,
            )),
        |id: u128| flows[id],
    )
}

/// Weight of a flow in the packet total.
pub open spec fn packets_of() -> spec_fn(TcpConnectionState) -> int {
    |state: TcpConnectionState| state.total_packets as int
}

/// Weight of a flow in the loss total.
pub open spec fn losses_of() -> spec_fn(TcpConnectionState) -> int {
    |state: TcpConnectionState| state.lost_packets as int
}

impl TcpConnection {
    /// The flow as one number: source address, source port, destination
    /// address and destination port, side by side in 96 bits.
    pub open spec fn id(self) -> u128 {
        (self.src_ip * 0x1_0000_0000_0000_0000 + self.src_port * 0x1_0000_0000_0000 + self.dst_ip
            * 0x1_0000 + self.dst_port) as u128
    }

    /// The flow in the other direction.
    pub open spec fn reversed(self) -> TcpConnection {
        TcpConnection {
            src_ip: self.dst_ip,
            dst_ip: self.src_ip,
            src_port: self.dst_port,
            dst_port: self.src_port,
        }
    }

    /// Computes [`TcpConnection::id`].
    pub fn flow_id(&self) -> (id: u128)
        ensures
            id == self.id(),
    {
        (self.src_ip as u128) * 0x1_0000_0000_0000_0000 + (self.src_port as u128)
            * 0x1_0000_0000_0000 + (self.dst_ip as u128) * 0x1_0000 + (self.dst_port as u128)
    }

    /// Computes [`TcpConnection::reversed`].
    pub fn reverse(&self) -> (r: TcpConnection)
        ensures
            r == self.reversed(),
    {
        TcpConnection {
            src_ip: self.dst_ip,
            dst_ip: self.src_ip,
            src_port: self.dst_port,
            dst_port: self.src_port,
        }
    }
}

/// A number written as `high * base + low`, with `low` below `base`, gives
/// `high` and `low` back.
proof fn digits_are_unique(high: int, low: int, base: int)
    requires
        base > 0,
        0 <= low < base,
    ensures
        (high * base + low) / base == high,
        (high * base + low) % base == low,
{
    vstd::arithmetic::div_mod::lemma_fundamental_div_mod_converse(high * base + low, base, high, low);
}

/// Different flows have different numbers.
pub proof fn flow_id_is_injective(a: TcpConnection, b: TcpConnection)
    requires
        a.id() == b.id(),
    ensures
        a == b,
{
    let a_high = a.src_ip * 0x1_0000_0000_0000 + a.src_port * 0x1_0000_0000 + a.dst_ip;
    let b_high = b.src_ip * 0x1_0000_0000_0000 + b.src_port * 0x1_0000_0000 + b.dst_ip;
    digits_are_unique(a_high, a.dst_port as int, 0x1_0000);
    digits_are_unique(b_high, b.dst_port as int, 0x1_0000);
    let a_top = a.src_ip * 0x1_0000 + a.src_port;
    let b_top = b.src_ip * 0x1_0000 + b.src_port;
    digits_are_unique(a_top, a.dst_ip as int, 0x1_0000_0000);
    digits_are_unique(b_top, b.dst_ip as int, 0x1_0000_0000);
    digits_are_unique(a.src_ip as int, a.src_port as int, 0x1_0000);
    digits_are_unique(b.src_ip as int, b.src_port as int, 0x1_0000);
}

impl IntervalStatistics {
    /// The counts after one more segment outcome.
    pub open spec fn after(self, outcome: SegmentOutcome) -> IntervalStatistics {
        IntervalStatistics {
            missing: if outcome.class is Gap {
                bump(self.missing)
            } else {
                self.missing
            },
            duplicate: if outcome.class is Duplicate {
                bump(self.duplicate)
            } else {
                self.duplicate
            },
            out_of_order: if outcome.class is OutOfOrder {
                bump(self.out_of_order)
            } else {
                self.out_of_order
            },
            window_shrink: if outcome.window_shrunk {
                bump(self.window_shrink)
            } else {
                self.window_shrink
            },
        }
    }

    /// All counts at zero.
    pub open spec fn zero() -> IntervalStatistics {
        IntervalStatistics { missing: 0, duplicate: 0, out_of_order: 0, window_shrink: 0 }
    }

    /// Loss events of all three kinds together.
    pub open spec fn spec_total_loss(self) -> int {
        self.missing + self.duplicate + self.out_of_order
    }

    /// Computes [`IntervalStatistics::spec_total_loss`].
    pub fn total_loss(&self) -> (total: u128)
        ensures
            total == self.spec_total_loss(),
    {
        (self.missing as u128) + (self.duplicate as u128) + (self.out_of_order as u128)
    }
}

impl LossTrackerView {
    /// The state that `segment` meets on the flow `id`: the tracked one, or
    /// the one that the segment itself creates.
    pub open spec fn flow_before(self, id: u128, segment: TcpSegment, now: u64) -> TcpConnectionState {
        if self.flows.contains_key(id) {
            self.flows[id]
        } else {
            TcpConnectionState::created(segment, now)
        }
    }

    /// The tracker after `segment` on `connection`.
    pub open spec fn after_segment(
        self,
        connection: TcpConnection,
        segment: TcpSegment,
        now: u64,
    ) -> LossTrackerView {
        let before = self.flow_before(connection.id(), segment, now);
        LossTrackerView {
            flows: self.flows.insert(connection.id(), before.after(segment, now)),
            interval: self.interval.after(before.outcome_of(segment)),
            ..self
        }
    }

    /// What handling `segment` on `connection` finds.
    pub open spec fn outcome_for(
        self,
        connection: TcpConnection,
        segment: TcpSegment,
        now: u64,
    ) -> SegmentOutcome {
        self.flow_before(connection.id(), segment, now).outcome_of(segment)
    }

    /// The loss event that handling `segment` on `connection` emits, if any.
    pub open spec fn event_for(
        self,
        connection: TcpConnection,
        segment: TcpSegment,
        timestamp: i64,
        now: u64,
    ) -> Option<PacketLossEvent> {
        let before = self.flow_before(connection.id(), segment, now);
        let outcome = before.outcome_of(segment);
        match outcome.class.loss_type() {
            Some(loss_type) => Some(
                PacketLossEvent {
                    timestamp,
                    connection,
                    expected_seq: before.expected_seq,
                    received_seq: segment.sequence,
                    gap_size: outcome.gap,
                    loss_type,
                },
            ),
            None => None,
        }
    }

    /// `report` is what handling `segment` on `connection` reports: whether
    /// the segment opened its flow, what it found, the event it emits, and
    /// the number of flows tracked once it is handled.
    pub open spec fn reports_segment(
        self,
        connection: TcpConnection,
        segment: TcpSegment,
        timestamp: i64,
        now: u64,
        report: LossReport,
    ) -> bool {
        &&& report.created == !self.flows.contains_key(connection.id())
        &&& report.outcome == self.outcome_for(connection, segment, now)
        &&& report.event == self.event_for(connection, segment, timestamp, now)
        &&& report.active_connections == self.after_segment(
            connection,
            segment,
            now,
        ).flows.dom().len()
    }

    /// The tracker after one captured frame, decoded to `packet` or not
    /// decoded at all.
    pub open spec fn after_packet(
        self,
        packet: Option<PacketInfo>,
        networks: LocalNetworks,
        now: u64,
    ) -> LossTrackerView {
        let counted = LossTrackerView { total_packets: bump(self.total_packets), ..self };
        match packet {
            Some(info) => match tcp_flow_of(info) {
                Some((connection, segment)) => LossTrackerView {
                    tcp_packets: bump(self.tcp_packets),
                    global_tcp_packets: if networks.spec_is_global_pair(
                        IpAddress::V4(connection.src_ip),
                        IpAddress::V4(connection.dst_ip),
                    ) {
                        bump(self.global_tcp_packets)
                    } else {
                        self.global_tcp_packets
                    },
                    ..counted.after_segment(connection, segment, now)
                },
                None => counted,
            },
            None => counted,
        }
    }

    /// `report` is what handling one captured frame reports: whether it
    /// counted as TCP and as global TCP, and what its segment reports.
    pub open spec fn reports_packet(
        self,
        packet: Option<PacketInfo>,
        networks: LocalNetworks,
        now: u64,
        report: PacketReport,
    ) -> bool {
        match packet {
            Some(info) => match tcp_flow_of(info) {
                Some((connection, segment)) => {
                    &&& report.tcp
                    &&& report.global == networks.spec_is_global_pair(
                        IpAddress::V4(connection.src_ip),
                        IpAddress::V4(connection.dst_ip),
                    )
                    &&& report.loss matches Some(loss)
                    &&& self.reports_segment(connection, segment, info.timestamp, now, loss)
                },
                None => report == (PacketReport { tcp: false, global: false, loss: None }),
            },
            None => report == (PacketReport { tcp: false, global: false, loss: None }),
        }
    }

    /// The tracker after a sweep at `now`.
    pub open spec fn after_sweep(self, now: u64) -> LossTrackerView {
        LossTrackerView { flows: surviving(self.flows, now, self.flow_timeout), ..self }
    }

    /// `summary` is what a sweep at `now` reports: the packet and loss counts
    /// of the surviving flows added up, the number of those flows, and the
    /// number of flows dropped.
    pub open spec fn summarises(self, now: u64, summary: LossSummary) -> bool {
        let kept = surviving(self.flows, now, self.flow_timeout);
        &&& summary.total_packets == sum_by(kept, packets_of())
        &&& summary.lost_packets == sum_by(kept, losses_of())
        &&& summary.active_connections == kept.dom().len()
        &&& summary.evicted + kept.dom().len() == self.flows.dom().len()
    }
}

impl View for LossTracker {
    type V = LossTrackerView;

    closed spec fn view(&self) -> LossTrackerView {
        LossTrackerView {
            total_packets: self.total_packets,
            tcp_packets: self.tcp_packets,
            global_tcp_packets: self.global_tcp_packets,
            flows: self.connection_states@,
            interval: self.interval,
            flow_timeout: self.flow_timeout,
        }
    }
}

/// Reads the flow and the segment out of a decoded packet.
pub fn tcp_flow(packet: &PacketInfo) -> (r: Option<(TcpConnection, TcpSegment)>)
    ensures
        r == tcp_flow_of(*packet),
{
    match (packet.tcp, packet.src_ip, packet.dst_ip, packet.src_port, packet.dst_port) {
        (
            Some(segment),
            Some(IpAddress::V4(src_ip)),
            Some(IpAddress::V4(dst_ip)),
            Some(src_port),
            Some(dst_port),
        ) => Some((TcpConnection { src_ip, dst_ip, src_port, dst_port }, segment)),
        _ => None,
    }
}

impl LossTracker {
    /// A tracker holds finitely many flows, so that the sums over its flows
    /// are sums of finitely many counts.
    pub proof fn flows_are_finite(&self)
        ensures
            self@.flows.dom().finite(),
    {
    }

    /// A tracker without flows and with all counts at zero, which drops a
    /// flow once it has been quiet for more than `flow_timeout` nanoseconds.
    pub fn new(flow_timeout: u64) -> (tracker: LossTracker)
        ensures
            tracker@ == (LossTrackerView {
                total_packets: 0,
                tcp_packets: 0,
                global_tcp_packets: 0,
                flows: Map::empty(),
                interval: IntervalStatistics::zero(),
                flow_timeout,
            }),
    {
        LossTracker {
            total_packets: 0,
            tcp_packets: 0,
            global_tcp_packets: 0,
            connection_states: HashMap::new(),
            interval: IntervalStatistics { missing: 0, duplicate: 0, out_of_order: 0, window_shrink: 0 },
            flow_timeout,
        }
    }

    /// Frames seen.
    pub fn total_packets(&self) -> (n: u64)
        ensures
            n == self@.total_packets,
    {
        self.total_packets
    }

    /// Frames counted as TCP.
    pub fn tcp_packets(&self) -> (n: u64)
        ensures
            n == self@.tcp_packets,
    {
        self.tcp_packets
    }

    /// Frames counted as TCP between two non-local addresses.
    pub fn global_tcp_packets(&self) -> (n: u64)
        ensures
            n == self@.global_tcp_packets,
    {
        self.global_tcp_packets
    }

    /// Flows tracked.
    pub fn active_connections(&self) -> (n: usize)
        ensures
            n == self@.flows.dom().len(),
    {
        self.connection_states.len()
    }

    /// The state of a flow, if the flow is tracked.
    pub fn connection_state(&self, connection: &TcpConnection) -> (state: Option<TcpConnectionState>)
        ensures
            state == if self@.flows.contains_key(connection.id()) {
                Some(self@.flows[connection.id()])
            } else {
                None
            },
    {
        let id = connection.flow_id();
        match self.connection_states.get(&id) {
            Some(state) => Some(*state),
            None => None,
        }
    }

    /// Puts a flow under tracking in the given state, in place of whatever
    /// state it had.
    pub fn track(&mut self, connection: &TcpConnection, state: TcpConnectionState)
        ensures
            final(self)@ == (LossTrackerView {
                flows: old(self)@.flows.insert(connection.id(), state),
                ..old(self)@
            }),
    {
        let id = connection.flow_id();
        self.connection_states.insert(id, state);
    }

    /// Handles one TCP segment: fetches the state of its flow, or creates it
    /// from the segment, lets the flow record the segment, and notes a loss
    /// event or a window shrink in the counts of the running interval.
    ///
    /// The segment that creates a flow is recorded like any other. Creation
    /// has the flow expect what follows the segment, so a creating segment
    /// with payload starts before the expected sequence number, at the last
    /// observed one: it is reported as a duplicate.
    pub fn detect_packet_loss_and_window_shrink(
        &mut self,
        connection: &TcpConnection,
        segment: &TcpSegment,
        timestamp: i64,
        now: u64,
    ) -> (report: LossReport)
        ensures
            final(self)@ == old(self)@.after_segment(*connection, *segment, now),
            old(self)@.reports_segment(*connection, *segment, timestamp, now, report),
            final(self)@.flows.dom().finite(),
    {
        let id = connection.flow_id();
        let (created, before) = match self.connection_states.get(&id) {
            Some(state) => (false, *state),
            None => (
                true,
                TcpConnectionState::new(
                    segment.sequence,
                    segment.payload_len,
                    segment.acknowledgement,
                    segment.window,
                    now,
                ),
            ),
        };
        let mut state = before;
        let outcome = state.record_segment(segment, now);
        self.connection_states.insert(id, state);
        if outcome.window_shrunk {
            self.interval.window_shrink = self.interval.window_shrink.saturating_add(1);
        }
        let event = match outcome.class.to_loss_type() {
            Some(loss_type) => {
                match loss_type {
                    PacketLossType::MissingSequence => {
                        self.interval.missing = self.interval.missing.saturating_add(1);
                    },
                    PacketLossType::DuplicateSequence => {
                        self.interval.duplicate = self.interval.duplicate.saturating_add(1);
                    },
                    PacketLossType::OutOfOrder => {
                        self.interval.out_of_order = self.interval.out_of_order.saturating_add(1);
                    },
                }
                Some(
                    PacketLossEvent {
                        timestamp,
                        connection: *connection,
                        expected_seq: before.expected_seq,
                        received_seq: segment.sequence,
                        gap_size: outcome.gap,
                        loss_type,
                    },
                )
            },
            None => None,
        };
        LossReport { created, outcome, event, active_connections: self.connection_states.len() }
    }

    /// Handles one captured frame: counts it, and, where it decoded to TCP
    /// between IPv4 addresses, counts it as TCP, as global TCP where neither
    /// address is local, and hands the segment to
    /// [`LossTracker::detect_packet_loss_and_window_shrink`].
    pub fn process_packet(
        &mut self,
        packet: Option<&PacketInfo>,
        networks: &LocalNetworks,
        now: u64,
    ) -> (report: PacketReport)
        ensures
            final(self)@ == old(self)@.after_packet(
                match packet {
                    Some(info) => Some(*info),
                    None => None,
                },
                *networks,
                now,
            ),
            old(self)@.reports_packet(
                match packet {
                    Some(info) => Some(*info),
                    None => None,
                },
                *networks,
                now,
                report,
            ),
            final(self)@.flows.dom().finite(),
    {
        self.total_packets = self.total_packets.saturating_add(1);
        match packet {
            Some(info) => match tcp_flow(info) {
                Some((connection, segment)) => {
                    self.tcp_packets = self.tcp_packets.saturating_add(1);
                    let global = networks.is_global_pair(
                        IpAddress::V4(connection.src_ip),
                        IpAddress::V4(connection.dst_ip),
                    );
                    if global {
                        self.global_tcp_packets = self.global_tcp_packets.saturating_add(1);
                    }
                    let loss = self.detect_packet_loss_and_window_shrink(
                        &connection,
                        &segment,
                        info.timestamp,
                        now,
                    );
                    PacketReport { tcp: true, global, loss: Some(loss) }
                },
                None => PacketReport { tcp: false, global: false, loss: None },
            },
            None => PacketReport { tcp: false, global: false, loss: None },
        }
    }

    /// Takes the counts of the running interval and starts a new one.
    pub fn take_statistics(&mut self) -> (taken: IntervalStatistics)
        ensures
            taken == old(self)@.interval,
            final(self)@ == (LossTrackerView {
                interval: IntervalStatistics::zero(),
                ..old(self)@
            }),
    {
        let taken = self.interval;
        self.interval = IntervalStatistics {
            missing: 0,
            duplicate: 0,
            out_of_order: 0,
            window_shrink: 0,
        };
        taken
    }

    /// Sweeps the flows: drops each one whose last segment is more than the
    /// flow timeout old, and adds up the packet and loss counts of the rest.
    pub fn update_packet_loss_metrics(&mut self, now: u64) -> (summary: LossSummary)
        ensures
            final(self)@ == old(self)@.after_sweep(now),
            old(self)@.summarises(now, summary),
            old(self)@.flows.dom().finite(),
            final(self)@.flows.dom().finite(),
    {
        let ghost before = self.connection_states@;
        let timeout = self.flow_timeout;
        let keys = keys_of(&self.connection_states);
        let all: usize = keys.len();
        let mut total_packets: u128 = 0;
        let mut lost_packets: u128 = 0;
        let mut evicted: usize = 0;
        let ghost mut kept: Map<u128, TcpConnectionState> = Map::empty();
        let ghost mut done: Set<u128> = Set::empty();
        let mut i: usize = 0;
        while i < keys.len()
            invariant
                i <= keys.len(),
                keys@.no_duplicates(),
                keys@.to_set() == before.dom(),
                keys@.len() == before.dom().len(),
                all == keys.len(),
                timeout == self.flow_timeout,
                self.total_packets == old(self).total_packets,
                self.tcp_packets == old(self).tcp_packets,
                self.global_tcp_packets == old(self).global_tcp_packets,
                self.interval == old(self).interval,
                self.flow_timeout == old(self).flow_timeout,
                done == keys@.take(i as int).to_set(),
                self.connection_states@ == swept(before, done, now, timeout),
                kept == surviving(before, now, timeout).restrict(done),
                kept.dom().finite(),
                total_packets == sum_by(kept, packets_of()),
                lost_packets == sum_by(kept, losses_of()),
                total_packets <= i * 0xFFFF_FFFF_FFFF_FFFF,
                lost_packets <= i * 0xFFFF_FFFF_FFFF_FFFF,
                kept.dom().len() + evicted == i,
            decreases keys.len() - i,
        {
            let id = keys[i];
            proof {
                assert(keys@.take(i as int + 1) =~= keys@.take(i as int).push(id));
                keys@.take(i as int).lemma_push_to_set_commute(id);
            }
            let found = match self.connection_states.get(&id) {
                Some(state) => Some((state.last_active, state.total_packets, state.lost_packets)),
                None => None,
            };
            if let Some((last_active, packets, losses)) = found {
                if now > last_active && now - last_active > timeout {
                    self.connection_states.remove(&id);
                    evicted = evicted + 1;
                } else {
                    total_packets = total_packets + packets as u128;
                    lost_packets = lost_packets + losses as u128;
                    proof {
                        sum_by_insert(kept, packets_of(), id, before[id]);
                        sum_by_insert(kept, losses_of(), id, before[id]);
                        kept = kept.insert(id, before[id]);
                    }
                }
            }
            proof {
                done = done.insert(id);
            }
            i = i + 1;
        }
        proof {
            assert(keys@.take(keys@.len() as int) =~= keys@);
            assert(kept =~= surviving(before, now, timeout));
            assert(self.connection_states@ =~= surviving(before, now, timeout));
        }
        LossSummary {
            total_packets,
            lost_packets,
            active_connections: self.connection_states.len(),
            evicted,
        }
    }
}

/// A segment changes the state of its own flow and of no other: every other
/// flow is tracked afterwards exactly if it was before, in the same state.
pub proof fn segment_touches_one_flow(
    tracker: LossTrackerView,
    connection: TcpConnection,
    segment: TcpSegment,
    now: u64,
    other: TcpConnection,
)
    requires
        other != connection,
    ensures
        tracker.after_segment(connection, segment, now).flows.contains_key(connection.id()),
        tracker.after_segment(connection, segment, now).flows.contains_key(other.id())
            == tracker.flows.contains_key(other.id()),
        tracker.flows.contains_key(other.id()) ==> tracker.after_segment(
            connection,
            segment,
            now,
        ).flows[other.id()] == tracker.flows[other.id()],
{
    if other.id() == connection.id() {
        flow_id_is_injective(other, connection);
    }
}

/// A sweep keeps a flow exactly if its last segment is no more than the
/// timeout old, and leaves the state of every flow it keeps as it was.
pub proof fn sweep_drops_only_stale_flows(tracker: LossTrackerView, connection: TcpConnection, now: u64)
    requires
        tracker.flows.contains_key(connection.id()),
    ensures
        tracker.after_sweep(now).flows.contains_key(connection.id()) <==> now
            - tracker.flows[connection.id()].last_active <= tracker.flow_timeout,
        tracker.after_sweep(now).flows.contains_key(connection.id()) ==> tracker.after_sweep(
            now,
        ).flows[connection.id()] == tracker.flows[connection.id()],
        tracker.after_sweep(now).total_packets == tracker.total_packets,
        tracker.after_sweep(now).interval == tracker.interval,
{
}

} // verus!
