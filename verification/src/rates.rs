//! Rate accumulator: byte counters per local address, the sampling tick that
//! turns them into deltas over the elapsed time, and the eviction of
//! addresses gone idle.

use crate::locality::LocalNetworks;
use crate::packet::{IpAddress, PacketInfo};
use crate::table::{keys_of, sum_by, sum_by_bounds, sum_by_insert};
use std::collections::HashMap;
use vstd::prelude::*;

verus! {

/// Shortest time between two samples: one second, in nanoseconds. A tick
/// that comes earlier does nothing.
pub const MIN_SAMPLE_INTERVAL: u64 = 1_000_000_000;

/// Recommended time without traffic after which an address is dropped: three
/// hundred seconds, in nanoseconds.
pub const DEFAULT_INACTIVITY_TIMEOUT: u64 = 300_000_000_000;

/// Byte counters of one local address.
#[derive(Clone, Copy, Debug, PartialEq, Eq)]
pub struct LocalIpCounters {
    /// Bytes sent by the address, since it was first seen.
    pub tx_bytes: u64,
    /// Bytes received by the address, since it was first seen.
    pub rx_bytes: u64,
    /// `tx_bytes` as it stood at the last sample.
    pub last_tx_bytes: u64,
    /// `rx_bytes` as it stood at the last sample.
    pub last_rx_bytes: u64,
    /// Monotonic time of the latest packet, in nanoseconds.
    pub last_active: u64,
}

/// What one sample says of one local address.
#[derive(Clone, Copy, Debug, PartialEq, Eq)]
pub struct IpRate {
    pub local_ip: u32,
    /// Bytes sent since the sample before.
    pub tx_bytes: u64,
    /// Bytes received since the sample before.
    pub rx_bytes: u64,
    /// The address was idle for longer than the timeout and has been dropped.
    pub evicted: bool,
}

/// One sample: the bytes that moved, per address and in all, and the time
/// over which they moved. A rate is bytes divided by `elapsed`.
#[derive(Debug)]
pub struct RateReport {
    /// Nanoseconds since the sample before.
    pub elapsed: u64,
    /// One entry for each address that had counters, in no fixed order.
    pub entries: Vec<IpRate>,
    pub total_tx_bytes: u128,
    pub total_rx_bytes: u128,
}

/// Which way a packet goes, seen from the local networks.
#[derive(Clone, Copy, Debug, PartialEq, Eq)]
pub enum Direction {
    /// From the given local address to a non-local one.
    Outbound(u32),
    /// From a non-local address to the given local one.
    Inbound(u32),
    /// Between two local or two non-local addresses, or an address is unknown.
    Ignored,
}

/// The accumulator as a mathematical value.
pub struct NetworkMetricsView {
    /// Counters by IPv4 address.
    pub counters: Map<u32, LocalIpCounters>,
    /// Time of the last sample that was taken.
    pub last_update_time: u64,
    pub networks: LocalNetworks,
    pub inactivity_timeout: u64,
}

/// The rate accumulator.
pub struct NetworkMetrics {
    internal_counters_per_ip: HashMap<u32, LocalIpCounters>,
    last_update_time: u64,
    local_network_ranges: LocalNetworks,
    inactivity_timeout: u64,
}

/// `a + b`, stopping at the top of the range.
pub open spec fn saturating_sum(a: u64, b: u64) -> u64 {
    if a + b > u64::MAX {
        u64::MAX
    } else {
        (a + b) as u64
    }
}

/// `a - b`, stopping at zero.
pub open spec fn saturating_difference(a: u64, b: u64) -> u64 {
    if a >= b {
        (a - b) as u64
    } else {
        0
    }
}

/// The direction of a packet with the given addresses.
pub open spec fn direction_of(
    networks: LocalNetworks,
    src_ip: Option<IpAddress>,
    dst_ip: Option<IpAddress>,
) -> Direction {
    match (src_ip, dst_ip) {
        (Some(src), Some(dst)) => {
            if networks.spec_is_local(src) && !networks.spec_is_local(dst) {
                match src {
                    IpAddress::V4(ip) => Direction::Outbound(ip),
                    IpAddress::V6(_) => Direction::Ignored,
                }
            } else if !networks.spec_is_local(src) && networks.spec_is_local(dst) {
                match dst {
                    IpAddress::V4(ip) => Direction::Inbound(ip),
                    IpAddress::V6(_) => Direction::Ignored,
                }
            } else {
                Direction::Ignored
            }
        },
        _ => Direction::Ignored,
    }
}

/// An address last active at `last_active` has been idle for more than
/// `timeout` at `now`.
pub open spec fn is_idle(last_active: u64, now: u64, timeout: u64) -> bool {
    now - last_active > timeout
}

/// Weight of an address in the total of bytes sent.
pub open spec fn tx_delta_of() -> spec_fn(LocalIpCounters) -> int {
    |counters: LocalIpCounters| counters.tx_delta() as int
}

/// Weight of an address in the total of bytes received.
pub open spec fn rx_delta_of() -> spec_fn(LocalIpCounters) -> int {
    |counters: LocalIpCounters| counters.rx_delta() as int
}

/// The counters while a sample is under way, with the addresses in `done`
/// already sampled: those are dropped where idle, and have their snapshot
/// renewed otherwise.
pub open spec fn sampled_so_far(
    counters: Map<u32, LocalIpCounters>,
    done: Set<u32>,
    now: u64,
    timeout: u64,
) -> Map<u32, LocalIpCounters> {
    Map::new(
        |ip: u32|
            counters.contains_key(ip) && !(done.contains(ip) && is_idle(
                counters[ip].last_active,
                now,
                timeout,
            )),
        |ip: u32|
            if done.contains(ip) {
                counters[ip].sampled()
            } else {
                counters[ip]
            },
    )
}

/// The counters after a sample at `now`: idle addresses are gone, the others
/// have their snapshot renewed.
pub open spec fn sampled_all(counters: Map<u32, LocalIpCounters>, now: u64, timeout: u64) -> Map<
    u32,
    LocalIpCounters,
> {
    Map::new(
        |ip: u32| counters.contains_key(ip) && !is_idle(counters[ip].last_active, now, timeout),
        |ip: u32| counters[ip].sampled(),
    )
}

/// What a sample at `now` says of the address `ip` with the given counters.
pub open spec fn rate_of(ip: u32, counters: LocalIpCounters, now: u64, timeout: u64) -> IpRate {
    IpRate {
        local_ip: ip,
        tx_bytes: counters.tx_delta(),
        rx_bytes: counters.rx_delta(),
        evicted: is_idle(counters.last_active, now, timeout),
    }
}

/// `entries` lists every address of `counters` once, each with what the
/// sample says of it.
pub open spec fn lists_each_once(
    entries: Seq<IpRate>,
    counters: Map<u32, LocalIpCounters>,
    now: u64,
    timeout: u64,
) -> bool {
    &&& entries.len() == counters.dom().len()
    &&& forall|i: int|
        0 <= i < entries.len() ==> counters.contains_key((#[trigger] entries[i]).local_ip)
            && entries[i] == rate_of(
            entries[i].local_ip,
            counters[entries[i].local_ip],
            now,
            timeout,
        )
    &&& forall|i: int, j: int|
        0 <= i < j < entries.len() ==> (#[trigger] entries[i]).local_ip != (
        #[trigger] entries[j]).local_ip
    &&& forall|ip: u32| #[trigger]
        counters.contains_key(ip) ==> exists|i: int|
            0 <= i < entries.len() && (#[trigger] entries[i]).local_ip == ip
}

impl LocalIpCounters {
    /// Neither snapshot is ahead of its counter.
    pub open spec fn wf(self) -> bool {
        self.last_tx_bytes <= self.tx_bytes && self.last_rx_bytes <= self.rx_bytes
    }

    /// Counters of an address first seen at `now`.
    pub open spec fn fresh(now: u64) -> LocalIpCounters {
        LocalIpCounters {
            tx_bytes: 0,
            rx_bytes: 0,
            last_tx_bytes: 0,
            last_rx_bytes: 0,
            last_active: now,
        }
    }

    /// Bytes sent since the last sample.
    pub open spec fn tx_delta(self) -> u64 {
        saturating_difference(self.tx_bytes, self.last_tx_bytes)
    }

    /// Bytes received since the last sample.
    pub open spec fn rx_delta(self) -> u64 {
        saturating_difference(self.rx_bytes, self.last_rx_bytes)
    }

    /// The counters after the address sent `size` bytes at `now`.
    pub open spec fn after_tx(self, size: u64, now: u64) -> LocalIpCounters {
        LocalIpCounters { tx_bytes: saturating_sum(self.tx_bytes, size), last_active: now, ..self }
    }

    /// The counters after the address received `size` bytes at `now`.
    pub open spec fn after_rx(self, size: u64, now: u64) -> LocalIpCounters {
        LocalIpCounters { rx_bytes: saturating_sum(self.rx_bytes, size), last_active: now, ..self }
    }

    /// The counters with their snapshot renewed.
    pub open spec fn sampled(self) -> LocalIpCounters {
        LocalIpCounters { last_tx_bytes: self.tx_bytes, last_rx_bytes: self.rx_bytes, ..self }
    }

    /// Counters at zero for an address first seen at `now`.
    pub fn new(now: u64) -> (counters: LocalIpCounters)
        ensures
            counters == LocalIpCounters::fresh(now),
            counters.wf(),
    {
        LocalIpCounters {
            tx_bytes: 0,
            rx_bytes: 0,
            last_tx_bytes: 0,
            last_rx_bytes: 0,
            last_active: now,
        }
    }
}

impl NetworkMetricsView {
    /// The counters that a packet for `ip` meets: the ones kept, or fresh ones.
    pub open spec fn counters_before(self, ip: u32, now: u64) -> LocalIpCounters {
        if self.counters.contains_key(ip) {
            self.counters[ip]
        } else {
            LocalIpCounters::fresh(now)
        }
    }

    /// The accumulator after a packet seen at `now`.
    pub open spec fn after_packet(self, packet: PacketInfo, now: u64) -> NetworkMetricsView {
        match direction_of(self.networks, packet.src_ip, packet.dst_ip) {
            Direction::Outbound(ip) => NetworkMetricsView {
                counters: self.counters.insert(
                    ip,
                    self.counters_before(ip, now).after_tx(packet.size, now),
                ),
                ..self
            },
            Direction::Inbound(ip) => NetworkMetricsView {
                counters: self.counters.insert(
                    ip,
                    self.counters_before(ip, now).after_rx(packet.size, now),
                ),
                ..self
            },
            Direction::Ignored => self,
        }
    }

    /// Nanoseconds from the last sample to `now`.
    pub open spec fn elapsed(self, now: u64) -> u64 {
        saturating_difference(now, self.last_update_time)
    }

    /// A tick at `now` takes a sample: at least [`MIN_SAMPLE_INTERVAL`] has
    /// gone by since the last one.
    pub open spec fn samples_at(self, now: u64) -> bool {
        self.elapsed(now) >= MIN_SAMPLE_INTERVAL
    }

    /// The accumulator after a tick at `now`.
    pub open spec fn after_tick(self, now: u64) -> NetworkMetricsView {
        if self.samples_at(now) {
            NetworkMetricsView {
                counters: sampled_all(self.counters, now, self.inactivity_timeout),
                last_update_time: now,
                ..self
            }
        } else {
            self
        }
    }

    /// `report` is what a tick at `now` may hand back: nothing where the tick
    /// takes no sample; otherwise the elapsed time, every address once with
    /// its deltas, and the deltas added up.
    pub open spec fn reports(self, now: u64, report: Option<RateReport>) -> bool {
        match report {
            None => !self.samples_at(now),
            Some(sample) => {
                &&& self.samples_at(now)
                &&& sample.elapsed == self.elapsed(now)
                &&& lists_each_once(sample.entries@, self.counters, now, self.inactivity_timeout)
                &&& sample.total_tx_bytes == sum_by(self.counters, tx_delta_of())
                &&& sample.total_rx_bytes == sum_by(self.counters, rx_delta_of())
            },
        }
    }
}

impl View for NetworkMetrics {
    type V = NetworkMetricsView;

    closed spec fn view(&self) -> NetworkMetricsView {
        NetworkMetricsView {
            counters: self.internal_counters_per_ip@,
            last_update_time: self.last_update_time,
            networks: self.local_network_ranges,
            inactivity_timeout: self.inactivity_timeout,
        }
    }
}

impl NetworkMetrics {
    /// An accumulator holds counters for finitely many addresses, so that
    /// the totals of a sample are sums of finitely many deltas.
    pub proof fn counters_are_finite(&self)
        ensures
            self@.counters.dom().finite(),
    {
    }

    /// An accumulator without counters for the interface with the given
    /// address and netmask, created at `now`, which drops an address once it
    /// has been idle for more than `inactivity_timeout` nanoseconds.
    pub fn new(
        local_ip: Option<IpAddress>,
        local_subnet: Option<u32>,
        inactivity_timeout: u64,
        now: u64,
    ) -> (metrics: NetworkMetrics)
        ensures
            metrics@.counters == Map::<u32, LocalIpCounters>::empty(),
            metrics@.last_update_time == now,
            metrics@.networks@ == crate::locality::local_ranges(local_ip, local_subnet),
            metrics@.inactivity_timeout == inactivity_timeout,
    {
        NetworkMetrics {
            internal_counters_per_ip: HashMap::new(),
            last_update_time: now,
            local_network_ranges: LocalNetworks::new(local_ip, local_subnet),
            inactivity_timeout,
        }
    }

    /// The local network set.
    pub fn networks(&self) -> (networks: &LocalNetworks)
        ensures
            *networks == self@.networks,
    {
        &self.local_network_ranges
    }

    /// Whether `ip` is local.
    pub fn is_local_ip(&self, ip: IpAddress) -> (r: bool)
        ensures
            r == self@.networks.spec_is_local(ip),
    {
        self.local_network_ranges.is_local(ip)
    }

    /// Number of addresses with counters.
    pub fn tracked_ips(&self) -> (n: usize)
        ensures
            n == self@.counters.dom().len(),
    {
        self.internal_counters_per_ip.len()
    }

    /// The counters of an address, if it has any.
    pub fn counters(&self, ip: u32) -> (counters: Option<LocalIpCounters>)
        ensures
            counters == if self@.counters.contains_key(ip) {
                Some(self@.counters[ip])
            } else {
                None
            },
    {
        match self.internal_counters_per_ip.get(&ip) {
            Some(counters) => Some(*counters),
            None => None,
        }
    }

    /// Time of the last sample that was taken.
    pub fn last_update_time(&self) -> (t: u64)
        ensures
            t == self@.last_update_time,
    {
        self.last_update_time
    }

    /// Decides [`direction_of`] for this accumulator's networks.
    pub fn direction(&self, src_ip: Option<IpAddress>, dst_ip: Option<IpAddress>) -> (d: Direction)
        ensures
            d == direction_of(self@.networks, src_ip, dst_ip),
    {
        match (src_ip, dst_ip) {
            (Some(src), Some(dst)) => {
                let src_local = self.local_network_ranges.is_local(src);
                let dst_local = self.local_network_ranges.is_local(dst);
                if src_local && !dst_local {
                    match src {
                        IpAddress::V4(ip) => Direction::Outbound(ip),
                        IpAddress::V6(_) => Direction::Ignored,
                    }
                } else if !src_local && dst_local {
                    match dst {
                        IpAddress::V4(ip) => Direction::Inbound(ip),
                        IpAddress::V6(_) => Direction::Ignored,
                    }
                } else {
                    Direction::Ignored
                }
            },
            _ => Direction::Ignored,
        }
    }

    /// Accounts for one packet: adds its size to the bytes sent by its local
    /// source, or to the bytes received by its local destination, where
    /// exactly one of the two addresses is local.
    pub fn record_packet(&mut self, packet_info: &PacketInfo, now: u64)
        ensures
            final(self)@ == old(self)@.after_packet(*packet_info, now),
    {
        match self.direction(packet_info.src_ip, packet_info.dst_ip) {
            Direction::Outbound(ip) => {
                let mut counters = match self.internal_counters_per_ip.get(&ip) {
                    Some(counters) => *counters,
                    None => LocalIpCounters::new(now),
                };
                counters.tx_bytes = counters.tx_bytes.saturating_add(packet_info.size);
                counters.last_active = now;
                self.internal_counters_per_ip.insert(ip, counters);
            },
            Direction::Inbound(ip) => {
                let mut counters = match self.internal_counters_per_ip.get(&ip) {
                    Some(counters) => *counters,
                    None => LocalIpCounters::new(now),
                };
                counters.rx_bytes = counters.rx_bytes.saturating_add(packet_info.size);
                counters.last_active = now;
                self.internal_counters_per_ip.insert(ip, counters);
            },
            Direction::Ignored => {},
        }
    }

    /// The sampling tick. Where less than [`MIN_SAMPLE_INTERVAL`] has gone by
    /// since the last sample, nothing happens. Otherwise every address is
    /// sampled: its deltas go into the report, its snapshot is renewed, and
    /// it is dropped where it has been idle for longer than the timeout.
    pub fn update_rate_metrics(&mut self, now: u64) -> (report: Option<RateReport>)
        ensures
            final(self)@ == old(self)@.after_tick(now),
            old(self)@.reports(now, report),
            old(self)@.counters.dom().finite(),
            final(self)@.counters.dom().finite(),
    {
        let elapsed: u64 = if now >= self.last_update_time {
            now - self.last_update_time
        } else {
            0
        };
        if elapsed < MIN_SAMPLE_INTERVAL {
            return None;
        }
        let ghost before = self.internal_counters_per_ip@;
        let timeout = self.inactivity_timeout;
        let keys = keys_of(&self.internal_counters_per_ip);
        let mut entries: Vec<IpRate> = Vec::new();
        let mut total_tx_bytes: u128 = 0;
        let mut total_rx_bytes: u128 = 0;
        let ghost mut done: Set<u32> = Set::empty();
        let mut i: usize = 0;
        proof {
            assert(before.restrict(done) =~= Map::empty());
        }
        while i < keys.len()
            invariant
                i <= keys.len(),
                keys@.no_duplicates(),
                keys@.to_set() == before.dom(),
                keys@.len() == before.dom().len(),
                timeout == self.inactivity_timeout,
                self.last_update_time == old(self).last_update_time,
                self.local_network_ranges == old(self).local_network_ranges,
                self.inactivity_timeout == old(self).inactivity_timeout,
                done == keys@.take(i as int).to_set(),
                self.internal_counters_per_ip@ == sampled_so_far(before, done, now, timeout),
                before.restrict(done).dom().finite(),
                total_tx_bytes == sum_by(before.restrict(done), tx_delta_of()),
                total_rx_bytes == sum_by(before.restrict(done), rx_delta_of()),
                total_tx_bytes <= i * 0xFFFF_FFFF_FFFF_FFFF,
                total_rx_bytes <= i * 0xFFFF_FFFF_FFFF_FFFF,
                entries@.len() == i,
                forall|j: int|
                    0 <= j < i ==> (#[trigger] entries@[j]) == rate_of(
                        keys@[j],
                        before[keys@[j]],
                        now,
                        timeout,
                    ),
            decreases keys.len() - i,
        {
            let ip = keys[i];
            proof {
                assert(keys@.take(i as int + 1) =~= keys@.take(i as int).push(ip));
                keys@.take(i as int).lemma_push_to_set_commute(ip);
            }
            let found = match self.internal_counters_per_ip.get(&ip) {
                Some(counters) => Some(*counters),
                None => None,
            };
            if let Some(counters) = found {
                let tx_delta: u64 = counters.tx_bytes.saturating_sub(counters.last_tx_bytes);
                let rx_delta: u64 = counters.rx_bytes.saturating_sub(counters.last_rx_bytes);
                let evicted: bool = now > counters.last_active && now - counters.last_active
                    > timeout;
                entries.push(IpRate { local_ip: ip, tx_bytes: tx_delta, rx_bytes: rx_delta, evicted });
                total_tx_bytes = total_tx_bytes + tx_delta as u128;
                total_rx_bytes = total_rx_bytes + rx_delta as u128;
                if evicted {
                    self.internal_counters_per_ip.remove(&ip);
                } else {
                    let mut renewed = counters;
                    renewed.last_tx_bytes = counters.tx_bytes;
                    renewed.last_rx_bytes = counters.rx_bytes;
                    self.internal_counters_per_ip.insert(ip, renewed);
                }
                proof {
                    sum_by_insert(before.restrict(done), tx_delta_of(), ip, counters);
                    sum_by_insert(before.restrict(done), rx_delta_of(), ip, counters);
                    assert(before.restrict(done).insert(ip, counters) =~= before.restrict(
                        done.insert(ip),
                    ));
                }
            }
            proof {
                done = done.insert(ip);
            }
            i = i + 1;
        }
        self.last_update_time = now;
        proof {
            assert(keys@.take(keys@.len() as int) =~= keys@);
            assert(before.restrict(done) =~= before);
            assert(self.internal_counters_per_ip@ =~= sampled_all(before, now, timeout));
            assert forall|ip: u32| #[trigger] before.contains_key(ip) implies exists|j: int|
                0 <= j < entries@.len() && (#[trigger] entries@[j]).local_ip == ip by {
                let j = choose|j: int| 0 <= j < keys@.len() && keys@[j] == ip;
                assert(entries@[j].local_ip == ip);
            }
        }
        Some(RateReport { elapsed, entries, total_tx_bytes, total_rx_bytes })
    }
}

/// A packet from a local address to a non-local one adds its size to the
/// bytes sent by that address, and to nothing else: the bytes received by
/// the address and the counters of every other address stay as they are.
/// Short of the top of the range, the bytes sent grow by exactly the size.
pub proof fn outbound_packet_counts_as_sent(
    metrics: NetworkMetricsView,
    packet: PacketInfo,
    src: u32,
    dst: IpAddress,
    now: u64,
)
    requires
        packet.src_ip == Some(IpAddress::V4(src)),
        packet.dst_ip == Some(dst),
        metrics.networks.spec_is_local(IpAddress::V4(src)),
        !metrics.networks.spec_is_local(dst),
    ensures
        metrics.after_packet(packet, now).counters.contains_key(src),
        metrics.after_packet(packet, now).counters[src].tx_bytes == saturating_sum(
            metrics.counters_before(src, now).tx_bytes,
            packet.size,
        ),
        metrics.counters_before(src, now).tx_bytes + packet.size <= u64::MAX
            ==> metrics.after_packet(packet, now).counters[src].tx_bytes
            == metrics.counters_before(src, now).tx_bytes + packet.size,
        metrics.after_packet(packet, now).counters[src].rx_bytes == metrics.counters_before(
            src,
            now,
        ).rx_bytes,
        metrics.after_packet(packet, now).counters[src].last_tx_bytes == metrics.counters_before(
            src,
            now,
        ).last_tx_bytes,
        metrics.after_packet(packet, now).counters[src].last_rx_bytes == metrics.counters_before(
            src,
            now,
        ).last_rx_bytes,
        forall|ip: u32|
            ip != src ==> metrics.after_packet(packet, now).counters.contains_key(ip)
                == metrics.counters.contains_key(ip),
        forall|ip: u32|
            ip != src && metrics.counters.contains_key(ip) ==> metrics.after_packet(
                packet,
                now,
            ).counters[ip] == metrics.counters[ip],
        metrics.after_packet(packet, now).last_update_time == metrics.last_update_time,
{
}

/// A packet to a local address from a non-local one adds its size to the
/// bytes received by that address, and to nothing else.
pub proof fn inbound_packet_counts_as_received(
    metrics: NetworkMetricsView,
    packet: PacketInfo,
    src: IpAddress,
    dst: u32,
    now: u64,
)
    requires
        packet.src_ip == Some(src),
        packet.dst_ip == Some(IpAddress::V4(dst)),
        !metrics.networks.spec_is_local(src),
        metrics.networks.spec_is_local(IpAddress::V4(dst)),
    ensures
        metrics.after_packet(packet, now).counters.contains_key(dst),
        metrics.after_packet(packet, now).counters[dst].rx_bytes == saturating_sum(
            metrics.counters_before(dst, now).rx_bytes,
            packet.size,
        ),
        metrics.after_packet(packet, now).counters[dst].tx_bytes == metrics.counters_before(
            dst,
            now,
        ).tx_bytes,
        forall|ip: u32|
            ip != dst ==> metrics.after_packet(packet, now).counters.contains_key(ip)
                == metrics.counters.contains_key(ip),
        forall|ip: u32|
            ip != dst && metrics.counters.contains_key(ip) ==> metrics.after_packet(
                packet,
                now,
            ).counters[ip] == metrics.counters[ip],
{
}

/// A packet between two local addresses, between two non-local ones, or
/// with an address missing, changes nothing.
pub proof fn other_packets_change_nothing(metrics: NetworkMetricsView, packet: PacketInfo, now: u64)
    requires
        match (packet.src_ip, packet.dst_ip) {
            (Some(src), Some(dst)) => metrics.networks.spec_is_local(src)
                == metrics.networks.spec_is_local(dst),
            _ => true,
        },
    ensures
        metrics.after_packet(packet, now) == metrics,
{
}

/// Accounting and sampling keep every snapshot at or below its counter.
pub proof fn snapshots_stay_behind(metrics: NetworkMetricsView, packet: PacketInfo, now: u64)
    requires
        forall|ip: u32| metrics.counters.contains_key(ip) ==> (#[trigger] metrics.counters[ip]).wf(),
    ensures
        forall|ip: u32|
            metrics.after_packet(packet, now).counters.contains_key(ip) ==> (
            #[trigger] metrics.after_packet(packet, now).counters[ip]).wf(),
        forall|ip: u32|
            metrics.after_tick(now).counters.contains_key(ip) ==> (#[trigger] metrics.after_tick(
                now,
            ).counters[ip]).wf(),
{
}

/// A tick that comes less than [`MIN_SAMPLE_INTERVAL`] after the last sample
/// reports nothing and leaves the accumulator as it is.
pub proof fn early_tick_changes_nothing(
    metrics: NetworkMetricsView,
    now: u64,
    report: Option<RateReport>,
)
    requires
        now - metrics.last_update_time < MIN_SAMPLE_INTERVAL,
        metrics.reports(now, report),
    ensures
        report is None,
        metrics.after_tick(now) == metrics,
{
}

/// An address that has been idle for longer than the timeout when a sample
/// is taken is in the report, marked as evicted, and no longer has counters
/// afterwards.
pub proof fn idle_address_is_dropped(
    metrics: NetworkMetricsView,
    ip: u32,
    now: u64,
    report: RateReport,
) -> (index: int)
    requires
        metrics.counters.contains_key(ip),
        now - metrics.counters[ip].last_active > metrics.inactivity_timeout,
        metrics.samples_at(now),
        metrics.reports(now, Some(report)),
    ensures
        0 <= index < report.entries@.len(),
        report.entries@[index].local_ip == ip,
        report.entries@[index].evicted,
        !metrics.after_tick(now).counters.contains_key(ip),
{
    let index = choose|i: int|
        0 <= i < report.entries@.len() && (#[trigger] report.entries@[i]).local_ip == ip;
    index
}

/// An address that was active within the timeout keeps its counters through
/// a sample, with the snapshot renewed.
pub proof fn active_address_is_kept(metrics: NetworkMetricsView, ip: u32, now: u64)
    requires
        metrics.counters.contains_key(ip),
        now - metrics.counters[ip].last_active <= metrics.inactivity_timeout,
        metrics.samples_at(now),
    ensures
        metrics.after_tick(now).counters.contains_key(ip),
        metrics.after_tick(now).counters[ip] == metrics.counters[ip].sampled(),
{
}

/// Of two samples in a row with no packet between them, the second reports
/// zero bytes for every address and in total.
pub proof fn quiet_interval_reports_zero(
    metrics: NetworkMetricsView,
    first: u64,
    second: u64,
    report: RateReport,
)
    requires
        metrics.counters.dom().finite(),
        metrics.samples_at(first),
        metrics.after_tick(first).reports(second, Some(report)),
    ensures
        forall|i: int|
            0 <= i < report.entries@.len() ==> (#[trigger] report.entries@[i]).tx_bytes == 0
                && report.entries@[i].rx_bytes == 0,
        report.total_tx_bytes == 0,
        report.total_rx_bytes == 0,
{
    let sampled = metrics.after_tick(first).counters;
    vstd::set_lib::lemma_set_subset_finite(metrics.counters.dom(), sampled.dom());
    sum_by_bounds(sampled, tx_delta_of(), 0);
    sum_by_bounds(sampled, rx_delta_of(), 0);
}

/// Counters exist for local addresses only: a packet creates counters for
/// no other address, and a sample creates none at all.
pub proof fn only_local_addresses_have_counters(
    metrics: NetworkMetricsView,
    packet: PacketInfo,
    now: u64,
)
    requires
        forall|ip: u32| #[trigger]
            metrics.counters.contains_key(ip) ==> metrics.networks.spec_is_local(IpAddress::V4(ip)),
    ensures
        forall|ip: u32| #[trigger]
            metrics.after_packet(packet, now).counters.contains_key(ip)
                ==> metrics.networks.spec_is_local(IpAddress::V4(ip)),
        forall|ip: u32| #[trigger]
            metrics.after_tick(now).counters.contains_key(ip) ==> metrics.networks.spec_is_local(
                IpAddress::V4(ip),
            ),
        metrics.after_packet(packet, now).networks == metrics.networks,
        metrics.after_tick(now).networks == metrics.networks,
{
    let direction = direction_of(metrics.networks, packet.src_ip, packet.dst_ip);
    assert forall|ip: u32| #[trigger]
        metrics.after_packet(packet, now).counters.contains_key(ip)
        implies metrics.networks.spec_is_local(IpAddress::V4(ip)) by {
        if !metrics.counters.contains_key(ip) {
            assert(direction == Direction::Outbound(ip) || direction == Direction::Inbound(ip));
        }
    }
}

} // verus!
