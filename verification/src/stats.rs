//! Plain byte statistics: the traffic window of the whole link, and the
//! bytes sent and received by every address seen on it.

use crate::packet::{IpAddress, PacketInfo};
use crate::rates::{saturating_difference, saturating_sum};
use std::collections::HashMap;
use vstd::prelude::*;

verus! {

/// Bytes that one address has sent and received.
#[derive(Clone, Copy, Debug, Default, PartialEq, Eq)]
pub struct IpStats {
    pub tx_bytes: u64,
    pub rx_bytes: u64,
}

/// Byte statistics of every address, local or not.
pub struct IpStatsMap {
    v4: HashMap<u32, IpStats>,
    v6: HashMap<u128, IpStats>,
}

/// [`IpStatsMap`] as a mathematical value.
pub struct IpStatsMapView {
    pub v4: Map<u32, IpStats>,
    pub v6: Map<u128, IpStats>,
}

/// Traffic statistics over a sliding window, for bandwidth estimates.
#[derive(Clone, Copy, Debug)]
pub struct TrafficStats {
    total_bytes: u64,
    last_update: u64,
    bytes_in_window: u64,
    window_start: u64,
    window_duration: u64,
}

/// [`TrafficStats`] as a mathematical value.
pub struct TrafficStatsView {
    /// Bytes seen since creation.
    pub total_bytes: u64,
    /// Time of the latest addition.
    pub last_update: u64,
    /// Bytes seen since the window was opened.
    pub bytes_in_window: u64,
    /// Time at which the window was opened.
    pub window_start: u64,
    /// Time after which the window is opened anew.
    pub window_duration: u64,
}

impl IpStats {
    /// Statistics at zero.
    pub open spec fn zero() -> IpStats {
        IpStats { tx_bytes: 0, rx_bytes: 0 }
    }

    /// The statistics after `size` more bytes were sent.
    pub open spec fn after_tx(self, size: u64) -> IpStats {
        IpStats { tx_bytes: saturating_sum(self.tx_bytes, size), ..self }
    }

    /// The statistics after `size` more bytes were received.
    pub open spec fn after_rx(self, size: u64) -> IpStats {
        IpStats { rx_bytes: saturating_sum(self.rx_bytes, size), ..self }
    }
}

impl IpStatsMapView {
    /// The statistics of an address; zero for one not seen yet.
    pub open spec fn of(self, ip: IpAddress) -> IpStats {
        match ip {
            IpAddress::V4(v4) => if self.v4.contains_key(v4) {
                self.v4[v4]
            } else {
                IpStats::zero()
            },
            IpAddress::V6(v6) => if self.v6.contains_key(v6) {
                self.v6[v6]
            } else {
                IpStats::zero()
            },
        }
    }

    /// The map with the statistics of `ip` set to `stats`.
    pub open spec fn with(self, ip: IpAddress, stats: IpStats) -> IpStatsMapView {
        match ip {
            IpAddress::V4(v4) => IpStatsMapView { v4: self.v4.insert(v4, stats), ..self },
            IpAddress::V6(v6) => IpStatsMapView { v6: self.v6.insert(v6, stats), ..self },
        }
    }

    /// The map after the source of a packet of `size` bytes is accounted for.
    pub open spec fn after_source(self, src_ip: Option<IpAddress>, size: u64) -> IpStatsMapView {
        match src_ip {
            Some(ip) => self.with(ip, self.of(ip).after_tx(size)),
            None => self,
        }
    }

    /// The map after the destination of a packet of `size` bytes is
    /// accounted for.
    pub open spec fn after_destination(self, dst_ip: Option<IpAddress>, size: u64) -> IpStatsMapView {
        match dst_ip {
            Some(ip) => self.with(ip, self.of(ip).after_rx(size)),
            None => self,
        }
    }

    /// The map after a packet: its size is added to what the source has
    /// sent, then to what the destination has received.
    pub open spec fn after_packet(self, packet: PacketInfo) -> IpStatsMapView {
        self.after_source(packet.src_ip, packet.size).after_destination(packet.dst_ip, packet.size)
    }
}

impl View for IpStatsMap {
    type V = IpStatsMapView;

    closed spec fn view(&self) -> IpStatsMapView {
        IpStatsMapView { v4: self.v4@, v6: self.v6@ }
    }
}

impl IpStatsMap {
    /// The map holds statistics for finitely many addresses.
    pub proof fn entries_are_finite(&self)
        ensures
            self@.v4.dom().finite(),
            self@.v6.dom().finite(),
    {
    }

    /// A map without entries.
    pub fn new() -> (map: IpStatsMap)
        ensures
            map@.v4 == Map::<u32, IpStats>::empty(),
            map@.v6 == Map::<u128, IpStats>::empty(),
    {
        IpStatsMap { v4: HashMap::new(), v6: HashMap::new() }
    }

    /// The statistics of an address; zero for one not seen yet.
    pub fn get(&self, ip: IpAddress) -> (stats: IpStats)
        ensures
            stats == self@.of(ip),
    {
        let found = match ip {
            IpAddress::V4(v4) => self.v4.get(&v4),
            IpAddress::V6(v6) => self.v6.get(&v6),
        };
        match found {
            Some(stats) => *stats,
            None => IpStats { tx_bytes: 0, rx_bytes: 0 },
        }
    }

    /// Number of addresses seen.
    pub fn len(&self) -> (n: u128)
        ensures
            n == self@.v4.dom().len() + self@.v6.dom().len(),
    {
        self.v4.len() as u128 + self.v6.len() as u128
    }

    fn set(&mut self, ip: IpAddress, stats: IpStats)
        ensures
            final(self)@ == old(self)@.with(ip, stats),
    {
        match ip {
            IpAddress::V4(v4) => {
                self.v4.insert(v4, stats);
            },
            IpAddress::V6(v6) => {
                self.v6.insert(v6, stats);
            },
        }
    }

    /// Accounts for one packet: its size counts as sent by its source and as
    /// received by its destination.
    pub fn update_ip_stats(&mut self, packet_info: &PacketInfo)
        ensures
            final(self)@ == old(self)@.after_packet(*packet_info),
    {
        match packet_info.src_ip {
            Some(ip) => {
                let mut stats = self.get(ip);
                stats.tx_bytes = stats.tx_bytes.saturating_add(packet_info.size);
                self.set(ip, stats);
            },
            None => {},
        }
        match packet_info.dst_ip {
            Some(ip) => {
                let mut stats = self.get(ip);
                stats.rx_bytes = stats.rx_bytes.saturating_add(packet_info.size);
                self.set(ip, stats);
            },
            None => {},
        }
    }
}

impl TrafficStatsView {
    /// The window is due to be opened anew at `now`.
    pub open spec fn window_is_over(self, now: u64) -> bool {
        saturating_difference(now, self.window_start) >= self.window_duration
    }

    /// The statistics after `bytes` more bytes at `now`.
    pub open spec fn after_bytes(self, bytes: u64, now: u64) -> TrafficStatsView {
        TrafficStatsView {
            total_bytes: saturating_sum(self.total_bytes, bytes),
            last_update: now,
            bytes_in_window: if self.window_is_over(now) {
                bytes
            } else {
                saturating_sum(self.bytes_in_window, bytes)
            },
            window_start: if self.window_is_over(now) {
                now
            } else {
                self.window_start
            },
            window_duration: self.window_duration,
        }
    }
}

impl View for TrafficStats {
    type V = TrafficStatsView;

    closed spec fn view(&self) -> TrafficStatsView {
        TrafficStatsView {
            total_bytes: self.total_bytes,
            last_update: self.last_update,
            bytes_in_window: self.bytes_in_window,
            window_start: self.window_start,
            window_duration: self.window_duration,
        }
    }
}

impl TrafficStats {
    /// Statistics at zero, with a window of `window_duration` nanoseconds
    /// opened at `now`.
    pub fn new(window_duration: u64, now: u64) -> (stats: TrafficStats)
        ensures
            stats@ == (TrafficStatsView {
                total_bytes: 0,
                last_update: now,
                bytes_in_window: 0,
                window_start: now,
                window_duration,
            }),
    {
        TrafficStats {
            total_bytes: 0,
            last_update: now,
            bytes_in_window: 0,
            window_start: now,
            window_duration,
        }
    }

    /// Adds `bytes` seen at `now`. Where the window has lasted its duration,
    /// it is opened anew first, so that it holds these bytes alone.
    pub fn add_bytes(&mut self, bytes: u64, now: u64)
        ensures
            final(self)@ == old(self)@.after_bytes(bytes, now),
    {
        self.total_bytes = self.total_bytes.saturating_add(bytes);
        let open_for: u64 = if now >= self.window_start {
            now - self.window_start
        } else {
            0
        };
        if open_for >= self.window_duration {
            self.bytes_in_window = 0;
            self.window_start = now;
        }
        self.bytes_in_window = self.bytes_in_window.saturating_add(bytes);
        self.last_update = now;
    }

    /// Bytes seen since creation.
    pub fn total_bytes(&self) -> (n: u64)
        ensures
            n == self@.total_bytes,
    {
        self.total_bytes
    }

    /// Bytes seen since the window was opened.
    pub fn bytes_in_window(&self) -> (n: u64)
        ensures
            n == self@.bytes_in_window,
    {
        self.bytes_in_window
    }

    /// Time at which the window was opened.
    pub fn window_start(&self) -> (t: u64)
        ensures
            t == self@.window_start,
    {
        self.window_start
    }

    /// Time of the latest addition.
    pub fn last_update(&self) -> (t: u64)
        ensures
            t == self@.last_update,
    {
        self.last_update
    }
}

} // verus!
