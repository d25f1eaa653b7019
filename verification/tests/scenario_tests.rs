use network_traffic_monitor::decoder::parse_packet;
use network_traffic_monitor::exporter::Metric;
use network_traffic_monitor::flow::{SegmentClass, TcpConnectionState};
use network_traffic_monitor::locality::LocalNetworks;
use network_traffic_monitor::loss::{LossTracker, TcpConnection, DEFAULT_FLOW_TIMEOUT};
use network_traffic_monitor::packet::IpAddress;
use network_traffic_monitor::publish::{packet_publications, tick_publications, MetricUpdate};
use network_traffic_monitor::rates::{NetworkMetrics, DEFAULT_INACTIVITY_TIMEOUT};
use network_traffic_monitor::stats::{IpStats, IpStatsMap, TrafficStats};
use network_traffic_monitor::text::ipv4_text;

const MS: u64 = 1_000_000;
const SECOND: u64 = 1_000_000_000;
const LOCAL: [u8; 4] = [10, 0, 0, 5];
const NEIGHBOUR: [u8; 4] = [10, 0, 0, 6];
const FAR_A: [u8; 4] = [93, 184, 216, 34];
const FAR_B: [u8; 4] = [8, 8, 8, 8];

/// An ethernet frame with a TCP segment of the given payload length.
fn tcp_frame(src: [u8; 4], dst: [u8; 4], seq: u32, payload_len: usize) -> Vec<u8> {
    let mut frame = vec![0u8; 12];
    frame.extend_from_slice(&[0x08, 0x00]);
    frame.push(0x45);
    frame.push(0);
    frame.extend_from_slice(&((40 + payload_len) as u16).to_be_bytes());
    frame.extend_from_slice(&[0, 0, 0x40, 0, 64, 6, 0, 0]);
    frame.extend_from_slice(&src);
    frame.extend_from_slice(&dst);
    frame.extend_from_slice(&40000u16.to_be_bytes());
    frame.extend_from_slice(&443u16.to_be_bytes());
    frame.extend_from_slice(&seq.to_be_bytes());
    frame.extend_from_slice(&1u32.to_be_bytes());
    frame.extend_from_slice(&[0x50, 0x18]);
    frame.extend_from_slice(&8192u16.to_be_bytes());
    frame.extend_from_slice(&[0, 0, 0, 0]);
    frame.extend_from_slice(&vec![0xaa; payload_len]);
    frame
}

fn monitor() -> NetworkMetrics {
    NetworkMetrics::new(
        Some(IpAddress::V4(u32::from_be_bytes(LOCAL))),
        Some(0xffff_ff00),
        DEFAULT_INACTIVITY_TIMEOUT,
        0,
    )
}

fn networks() -> LocalNetworks {
    LocalNetworks::new(Some(IpAddress::V4(u32::from_be_bytes(LOCAL))), Some(0xffff_ff00))
}

fn flow() -> TcpConnection {
    TcpConnection {
        src_ip: u32::from_be_bytes(FAR_A),
        dst_ip: u32::from_be_bytes(FAR_B),
        src_port: 40000,
        dst_port: 443,
    }
}

fn feed(tracker: &mut LossTracker, seq: u32, payload_len: usize, now: u64) -> Vec<MetricUpdate> {
    let frame = tcp_frame(FAR_A, FAR_B, seq, payload_len);
    let decoded = parse_packet(&frame, frame.len() as u64, 0);
    assert!(decoded.is_some());
    let report = tracker.process_packet(decoded.as_ref(), &networks(), now);
    packet_publications(&report)
}

fn applied(gauges: &mut Vec<(Metric, Option<u32>, f64)>, updates: &[MetricUpdate]) {
    for update in updates {
        if let MetricUpdate::SetRate { metric, local_ip, bytes, elapsed } = *update {
            let value = bytes as f64 / (elapsed as f64 / 1e9);
            gauges.retain(|(m, ip, _)| !(*m == metric && *ip == local_ip));
            gauges.push((metric, local_ip, value));
        }
    }
}

fn gauge(gauges: &[(Metric, Option<u32>, f64)], metric: Metric, local_ip: Option<u32>) -> Option<f64> {
    gauges.iter().find(|(m, ip, _)| *m == metric && *ip == local_ip).map(|(_, _, v)| *v)
}

#[test]
fn five_frames_in_a_second_give_five_hundred_bytes_per_second() {
    let mut metrics = monitor();
    let frame = tcp_frame(LOCAL, FAR_B, 1, 46);
    assert_eq!(frame.len(), 100);
    for i in 0..5u64 {
        let info = parse_packet(&frame, frame.len() as u64, i as i64 * 200).unwrap();
        assert_eq!(info.size, 100);
        metrics.record_packet(&info, i * 200 * MS);
    }
    let report = metrics.update_rate_metrics(SECOND);
    let mut gauges = Vec::new();
    applied(&mut gauges, &tick_publications(&report));
    let local = Some(u32::from_be_bytes(LOCAL));
    assert_eq!(ipv4_text(local.unwrap()), "10.0.0.5");
    assert!((gauge(&gauges, Metric::LocalIpTxBytesRate, local).unwrap() - 500.0).abs() < 1e-9);
    assert!((gauge(&gauges, Metric::TotalTxBytesRate, None).unwrap() - 500.0).abs() < 1e-9);
    assert_eq!(gauge(&gauges, Metric::LocalIpRxBytesRate, local), Some(0.0));
    assert_eq!(gauge(&gauges, Metric::TotalRxBytesRate, None), Some(0.0));
}

#[test]
fn a_frame_between_two_local_addresses_changes_no_rate() {
    let mut metrics = monitor();
    let frame = tcp_frame(LOCAL, NEIGHBOUR, 1, 46);
    let info = parse_packet(&frame, frame.len() as u64, 0).unwrap();
    metrics.record_packet(&info, 5);
    assert_eq!(metrics.tracked_ips(), 0);
    let mut gauges = Vec::new();
    applied(&mut gauges, &tick_publications(&metrics.update_rate_metrics(SECOND)));
    assert_eq!(gauge(&gauges, Metric::TotalTxBytesRate, None), Some(0.0));
    assert_eq!(gauge(&gauges, Metric::TotalRxBytesRate, None), Some(0.0));
    assert_eq!(gauges.len(), 2);
}

#[test]
fn a_gap_in_captured_frames_is_published() {
    let mut tracker = LossTracker::new(DEFAULT_FLOW_TIMEOUT);
    feed(&mut tracker, 1000, 100, 1);
    feed(&mut tracker, 1100, 100, 2);
    let updates = feed(&mut tracker, 1300, 100, 3);
    assert!(updates.contains(&MetricUpdate::Increment { metric: Metric::PacketLossMissing }));
    assert!(updates.contains(&MetricUpdate::Observe { metric: Metric::PacketLossGap, value: 100 }));
    let observations = updates.iter().filter(|u| matches!(u, MetricUpdate::Observe { .. })).count();
    assert_eq!(observations, 1);
    let state = tracker.connection_state(&flow()).unwrap();
    assert_eq!(state.lost_packets, 1);
    assert_eq!(state.total_packets, 3);
    assert_eq!(tracker.total_packets(), 3);
    assert_eq!(tracker.tcp_packets(), 3);
    assert_eq!(tracker.global_tcp_packets(), 3);
}

#[test]
fn a_repeated_frame_is_published_as_duplicate() {
    let mut tracker = LossTracker::new(DEFAULT_FLOW_TIMEOUT);
    // The flow is under tracking and expects 2000.
    tracker.track(&flow(), TcpConnectionState::new(1950, 50, 1, 8192, 0));
    feed(&mut tracker, 2000, 50, 1);
    feed(&mut tracker, 2050, 50, 2);
    let updates = feed(&mut tracker, 2050, 50, 3);
    assert!(updates.contains(&MetricUpdate::Increment { metric: Metric::PacketLossDuplicate }));
    let state = tracker.connection_state(&flow()).unwrap();
    assert_eq!(state.duplicate_count, 1);
    assert_eq!(state.lost_packets, 0);
}

#[test]
fn a_repeated_frame_on_a_new_flow_counts_two_duplicates() {
    // Nothing is tracked yet. The first frame creates the flow, which then
    // expects 2050, and is itself recorded at 2000: a first duplicate. The
    // second frame is in order, the third repeats it: a second duplicate.
    let mut tracker = LossTracker::new(DEFAULT_FLOW_TIMEOUT);
    let first = feed(&mut tracker, 2000, 50, 1);
    let second = feed(&mut tracker, 2050, 50, 2);
    let third = feed(&mut tracker, 2050, 50, 3);
    let duplicate = MetricUpdate::Increment { metric: Metric::PacketLossDuplicate };
    assert!(first.contains(&duplicate));
    assert!(!second.contains(&duplicate));
    assert!(third.contains(&duplicate));
    let state = tracker.connection_state(&flow()).unwrap();
    assert_eq!(state.duplicate_count, 2);
    assert_eq!(state.lost_packets, 0);
    assert_eq!(state.out_of_order_count, 0);
    assert_eq!(state.total_packets, 3);
    assert_eq!(state.expected_seq, 2100);
    assert_eq!(tracker.take_statistics().duplicate, 2);
}

#[test]
fn an_in_order_run_on_a_new_flow_counts_one_duplicate() {
    let mut tracker = LossTracker::new(DEFAULT_FLOW_TIMEOUT);
    let mut seq = 5000u32;
    for (i, len) in [100usize, 200, 300, 400].into_iter().enumerate() {
        feed(&mut tracker, seq, len, i as u64);
        seq += len as u32;
    }
    let state = tracker.connection_state(&flow()).unwrap();
    assert_eq!(state.expected_seq, 6000);
    assert_eq!(state.total_packets, 4);
    assert_eq!(state.duplicate_count, 1);
    assert_eq!(state.lost_packets, 0);
    assert_eq!(state.out_of_order_count, 0);
}

#[test]
fn a_backfill_is_published_as_out_of_order() {
    let mut tracker = LossTracker::new(DEFAULT_FLOW_TIMEOUT);
    feed(&mut tracker, 3000, 100, 1);
    let second = feed(&mut tracker, 3200, 100, 2);
    let third = feed(&mut tracker, 3100, 100, 3);
    assert!(second.contains(&MetricUpdate::Observe { metric: Metric::PacketLossGap, value: 100 }));
    assert!(third.contains(&MetricUpdate::Increment { metric: Metric::PacketLossOutOfOrder }));
    let state = tracker.connection_state(&flow()).unwrap();
    assert_eq!(state.lost_packets, 1);
    assert_eq!(state.out_of_order_count, 1);
}

#[test]
fn a_frame_at_the_wrap_is_in_order() {
    let start = u32::MAX - 49;
    let mut tracker = LossTracker::new(DEFAULT_FLOW_TIMEOUT);
    tracker.track(&flow(), TcpConnectionState::new(start.wrapping_sub(10), 10, 1, 8192, 0));
    assert_eq!(tracker.connection_state(&flow()).unwrap().expected_seq, start);
    let frame = tcp_frame(FAR_A, FAR_B, start, 100);
    let decoded = parse_packet(&frame, frame.len() as u64, 0);
    let report = tracker.process_packet(decoded.as_ref(), &networks(), 1);
    assert_eq!(report.loss.unwrap().outcome.class, SegmentClass::InOrder);
    assert_eq!(tracker.connection_state(&flow()).unwrap().expected_seq, 50);
}

#[test]
fn a_frame_feeds_all_statistics() {
    let mut metrics = monitor();
    let mut tracker = LossTracker::new(DEFAULT_FLOW_TIMEOUT);
    let mut traffic = TrafficStats::new(10 * SECOND, 0);
    let mut ip_stats = IpStatsMap::new();
    let frame = tcp_frame(FAR_B, LOCAL, 77, 1000);
    let info = parse_packet(&frame, frame.len() as u64, 0).unwrap();
    ip_stats.update_ip_stats(&info);
    metrics.record_packet(&info, 3);
    traffic.add_bytes(info.size, 3);
    let report = tracker.process_packet(Some(&info), &networks(), 3);
    assert!(report.tcp);
    assert!(!report.global);
    assert_eq!(traffic.total_bytes(), 1054);
    assert_eq!(ip_stats.get(IpAddress::V4(u32::from_be_bytes(LOCAL))), IpStats { tx_bytes: 0, rx_bytes: 1054 });
    assert_eq!(ip_stats.get(IpAddress::V4(u32::from_be_bytes(FAR_B))), IpStats { tx_bytes: 1054, rx_bytes: 0 });
    assert_eq!(metrics.counters(u32::from_be_bytes(LOCAL)).unwrap().rx_bytes, 1054);
    assert_eq!(tracker.active_connections(), 1);
}

#[test]
fn an_undecodable_frame_counts_as_a_packet_only() {
    let mut tracker = LossTracker::new(DEFAULT_FLOW_TIMEOUT);
    let decoded = parse_packet(&[0u8; 10], 10, 0);
    assert_eq!(decoded, None);
    let report = tracker.process_packet(decoded.as_ref(), &networks(), 1);
    assert_eq!(packet_publications(&report), vec![MetricUpdate::Increment { metric: Metric::TotalPackets }]);
    assert_eq!(tracker.total_packets(), 1);
    assert_eq!(tracker.tcp_packets(), 0);
}
