use network_traffic_monitor::exporter::Metric;
use network_traffic_monitor::flow::{
    PacketLossType, SegmentClass, SegmentOutcome, TcpConnectionState,
};
use network_traffic_monitor::locality::LocalNetworks;
use network_traffic_monitor::loss::{
    tcp_flow, IntervalStatistics, LossReport, LossSummary, LossTracker, PacketLossEvent,
    PacketReport, TcpConnection, DEFAULT_FLOW_TIMEOUT,
};
use network_traffic_monitor::packet::{IpAddress, PacketInfo, Protocol, TcpSegment};
use network_traffic_monitor::publish::{
    loss_publications, packet_publications, summary_publications, MetricUpdate,
};

const SECOND: u64 = 1_000_000_000;
const A: u32 = 0x5db8_d822;
const B: u32 = 0x0808_0808;

fn flow() -> TcpConnection {
    TcpConnection { src_ip: A, dst_ip: B, src_port: 50000, dst_port: 443 }
}

fn data(sequence: u32, payload_len: u32) -> TcpSegment {
    TcpSegment { sequence, acknowledgement: 1, window: 1000, payload_len }
}

fn tcp_packet(connection: &TcpConnection, segment: TcpSegment) -> PacketInfo {
    PacketInfo {
        protocol: Protocol::IPv4,
        size: 54 + segment.payload_len as u64,
        src_ip: Some(IpAddress::V4(connection.src_ip)),
        dst_ip: Some(IpAddress::V4(connection.dst_ip)),
        src_port: Some(connection.src_port),
        dst_port: Some(connection.dst_port),
        tcp: Some(segment),
        timestamp: 1_700_000_000_000,
    }
}

fn networks() -> LocalNetworks {
    LocalNetworks::new(Some(IpAddress::V4(0x0A00_0005)), Some(0xffff_ff00))
}

/// A tracker in which the flow expects `expected` and has counted nothing.
fn tracking(expected: u32) -> LossTracker {
    let mut tracker = LossTracker::new(DEFAULT_FLOW_TIMEOUT);
    tracker.track(&flow(), TcpConnectionState::new(expected.wrapping_sub(1), 1, 1, 1000, 0));
    tracker
}

#[test]
fn default_timeout_is_sixty_seconds() {
    assert_eq!(DEFAULT_FLOW_TIMEOUT, 60 * SECOND);
}

#[test]
fn new_tracker_is_empty() {
    let mut tracker = LossTracker::new(5);
    assert_eq!(tracker.total_packets(), 0);
    assert_eq!(tracker.tcp_packets(), 0);
    assert_eq!(tracker.global_tcp_packets(), 0);
    assert_eq!(tracker.active_connections(), 0);
    assert_eq!(tracker.connection_state(&flow()), None);
    assert_eq!(
        tracker.take_statistics(),
        IntervalStatistics { missing: 0, duplicate: 0, out_of_order: 0, window_shrink: 0 }
    );
}

#[test]
fn flow_ids_tell_flows_apart() {
    let base = flow();
    assert_eq!(base.flow_id(), ((A as u128) << 64) | (50000u128 << 48) | ((B as u128) << 16) | 443);
    let others = [
        TcpConnection { src_ip: A + 1, ..base },
        TcpConnection { dst_ip: B + 1, ..base },
        TcpConnection { src_port: 50001, ..base },
        TcpConnection { dst_port: 444, ..base },
        base.reverse(),
    ];
    for other in others {
        assert_ne!(other.flow_id(), base.flow_id());
    }
    assert_eq!(base.reverse(), TcpConnection { src_ip: B, dst_ip: A, src_port: 443, dst_port: 50000 });
    assert_eq!(base.reverse().reverse(), base);
    let top = TcpConnection { src_ip: u32::MAX, dst_ip: u32::MAX, src_port: u16::MAX, dst_port: u16::MAX };
    assert_eq!(top.flow_id(), (1u128 << 96) - 1);
}

#[test]
fn tracker_detects_a_gap() {
    let mut tracker = tracking(1000);
    tracker.detect_packet_loss_and_window_shrink(&flow(), &data(1000, 100), 10, 1);
    tracker.detect_packet_loss_and_window_shrink(&flow(), &data(1100, 100), 11, 2);
    let report = tracker.detect_packet_loss_and_window_shrink(&flow(), &data(1300, 100), 12, 3);
    assert_eq!(
        report,
        LossReport {
            created: false,
            outcome: SegmentOutcome { class: SegmentClass::Gap, gap: 100, window_shrunk: false, window: 1000 },
            event: Some(PacketLossEvent {
                timestamp: 12,
                connection: flow(),
                expected_seq: 1200,
                received_seq: 1300,
                gap_size: 100,
                loss_type: PacketLossType::MissingSequence,
            }),
            active_connections: 1,
        }
    );
    let state = tracker.connection_state(&flow()).unwrap();
    assert_eq!(state.lost_packets, 1);
    assert_eq!(state.total_packets, 3);
    assert_eq!(
        loss_publications(&report),
        vec![
            MetricUpdate::SetCount { metric: Metric::CurrentWindowSize, count: 1000 },
            MetricUpdate::Increment { metric: Metric::PacketLossMissing },
            MetricUpdate::Observe { metric: Metric::PacketLossGap, value: 100 },
            MetricUpdate::SetCount { metric: Metric::ActiveConnections, count: 1 },
        ]
    );
    assert_eq!(
        tracker.take_statistics(),
        IntervalStatistics { missing: 1, duplicate: 0, out_of_order: 0, window_shrink: 0 }
    );
}

#[test]
fn tracker_detects_a_gap_on_a_new_flow() {
    let mut tracker = LossTracker::new(DEFAULT_FLOW_TIMEOUT);
    tracker.detect_packet_loss_and_window_shrink(&flow(), &data(1000, 100), 10, 1);
    tracker.detect_packet_loss_and_window_shrink(&flow(), &data(1100, 100), 11, 2);
    let report = tracker.detect_packet_loss_and_window_shrink(&flow(), &data(1300, 100), 12, 3);
    assert_eq!(report.outcome.class, SegmentClass::Gap);
    assert_eq!(report.outcome.gap, 100);
    let state = tracker.connection_state(&flow()).unwrap();
    assert_eq!(state.lost_packets, 1);
    assert_eq!(state.total_packets, 3);
}

#[test]
fn tracker_detects_a_duplicate() {
    let mut tracker = tracking(2000);
    tracker.detect_packet_loss_and_window_shrink(&flow(), &data(2000, 50), 10, 1);
    tracker.detect_packet_loss_and_window_shrink(&flow(), &data(2050, 50), 11, 2);
    let report = tracker.detect_packet_loss_and_window_shrink(&flow(), &data(2050, 50), 12, 3);
    assert_eq!(report.outcome.class, SegmentClass::Duplicate);
    assert_eq!(
        report.event,
        Some(PacketLossEvent {
            timestamp: 12,
            connection: flow(),
            expected_seq: 2100,
            received_seq: 2050,
            gap_size: 0,
            loss_type: PacketLossType::DuplicateSequence,
        })
    );
    let state = tracker.connection_state(&flow()).unwrap();
    assert_eq!(state.duplicate_count, 1);
    assert_eq!(state.lost_packets, 0);
}

#[test]
fn tracker_counts_two_duplicates_on_a_new_flow() {
    let mut tracker = LossTracker::new(DEFAULT_FLOW_TIMEOUT);
    let first = tracker.detect_packet_loss_and_window_shrink(&flow(), &data(2000, 50), 10, 1);
    let second = tracker.detect_packet_loss_and_window_shrink(&flow(), &data(2050, 50), 11, 2);
    let third = tracker.detect_packet_loss_and_window_shrink(&flow(), &data(2050, 50), 12, 3);
    assert!(first.created);
    assert_eq!(first.outcome.class, SegmentClass::Duplicate);
    assert_eq!(first.event.unwrap().expected_seq, 2050);
    assert_eq!(second.outcome.class, SegmentClass::InOrder);
    assert_eq!(third.outcome.class, SegmentClass::Duplicate);
    assert_eq!(third.event.unwrap().expected_seq, 2100);
    let state = tracker.connection_state(&flow()).unwrap();
    assert_eq!(state.duplicate_count, 2);
    assert_eq!(state.lost_packets, 0);
    assert_eq!(state.total_packets, 3);
}

#[test]
fn tracker_detects_a_reorder_on_a_new_flow() {
    let mut tracker = LossTracker::new(DEFAULT_FLOW_TIMEOUT);
    tracker.detect_packet_loss_and_window_shrink(&flow(), &data(3000, 100), 10, 1);
    tracker.detect_packet_loss_and_window_shrink(&flow(), &data(3200, 100), 11, 2);
    let report = tracker.detect_packet_loss_and_window_shrink(&flow(), &data(3100, 100), 12, 3);
    assert_eq!(report.outcome.class, SegmentClass::OutOfOrder);
    assert_eq!(report.event.unwrap().gap_size, 200);
    assert_eq!(report.event.unwrap().expected_seq, 3300);
    let state = tracker.connection_state(&flow()).unwrap();
    assert_eq!(state.lost_packets, 1);
    assert_eq!(state.out_of_order_count, 1);
}

#[test]
fn tracker_follows_the_wrap() {
    let start = u32::MAX - 49;
    let mut tracker = tracking(start);
    let report = tracker.detect_packet_loss_and_window_shrink(&flow(), &data(start, 100), 1, 1);
    assert_eq!(report.outcome.class, SegmentClass::InOrder);
    assert_eq!(report.event, None);
    assert_eq!(tracker.connection_state(&flow()).unwrap().expected_seq, 50);
}

#[test]
fn the_first_segment_creates_the_flow_and_is_then_recorded() {
    let mut tracker = LossTracker::new(DEFAULT_FLOW_TIMEOUT);
    let syn = TcpSegment { sequence: 7000, acknowledgement: 0, window: 64240, payload_len: 0 };
    let report = tracker.detect_packet_loss_and_window_shrink(&flow(), &syn, 5, 9);
    assert!(report.created);
    assert_eq!(report.outcome.class, SegmentClass::Control);
    assert_eq!(report.event, None);
    assert_eq!(report.active_connections, 1);
    assert_eq!(
        tracker.connection_state(&flow()),
        Some(TcpConnectionState {
            expected_seq: 7001,
            last_seq: 7000,
            last_ack: 0,
            total_packets: 1,
            lost_packets: 0,
            duplicate_count: 0,
            out_of_order_count: 0,
            last_window_size: 64240,
            last_active: 9,
        })
    );
    let next = tracker.detect_packet_loss_and_window_shrink(&flow(), &data(7001, 10), 6, 10);
    assert!(!next.created);
    assert_eq!(next.outcome.class, SegmentClass::InOrder);
    assert_eq!(tracker.connection_state(&flow()).unwrap().total_packets, 2);
}

#[test]
fn a_first_segment_with_payload_meets_its_own_sequence_number_again() {
    // Creation already expects what follows the segment, so the segment
    // itself, recorded right after, starts before the expected sequence
    // number, at the last observed one.
    let mut tracker = LossTracker::new(DEFAULT_FLOW_TIMEOUT);
    let report = tracker.detect_packet_loss_and_window_shrink(&flow(), &data(2000, 50), 5, 9);
    assert!(report.created);
    assert_eq!(report.outcome.class, SegmentClass::Duplicate);
    let state = tracker.connection_state(&flow()).unwrap();
    assert_eq!(state.expected_seq, 2050);
    assert_eq!(state.total_packets, 1);
    assert_eq!(state.duplicate_count, 1);
    assert_eq!(state.lost_packets, 0);
}

#[test]
fn window_shrink_is_counted_and_published() {
    let mut tracker = tracking(100);
    let small = TcpSegment { sequence: 100, acknowledgement: 1, window: 500, payload_len: 10 };
    let report = tracker.detect_packet_loss_and_window_shrink(&flow(), &small, 1, 1);
    assert!(report.outcome.window_shrunk);
    assert_eq!(
        loss_publications(&report),
        vec![
            MetricUpdate::Increment { metric: Metric::WindowShrink },
            MetricUpdate::SetCount { metric: Metric::CurrentWindowSize, count: 500 },
            MetricUpdate::SetCount { metric: Metric::ActiveConnections, count: 1 },
        ]
    );
    assert_eq!(tracker.take_statistics().window_shrink, 1);
    assert_eq!(tracker.take_statistics().window_shrink, 0);
}

#[test]
fn flows_are_tracked_apart() {
    let mut tracker = LossTracker::new(DEFAULT_FLOW_TIMEOUT);
    let back = flow().reverse();
    tracker.track(&flow(), TcpConnectionState::new(99, 1, 0, 1000, 0));
    tracker.track(&back, TcpConnectionState::new(499, 1, 0, 1000, 0));
    tracker.detect_packet_loss_and_window_shrink(&flow(), &data(100, 10), 1, 1);
    let report = tracker.detect_packet_loss_and_window_shrink(&back, &data(600, 10), 1, 1);
    assert_eq!(report.active_connections, 2);
    assert_eq!(report.outcome.class, SegmentClass::Gap);
    assert_eq!(tracker.connection_state(&flow()).unwrap().lost_packets, 0);
    assert_eq!(tracker.connection_state(&back).unwrap().lost_packets, 1);
    assert_eq!(tracker.connection_state(&flow()).unwrap().expected_seq, 110);
}

#[test]
fn tcp_flow_needs_ipv4_tcp_and_ports() {
    let info = tcp_packet(&flow(), data(1, 1));
    assert_eq!(tcp_flow(&info), Some((flow(), data(1, 1))));
    assert_eq!(tcp_flow(&PacketInfo { tcp: None, ..info }), None);
    assert_eq!(tcp_flow(&PacketInfo { src_port: None, ..info }), None);
    assert_eq!(tcp_flow(&PacketInfo { dst_port: None, ..info }), None);
    assert_eq!(tcp_flow(&PacketInfo { src_ip: None, ..info }), None);
    assert_eq!(tcp_flow(&PacketInfo { dst_ip: Some(IpAddress::V6(1)), ..info }), None);
}

#[test]
fn process_packet_counts_frames_tcp_and_global_tcp() {
    let mut tracker = LossTracker::new(DEFAULT_FLOW_TIMEOUT);
    let nets = networks();
    // A frame that did not decode.
    let report = tracker.process_packet(None, &nets, 1);
    assert_eq!(report, PacketReport { tcp: false, global: false, loss: None });
    assert_eq!(packet_publications(&report), vec![MetricUpdate::Increment { metric: Metric::TotalPackets }]);
    // A frame without TCP.
    let udp = PacketInfo { tcp: None, src_port: None, dst_port: None, ..tcp_packet(&flow(), data(1, 1)) };
    assert_eq!(tracker.process_packet(Some(&udp), &nets, 2).tcp, false);
    // TCP between two global addresses.
    let global = tracker.process_packet(Some(&tcp_packet(&flow(), data(1000, 0))), &nets, 3);
    assert!(global.tcp && global.global);
    assert_eq!(
        packet_publications(&global),
        vec![
            MetricUpdate::Increment { metric: Metric::TotalPackets },
            MetricUpdate::Increment { metric: Metric::TcpPackets },
            MetricUpdate::Increment { metric: Metric::GlobalTcpPackets },
            MetricUpdate::SetCount { metric: Metric::CurrentWindowSize, count: 1000 },
            MetricUpdate::SetCount { metric: Metric::ActiveConnections, count: 1 },
        ]
    );
    // TCP with a local end.
    let local = TcpConnection { src_ip: 0x0A00_0005, ..flow() };
    let mixed = tracker.process_packet(Some(&tcp_packet(&local, data(1, 0))), &nets, 4);
    assert!(mixed.tcp && !mixed.global);
    assert_eq!(mixed.loss.unwrap().active_connections, 2);
    assert_eq!(tracker.total_packets(), 4);
    assert_eq!(tracker.tcp_packets(), 2);
    assert_eq!(tracker.global_tcp_packets(), 1);
    assert_eq!(tracker.active_connections(), 2);
    assert_eq!(tracker.connection_state(&flow()).unwrap().last_active, 3);
}

#[test]
fn process_packet_stamps_events_with_the_capture_time() {
    let mut tracker = tracking(100);
    let info = tcp_packet(&flow(), data(300, 10));
    let report = tracker.process_packet(Some(&info), &networks(), 3);
    let event = report.loss.unwrap().event.unwrap();
    assert_eq!(event.timestamp, 1_700_000_000_000);
    assert_eq!(event.gap_size, 200);
    assert_eq!(event.loss_type, PacketLossType::MissingSequence);
}

#[test]
fn statistics_count_events_until_taken() {
    let mut tracker = tracking(100);
    tracker.detect_packet_loss_and_window_shrink(&flow(), &data(100, 10), 1, 1);
    tracker.detect_packet_loss_and_window_shrink(&flow(), &data(200, 10), 1, 1);
    tracker.detect_packet_loss_and_window_shrink(&flow(), &data(200, 10), 1, 1);
    tracker.detect_packet_loss_and_window_shrink(&flow(), &data(150, 10), 1, 1);
    tracker.detect_packet_loss_and_window_shrink(&flow(), &data(400, 10), 1, 1);
    let taken = tracker.take_statistics();
    assert_eq!(taken, IntervalStatistics { missing: 2, duplicate: 1, out_of_order: 1, window_shrink: 0 });
    assert_eq!(taken.total_loss(), 4);
    assert_eq!(
        tracker.take_statistics(),
        IntervalStatistics { missing: 0, duplicate: 0, out_of_order: 0, window_shrink: 0 }
    );
    // The counts of the flow itself are not reset.
    assert_eq!(tracker.connection_state(&flow()).unwrap().lost_packets, 2);
}

#[test]
fn sweep_drops_stale_flows_and_adds_up_the_rest() {
    let mut tracker = LossTracker::new(60 * SECOND);
    let old = flow();
    let edge = TcpConnection { src_port: 1, ..flow() };
    let fresh = TcpConnection { src_port: 2, ..flow() };
    let mut state = TcpConnectionState::new(0, 1, 0, 1000, 10 * SECOND);
    state.total_packets = 1000;
    state.lost_packets = 30;
    tracker.track(&old, state);
    state.last_active = 40 * SECOND;
    state.total_packets = 500;
    state.lost_packets = 5;
    tracker.track(&edge, state);
    state.last_active = 99 * SECOND;
    state.total_packets = 300;
    state.lost_packets = 11;
    tracker.track(&fresh, state);
    let summary = tracker.update_packet_loss_metrics(100 * SECOND);
    assert_eq!(
        summary,
        LossSummary { total_packets: 800, lost_packets: 16, active_connections: 2, evicted: 1 }
    );
    assert_eq!(tracker.connection_state(&old), None);
    assert!(tracker.connection_state(&edge).is_some());
    assert!(tracker.connection_state(&fresh).is_some());
    assert_eq!(tracker.active_connections(), 2);
    assert_eq!(
        summary_publications(&summary),
        vec![MetricUpdate::SetPercentage { metric: Metric::PacketLossPercentage, part: 16, whole: 800 }]
    );
    let percent = summary.lost_packets as f64 / summary.total_packets as f64 * 100.0;
    assert!((percent - 2.0).abs() < 1e-12);
    // One nanosecond past the timeout the second flow goes too.
    let summary = tracker.update_packet_loss_metrics(100 * SECOND + 1);
    assert_eq!(
        summary,
        LossSummary { total_packets: 300, lost_packets: 11, active_connections: 1, evicted: 1 }
    );
}

#[test]
fn sweep_of_an_empty_tracker_reports_nothing() {
    let mut tracker = LossTracker::new(60 * SECOND);
    assert_eq!(
        tracker.update_packet_loss_metrics(1000 * SECOND),
        LossSummary { total_packets: 0, lost_packets: 0, active_connections: 0, evicted: 0 }
    );
}

#[test]
fn sweep_handles_many_flows() {
    let mut tracker = LossTracker::new(60 * SECOND);
    for i in 0..500u16 {
        let connection = TcpConnection { src_port: i, ..flow() };
        let mut state = TcpConnectionState::new(0, 1, 0, 1000, i as u64 * SECOND);
        state.total_packets = 10;
        state.lost_packets = 1;
        tracker.track(&connection, state);
    }
    let summary = tracker.update_packet_loss_metrics(499 * SECOND);
    // Flows last active at 439 s or later survive.
    assert_eq!(
        summary,
        LossSummary { total_packets: 610, lost_packets: 61, active_connections: 61, evicted: 439 }
    );
}
