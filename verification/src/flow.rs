//! The state of one directed TCP flow, and how one segment changes it.

use crate::packet::TcpSegment;
use crate::sequence::{
    advance, distance, distance_after_advance, is_later, later_of, seq_add, seq_distance,
    seq_later, seq_max, HALF_SEQUENCE_SPACE, SEQUENCE_SPACE,
};
use vstd::prelude::*;

verus! {

/// A forward jump in sequence numbers counts as loss only below this many
/// bytes; a larger jump means that the capture missed a burst, and the flow
/// is resynchronised in silence.
pub const MAX_LOSS_GAP: u32 = 1_000_000;

/// Kind of a loss event.
#[derive(Clone, Copy, Debug, PartialEq, Eq)]
pub enum PacketLossType {
    /// Sequence numbers were skipped.
    MissingSequence,
    /// The last observed segment came again.
    DuplicateSequence,
    /// A segment from before the expected sequence number, other than the
    /// last observed one.
    OutOfOrder,
}

/// How a segment stands to the flow it arrives on.
#[derive(Clone, Copy, Debug, PartialEq, Eq)]
pub enum SegmentClass {
    /// No payload: the segment takes no part in sequence analysis.
    Control,
    /// Starts at the expected sequence number.
    InOrder,
    /// Starts later than expected, by fewer than [`MAX_LOSS_GAP`] bytes.
    Gap,
    /// Starts later than expected, by [`MAX_LOSS_GAP`] bytes or more.
    Resync,
    /// Starts earlier than expected, at the last observed sequence number.
    Duplicate,
    /// Starts earlier than expected, elsewhere.
    OutOfOrder,
}

/// What the handling of one segment found.
#[derive(Clone, Copy, Debug, PartialEq, Eq)]
pub struct SegmentOutcome {
    pub class: SegmentClass,
    /// Bytes between the expected and the received sequence number: forward
    /// for `Gap` and `Resync`, backward for `OutOfOrder`, zero otherwise.
    pub gap: u32,
    /// The advertised window fell by more than three tenths.
    pub window_shrunk: bool,
    /// The advertised window of this segment.
    pub window: u16,
}

/// Tracking state of one directed flow.
#[derive(Clone, Copy, Debug, PartialEq, Eq)]
pub struct TcpConnectionState {
    /// Sequence number at which the next in-order segment starts.
    pub expected_seq: u32,
    /// Sequence number of the segment that last moved `expected_seq`.
    pub last_seq: u32,
    /// Latest acknowledgement number seen on a data segment.
    pub last_ack: u32,
    /// Segments seen, with or without payload.
    pub total_packets: u64,
    /// Gap events.
    pub lost_packets: u64,
    /// Duplicate events.
    pub duplicate_count: u64,
    /// Reorder events.
    pub out_of_order_count: u64,
    /// Window of the latest segment.
    pub last_window_size: u16,
    /// Monotonic time of the latest segment, in nanoseconds.
    pub last_active: u64,
}

/// One more, stopping at the top of the range.
pub open spec fn bump(count: u64) -> u64 {
    if count < u64::MAX {
        (count + 1) as u64
    } else {
        count
    }
}

/// Payload length that creation counts with: a segment without payload still
/// takes one sequence number.
pub open spec fn creation_len(payload_len: u32) -> u32 {
    if payload_len > 1 {
        payload_len
    } else {
        1
    }
}

/// A window of `window` after one of `last` is a shrink worth reporting:
/// `(last - window) / last > 3/10` over the rationals.
pub open spec fn window_shrinks(last: u16, window: u16) -> bool {
    last > 0 && window < last && 10 * (last - window) > 3 * last
}

/// Class of a segment that starts at `seq` with `payload_len` bytes, on a flow
/// that expects `expected` and last observed `last`.
pub open spec fn classify(expected: u32, last: u32, seq: u32, payload_len: u32) -> SegmentClass {
    if payload_len == 0 {
        SegmentClass::Control
    } else if seq == expected {
        SegmentClass::InOrder
    } else if seq_later(seq, expected) {
        if seq_distance(expected, seq) < MAX_LOSS_GAP {
            SegmentClass::Gap
        } else {
            SegmentClass::Resync
        }
    } else if seq == last {
        SegmentClass::Duplicate
    } else {
        SegmentClass::OutOfOrder
    }
}

impl SegmentClass {
    /// The classes that move the flow forward to the end of the segment.
    pub open spec fn advances(self) -> bool {
        self is InOrder || self is Gap || self is Resync
    }

    /// The loss event that the class stands for, if any.
    pub open spec fn loss_type(self) -> Option<PacketLossType> {
        match self {
            SegmentClass::Gap => Some(PacketLossType::MissingSequence),
            SegmentClass::Duplicate => Some(PacketLossType::DuplicateSequence),
            SegmentClass::OutOfOrder => Some(PacketLossType::OutOfOrder),
            _ => None,
        }
    }

    /// Computes [`SegmentClass::loss_type`].
    pub fn to_loss_type(self) -> (r: Option<PacketLossType>)
        ensures
            r == self.loss_type(),
    {
        match self {
            SegmentClass::Gap => Some(PacketLossType::MissingSequence),
            SegmentClass::Duplicate => Some(PacketLossType::DuplicateSequence),
            SegmentClass::OutOfOrder => Some(PacketLossType::OutOfOrder),
            _ => None,
        }
    }
}

impl TcpConnectionState {
    /// The state that the first segment of a flow creates.
    pub open spec fn created(segment: TcpSegment, now: u64) -> TcpConnectionState {
        TcpConnectionState {
            expected_seq: seq_add(segment.sequence, creation_len(segment.payload_len)),
            last_seq: segment.sequence,
            last_ack: segment.acknowledgement,
            total_packets: 0,
            lost_packets: 0,
            duplicate_count: 0,
            out_of_order_count: 0,
            last_window_size: segment.window,
            last_active: now,
        }
    }

    /// Class of `segment` on this flow.
    pub open spec fn class_of(self, segment: TcpSegment) -> SegmentClass {
        classify(self.expected_seq, self.last_seq, segment.sequence, segment.payload_len)
    }

    /// What handling `segment` on this flow finds.
    pub open spec fn outcome_of(self, segment: TcpSegment) -> SegmentOutcome {
        let class = self.class_of(segment);
        SegmentOutcome {
            class,
            gap: match class {
                SegmentClass::Gap | SegmentClass::Resync => seq_distance(
                    self.expected_seq,
                    segment.sequence,
                ),
                SegmentClass::OutOfOrder => seq_distance(segment.sequence, self.expected_seq),
                _ => 0,
            },
            window_shrunk: window_shrinks(self.last_window_size, segment.window),
            window: segment.window,
        }
    }

    /// The flow after `segment`, seen at `now`.
    pub open spec fn after(self, segment: TcpSegment, now: u64) -> TcpConnectionState {
        let class = self.class_of(segment);
        TcpConnectionState {
            expected_seq: if class.advances() {
                seq_add(segment.sequence, segment.payload_len)
            } else {
                self.expected_seq
            },
            last_seq: if class.advances() {
                segment.sequence
            } else {
                self.last_seq
            },
            last_ack: if class is Control {
                self.last_ack
            } else {
                seq_max(self.last_ack, segment.acknowledgement)
            },
            total_packets: bump(self.total_packets),
            lost_packets: if class is Gap {
                bump(self.lost_packets)
            } else {
                self.lost_packets
            },
            duplicate_count: if class is Duplicate {
                bump(self.duplicate_count)
            } else {
                self.duplicate_count
            },
            out_of_order_count: if class is OutOfOrder {
                bump(self.out_of_order_count)
            } else {
                self.out_of_order_count
            },
            last_window_size: segment.window,
            last_active: now,
        }
    }

    /// Creates the state of a flow from its first segment: the flow expects
    /// what follows the segment, or the next sequence number where the
    /// segment has no payload, and has counted nothing yet.
    pub fn new(seq_num: u32, payload_len: u32, ack_num: u32, window_size: u16, now: u64) -> (state:
        TcpConnectionState)
        ensures
            state == TcpConnectionState::created(
                (TcpSegment {
                    sequence: seq_num,
                    acknowledgement: ack_num,
                    window: window_size,
                    payload_len,
                }),
                now,
            ),
    {
        let len: u32 = if payload_len > 1 {
            payload_len
        } else {
            1
        };
        TcpConnectionState {
            expected_seq: advance(seq_num, len),
            last_seq: seq_num,
            last_ack: ack_num,
            total_packets: 0,
            lost_packets: 0,
            duplicate_count: 0,
            out_of_order_count: 0,
            last_window_size: window_size,
            last_active: now,
        }
    }

    /// Handles one segment of this flow: counts it, notes time and window,
    /// and, where it carries payload, classifies it against the expected
    /// sequence number and takes its acknowledgement number.
    pub fn record_segment(&mut self, segment: &TcpSegment, now: u64) -> (outcome: SegmentOutcome)
        ensures
            *final(self) == old(self).after(*segment, now),
            outcome == old(self).outcome_of(*segment),
    {
        let seq: u32 = segment.sequence;
        let len: u32 = segment.payload_len;
        self.total_packets = self.total_packets.saturating_add(1);
        self.last_active = now;
        let last_window: u16 = self.last_window_size;
        let window_shrunk: bool = last_window > 0 && segment.window < last_window && 10 * ((
        last_window - segment.window) as u32) > 3 * (last_window as u32);
        self.last_window_size = segment.window;
        let mut class = SegmentClass::Control;
        let mut gap: u32 = 0;
        if len > 0 {
            if seq == self.expected_seq {
                class = SegmentClass::InOrder;
                self.last_seq = seq;
                self.expected_seq = advance(seq, len);
            } else if is_later(seq, self.expected_seq) {
                gap = distance(self.expected_seq, seq);
                if gap < MAX_LOSS_GAP {
                    class = SegmentClass::Gap;
                    self.lost_packets = self.lost_packets.saturating_add(1);
                } else {
                    class = SegmentClass::Resync;
                }
                self.last_seq = seq;
                self.expected_seq = advance(seq, len);
            } else if seq == self.last_seq {
                class = SegmentClass::Duplicate;
                self.duplicate_count = self.duplicate_count.saturating_add(1);
            } else {
                class = SegmentClass::OutOfOrder;
                gap = distance(seq, self.expected_seq);
                self.out_of_order_count = self.out_of_order_count.saturating_add(1);
            }
            self.last_ack = later_of(self.last_ack, segment.acknowledgement);
        }
        SegmentOutcome { class, gap, window_shrunk, window: segment.window }
    }
}

/// `count` raised by `steps`, stopping at the top of the range.
pub open spec fn bump_by(count: u64, steps: nat) -> u64 {
    if count + steps > u64::MAX {
        u64::MAX
    } else {
        (count + steps) as u64
    }
}

/// Payload bytes of a run of segments, added up.
pub open spec fn total_payload(segments: Seq<(TcpSegment, u64)>) -> nat
    decreases segments.len(),
{
    if segments.len() == 0 {
        0
    } else {
        total_payload(segments.drop_last()) + segments.last().0.payload_len as nat
    }
}

/// The segments carry payload and follow each other without a hole, the first
/// one starting at `start`: each starts where the bytes before it end, on the
/// sequence circle.
pub open spec fn in_order_run(start: u32, segments: Seq<(TcpSegment, u64)>) -> bool {
    forall|i: int|
        0 <= i < segments.len() ==> (#[trigger] segments[i]).0.payload_len > 0
            && segments[i].0.sequence as int == (start + total_payload(segments.take(i))) % (
        SEQUENCE_SPACE as int)
}

impl TcpConnectionState {
    /// The flow after a run of segments, each with the time it was seen at.
    pub open spec fn after_all(self, segments: Seq<(TcpSegment, u64)>) -> TcpConnectionState
        decreases segments.len(),
    {
        if segments.len() == 0 {
            self
        } else {
            self.after_all(segments.drop_last()).after(segments.last().0, segments.last().1)
        }
    }
}

/// A data segment that arrives in order leaves the flow expecting the byte
/// behind it, with the segment's own sequence number as the last observed.
pub proof fn in_order_segment_moves_expectation(
    state: TcpConnectionState,
    segment: TcpSegment,
    now: u64,
)
    requires
        segment.payload_len > 0,
        state.class_of(segment) is InOrder,
    ensures
        state.after(segment, now).expected_seq == seq_add(segment.sequence, segment.payload_len),
        state.after(segment, now).last_seq == segment.sequence,
{
}

/// A flow that receives data segments in order, the first at the sequence
/// number it expects, ends up expecting that number plus all their payload
/// (modulo 2^32); it has counted every segment and no loss, duplicate or
/// reorder event.
pub proof fn in_order_run_counts_no_loss(state: TcpConnectionState, segments: Seq<(TcpSegment, u64)>)
    requires
        in_order_run(state.expected_seq, segments),
    ensures
        state.after_all(segments).expected_seq as int == (state.expected_seq + total_payload(
            segments,
        )) % (SEQUENCE_SPACE as int),
        state.after_all(segments).total_packets == bump_by(state.total_packets, segments.len()),
        state.after_all(segments).lost_packets == state.lost_packets,
        state.after_all(segments).duplicate_count == state.duplicate_count,
        state.after_all(segments).out_of_order_count == state.out_of_order_count,
    decreases segments.len(),
{
    if segments.len() > 0 {
        let front = segments.drop_last();
        let (segment, now) = segments.last();
        assert forall|i: int| 0 <= i < front.len() implies (#[trigger] front[i]).0.payload_len > 0
            && front[i].0.sequence as int == (state.expected_seq + total_payload(front.take(i)))
            % (SEQUENCE_SPACE as int) by {
            assert(front.take(i) =~= segments.take(i));
        }
        in_order_run_counts_no_loss(state, front);
        let before = state.after_all(front);
        let moved = before.expected_seq as int + segment.payload_len as int;
        let grown = state.expected_seq as int + total_payload(front) as int;
        assert((grown % (SEQUENCE_SPACE as int) + segment.payload_len as int) % (
        SEQUENCE_SPACE as int) == (grown + segment.payload_len as int) % (SEQUENCE_SPACE as int))
            by (nonlinear_arith)
            requires
                SEQUENCE_SPACE as int == 0x1_0000_0000,
        ;
    }
}

/// A data segment that starts `gap` bytes behind the expected sequence
/// number, for a `gap` below [`MAX_LOSS_GAP`], is one loss event of that gap,
/// and the flow goes on behind the segment.
pub proof fn single_gap_is_one_loss(
    state: TcpConnectionState,
    segment: TcpSegment,
    now: u64,
    gap: u32,
)
    requires
        0 < gap < MAX_LOSS_GAP,
        segment.payload_len > 0,
        segment.sequence == seq_add(state.expected_seq, gap),
    ensures
        state.outcome_of(segment).class is Gap,
        state.outcome_of(segment).gap == gap,
        state.outcome_of(segment).class.loss_type() == Some(PacketLossType::MissingSequence),
        state.after(segment, now).lost_packets == bump(state.lost_packets),
        state.after(segment, now).duplicate_count == state.duplicate_count,
        state.after(segment, now).out_of_order_count == state.out_of_order_count,
        state.after(segment, now).expected_seq == seq_add(segment.sequence, segment.payload_len),
{
    distance_after_advance(state.expected_seq, gap);
}

/// Of two segments in a row with the same sequence number and the same
/// payload, where the first one moved the flow forward, the second is a
/// duplicate: the pair raises the duplicate count by one. The payload is at
/// most half the sequence space, so that the start of a segment is earlier
/// than its end.
pub proof fn repeated_segment_is_one_duplicate(
    state: TcpConnectionState,
    segment: TcpSegment,
    first_at: u64,
    second_at: u64,
)
    requires
        0 < segment.payload_len <= HALF_SEQUENCE_SPACE,
        state.class_of(segment).advances(),
    ensures
        state.after(segment, first_at).class_of(segment) is Duplicate,
        state.after(segment, first_at).duplicate_count == state.duplicate_count,
        state.after(segment, first_at).after(segment, second_at).duplicate_count == bump(
            state.duplicate_count,
        ),
        state.after(segment, first_at).after(segment, second_at).lost_packets == state.after(
            segment,
            first_at,
        ).lost_packets,
{
    distance_after_advance(segment.sequence, segment.payload_len);
}

} // verus!
