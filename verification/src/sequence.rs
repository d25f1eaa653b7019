//! Arithmetic on 32-bit TCP sequence numbers, which live on a circle of 2^32 points.

use vstd::prelude::*;

verus! {

/// Number of points on the sequence circle.
pub const SEQUENCE_SPACE: u64 = 0x1_0000_0000;

/// Half of the sequence circle: the reach of "later than".
pub const HALF_SEQUENCE_SPACE: u32 = 0x8000_0000;

/// The sequence number `count` steps after `seq`.
pub open spec fn seq_add(seq: u32, count: u32) -> u32 {
    ((seq + count) % (SEQUENCE_SPACE as int)) as u32
}

/// Steps forward from `from` to `to` round the circle, in `[0, 2^32)`.
pub open spec fn seq_distance(from: u32, to: u32) -> u32 {
    ((to - from) % (SEQUENCE_SPACE as int)) as u32
}

/// `a` is later than `b`: `a` is reached from `b` in at least one and fewer
/// than 2^31 steps forward.
pub open spec fn seq_later(a: u32, b: u32) -> bool {
    1 <= seq_distance(b, a) < HALF_SEQUENCE_SPACE
}

/// `a` is earlier than `b`: it is neither `b` itself nor later than `b`. Of two
/// different numbers exactly one is the earlier; numbers that lie opposite
/// each other on the circle count as earlier than each other.
pub open spec fn seq_earlier(a: u32, b: u32) -> bool {
    a != b && !seq_later(a, b)
}

/// The later of two acknowledgement numbers; `current` where `candidate` is
/// not later than it.
pub open spec fn seq_max(current: u32, candidate: u32) -> u32 {
    if seq_later(candidate, current) {
        candidate
    } else {
        current
    }
}

/// Computes [`seq_add`].
pub fn advance(seq: u32, count: u32) -> (r: u32)
    ensures
        r == seq_add(seq, count),
{
    seq.wrapping_add(count)
}

/// Computes [`seq_distance`].
pub fn distance(from: u32, to: u32) -> (r: u32)
    ensures
        r == seq_distance(from, to),
{
    to.wrapping_sub(from)
}

/// Decides [`seq_later`].
pub fn is_later(a: u32, b: u32) -> (r: bool)
    ensures
        r == seq_later(a, b),
{
    let d: u32 = distance(b, a);
    1 <= d && d < HALF_SEQUENCE_SPACE
}

/// Decides [`seq_earlier`].
pub fn is_earlier(a: u32, b: u32) -> (r: bool)
    ensures
        r == seq_earlier(a, b),
{
    a != b && !is_later(a, b)
}

/// Computes [`seq_max`].
pub fn later_of(current: u32, candidate: u32) -> (r: u32)
    ensures
        r == seq_max(current, candidate),
{
    if is_later(candidate, current) {
        candidate
    } else {
        current
    }
}

/// Any two sequence numbers are the same, or the first is later, or the first
/// is earlier, and only one of the three.
pub proof fn sequence_order_is_exclusive(a: u32, b: u32)
    ensures
        (a == b) || seq_later(a, b) || seq_earlier(a, b),
        !(a == b && seq_later(a, b)),
        !(a == b && seq_earlier(a, b)),
        !(seq_later(a, b) && seq_earlier(a, b)),
{
}

/// Advancing by `count` and measuring the distance back gives `count` again.
pub proof fn distance_after_advance(seq: u32, count: u32)
    ensures
        seq_distance(seq, seq_add(seq, count)) == count,
{
    let s = seq as int + count as int;
    if s < SEQUENCE_SPACE {
    } else {
    }
}

/// Advancing in two steps is advancing by their sum on the circle.
pub proof fn advance_twice(seq: u32, first: u32, second: u32)
    ensures
        seq_add(seq_add(seq, first), second) as int == (seq + first + second) % (SEQUENCE_SPACE as int),
{
    let s = seq as int + first as int;
    if s < SEQUENCE_SPACE {
    } else {
    }
}

} // verus!
