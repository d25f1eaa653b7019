//! The decisions of the capture loop. The loop itself, with its blocking
//! reads, runs outside this library; after every read it asks here what to
//! do next.

use vstd::prelude::*;

verus! {

/// Read timeout of the capture source, in milliseconds: how long a read may
/// block before the loop looks at the shutdown flag again.
pub const READ_TIMEOUT_MS: u64 = 100;

/// What the capture loop last saw.
#[derive(Clone, Copy, Debug, PartialEq, Eq)]
pub enum CaptureEvent {
    /// Nothing is pending: the last frame, if any, has been handled.
    Idle,
    /// The source delivered a frame.
    Frame,
    /// The read timed out.
    Timeout,
    /// The source failed for good.
    Failed,
}

/// What the capture loop does next.
#[derive(Clone, Copy, Debug, PartialEq, Eq)]
pub enum CaptureStep {
    /// Read from the source.
    Read,
    /// Decode the frame and hand it to the accumulator and the tracker.
    Process,
    /// Go round again: a timeout is no error.
    Retry,
    /// Leave the loop in good order: shutdown was asked for.
    Stop,
    /// Leave the loop with the error of the source. The exporter goes on
    /// serving what was published last.
    Fail,
}

/// The next step of the capture loop. The shutdown flag is looked at once a
/// round, before the read; what a read delivered is always dealt with.
pub open spec fn step_of(shutdown_requested: bool, event: CaptureEvent) -> CaptureStep {
    match event {
        CaptureEvent::Idle => if shutdown_requested {
            CaptureStep::Stop
        } else {
            CaptureStep::Read
        },
        CaptureEvent::Frame => CaptureStep::Process,
        CaptureEvent::Timeout => CaptureStep::Retry,
        CaptureEvent::Failed => CaptureStep::Fail,
    }
}

/// Computes [`step_of`].
pub fn capture_step(shutdown_requested: bool, event: CaptureEvent) -> (step: CaptureStep)
    ensures
        step == step_of(shutdown_requested, event),
{
    match event {
        CaptureEvent::Idle => if shutdown_requested {
            CaptureStep::Stop
        } else {
            CaptureStep::Read
        },
        CaptureEvent::Frame => CaptureStep::Process,
        CaptureEvent::Timeout => CaptureStep::Retry,
        CaptureEvent::Failed => CaptureStep::Fail,
    }
}

} // verus!
