//! The per-frame failure taxonomy and recovery policy.
//!
//! Acquiring the next presentable image can fail in five ways; the
//! session classifies each failure and reacts: a stale surface is
//! reconfigured at the last known size and the frame skipped, a busy
//! backend just skips the frame, and an exhausted device stops the
//! render loop for good.

use vstd::prelude::*;

verus! {

/// Why acquiring the next image failed, mirroring the presentation
/// layer's surface errors.
#[derive(Clone, Copy, Debug, PartialEq, Eq, Structural)]
pub enum AcquireError {
    Lost,
    Outdated,
    OutOfMemory,
    Timeout,
    Other,
}

/// The classified kind of an acquisition failure.
#[derive(Clone, Copy, Debug, PartialEq, Eq, Structural)]
pub enum ErrorKind {
    SurfaceStale,
    SurfaceTimeout,
    DeviceExhausted,
}

/// What the caller must do with this frame.
#[derive(Clone, Copy, Debug, PartialEq, Eq, Structural)]
pub enum FrameAction {
    Presented,
    Reconfigure,
    SkipFrame,
    Halt,
}

/// The classification: a lost or outdated surface is stale and
/// recoverable, a timeout is transient, and anything else is a fatal
/// device condition.
pub open spec fn spec_classify(e: AcquireError) -> ErrorKind {
    match e {
        AcquireError::Lost | AcquireError::Outdated => ErrorKind::SurfaceStale,
        AcquireError::Timeout => ErrorKind::SurfaceTimeout,
        AcquireError::OutOfMemory | AcquireError::Other => ErrorKind::DeviceExhausted,
    }
}

/// The recovery policy for one frame's outcome: present on success,
/// reconfigure-and-skip on a stale surface, skip on a timeout, halt
/// on an exhausted device.
pub open spec fn spec_frame_action(r: Result<(), AcquireError>) -> FrameAction {
    match r {
        Result::Ok(_) => FrameAction::Presented,
        Result::Err(e) => match spec_classify(e) {
            ErrorKind::SurfaceStale => FrameAction::Reconfigure,
            ErrorKind::SurfaceTimeout => FrameAction::SkipFrame,
            ErrorKind::DeviceExhausted => FrameAction::Halt,
        },
    }
}

/// Classifies one acquisition failure.
pub fn classify(e: &AcquireError) -> (r: ErrorKind)
    ensures
        r == spec_classify(*e),
{
    match e {
        AcquireError::Lost | AcquireError::Outdated => ErrorKind::SurfaceStale,
        AcquireError::Timeout => ErrorKind::SurfaceTimeout,
        AcquireError::OutOfMemory | AcquireError::Other => ErrorKind::DeviceExhausted,
    }
}

} // verus!
