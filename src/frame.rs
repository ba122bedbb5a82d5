use vstd::prelude::*;

verus! {

/// Where a frame stands in its strictly sequential pipeline:
/// camera update, uniform upload, compute dispatch, presentation, and back to idle.
#[derive(Clone, Copy, Debug, PartialEq, Eq, Structural)]
pub enum FramePhase {
    Idle,
    CameraUpdated,
    UniformUploaded,
    ComputeDispatched,
    Presented,
}

impl FramePhase {
    /// The phase that follows this one.
    pub open spec fn next(self) -> FramePhase {
        match self {
            FramePhase::Idle => FramePhase::CameraUpdated,
            FramePhase::CameraUpdated => FramePhase::UniformUploaded,
            FramePhase::UniformUploaded => FramePhase::ComputeDispatched,
            FramePhase::ComputeDispatched => FramePhase::Presented,
            FramePhase::Presented => FramePhase::Idle,
        }
    }

    /// Position of the phase within one frame.
    pub open spec fn index(self) -> nat {
        match self {
            FramePhase::Idle => 0,
            FramePhase::CameraUpdated => 1,
            FramePhase::UniformUploaded => 2,
            FramePhase::ComputeDispatched => 3,
            FramePhase::Presented => 4,
        }
    }

    /// The phase reached after `n` steps from this one.
    pub open spec fn after(self, n: nat) -> FramePhase
        decreases n,
    {
        if n == 0 {
            self
        } else {
            self.next().after((n - 1) as nat)
        }
    }

    pub fn advance(self) -> (p: FramePhase)
        ensures
            p == self.next(),
    {
        match self {
            FramePhase::Idle => FramePhase::CameraUpdated,
            FramePhase::CameraUpdated => FramePhase::UniformUploaded,
            FramePhase::UniformUploaded => FramePhase::ComputeDispatched,
            FramePhase::ComputeDispatched => FramePhase::Presented,
            FramePhase::Presented => FramePhase::Idle,
        }
    }
}

/// Every step but the last of a frame moves one phase further; the last returns
/// to idle, so a frame passes each phase once, in order, and five steps make one frame.
pub proof fn lemma_frame_cycle(p: FramePhase)
    ensures
        p != FramePhase::Presented ==> p.next().index() == p.index() + 1,
        p == FramePhase::Presented ==> p.next() == FramePhase::Idle,
        p.after(5) == p,
{
    reveal_with_fuel(FramePhase::after, 6);
}

/// Why the surface could not hand out a frame to draw into.
#[derive(Clone, Copy, Debug, PartialEq, Eq, Structural)]
pub enum FrameError {
    /// The surface was lost.
    Lost,
    /// The surface no longer matches the window.
    Outdated,
    /// The device ran out of memory.
    OutOfMemory,
    /// Acquiring the frame timed out.
    Timeout,
}

/// What the frame loop does about a failed frame.
#[derive(Clone, Copy, Debug, PartialEq, Eq, Structural)]
pub enum Recovery {
    /// Reconfigure the surface from its current size; the next frame retries.
    Reconfigure,
    /// End the session.
    Exit,
    /// Drop this frame with a warning; no retry.
    Skip,
}

pub open spec fn recovery_spec(e: FrameError) -> Recovery {
    match e {
        FrameError::Lost | FrameError::Outdated => Recovery::Reconfigure,
        FrameError::OutOfMemory => Recovery::Exit,
        FrameError::Timeout => Recovery::Skip,
    }
}

/// Lost and outdated surfaces are reconfigured, memory exhaustion ends the
/// session, a timeout skips the frame.
pub fn recovery(e: FrameError) -> (r: Recovery)
    ensures
        r == recovery_spec(e),
{
    match e {
        FrameError::Lost | FrameError::Outdated => Recovery::Reconfigure,
        FrameError::OutOfMemory => Recovery::Exit,
        FrameError::Timeout => Recovery::Skip,
    }
}

} // verus!
