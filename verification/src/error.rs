//! Error taxonomy of the rendering session.
//!
//! Session construction can fail for good (no usable GPU); per-frame
//! surface errors are classified by how the caller must react: rebuild
//! the surface and retry, silently skip the frame, or tear the whole
//! session down.

use vstd::prelude::*;

verus! {

/// A fatal failure while establishing the session or building the
/// pipeline. All of these abort construction; none is recoverable.
#[derive(Debug, PartialEq, Eq)]
pub enum SessionError {
    /// No physical GPU satisfies the presentable surface.
    NoCompatibleAdapter,
    /// The adapter refused to open a logical device; carries the
    /// backend's own diagnostic text.
    DeviceCreationFailed(String),
    /// The fixed shader pair did not compile on the device.
    ShaderCompileFailed,
}

/// A failure reported by the presentable surface when acquiring the
/// next frame target.
#[derive(Clone, Copy, Debug, PartialEq, Eq, Structural)]
pub enum SurfaceError {
    /// The surface no longer matches its swap chain and must be
    /// configured again before the next acquisition.
    Lost,
    /// The surface changed (for instance during a resize) between
    /// configuration and acquisition; the frame is stale.
    Outdated,
    /// The backend did not deliver a frame target in time.
    Timeout,
    /// The device ran out of memory; the session cannot continue.
    OutOfMemory,
}

/// How the caller must react to a [`SurfaceError`].
#[derive(Clone, Copy, Debug, PartialEq, Eq, Structural)]
pub enum Recovery {
    /// Configure the surface again with the current configuration,
    /// then retry on the next redraw.
    RetryAfterReconfigure,
    /// Skip this frame silently and wait for the next redraw.
    SkipFrame,
    /// Tear the session down; no further frame may be attempted.
    Fatal,
}

/// The classification the render loop acts on: a lost surface is
/// rebuilt, an outdated or timed-out acquisition skips one frame, and
/// out-of-memory ends the session.
pub open spec fn recovery_of(e: SurfaceError) -> Recovery {
    match e {
        SurfaceError::Lost => Recovery::RetryAfterReconfigure,
        SurfaceError::Outdated => Recovery::SkipFrame,
        SurfaceError::Timeout => Recovery::SkipFrame,
        SurfaceError::OutOfMemory => Recovery::Fatal,
    }
}

impl SurfaceError {
    /// Classify this error by the reaction it demands.
    pub fn recovery(&self) -> (r: Recovery)
        ensures
            r == recovery_of(*self),
    {
        match self {
            SurfaceError::Lost => Recovery::RetryAfterReconfigure,
            SurfaceError::Outdated => Recovery::SkipFrame,
            SurfaceError::Timeout => Recovery::SkipFrame,
            SurfaceError::OutOfMemory => Recovery::Fatal,
        }
    }

    /// True exactly when the session can outlive this error.
    pub fn is_recoverable(&self) -> (r: bool)
        ensures
            r == (recovery_of(*self) != Recovery::Fatal),
    {
        match self {
            SurfaceError::OutOfMemory => false,
            _ => true,
        }
    }
}

} // verus!
