//! Verified core of a desktop-duplication capture engine.
//!
//! The library models the logic of a full-desktop frame grabber: display
//! geometry and buffer sizing, frame metadata classification, the
//! acquire/release and map/unmap pairing protocol of the duplication
//! session, and the two capturer variants (a borrowing one and a
//! self-allocating one with double-buffered pointer-shape change
//! detection).  The operating-system side of the work — querying the
//! compositor, GPU copies, surface mapping — happens outside the library
//! and is handed in as plain values, so every decision the engine makes is
//! verified here.

pub mod capturer;
pub mod duplicate_context;
pub mod utils;

use vstd::prelude::*;

verus! {

/// Every way a capture operation can fail, each kind distinguishable by the
/// caller.
///
/// `FrameTimeout` is recoverable (retry the loop iteration); `SessionLost`
/// requires tearing the whole session down and rebuilding it outside this
/// core; `UndersizedBuffer` asks the caller to reallocate; the two
/// platform kinds propagate resource failures of the session's collaborators.
#[derive(Clone, Copy, Debug, PartialEq, Eq, Structural)]
pub enum CaptureError {
    /// Reading the display's descriptor or geometry failed.
    PlatformQuery,
    /// Allocating the GPU staging texture failed.
    ResourceAllocation,
    /// No new frame arrived within the configured acquisition timeout.
    FrameTimeout,
    /// The duplication interface was invalidated (mode change, lock, ...).
    SessionLost,
    /// The destination buffer is smaller than the current geometry requires.
    UndersizedBuffer,
}

} // verus!
