//! The events the dispatcher distinguishes, and the errors a frame
//! acquisition can signal.

use vstd::prelude::*;

verus! {

/// A window-scoped event, reduced to what the dispatch table distinguishes.
/// Everything else (moves, focus changes, other keys) is `Other`.
#[derive(Clone, Copy, PartialEq, Eq, Structural, Debug)]
pub enum EventKind {
    /// The user asked to close the window.
    CloseRequested,
    /// The escape key was pressed.
    EscapePressed,
    /// The window was resized to the given physical width and height.
    Resized(u32, u32),
    /// The platform asked for the window contents to be drawn.
    RedrawRequested,
    /// Any event the dispatcher ignores.
    Other,
}

/// Why acquiring the next presentable texture failed.
#[derive(Clone, Copy, PartialEq, Eq, Structural, Debug)]
pub enum SurfaceError {
    /// The surface was lost and must be reconfigured.
    Lost,
    /// The surface no longer matches the window and must be reconfigured.
    Outdated,
    /// The backend ran out of memory; fatal.
    OutOfMemory,
    /// Acquisition timed out; the frame is skipped.
    Timeout,
}

} // verus!
