use vstd::prelude::*;

verus! {

/// The error taxonomy of the capture pipeline.
///
/// Errors during session creation or frame encoding are fatal to that
/// session; errors during finalize or close are surfaced to the caller of
/// `stop` but never tear down the control surface.
#[derive(Clone, Copy, PartialEq, Eq, Structural, Debug)]
pub enum CaptureError {
    /// The container encoder could not be opened; no frames are ever
    /// delivered to such a session.
    EncoderInitError,
    /// The encoder rejected a frame (already finalized, or a codec failure
    /// reported by the underlying encoder). Fatal to the session.
    EncodeError,
    /// Sealing the container failed while the session was being finalized.
    FinalizeError,
    /// A session ended with an output that was never sealed successfully;
    /// the file it leaves behind is not playable.
    IncompleteOutputError,
    /// No capture target (primary display) was available at start.
    NoCaptureTargetError,
    /// `start` was called while a session was already active.
    SessionAlreadyActive,
    /// `stop` (or a frame or close event) arrived with no active session.
    NoActiveSession,
}

} // verus!
