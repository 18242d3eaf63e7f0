use vstd::prelude::*;

verus! {

/// When a session decides, on its own, to terminate.
///
/// Under `Manual` termination is driven solely by an external stop request;
/// under `AutoAfterDuration(n)` the session finalizes and requests stop on
/// the first frame observed at an elapsed time of at least `n` seconds.
#[derive(Clone, Copy, PartialEq, Eq, Structural, Debug)]
pub enum TerminationPolicy {
    Manual,
    AutoAfterDuration(u64),
}

impl TerminationPolicy {
    /// Whether a frame observed at `elapsed` seconds since session start
    /// triggers auto-termination.
    pub open spec fn due_at(self, elapsed: u64) -> bool {
        match self {
            TerminationPolicy::Manual => false,
            TerminationPolicy::AutoAfterDuration(n) => elapsed >= n,
        }
    }

    /// Executable form of `due_at`.
    pub fn is_due_at(&self, elapsed: u64) -> (due: bool)
        ensures
            due == self.due_at(elapsed),
    {
        match self {
            TerminationPolicy::Manual => false,
            TerminationPolicy::AutoAfterDuration(n) => elapsed >= *n,
        }
    }
}

/// One pass-through capture toggle, forwarded to the frame source unchanged.
#[derive(Clone, Copy, PartialEq, Eq, Structural, Debug)]
pub enum CaptureToggle {
    /// Leave the platform default in place.
    PlatformDefault,
    Enabled,
    Disabled,
}

/// The capture-target configuration handed to the frame source at start.
///
/// The session accepts these settings but does not interpret them; they are
/// forwarded to the platform capture layer unchanged.
#[derive(Clone, Copy, PartialEq, Eq, Structural, Debug)]
pub struct CaptureConfig {
    pub cursor_capture: CaptureToggle,
    pub draw_border: CaptureToggle,
    pub secondary_windows: CaptureToggle,
    pub minimum_update_interval: CaptureToggle,
    pub dirty_region: CaptureToggle,
}

impl Default for CaptureConfig {
    /// Every toggle left at the platform default.
    fn default() -> (c: CaptureConfig)
        ensures
            c == CaptureConfig::platform_default(),
    {
        CaptureConfig {
            cursor_capture: CaptureToggle::PlatformDefault,
            draw_border: CaptureToggle::PlatformDefault,
            secondary_windows: CaptureToggle::PlatformDefault,
            minimum_update_interval: CaptureToggle::PlatformDefault,
            dirty_region: CaptureToggle::PlatformDefault,
        }
    }
}

impl CaptureConfig {
    /// The configuration with every toggle at the platform default.
    pub open spec fn platform_default() -> CaptureConfig {
        CaptureConfig {
            cursor_capture: CaptureToggle::PlatformDefault,
            draw_border: CaptureToggle::PlatformDefault,
            secondary_windows: CaptureToggle::PlatformDefault,
            minimum_update_interval: CaptureToggle::PlatformDefault,
            dirty_region: CaptureToggle::PlatformDefault,
        }
    }
}

} // verus!
