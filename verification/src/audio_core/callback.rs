//! Timing information handed to real-time callbacks.
use vstd::prelude::*;

verus! {

/// Timing info passed to callbacks.
#[derive(Debug, Clone, Copy, PartialEq, Eq, Structural)]
pub struct CallbackInfo {
    /// Monotonic time in nanoseconds at callback start.
    pub callback_time_ns: u64,
    /// Number of frames requested in this callback.
    pub frames: u32,
}

} // verus!
