//! Frame pacing: the decision of when a frame's pause is over. The host
//! reads the clock and asks.
use vstd::prelude::*;

verus! {

/// Paces the host loop at one frame per `target_fps` microseconds.
pub struct SysTimer {
    target_fps: u64,
}

impl SysTimer {
    /// A timer whose frames last `target_fps` microseconds.
    pub fn new(target_fps: u64) -> (r: SysTimer)
        ensures
            r.target() == target_fps,
    {
        SysTimer { target_fps }
    }

    /// The frame length in microseconds.
    pub closed spec fn target(&self) -> u64 {
        self.target_fps
    }

    /// One poll of the pause: given the sub-second part of the time since
    /// the pause began, in nanoseconds, tells whether the whole microseconds
    /// in it have reached the frame length, so that the pause is over.
    pub fn pause_until_target_reached(&self, elapsed_subsec_nanos: u32) -> (done: bool)
        ensures
            done == (elapsed_subsec_nanos / 1000 >= self.target()),
    {
        let micro_secs_elapsed: u64 = elapsed_subsec_nanos as u64 / 1_000;
        micro_secs_elapsed >= self.target_fps
    }
}

} // verus!
