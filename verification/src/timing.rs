//! Time-source selection: wall-clock time while idle, a fixed 30 FPS step
//! while recording, so that an exported frame sequence replays with the same
//! motion whatever the real rendering speed was.

use vstd::prelude::*;

verus! {

/// Durations are measured in ticks of 1/30000 second. With this unit the
/// 30 FPS recording step (1/30 s), the 1 ms degenerate-frame guard and the
/// half-second FPS-display refresh interval are all whole numbers of ticks.
pub const TICKS_PER_SECOND: u64 = 30000;

/// Frames per second of the deterministic recording clock.
pub const RECORDING_FPS: u64 = 30;

/// One recording frame: exactly 1/30 second.
pub const RECORDING_STEP_TICKS: u64 = TICKS_PER_SECOND / RECORDING_FPS;

/// Per-frame delta time handed to the animation drivers: the measured
/// wall-clock delta while idle, the fixed step while recording.
pub fn get_time_step(is_recording: bool, real_delta: u64) -> (r: u64)
    ensures
        is_recording ==> r == RECORDING_STEP_TICKS,
        !is_recording ==> r == real_delta,
{
    if is_recording {
        RECORDING_STEP_TICKS
    } else {
        real_delta
    }
}

/// Elapsed time handed to the animation drivers: the measured wall-clock
/// elapsed time while idle; while recording, exactly the number of captured
/// frames times the fixed step, so the animation phase of frame `n` depends
/// on `n` alone.
pub fn get_elapsed_time(is_recording: bool, frame_count: u32, real_elapsed: u64) -> (r: u64)
    ensures
        is_recording ==> r == frame_count * RECORDING_STEP_TICKS,
        !is_recording ==> r == real_elapsed,
{
    if is_recording {
        (frame_count as u64) * RECORDING_STEP_TICKS
    } else {
        real_elapsed
    }
}

} // verus!
