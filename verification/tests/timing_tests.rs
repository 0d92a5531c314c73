use frame_recorder::timing::{
    get_elapsed_time, get_time_step, RECORDING_FPS, RECORDING_STEP_TICKS, TICKS_PER_SECOND,
};

#[test]
fn tick_constants_are_exact() {
    assert_eq!(TICKS_PER_SECOND, 30000);
    assert_eq!(RECORDING_FPS, 30);
    assert_eq!(RECORDING_STEP_TICKS, 1000);
    assert_eq!(RECORDING_STEP_TICKS * RECORDING_FPS, TICKS_PER_SECOND);
}

#[test]
fn time_step_passes_real_delta_through_when_idle() {
    assert_eq!(get_time_step(false, 0), 0);
    assert_eq!(get_time_step(false, 777), 777);
    assert_eq!(get_time_step(false, u64::MAX), u64::MAX);
}

#[test]
fn time_step_is_fixed_while_recording() {
    assert_eq!(get_time_step(true, 0), RECORDING_STEP_TICKS);
    assert_eq!(get_time_step(true, 777), RECORDING_STEP_TICKS);
    assert_eq!(get_time_step(true, u64::MAX), RECORDING_STEP_TICKS);
}

#[test]
fn elapsed_time_passes_real_elapsed_through_when_idle() {
    assert_eq!(get_elapsed_time(false, 90, 5), 5);
    assert_eq!(get_elapsed_time(false, 0, 123456), 123456);
}

#[test]
fn elapsed_time_counts_frames_while_recording() {
    assert_eq!(get_elapsed_time(true, 0, 99), 0);
    assert_eq!(get_elapsed_time(true, 1, 99), 1000);
    assert_eq!(get_elapsed_time(true, 90, 5), 90000);
    // Three seconds of recorded footage: 90 frames at 30 FPS.
    assert_eq!(get_elapsed_time(true, 90, 5) / TICKS_PER_SECOND, 3);
}

#[test]
fn elapsed_time_has_no_overflow_at_the_largest_count() {
    assert_eq!(get_elapsed_time(true, u32::MAX, 0), u32::MAX as u64 * 1000);
}
