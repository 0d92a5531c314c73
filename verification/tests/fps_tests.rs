use frame_recorder::fps::{
    FpsWindow, FPS_WINDOW_CAPACITY, MIN_SAMPLE_DELTA_TICKS, REFRESH_INTERVAL_TICKS,
};

#[test]
fn fps_constants_are_exact() {
    assert_eq!(FPS_WINDOW_CAPACITY, 60);
    // One millisecond and half a second, in ticks of 1/30000 s.
    assert_eq!(MIN_SAMPLE_DELTA_TICKS, 30);
    assert_eq!(REFRESH_INTERVAL_TICKS, 15000);
}

#[test]
fn degenerate_frames_are_ignored() {
    let mut w = FpsWindow::new();
    assert_eq!(w.update(0, 20000), None);
    assert_eq!(w.update(29, 20000), None);
    assert_eq!(w.sample_count(), 0);
    // A frame of exactly one millisecond is not degenerate: the guard is
    // strict, so 30 ticks are pushed as a rate of 1000.
    assert_eq!(w.update(30, 20000), Some(1000));
    assert_eq!(w.sample_count(), 1);
}

#[test]
fn sixty_one_samples_leave_sixty_with_the_oldest_evicted() {
    let mut w = FpsWindow::new();
    // One slow outlier frame: a whole second, rate 1.
    assert_eq!(w.update(30000, 1), None);
    // Sixty fast frames at rate 60 fill the window past its capacity.
    for _ in 0..59 {
        assert_eq!(w.update(500, 2), None);
    }
    assert_eq!(w.sample_count(), 60);
    let shown = w.update(500, 20000);
    assert_eq!(w.sample_count(), 60);
    // The mean is exactly 60: the outlier was evicted from the front. Had
    // it survived, the average would have been 59 after rounding.
    assert_eq!(shown, Some(60));
}

#[test]
fn display_refreshes_at_most_once_per_half_second() {
    let mut w = FpsWindow::new();
    assert_eq!(w.update(500, 16000), Some(60));
    // Well inside the half-second hold-off: samples accrue, no refresh.
    assert_eq!(w.update(500, 16400), None);
    assert_eq!(w.update(500, 31000), None);
    // One tick past the hold-off refreshes again.
    assert_eq!(w.update(500, 31001), Some(60));
}

#[test]
fn displayed_average_rounds_to_the_nearest_integer() {
    let mut w = FpsWindow::new();
    // Rates 60 and 61: the mean 60.5 rounds up.
    assert_eq!(w.update(500, 1), None);
    assert_eq!(w.update(491, 20000), Some(61));
}
