use frame_recorder::recorder::{session_dir_name, RecordingState};

#[test]
fn new_sequencer_is_idle_and_empty() {
    let st = RecordingState::new();
    assert!(!st.is_recording);
    assert_eq!(st.frame_count, 0);
    assert_eq!(st.session_dir, "");
}

#[test]
fn session_dir_is_named_after_the_timestamp() {
    assert_eq!(session_dir_name(0), "out/rec_0");
    assert_eq!(session_dir_name(5), "out/rec_5");
    assert_eq!(session_dir_name(1700000000), "out/rec_1700000000");
    assert_eq!(
        session_dir_name(u64::MAX),
        "out/rec_18446744073709551615"
    );
}

#[test]
fn successful_start_engages_a_fresh_session() {
    let mut st = RecordingState::new();
    st.frame_count = 42;
    st.start(session_dir_name(7), true);
    assert!(st.is_recording);
    assert_eq!(st.frame_count, 0);
    assert_eq!(st.session_dir, "out/rec_7");
}

#[test]
fn second_start_without_stop_is_a_no_op() {
    let mut st = RecordingState::new();
    st.start(session_dir_name(7), true);
    st.on_frame(true);
    st.on_frame(true);
    st.start(session_dir_name(8), true);
    assert!(st.is_recording);
    assert_eq!(st.frame_count, 2);
    assert_eq!(st.session_dir, "out/rec_7");
}

#[test]
fn failed_directory_creation_aborts_the_start() {
    let mut st = RecordingState::new();
    st.frame_count = 7;
    st.start(session_dir_name(9), false);
    assert!(!st.is_recording);
    assert_eq!(st.frame_count, 7);
    assert_eq!(st.session_dir, "");
}

#[test]
fn no_captures_after_a_failed_start() {
    let mut st = RecordingState::new();
    st.start(session_dir_name(9), false);
    for _ in 0..5 {
        assert_eq!(st.on_frame(true), None);
    }
    assert!(!st.is_recording);
    assert_eq!(st.frame_count, 0);
}

#[test]
fn every_available_frame_is_captured_in_order() {
    let mut st = RecordingState::new();
    st.start(session_dir_name(5), true);
    let mut paths = Vec::new();
    for _ in 0..3 {
        paths.push(st.on_frame(true).expect("capture request owed"));
    }
    assert_eq!(st.frame_count, 3);
    assert_eq!(
        paths,
        vec![
            "out/rec_5/frame_00000.png",
            "out/rec_5/frame_00001.png",
            "out/rec_5/frame_00002.png",
        ]
    );
}

#[test]
fn missing_surface_skips_without_a_gap() {
    let mut st = RecordingState::new();
    st.start(session_dir_name(5), true);
    let mut paths = Vec::new();
    for frame in 0..3 {
        let surface_available = frame != 1;
        if let Some(p) = st.on_frame(surface_available) {
            paths.push(p);
        }
    }
    assert_eq!(st.frame_count, 2);
    assert_eq!(
        paths,
        vec!["out/rec_5/frame_00000.png", "out/rec_5/frame_00001.png"]
    );
}

#[test]
fn frames_are_not_captured_while_idle() {
    let mut st = RecordingState::new();
    assert_eq!(st.on_frame(true), None);
    assert_eq!(st.frame_count, 0);
}

#[test]
fn stop_reports_the_count_and_keeps_the_session_data() {
    let mut st = RecordingState::new();
    st.start(session_dir_name(5), true);
    st.on_frame(true);
    st.on_frame(true);
    let frames = st.stop();
    assert_eq!(frames, 2);
    assert!(!st.is_recording);
    assert_eq!(st.frame_count, 2);
    assert_eq!(st.session_dir, "out/rec_5");
    assert_eq!(st.on_frame(true), None);
}

#[test]
fn stop_then_start_begins_a_new_numbering() {
    let mut st = RecordingState::new();
    st.start(session_dir_name(5), true);
    st.on_frame(true);
    st.stop();
    st.start(session_dir_name(6), true);
    let p = st.on_frame(true).expect("capture request owed");
    assert_eq!(p, "out/rec_6/frame_00000.png");
    assert_eq!(st.frame_count, 1);
}

#[test]
fn frame_numbers_beyond_five_digits_keep_all_digits() {
    let mut st = RecordingState::new();
    st.start(session_dir_name(5), true);
    st.frame_count = 99999;
    let p = st.on_frame(true).expect("capture request owed");
    assert_eq!(p, "out/rec_5/frame_99999.png");
    let q = st.on_frame(true).expect("capture request owed");
    assert_eq!(q, "out/rec_5/frame_100000.png");
    assert_eq!(st.frame_count, 100001);
}
