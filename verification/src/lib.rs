//! Deterministic frame-capture core for an engine-driven recorder.
//!
//! Three cooperating pieces: a time-source selector that switches animation
//! time between the wall clock and a fixed 30 FPS step while recording
//! (`timing`), a capture sequencer that names and counts the frames of one
//! recording session (`recorder`), and a bounded window of frame-rate samples
//! behind an FPS readout (`fps`). All durations are integer ticks of
//! 1/30000 second, so the recording step, the degenerate-frame guard and the
//! display refresh interval are exact.

pub mod digits;
pub mod fps;
pub mod recorder;
pub mod timing;
