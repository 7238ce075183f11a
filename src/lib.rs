//! Playback engine of a local media previewer: decoder bookkeeping, the audio
//! sample ring, the pacing clock and the per-session playback loop, with their
//! contracts proved by Verus.
//!
//! Time is counted in ticks of the output sample rate (48 kHz): media
//! timestamps, the wall clock handed in by the caller, and sleeps alike.
pub mod types;
pub mod ring;
pub mod audio;
pub mod clock;
pub mod decoder;
pub mod session;
pub mod frame;
