//! Plain data shared by the engine's components.
use vstd::prelude::*;

verus! {

/// Ticks per second of the engine clock: one tick is one output sample frame.
pub const SAMPLE_RATE: u64 = 48000;

/// Interleaved channels of the output sample stream.
pub const OUTPUT_CHANNELS: usize = 2;

/// Target decode resolution relative to the native one.
#[derive(Clone, Copy, Debug, PartialEq, Eq, Structural)]
pub enum QualityMode {
    /// Full resolution.
    Native,
    /// Half resolution.
    Fast,
    /// Quarter resolution.
    Proxy,
}

/// Pacing strategy of the playback loop.
#[derive(Clone, Copy, Debug, PartialEq, Eq, Structural)]
pub enum SyncMode {
    /// Units are released against a wall-clock reference.
    Realtime,
    /// A constant sleep after each unit.
    Fixed,
}

/// Status carried by a playback update.
#[derive(Clone, Copy, Debug, PartialEq, Eq, Structural)]
pub enum PlaybackStatus {
    Playing,
    Paused,
    Buffering,
    Finished,
    Error,
}

/// How the presentation surface fits the video into its viewport.
#[derive(Clone, Copy, Debug, PartialEq, Eq, Structural)]
pub enum AspectMode {
    /// Letterbox or pillarbox by the video's own ratio.
    Fit,
    /// Fill the container.
    Stretch,
    /// 21:9.
    Cinema,
    /// 4:3.
    Classic,
    /// 16:9.
    Wide,
}

/// An outbound playback update; times are in engine ticks.
#[derive(Clone, Copy, Debug, PartialEq, Eq, Structural)]
pub struct PlaybackPayload {
    pub current_time: u64,
    pub duration: u64,
    pub status: PlaybackStatus,
}

} // verus!
