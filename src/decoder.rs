//! Decoder bookkeeping for one open file: which streams are decoded, the
//! scaler's target size, the conversion of timestamps, the accumulator of
//! output samples and the running sample clock. Demuxing and codec work are
//! done by the media library outside; their results are handed in here.
use vstd::prelude::*;
use crate::types::QualityMode;
use crate::audio::{convert_frame, frame_samples, SampleFormat};
use crate::clock::{micros_to_ticks, pts_to_ticks, spec_micros_ticks, spec_pts_ticks};
use crate::ring::{push_result, SampleRing};

verus! {

pub open spec fn spec_divisor(q: QualityMode) -> u32 {
    match q {
        QualityMode::Native => 1,
        QualityMode::Fast => 2,
        QualityMode::Proxy => 4,
    }
}

/// Scale divisor of a quality mode.
pub fn divisor(q: QualityMode) -> (r: u32)
    ensures
        r == spec_divisor(q),
{
    match q {
        QualityMode::Native => 1,
        QualityMode::Fast => 2,
        QualityMode::Proxy => 4,
    }
}

pub open spec fn spec_target_size(q: QualityMode, width: u32, height: u32) -> (u32, u32) {
    ((width / spec_divisor(q)) as u32, (height / spec_divisor(q)) as u32)
}

/// Decode resolution for a native size under a quality mode.
pub fn target_size(q: QualityMode, width: u32, height: u32) -> (r: (u32, u32))
    ensures
        r == spec_target_size(q, width, height),
{
    let d = divisor(q);
    (width / d, height / d)
}

/// The decode resolution is the native one divided, rounding down, by 1, 2
/// or 4 for native, fast and proxy quality.
pub proof fn lemma_quality_size(q: QualityMode, width: u32, height: u32)
    ensures
        q == QualityMode::Native ==> spec_target_size(q, width, height) == (width, height),
        q == QualityMode::Fast ==> spec_target_size(q, width, height) == ((width / 2) as u32, (height / 2) as u32),
        q == QualityMode::Proxy ==> spec_target_size(q, width, height) == ((width / 4) as u32, (height / 4) as u32),
{
    assert(width / 1 == width && height / 1 == height) by (nonlinear_arith);
}

/// Sample clock after one decoded audio frame that made `advance` output frames.
pub open spec fn clock_step(clock: u64, advance: nat) -> u64 {
    vstd::math::min(clock + advance, u64::MAX as int) as u64
}

/// Output frames that a decoded audio frame adds to the sample clock (none
/// when it is skipped).
pub open spec fn clock_advance(
    format: SampleFormat,
    channels: u16,
    rate: u32,
    frames: nat,
    plane0: Seq<u32>,
    plane1: Seq<u32>,
) -> nat {
    match frame_samples(format, channels, rate, frames, plane0, plane1) {
        Some(out) => out.len() / 2,
        None => 0,
    }
}

/// Sample clock after a seek to `target` and decoded frames adding `advances`, in order.
pub open spec fn clock_after(target: u64, advances: Seq<nat>) -> u64
    decreases advances.len(),
{
    if advances.len() == 0 {
        target
    } else {
        clock_step(clock_after(target, advances.drop_last()), advances.last())
    }
}

/// After a seek to `target`, every audio unit is stamped at or after the
/// target, and the stamps never decrease until the next seek.
pub proof fn lemma_seek_clock_monotonic(target: u64, advances: Seq<nat>, i: int, j: int)
    requires
        0 <= i <= j <= advances.len(),
    ensures
        target <= clock_after(target, advances.take(i)),
        clock_after(target, advances.take(i)) <= clock_after(target, advances.take(j)),
    decreases j,
{
    if j > 0 {
        assert(advances.take(j).drop_last() =~= advances.take(j - 1));
        if i < j {
            lemma_seek_clock_monotonic(target, advances, i, j - 1);
        } else {
            lemma_seek_clock_monotonic(target, advances, i - 1, j - 1);
        }
    } else {
        assert(advances.take(0) =~= Seq::<nat>::empty());
    }
}

/// The best video stream of a container, as the media library reports it.
#[derive(Clone, Copy, Debug, PartialEq, Eq, Structural)]
pub struct VideoStreamInfo {
    pub index: usize,
    pub width: u32,
    pub height: u32,
    pub time_base_num: i32,
    pub time_base_den: i32,
}

/// What the media library reports of an opened container.
#[derive(Clone, Copy, Debug, PartialEq, Eq, Structural)]
pub struct MediaInfo {
    pub video: Option<VideoStreamInfo>,
    pub audio_index: Option<usize>,
    pub duration_us: i64,
}

/// One unit handed to the playback loop.
pub enum DecodeResult {
    /// A scaled frame: 4 bytes per pixel, rows `stride` bytes apart.
    Video { data: Vec<u8>, width: u32, height: u32, stride: u32, pts: u64 },
    /// Samples were appended to the accumulator; `pts` is the sample clock.
    Audio { pts: u64 },
}

/// Where a demuxed packet goes.
#[derive(Clone, Copy, Debug, PartialEq, Eq, Structural)]
pub enum PacketRoute {
    Video,
    Audio,
    Skip,
}

pub struct Decoder {
    video_stream_index: Option<usize>,
    audio_stream_index: Option<usize>,
    native_size: (u32, u32),
    target: (u32, u32),
    time_base: (i32, i32),
    duration: u64,
    audio_buffer: Vec<u32>,
    audio_pts_counter: u64,
}

impl Decoder {
    pub closed spec fn spec_video_index(&self) -> Option<usize> {
        self.video_stream_index
    }

    /// Interleaved stereo output samples not yet handed to the audio bridge.
    pub closed spec fn spec_pending(&self) -> Seq<u32> {
        self.audio_buffer@
    }

    pub closed spec fn spec_audio_index(&self) -> Option<usize> {
        self.audio_stream_index
    }

    /// The running sample clock, in ticks.
    pub closed spec fn spec_clock(&self) -> u64 {
        self.audio_pts_counter
    }

    pub closed spec fn spec_duration(&self) -> u64 {
        self.duration
    }

    pub closed spec fn spec_native_size(&self) -> (u32, u32) {
        self.native_size
    }

    pub closed spec fn spec_target(&self) -> (u32, u32) {
        self.target
    }

    pub closed spec fn spec_time_base(&self) -> (i32, i32) {
        self.time_base
    }

    /// Sets up decoding of what `info` describes at quality `quality`: the
    /// scaler targets the native size divided by the quality's divisor.
    pub fn new(info: &MediaInfo, quality: QualityMode) -> (r: Decoder)
        ensures
            r.spec_video_index() == (match info.video { Some(v) => Some(v.index), None => None::<usize> }),
            r.spec_audio_index() == info.audio_index,
            r.spec_native_size() == (match info.video { Some(v) => (v.width, v.height), None => (0u32, 0u32) }),
            r.spec_target() == (match info.video {
                Some(v) => spec_target_size(quality, v.width, v.height),
                None => (0u32, 0u32),
            }),
            r.spec_time_base() == (match info.video {
                Some(v) => (v.time_base_num, v.time_base_den),
                None => (0i32, 1i32),
            }),
            r.spec_duration() == spec_micros_ticks(info.duration_us),
            r.spec_pending() == Seq::<u32>::empty(),
            r.spec_clock() == 0,
    {
        let (video_stream_index, native_size, target, time_base) = match info.video {
            Some(v) => (Some(v.index), (v.width, v.height), target_size(quality, v.width, v.height), (v.time_base_num, v.time_base_den)),
            None => (None, (0u32, 0u32), (0u32, 0u32), (0i32, 1i32)),
        };
        Decoder {
            video_stream_index,
            audio_stream_index: info.audio_index,
            native_size,
            target,
            time_base,
            duration: micros_to_ticks(info.duration_us),
            audio_buffer: Vec::new(),
            audio_pts_counter: 0,
        }
    }

    /// Duration in ticks and native width and height (zero without video).
    pub fn get_metadata(&self) -> (r: (u64, u32, u32))
        ensures
            r == (self.spec_duration(), self.spec_native_size().0, self.spec_native_size().1),
    {
        (self.duration, self.native_size.0, self.native_size.1)
    }

    /// Size the scaler produces.
    pub fn target_size(&self) -> (r: (u32, u32))
        ensures
            r == self.spec_target(),
    {
        self.target
    }

    pub fn has_video(&self) -> (r: bool)
        ensures
            r == self.spec_video_index().is_some(),
    {
        self.video_stream_index.is_some()
    }

    /// Routes a packet of stream `stream`: the selected video stream, the
    /// selected audio stream, or skipped.
    pub fn route(&self, stream: usize) -> (r: PacketRoute)
        ensures
            r == (if self.spec_video_index() == Some(stream) {
                PacketRoute::Video
            } else if self.spec_audio_index() == Some(stream) {
                PacketRoute::Audio
            } else {
                PacketRoute::Skip
            }),
    {
        if self.video_stream_index == Some(stream) {
            PacketRoute::Video
        } else if self.audio_stream_index == Some(stream) {
            PacketRoute::Audio
        } else {
            PacketRoute::Skip
        }
    }

    /// Makes a video unit of a scaled frame, stamped from the packet's `pts`
    /// in the video time base; a stride that is not positive is a miss.
    pub fn video_unit(&self, data: Vec<u8>, width: u32, height: u32, stride: i32, pts: i64) -> (r: Option<DecodeResult>)
        ensures
            stride <= 0 ==> r.is_none(),
            stride > 0 ==> r == Some(DecodeResult::Video {
                data,
                width,
                height,
                stride: stride as u32,
                pts: spec_pts_ticks(pts, self.spec_time_base().0, self.spec_time_base().1),
            }),
    {
        if stride <= 0 {
            return None;
        }
        let t = pts_to_ticks(pts, self.time_base.0, self.time_base.1);
        Some(DecodeResult::Video { data, width, height, stride: stride as u32, pts: t })
    }

    /// Converts one decoded audio frame into the accumulator and advances the
    /// sample clock by the output frames made (saturating). A frame that
    /// cannot be converted is skipped, leaving everything as it was; the
    /// result says whether the frame was taken.
    pub fn push_audio_frame(
        &mut self,
        format: SampleFormat,
        channels: u16,
        rate: u32,
        frames: usize,
        plane0: &[u32],
        plane1: &[u32],
    ) -> (taken: bool)
        ensures
            final(self).spec_video_index() == old(self).spec_video_index(),
            final(self).spec_audio_index() == old(self).spec_audio_index(),
            final(self).spec_duration() == old(self).spec_duration(),
            final(self).spec_native_size() == old(self).spec_native_size(),
            final(self).spec_target() == old(self).spec_target(),
            final(self).spec_time_base() == old(self).spec_time_base(),
            final(self).spec_clock() == clock_step(
                old(self).spec_clock(),
                clock_advance(format, channels, rate, frames as nat, plane0@, plane1@),
            ),
            match frame_samples(format, channels, rate, frames as nat, plane0@, plane1@) {
                Some(out) => {
                    &&& taken
                    &&& final(self).spec_pending() == old(self).spec_pending() + out
                    &&& final(self).spec_clock() == vstd::math::min(
                        old(self).spec_clock() + out.len() / 2,
                        u64::MAX as int,
                    )
                    &&& out.len() == 2 * (out.len() / 2)
                },
                None => {
                    &&& !taken
                    &&& final(self).spec_pending() == old(self).spec_pending()
                    &&& final(self).spec_clock() == old(self).spec_clock()
                },
            },
    {
        match convert_frame(&mut self.audio_buffer, format, channels, rate, frames, plane0, plane1) {
            Some(n) => {
                self.audio_pts_counter = self.audio_pts_counter.saturating_add(n);
                true
            },
            None => false,
        }
    }

    /// The audio unit for what was decoded so far, stamped with the sample clock.
    pub fn audio_unit(&self) -> (r: DecodeResult)
        ensures
            r == (DecodeResult::Audio { pts: self.spec_clock() }),
    {
        DecodeResult::Audio { pts: self.audio_pts_counter }
    }

    /// The result of an audio packet from which `frames_received` frames were
    /// decoded (converted or skipped): an audio unit when there was any, else
    /// none, and the next packet is read.
    pub fn finish_audio_packet(&self, frames_received: u64) -> (r: Option<DecodeResult>)
        ensures
            frames_received == 0 ==> r.is_none(),
            frames_received > 0 ==> r == Some(DecodeResult::Audio { pts: self.spec_clock() }),
    {
        if frames_received > 0 {
            Some(self.audio_unit())
        } else {
            None
        }
    }

    /// State reset after the container was repositioned to `target` ticks and
    /// the codecs flushed: pending samples are dropped and the sample clock
    /// restarts at the target.
    pub fn seek(&mut self, target: u64)
        ensures
            final(self).spec_pending() == Seq::<u32>::empty(),
            final(self).spec_clock() == target,
            final(self).spec_video_index() == old(self).spec_video_index(),
            final(self).spec_audio_index() == old(self).spec_audio_index(),
            final(self).spec_duration() == old(self).spec_duration(),
            final(self).spec_native_size() == old(self).spec_native_size(),
            final(self).spec_target() == old(self).spec_target(),
            final(self).spec_time_base() == old(self).spec_time_base(),
    {
        self.audio_buffer.clear();
        self.audio_pts_counter = target;
    }

    /// Moves as many pending samples as fit into `ring`, oldest first, and
    /// keeps the rest for the next call; returns how many moved.
    pub fn drain_into(&mut self, ring: &mut SampleRing) -> (n: usize)
        requires
            old(ring).wf(),
        ensures
            final(ring).wf(),
            n == vstd::math::min(
                old(self).spec_pending().len() as int,
                old(ring).spec_capacity() - old(ring)@.len(),
            ),
            final(ring)@ == push_result(old(ring)@, old(ring).spec_capacity(), old(self).spec_pending()),
            final(ring).spec_capacity() == old(ring).spec_capacity(),
            final(ring).spec_underruns() == old(ring).spec_underruns(),
            final(self).spec_pending() == old(self).spec_pending().skip(n as int),
            final(self).spec_clock() == old(self).spec_clock(),
            final(self).spec_video_index() == old(self).spec_video_index(),
            final(self).spec_audio_index() == old(self).spec_audio_index(),
            final(self).spec_duration() == old(self).spec_duration(),
            final(self).spec_native_size() == old(self).spec_native_size(),
            final(self).spec_target() == old(self).spec_target(),
            final(self).spec_time_base() == old(self).spec_time_base(),
    {
        let n = ring.push(self.audio_buffer.as_slice());
        let rest = self.audio_buffer.split_off(n);
        self.audio_buffer = rest;
        n
    }
}

} // verus!
