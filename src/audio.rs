//! Manual conversion of decoded audio to the output stream: interleaved
//! stereo at the engine rate, by nearest-index rate conversion. Samples are
//! carried as 32-bit float bit patterns; 16-bit input is widened to that form
//! element by element before it reaches these functions.
use vstd::prelude::*;
use crate::types::SAMPLE_RATE;

verus! {

/// Element type of a decoded audio frame.
#[derive(Clone, Copy, Debug, PartialEq, Eq, Structural)]
pub enum SampleKind {
    I16,
    F32,
    Other,
}

/// Sample format of a decoded audio frame: element type and whether each
/// channel has its own plane.
#[derive(Clone, Copy, Debug, PartialEq, Eq, Structural)]
pub struct SampleFormat {
    pub kind: SampleKind,
    pub planar: bool,
}

/// How a decoded audio frame is turned into output samples.
#[derive(Clone, Copy, Debug, PartialEq, Eq, Structural)]
pub enum ConversionPath {
    /// One float plane per channel.
    PlanarF32,
    /// 16-bit samples, channels interleaved in one plane.
    PackedI16,
    /// Not convertible: the frame is skipped.
    Unsupported,
}

pub open spec fn spec_conversion_path(format: SampleFormat, channels: u16, rate: u32) -> ConversionPath {
    if rate == 0 || channels == 0 || channels > 2 {
        ConversionPath::Unsupported
    } else if format.kind == SampleKind::F32 && format.planar {
        ConversionPath::PlanarF32
    } else if format.kind == SampleKind::I16 && !format.planar {
        ConversionPath::PackedI16
    } else {
        ConversionPath::Unsupported
    }
}

/// Picks the conversion for a frame's parameters: planar float or packed
/// 16-bit, mono or stereo, at a nonzero rate; anything else is unsupported.
pub fn conversion_path(format: SampleFormat, channels: u16, rate: u32) -> (r: ConversionPath)
    ensures
        r == spec_conversion_path(format, channels, rate),
{
    if rate == 0 || channels == 0 || channels > 2 {
        ConversionPath::Unsupported
    } else if format.kind == SampleKind::F32 && format.planar {
        ConversionPath::PlanarF32
    } else if format.kind == SampleKind::I16 && !format.planar {
        ConversionPath::PackedI16
    } else {
        ConversionPath::Unsupported
    }
}

/// Output frames made from `input` frames at `rate`.
pub open spec fn output_frames(input: nat, rate: nat) -> nat
    recommends
        rate > 0,
{
    if rate == SAMPLE_RATE as nat {
        input
    } else {
        (input * (SAMPLE_RATE as nat) / rate) as nat
    }
}

/// Input frame that output frame `i` is taken from.
pub open spec fn source_index(i: nat, rate: nat) -> nat {
    if rate == SAMPLE_RATE as nat {
        i
    } else {
        (i * rate / (SAMPLE_RATE as nat)) as nat
    }
}

/// Interleaved stereo made from channel reads `left` and `right` at `rate`.
pub open spec fn interleave<T>(left: Seq<T>, right: Seq<T>, rate: nat) -> Seq<T> {
    Seq::new(
        2 * output_frames(left.len(), rate),
        |k: int|
            if k % 2 == 0 {
                left[source_index((k / 2) as nat, rate) as int]
            } else {
                right[source_index((k / 2) as nat, rate) as int]
            },
    )
}

/// The channel at `offset` of packed data with `channels` channels.
pub open spec fn packed_channel<T>(data: Seq<T>, channels: nat, offset: nat) -> Seq<T> {
    Seq::new(data.len() / channels, |i: int| data[i * channels + offset])
}

proof fn lemma_source_in_range(i: nat, input: nat, rate: nat)
    requires
        rate > 0,
        i < output_frames(input, rate),
    ensures
        source_index(i, rate) < input,
{
    if rate != SAMPLE_RATE as nat {
        let r = rate as int;
        let n = input as int;
        let k = i as int;
        assert(k < n * 48000 / r);
        assert(k * r < n * 48000) by (nonlinear_arith)
            requires
                k < n * 48000 / r,
                r > 0,
                k >= 0,
                n >= 0,
        ;
        assert(k * r / 48000 < n) by (nonlinear_arith)
            requires
                k * r < n * 48000,
                k >= 0,
                r > 0,
        ;
    }
}

proof fn lemma_output_bound(input: nat, rate: nat)
    requires
        rate > 0,
        input <= i32::MAX,
    ensures
        output_frames(input, rate) <= input * 48000,
{
    if rate != SAMPLE_RATE as nat {
        let n = input as int;
        let r = rate as int;
        assert(n * 48000 / r <= n * 48000) by (nonlinear_arith)
            requires
                n >= 0,
                r > 0,
        ;
    }
}

/// Number of output frames for `input` frames at `rate`.
pub fn output_frame_count(input: usize, rate: u32) -> (r: u64)
    requires
        rate > 0,
        input <= i32::MAX,
    ensures
        r == output_frames(input as nat, rate as nat),
        r <= input * 48000,
{
    proof {
        lemma_output_bound(input as nat, rate as nat);
    }
    if rate as u64 == SAMPLE_RATE {
        input as u64
    } else {
        (input as u64 * SAMPLE_RATE) / rate as u64
    }
}

/// Appends to `acc` the interleaved stereo made from `left` and `right`
/// (equal reads for mono) at `rate`, and returns the output frames added.
pub fn append_interleaved<T: Copy>(acc: &mut Vec<T>, left: &[T], right: &[T], rate: u32) -> (r: u64)
    requires
        rate > 0,
        left@.len() == right@.len(),
        left@.len() <= i32::MAX,
    ensures
        r == output_frames(left@.len(), rate as nat),
        final(acc)@ == old(acc)@ + interleave(left@, right@, rate as nat),
{
    let n = output_frame_count(left.len(), rate);
    let ghost base = acc@;
    let mut i: u64 = 0;
    while i < n
        invariant
            i <= n,
            rate > 0,
            n == output_frames(left@.len(), rate as nat),
            left@.len() == right@.len(),
            left@.len() <= i32::MAX,
            n <= left@.len() * 48000,
            acc@ == base + interleave(left@, right@, rate as nat).take(2 * i),
        decreases n - i,
    {
        proof {
            lemma_source_in_range(i as nat, left@.len(), rate as nat);
        }
        let src: u64 = if rate as u64 == SAMPLE_RATE {
            i
        } else {
            assert(i * (rate as u64) <= (left@.len() * 48000) * (u32::MAX as nat)) by (nonlinear_arith)
                requires
                    i < n,
                    n <= left@.len() * 48000,
                    rate <= u32::MAX,
            ;
            (i * rate as u64) / SAMPLE_RATE
        };
        acc.push(left[src as usize]);
        acc.push(right[src as usize]);
        i = i + 1;
        assert(acc@ =~= base + interleave(left@, right@, rate as nat).take(2 * i));
    }
    assert(interleave(left@, right@, rate as nat).take(2 * n) =~= interleave(left@, right@, rate as nat));
    n
}

/// Splits `frames` packed stereo frames of `data` into left and right reads.
pub fn split_stereo<T: Copy>(data: &[T], frames: usize) -> (r: (Vec<T>, Vec<T>))
    requires
        data@.len() == 2 * frames,
        frames <= i32::MAX,
    ensures
        r.0@ == packed_channel(data@, 2, 0),
        r.1@ == packed_channel(data@, 2, 1),
{
    let mut left: Vec<T> = Vec::new();
    let mut right: Vec<T> = Vec::new();
    let mut i: usize = 0;
    while i < frames
        invariant
            i <= frames,
            frames <= i32::MAX,
            data@.len() == 2 * frames,
            left@ == packed_channel(data@, 2, 0).take(i as int),
            right@ == packed_channel(data@, 2, 1).take(i as int),
        decreases frames - i,
    {
        left.push(data[2 * i]);
        right.push(data[2 * i + 1]);
        i = i + 1;
        assert(left@ =~= packed_channel(data@, 2, 0).take(i as int));
        assert(right@ =~= packed_channel(data@, 2, 1).take(i as int));
    }
    assert(left@ =~= packed_channel(data@, 2, 0));
    assert(right@ =~= packed_channel(data@, 2, 1));
    (left, right)
}

/// The output samples made from one decoded frame of `frames` frames, or
/// `None` when the frame cannot be converted or its planes are short.
/// For packed input only `plane0` is read; for planar mono only `plane0`.
pub open spec fn frame_samples(
    format: SampleFormat,
    channels: u16,
    rate: u32,
    frames: nat,
    plane0: Seq<u32>,
    plane1: Seq<u32>,
) -> Option<Seq<u32>> {
    if frames > i32::MAX {
        None
    } else {
        match spec_conversion_path(format, channels, rate) {
            ConversionPath::PlanarF32 => {
                if plane0.len() < frames || (channels == 2 && plane1.len() < frames) {
                    None
                } else {
                    let left = plane0.take(frames as int);
                    let right = if channels == 2 { plane1.take(frames as int) } else { left };
                    Some(interleave(left, right, rate as nat))
                }
            },
            ConversionPath::PackedI16 => {
                if plane0.len() < frames * channels {
                    None
                } else {
                    let data = plane0.take(frames * channels);
                    if channels == 1 {
                        Some(interleave(data, data, rate as nat))
                    } else {
                        Some(interleave(packed_channel(data, 2, 0), packed_channel(data, 2, 1), rate as nat))
                    }
                }
            },
            ConversionPath::Unsupported => None,
        }
    }
}

/// Converts one decoded frame and appends its samples to `acc`; returns the
/// output frames added, or `None` (with `acc` unchanged) when the frame is
/// skipped.
pub fn convert_frame(
    acc: &mut Vec<u32>,
    format: SampleFormat,
    channels: u16,
    rate: u32,
    frames: usize,
    plane0: &[u32],
    plane1: &[u32],
) -> (r: Option<u64>)
    ensures
        match frame_samples(format, channels, rate, frames as nat, plane0@, plane1@) {
            Some(out) => {
                &&& final(acc)@ == old(acc)@ + out
                &&& r == Some(output_frames(frames as nat, rate as nat) as u64)
                &&& out.len() == 2 * output_frames(frames as nat, rate as nat)
            },
            None => final(acc)@ == old(acc)@ && r.is_none(),
        },
{
    if frames > i32::MAX as usize {
        return None;
    }
    match conversion_path(format, channels, rate) {
        ConversionPath::PlanarF32 => {
            if plane0.len() < frames || (channels == 2 && plane1.len() < frames) {
                return None;
            }
            let (left, _) = plane0.split_at(frames);
            let n = if channels == 2 {
                let (right, _) = plane1.split_at(frames);
                append_interleaved(acc, left, right, rate)
            } else {
                append_interleaved(acc, left, left, rate)
            };
            Some(n)
        },
        ConversionPath::PackedI16 => {
            let total: usize = frames * channels as usize;
            if plane0.len() < total {
                return None;
            }
            let (data, _) = plane0.split_at(total);
            let n = if channels == 1 {
                assert(total == frames) by (nonlinear_arith)
                    requires
                        total == frames * channels,
                        channels == 1,
                ;
                append_interleaved(acc, data, data, rate)
            } else {
                let (left, right) = split_stereo(data, frames);
                assert(total == 2 * frames) by (nonlinear_arith)
                    requires
                        total == frames * channels,
                        channels == 2,
                ;
                assert(data@.len() / 2 == frames);
                assert(packed_channel(data@, 2, 0).len() == frames);
                append_interleaved(acc, left.as_slice(), right.as_slice(), rate)
            };
            Some(n)
        },
        ConversionPath::Unsupported => None,
    }
}

} // verus!
