use media_preview::audio::{
    append_interleaved, conversion_path, convert_frame, output_frame_count, split_stereo,
    ConversionPath, SampleFormat, SampleKind,
};
use media_preview::clock::{
    micros_to_ticks, nanos_to_ticks, pts_to_ticks, ticks_to_micros, ticks_to_nanos, Pacer,
    FIXED_AUDIO_STEP, FIXED_VIDEO_STEP,
};
use media_preview::decoder::{
    divisor, target_size, DecodeResult, Decoder, MediaInfo, PacketRoute, VideoStreamInfo,
};
use media_preview::ring::SampleRing;
use media_preview::types::{QualityMode, SyncMode};

const F32_PLANAR: SampleFormat = SampleFormat { kind: SampleKind::F32, planar: true };
const I16_PACKED: SampleFormat = SampleFormat { kind: SampleKind::I16, planar: false };

fn movie() -> MediaInfo {
    MediaInfo {
        video: Some(VideoStreamInfo { index: 0, width: 1920, height: 1080, time_base_num: 1, time_base_den: 30 }),
        audio_index: Some(1),
        duration_us: 10_000_000,
    }
}

#[test]
fn quality_divides_native_size() {
    assert_eq!(divisor(QualityMode::Native), 1);
    assert_eq!(divisor(QualityMode::Fast), 2);
    assert_eq!(divisor(QualityMode::Proxy), 4);
    assert_eq!(target_size(QualityMode::Native, 1921, 1081), (1921, 1081));
    assert_eq!(target_size(QualityMode::Fast, 1921, 1081), (960, 540));
    assert_eq!(target_size(QualityMode::Proxy, 1921, 1081), (480, 270));
}

#[test]
fn decoder_targets_scaled_size() {
    let d = Decoder::new(&movie(), QualityMode::Proxy);
    assert_eq!(d.target_size(), (480, 270));
    assert_eq!(d.get_metadata(), (480000, 1920, 1080));
    assert!(d.has_video());
}

#[test]
fn audio_only_decoder_has_no_size() {
    let info = MediaInfo { video: None, audio_index: Some(0), duration_us: 2_000_000 };
    let d = Decoder::new(&info, QualityMode::Fast);
    assert_eq!(d.get_metadata(), (96000, 0, 0));
    assert!(!d.has_video());
    assert_eq!(d.route(0), PacketRoute::Audio);
}

#[test]
fn packets_are_routed_by_stream() {
    let d = Decoder::new(&movie(), QualityMode::Native);
    assert_eq!(d.route(0), PacketRoute::Video);
    assert_eq!(d.route(1), PacketRoute::Audio);
    assert_eq!(d.route(2), PacketRoute::Skip);
}

#[test]
fn video_unit_is_stamped_and_bad_stride_skipped() {
    let d = Decoder::new(&movie(), QualityMode::Native);
    assert!(d.video_unit(vec![0; 4], 1, 1, 0, 30).is_none());
    assert!(d.video_unit(vec![0; 4], 1, 1, -4, 30).is_none());
    match d.video_unit(vec![1, 2, 3, 4, 0, 0, 0, 0], 1, 1, 8, 45) {
        Some(DecodeResult::Video { data, width, height, stride, pts }) => {
            assert_eq!(data, vec![1, 2, 3, 4, 0, 0, 0, 0]);
            assert_eq!((width, height, stride), (1, 1, 8));
            assert_eq!(pts, 72000);
        }
        _ => panic!("expected a video unit"),
    }
}

#[test]
fn timestamps_convert_to_ticks() {
    assert_eq!(pts_to_ticks(30, 1, 30), 48000);
    assert_eq!(pts_to_ticks(1001, 1, 30000), 1601);
    assert_eq!(pts_to_ticks(-5, 1, 30), 0);
    assert_eq!(pts_to_ticks(5, 1, 0), 0);
    assert_eq!(pts_to_ticks(i64::MAX, i32::MAX, 1), u64::MAX);
    assert_eq!(micros_to_ticks(10_000_000), 480000);
    assert_eq!(micros_to_ticks(-1), 0);
    assert_eq!(ticks_to_micros(240000), 5_000_000);
    assert_eq!(ticks_to_micros(1), 20);
    assert_eq!(nanos_to_ticks(1_000_000_000), 48000);
    assert_eq!(ticks_to_nanos(FIXED_VIDEO_STEP), 30_000_000);
    assert_eq!(ticks_to_nanos(FIXED_AUDIO_STEP), 16_000_000);
}

#[test]
fn conversion_paths() {
    assert_eq!(conversion_path(F32_PLANAR, 2, 48000), ConversionPath::PlanarF32);
    assert_eq!(conversion_path(F32_PLANAR, 1, 44100), ConversionPath::PlanarF32);
    assert_eq!(conversion_path(I16_PACKED, 2, 44100), ConversionPath::PackedI16);
    let f32_packed = SampleFormat { kind: SampleKind::F32, planar: false };
    let i16_planar = SampleFormat { kind: SampleKind::I16, planar: true };
    let other = SampleFormat { kind: SampleKind::Other, planar: true };
    assert_eq!(conversion_path(f32_packed, 2, 48000), ConversionPath::Unsupported);
    assert_eq!(conversion_path(i16_planar, 2, 48000), ConversionPath::Unsupported);
    assert_eq!(conversion_path(other, 2, 48000), ConversionPath::Unsupported);
    assert_eq!(conversion_path(F32_PLANAR, 6, 48000), ConversionPath::Unsupported);
    assert_eq!(conversion_path(F32_PLANAR, 0, 48000), ConversionPath::Unsupported);
    assert_eq!(conversion_path(F32_PLANAR, 2, 0), ConversionPath::Unsupported);
}

#[test]
fn output_frames_at_other_rates() {
    assert_eq!(output_frame_count(1024, 48000), 1024);
    assert_eq!(output_frame_count(1024, 44100), 1114);
    assert_eq!(output_frame_count(1000, 24000), 2000);
}

#[test]
fn mono_is_duplicated_and_upsampled_by_nearest_index() {
    let mut acc: Vec<u32> = vec![100];
    let n = append_interleaved(&mut acc, &[1, 2, 3], &[1, 2, 3], 24000);
    assert_eq!(n, 6);
    assert_eq!(acc, vec![100, 1, 1, 1, 1, 2, 2, 2, 2, 3, 3, 3, 3]);
}

#[test]
fn downsampling_skips_source_frames() {
    let mut acc: Vec<u32> = Vec::new();
    let n = append_interleaved(&mut acc, &[1, 2, 3, 4], &[5, 6, 7, 8], 96000);
    assert_eq!(n, 2);
    assert_eq!(acc, vec![1, 5, 3, 7]);
}

#[test]
fn packed_stereo_splits_into_channels() {
    let (l, r) = split_stereo(&[1, 2, 3, 4, 5, 6], 3);
    assert_eq!(l, vec![1, 3, 5]);
    assert_eq!(r, vec![2, 4, 6]);
}

#[test]
fn convert_frame_formats() {
    let mut acc: Vec<u32> = Vec::new();
    assert_eq!(convert_frame(&mut acc, I16_PACKED, 2, 48000, 2, &[10, 20, 30, 40, 99], &[]), Some(2));
    assert_eq!(acc, vec![10, 20, 30, 40]);
    let mut acc: Vec<u32> = Vec::new();
    assert_eq!(convert_frame(&mut acc, F32_PLANAR, 2, 48000, 2, &[1, 2, 9], &[3, 4, 9]), Some(2));
    assert_eq!(acc, vec![1, 3, 2, 4]);
    let mut acc: Vec<u32> = Vec::new();
    assert_eq!(convert_frame(&mut acc, I16_PACKED, 1, 48000, 2, &[7, 8], &[]), Some(2));
    assert_eq!(acc, vec![7, 7, 8, 8]);
}

#[test]
fn unconvertible_frames_are_skipped() {
    let mut acc: Vec<u32> = vec![1];
    let f32_packed = SampleFormat { kind: SampleKind::F32, planar: false };
    assert_eq!(convert_frame(&mut acc, f32_packed, 2, 48000, 1, &[5, 6], &[]), None);
    assert_eq!(convert_frame(&mut acc, F32_PLANAR, 2, 48000, 4, &[5, 6], &[5, 6]), None);
    assert_eq!(convert_frame(&mut acc, I16_PACKED, 2, 48000, 2, &[5, 6, 7], &[]), None);
    assert_eq!(acc, vec![1]);
}

#[test]
fn seek_then_audio_is_stamped_from_target_and_increases() {
    let mut d = Decoder::new(&movie(), QualityMode::Native);
    let plane: Vec<u32> = vec![0; 1024];
    assert!(d.push_audio_frame(F32_PLANAR, 1, 48000, 1024, &plane, &[]));
    d.seek(240000);
    assert!(d.drain_into(&mut SampleRing::new(16)) == 0);
    let mut last = 240000;
    for _ in 0..3 {
        assert!(d.push_audio_frame(F32_PLANAR, 1, 44100, 1024, &plane, &[]));
        match d.finish_audio_packet(1) {
            Some(DecodeResult::Audio { pts }) => {
                assert!(pts >= 240000);
                assert!(pts >= last);
                last = pts;
            }
            _ => panic!("expected an audio unit"),
        }
    }
    assert_eq!(last, 240000 + 3 * 1114);
}

#[test]
fn skipped_audio_frame_keeps_clock() {
    let mut d = Decoder::new(&movie(), QualityMode::Native);
    let other = SampleFormat { kind: SampleKind::Other, planar: false };
    assert!(!d.push_audio_frame(other, 2, 48000, 4, &[0; 8], &[]));
    assert!(d.finish_audio_packet(0).is_none());
    match d.finish_audio_packet(1) {
        Some(DecodeResult::Audio { pts }) => assert_eq!(pts, 0),
        _ => panic!("expected an audio unit"),
    }
}

#[test]
fn pending_samples_drain_into_ring_and_rest_stays() {
    let mut d = Decoder::new(&movie(), QualityMode::Native);
    assert!(d.push_audio_frame(F32_PLANAR, 2, 48000, 3, &[1, 2, 3], &[4, 5, 6]));
    let mut ring = SampleRing::new(4);
    assert_eq!(d.drain_into(&mut ring), 4);
    assert_eq!(ring.fill(4), vec![1, 4, 2, 5]);
    assert_eq!(d.drain_into(&mut ring), 2);
    assert_eq!(ring.fill(2), vec![3, 6]);
    assert_eq!(d.drain_into(&mut ring), 0);
}

#[test]
fn pacer_fixed_and_realtime() {
    let mut p = Pacer::new();
    assert_eq!(p.delay(SyncMode::Fixed, 5000, 10, FIXED_VIDEO_STEP), 1440);
    assert_eq!(p.delay(SyncMode::Realtime, 48000, 100000, FIXED_VIDEO_STEP), 0);
    assert_eq!(p.delay(SyncMode::Realtime, 96000, 120000, FIXED_VIDEO_STEP), 28000);
    assert_eq!(p.delay(SyncMode::Realtime, 96000, 200000, FIXED_VIDEO_STEP), 0);
    p.reset();
    assert_eq!(p.delay(SyncMode::Realtime, 500000, 1000, FIXED_VIDEO_STEP), 0);
    assert_eq!(p.delay(SyncMode::Realtime, 501600, 1000, FIXED_VIDEO_STEP), 1600);
}
