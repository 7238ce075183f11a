use media_preview::clock::FIXED_VIDEO_STEP;
use media_preview::session::{
    DecodeOutcome, IterationStart, PauseStep, PlaybackLoop, PreviewState, UnitAction, MAX_VOLUME,
};
use media_preview::types::{PlaybackPayload, PlaybackStatus, QualityMode, SyncMode};

fn payload(current_time: u64, duration: u64, status: PlaybackStatus) -> PlaybackPayload {
    PlaybackPayload { current_time, duration, status }
}

#[test]
fn preview_state_defaults_and_commands() {
    let mut s = PreviewState::new();
    assert_eq!(s.session_id, 0);
    assert!(!s.is_playing);
    assert_eq!(s.quality_mode, QualityMode::Native);
    assert_eq!(s.sync_mode, SyncMode::Realtime);
    assert_eq!(s.volume, MAX_VOLUME);
    assert_eq!(s.open(), 1);
    assert!(s.is_playing);
    assert!(!s.toggle_playback());
    assert!(s.toggle_playback());
    s.set_quality(QualityMode::Proxy);
    assert_eq!(s.quality_mode, QualityMode::Proxy);
    s.set_sync_mode(SyncMode::Fixed);
    assert_eq!(s.sync_mode, SyncMode::Fixed);
    s.set_volume(250);
    assert_eq!(s.volume, 250);
    s.set_volume(5000);
    assert_eq!(s.volume, 1000);
    s.teardown();
    assert_eq!(s.session_id, 2);
    assert!(!s.is_playing);
}

#[test]
fn latest_seek_request_wins_and_is_taken_once() {
    let mut s = PreviewState::new();
    s.request_seek(100);
    s.request_seek(200);
    assert_eq!(s.take_seek(), Some(200));
    assert_eq!(s.take_seek(), None);
}

#[test]
fn second_open_makes_first_loop_stale() {
    let mut s = PreviewState::new();
    let g1 = s.open();
    let mut first = PlaybackLoop::new(g1, true, 480000);
    let g2 = s.open();
    let mut second = PlaybackLoop::new(g2, true, 480000);
    s.request_seek(48000);
    assert_eq!(first.begin(&mut s), IterationStart::Exit);
    assert_eq!(s.seek_target, Some(48000));
    assert_eq!(first.start_update(g2), None);
    assert_eq!(first.seek_done(g2, 10), None);
    assert_eq!(first.on_unit(g2, DecodeOutcome::Video { pts: 1600 }, SyncMode::Fixed, 0), UnitAction::Stop);
    assert_eq!(first.on_unit(g2, DecodeOutcome::End, SyncMode::Fixed, 0), UnitAction::Stop);
    assert_eq!(first.pause_update(g2, false), None);
    assert_eq!(first.pause_poll(g2, false), PauseStep::Exit);
    assert_eq!(first.end_update(g2), None);
    assert_eq!(second.begin(&mut s), IterationStart::Seek(48000));
    assert_eq!(second.seek_done(g2, 48000), Some(payload(48000, 480000, PlaybackStatus::Buffering)));
    assert_eq!(
        second.on_unit(g2, DecodeOutcome::Video { pts: 49600 }, SyncMode::Fixed, 0),
        UnitAction::Present { sleep: FIXED_VIDEO_STEP }
    );
    assert_eq!(second.end_update(g2), Some(payload(49600, 480000, PlaybackStatus::Playing)));
}

#[test]
fn paused_time_stands_still_and_realtime_restarts_at_resume() {
    let mut s = PreviewState::new();
    let g = s.open();
    let mut lp = PlaybackLoop::new(g, true, 480000);
    assert_eq!(lp.on_unit(g, DecodeOutcome::Video { pts: 0 }, SyncMode::Realtime, 1000), UnitAction::Present { sleep: 0 });
    assert_eq!(
        lp.on_unit(g, DecodeOutcome::Video { pts: 1600 }, SyncMode::Realtime, 1100),
        UnitAction::Present { sleep: 1500 }
    );
    assert!(!s.toggle_playback());
    assert_eq!(lp.pause_update(g, s.is_playing), Some(payload(1600, 480000, PlaybackStatus::Paused)));
    for _ in 0..5 {
        assert_eq!(lp.pause_poll(g, s.is_playing), PauseStep::Wait);
    }
    assert!(s.toggle_playback());
    assert_eq!(lp.pause_poll(g, s.is_playing), PauseStep::Resume);
    lp.resume();
    assert_eq!(lp.end_update(g), Some(payload(1600, 480000, PlaybackStatus::Playing)));
    // Resumed at wall reading 900000: the next frame goes out at once and the
    // one after it one frame interval later.
    assert_eq!(
        lp.on_unit(g, DecodeOutcome::Video { pts: 3200 }, SyncMode::Realtime, 900000),
        UnitAction::Present { sleep: 0 }
    );
    assert_eq!(
        lp.on_unit(g, DecodeOutcome::Video { pts: 4800 }, SyncMode::Realtime, 900100),
        UnitAction::Present { sleep: 1500 }
    );
}

#[test]
fn audio_owns_timeline_only_without_video() {
    let g = 1;
    let mut with_video = PlaybackLoop::new(g, true, 480000);
    assert_eq!(with_video.on_unit(g, DecodeOutcome::Audio { pts: 9000 }, SyncMode::Fixed, 0), UnitAction::PassThrough);
    assert_eq!(with_video.end_update(g), None);
    let mut audio_only = PlaybackLoop::new(g, false, 480000);
    assert_eq!(
        audio_only.on_unit(g, DecodeOutcome::Audio { pts: 9000 }, SyncMode::Fixed, 0),
        UnitAction::Advance { sleep: 768 }
    );
    assert_eq!(audio_only.end_update(g), Some(payload(9000, 480000, PlaybackStatus::Playing)));
}

#[test]
fn decode_failure_ends_with_error() {
    let g = 3;
    let mut lp = PlaybackLoop::new(g, true, 96000);
    lp.on_unit(g, DecodeOutcome::Video { pts: 4800 }, SyncMode::Fixed, 0);
    assert_eq!(
        lp.on_unit(g, DecodeOutcome::Failed, SyncMode::Fixed, 0),
        UnitAction::Finish(payload(4800, 96000, PlaybackStatus::Error))
    );
}

#[test]
fn ten_second_clip_session() {
    // 10 s at 30 fps: one frame every 1600 ticks.
    let mut s = PreviewState::new();
    let g = s.open();
    let mut lp = PlaybackLoop::new(g, true, 480000);
    let first = lp.start_update(g).unwrap();
    assert_eq!(first.status, PlaybackStatus::Playing);
    assert_eq!(first.duration, 480000);
    assert!((first.duration as f64 / 48000.0 - 10.0).abs() < 1e-9);

    let mut reported = Vec::new();
    for frame in 0..10u64 {
        assert_eq!(lp.begin(&mut s), IterationStart::Decode);
        let action = lp.on_unit(g, DecodeOutcome::Video { pts: frame * 1600 }, SyncMode::Fixed, 0);
        assert_eq!(action, UnitAction::Present { sleep: FIXED_VIDEO_STEP });
        assert_eq!(lp.pause_update(g, s.is_playing), None);
        reported.push(lp.end_update(g).unwrap().current_time);
    }
    assert!(reported.windows(2).all(|w| w[0] < w[1]));

    // Pause: the paused update freezes the time.
    assert!(!s.toggle_playback());
    let paused = lp.pause_update(g, s.is_playing).unwrap();
    assert_eq!(paused.status, PlaybackStatus::Paused);
    assert_eq!(paused.current_time, 9 * 1600);
    assert_eq!(lp.pause_poll(g, s.is_playing), PauseStep::Wait);

    // Seek to 5.0 s while paused, then resume.
    s.request_seek(5 * 48000);
    assert_eq!(lp.pause_poll(g, s.is_playing), PauseStep::Wait);
    assert!(s.toggle_playback());
    assert_eq!(lp.pause_poll(g, s.is_playing), PauseStep::Resume);
    lp.resume();
    assert_eq!(lp.begin(&mut s), IterationStart::Seek(240000));
    let buffering = lp.seek_done(g, 240000).unwrap();
    assert_eq!(buffering.status, PlaybackStatus::Buffering);
    assert_eq!(buffering.current_time, 240000);

    let mut last = 240000;
    for frame in 150..300u64 {
        assert_eq!(lp.begin(&mut s), IterationStart::Decode);
        lp.on_unit(g, DecodeOutcome::Video { pts: frame * 1600 }, SyncMode::Fixed, 0);
        let update = lp.end_update(g).unwrap();
        assert_eq!(update.status, PlaybackStatus::Playing);
        assert!(update.current_time >= last);
        last = update.current_time;
    }
    assert_eq!(lp.begin(&mut s), IterationStart::Decode);
    match lp.on_unit(g, DecodeOutcome::End, SyncMode::Fixed, 0) {
        UnitAction::Finish(p) => {
            assert_eq!(p.status, PlaybackStatus::Finished);
            assert_eq!(p.current_time, 299 * 1600);
        }
        other => panic!("expected the end of the session, got {:?}", other),
    }
}
