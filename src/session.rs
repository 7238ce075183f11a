//! Session control: the shared command state (generation, play flag, seek
//! request, modes, volume) and the decisions of the decode-and-present loop,
//! one function per point where the loop consults them. The loop itself, with
//! its sleeps, device calls and event delivery, runs outside.
use vstd::prelude::*;
use crate::types::{PlaybackPayload, PlaybackStatus, QualityMode, SyncMode};
use crate::clock::{paced_reference, paced_sleep, Pacer, FIXED_AUDIO_STEP, FIXED_VIDEO_STEP};

verus! {

/// Full volume, in thousandths.
pub const MAX_VOLUME: u32 = 1000;

/// Poll interval of a paused loop (100 ms).
pub const PAUSE_POLL: u64 = 4800;

/// Sleep of the producer when the audio bridge is more than half full (5 ms).
pub const BACKPRESSURE_SLEEP: u64 = 240;

/// The state that commands change and playback loops read.
#[derive(Clone, Copy, Debug, PartialEq, Eq, Structural)]
pub struct PreviewState {
    /// Generation of the current session; a loop holding another one is stale.
    pub session_id: u64,
    pub is_playing: bool,
    /// Quality used by the next open.
    pub quality_mode: QualityMode,
    pub sync_mode: SyncMode,
    /// Volume in thousandths, at most `MAX_VOLUME`.
    pub volume: u32,
    /// Pending seek target in ticks; the latest request wins.
    pub seek_target: Option<u64>,
}

pub open spec fn spec_open(s: PreviewState) -> PreviewState {
    PreviewState { session_id: (s.session_id + 1) as u64, is_playing: true, ..s }
}

impl PreviewState {
    pub open spec fn wf(&self) -> bool {
        self.volume <= MAX_VOLUME
    }

    /// No session, paused, native quality, realtime pacing, full volume.
    pub fn new() -> (r: PreviewState)
        ensures
            r.wf(),
            r.session_id == 0,
            !r.is_playing,
            r.quality_mode == QualityMode::Native,
            r.sync_mode == SyncMode::Realtime,
            r.volume == MAX_VOLUME,
            r.seek_target.is_none(),
    {
        PreviewState {
            session_id: 0,
            is_playing: false,
            quality_mode: QualityMode::Native,
            sync_mode: SyncMode::Realtime,
            volume: MAX_VOLUME,
            seek_target: None,
        }
    }

    /// Starts a new session: bumps the generation, which makes every running
    /// loop stale, sets playing, and returns the new generation.
    pub fn open(&mut self) -> (g: u64)
        requires
            old(self).session_id < u64::MAX,
        ensures
            *final(self) == spec_open(*old(self)),
            g == final(self).session_id,
    {
        self.session_id = self.session_id + 1;
        self.is_playing = true;
        self.session_id
    }

    /// Teardown of the window: stops playback and invalidates the session.
    pub fn teardown(&mut self)
        requires
            old(self).session_id < u64::MAX,
        ensures
            *final(self) == (PreviewState { session_id: (old(self).session_id + 1) as u64, is_playing: false, ..*old(self) }),
    {
        self.session_id = self.session_id + 1;
        self.is_playing = false;
    }

    /// Flips the play flag and returns its new value.
    pub fn toggle_playback(&mut self) -> (playing: bool)
        ensures
            *final(self) == (PreviewState { is_playing: !old(self).is_playing, ..*old(self) }),
            playing == final(self).is_playing,
    {
        self.is_playing = !self.is_playing;
        self.is_playing
    }

    pub fn set_quality(&mut self, mode: QualityMode)
        ensures
            *final(self) == (PreviewState { quality_mode: mode, ..*old(self) }),
    {
        self.quality_mode = mode;
    }

    pub fn set_sync_mode(&mut self, mode: SyncMode)
        ensures
            *final(self) == (PreviewState { sync_mode: mode, ..*old(self) }),
    {
        self.sync_mode = mode;
    }

    /// Sets the volume in thousandths, clamped to full volume.
    pub fn set_volume(&mut self, volume: u32)
        ensures
            *final(self) == (PreviewState {
                volume: if volume > MAX_VOLUME { MAX_VOLUME } else { volume },
                ..*old(self)
            }),
    {
        self.volume = if volume > MAX_VOLUME { MAX_VOLUME } else { volume };
    }

    /// Requests a seek to `target` ticks, replacing any request not yet taken.
    pub fn request_seek(&mut self, target: u64)
        ensures
            *final(self) == (PreviewState { seek_target: Some(target), ..*old(self) }),
    {
        self.seek_target = Some(target);
    }

    /// Takes the pending seek request, leaving none.
    pub fn take_seek(&mut self) -> (r: Option<u64>)
        ensures
            r == old(self).seek_target,
            *final(self) == (PreviewState { seek_target: None, ..*old(self) }),
    {
        let r = self.seek_target;
        self.seek_target = None;
        r
    }
}

/// What a loop does at the top of an iteration.
#[derive(Clone, Copy, Debug, PartialEq, Eq, Structural)]
pub enum IterationStart {
    /// The session is stale: leave without touching any output.
    Exit,
    /// Reposition the decoder to this many ticks, then decode.
    Seek(u64),
    Decode,
}

/// What decoding the next unit gave.
#[derive(Clone, Copy, Debug, PartialEq, Eq, Structural)]
pub enum DecodeOutcome {
    Video { pts: u64 },
    Audio { pts: u64 },
    End,
    Failed,
}

/// What a loop does with a decoded unit.
#[derive(Clone, Copy, Debug, PartialEq, Eq, Structural)]
pub enum UnitAction {
    /// The session is stale: leave, delivering nothing.
    Stop,
    /// Deliver this final update and leave.
    Finish(PlaybackPayload),
    /// Present the video frame, then sleep this many ticks.
    Present { sleep: u64 },
    /// The audio-only timeline advanced: sleep this many ticks.
    Advance { sleep: u64 },
    /// Audio beside video: hand the samples on and yield without sleeping.
    PassThrough,
}

/// One poll of a paused loop.
#[derive(Clone, Copy, Debug, PartialEq, Eq, Structural)]
pub enum PauseStep {
    /// The session is stale: leave.
    Exit,
    /// Still paused: sleep `PAUSE_POLL` ticks and poll again.
    Wait,
    /// Playing again.
    Resume,
}

pub open spec fn spec_start_update(l: PlaybackLoop, live: u64) -> Option<PlaybackPayload> {
    if l.spec_is_live(live) { Some(l.payload(PlaybackStatus::Playing)) } else { None }
}

pub open spec fn spec_pause_update(l: PlaybackLoop, live: u64, playing: bool) -> Option<PlaybackPayload> {
    if l.spec_is_live(live) && !playing { Some(l.payload(PlaybackStatus::Paused)) } else { None }
}

pub open spec fn spec_pause_poll(l: PlaybackLoop, live: u64, playing: bool) -> PauseStep {
    if !l.spec_is_live(live) {
        PauseStep::Exit
    } else if playing {
        PauseStep::Resume
    } else {
        PauseStep::Wait
    }
}

pub open spec fn spec_end_update(l: PlaybackLoop, live: u64) -> Option<PlaybackPayload> {
    if l.spec_is_live(live) && l.spec_advanced() { Some(l.payload(PlaybackStatus::Playing)) } else { None }
}

/// State of one decode-and-present loop, bound to the generation it was
/// started for.
pub struct PlaybackLoop {
    session: u64,
    has_video: bool,
    duration: u64,
    current_time: u64,
    advanced: bool,
    pacer: Pacer,
}

impl PlaybackLoop {
    pub closed spec fn spec_session(&self) -> u64 {
        self.session
    }

    pub closed spec fn spec_has_video(&self) -> bool {
        self.has_video
    }

    pub closed spec fn spec_duration(&self) -> u64 {
        self.duration
    }

    /// The time last reported, in ticks.
    pub closed spec fn spec_current_time(&self) -> u64 {
        self.current_time
    }

    /// Whether the last unit advanced the timeline.
    pub closed spec fn spec_advanced(&self) -> bool {
        self.advanced
    }

    pub closed spec fn spec_reference(&self) -> Option<int> {
        self.pacer.spec_reference()
    }

    pub closed spec fn wf(&self) -> bool {
        self.pacer.wf()
    }

    /// Whether this loop belongs to generation `live`.
    pub open spec fn spec_is_live(&self, live: u64) -> bool {
        self.spec_session() == live
    }

    /// An update with the current time and `status`.
    pub open spec fn payload(&self, status: PlaybackStatus) -> PlaybackPayload {
        PlaybackPayload { current_time: self.spec_current_time(), duration: self.spec_duration(), status }
    }

    /// A loop for generation `session` over media of `duration` ticks, at time zero.
    pub fn new(session: u64, has_video: bool, duration: u64) -> (r: PlaybackLoop)
        ensures
            r.wf(),
            r.spec_session() == session,
            r.spec_has_video() == has_video,
            r.spec_duration() == duration,
            r.spec_current_time() == 0,
            !r.spec_advanced(),
            r.spec_reference().is_none(),
    {
        PlaybackLoop { session, has_video, duration, current_time: 0, advanced: false, pacer: Pacer::new() }
    }

    pub fn is_live(&self, live: u64) -> (r: bool)
        ensures
            r == self.spec_is_live(live),
    {
        self.session == live
    }

    /// The first update, which tells the duration; none for a stale loop.
    pub fn start_update(&self, live: u64) -> (r: Option<PlaybackPayload>)
        ensures
            r == spec_start_update(*self, live),
    {
        if self.session == live {
            Some(PlaybackPayload { current_time: self.current_time, duration: self.duration, status: PlaybackStatus::Playing })
        } else {
            None
        }
    }

    /// Top of an iteration: a stale loop leaves and takes nothing; a live one
    /// takes the pending seek request, if any.
    pub fn begin(&self, state: &mut PreviewState) -> (r: IterationStart)
        ensures
            !self.spec_is_live(old(state).session_id) ==> r == IterationStart::Exit && *final(state) == *old(state),
            self.spec_is_live(old(state).session_id) ==> {
                &&& *final(state) == (PreviewState { seek_target: None, ..*old(state) })
                &&& r == match old(state).seek_target {
                    Some(t) => IterationStart::Seek(t),
                    None => IterationStart::Decode,
                }
            },
    {
        if self.session != state.session_id {
            return IterationStart::Exit;
        }
        match state.take_seek() {
            Some(t) => IterationStart::Seek(t),
            None => IterationStart::Decode,
        }
    }

    /// After the decoder was repositioned to `target`: the time jumps there,
    /// the pacing anchor is dropped, and a buffering update goes out. A stale
    /// loop changes nothing and delivers nothing.
    pub fn seek_done(&mut self, live: u64, target: u64) -> (r: Option<PlaybackPayload>)
        requires
            old(self).wf(),
        ensures
            final(self).wf(),
            final(self).spec_session() == old(self).spec_session(),
            final(self).spec_has_video() == old(self).spec_has_video(),
            final(self).spec_duration() == old(self).spec_duration(),
            final(self).spec_advanced() == old(self).spec_advanced(),
            !old(self).spec_is_live(live) ==> r.is_none() && final(self).spec_current_time() == old(self).spec_current_time()
                && final(self).spec_reference() == old(self).spec_reference(),
            old(self).spec_is_live(live) ==> final(self).spec_current_time() == target
                && final(self).spec_reference().is_none()
                && r == Some(final(self).payload(PlaybackStatus::Buffering)),
    {
        if self.session != live {
            return None;
        }
        self.current_time = target;
        self.pacer.reset();
        Some(PlaybackPayload { current_time: target, duration: self.duration, status: PlaybackStatus::Buffering })
    }

    /// Decides what to do with a decoded unit, with the wall clock at `now`.
    /// End of stream and a failure end the session with a final update. A
    /// video unit sets the time, is presented and paced. An audio unit sets
    /// the time and is paced only when there is no video, which otherwise owns
    /// the timeline. A stale loop stops and changes nothing.
    pub fn on_unit(&mut self, live: u64, outcome: DecodeOutcome, mode: SyncMode, now: u64) -> (r: UnitAction)
        requires
            old(self).wf(),
        ensures
            final(self).wf(),
            final(self).spec_session() == old(self).spec_session(),
            final(self).spec_has_video() == old(self).spec_has_video(),
            final(self).spec_duration() == old(self).spec_duration(),
            !old(self).spec_is_live(live) ==> r == UnitAction::Stop && final(self).spec_current_time()
                == old(self).spec_current_time() && final(self).spec_reference() == old(self).spec_reference()
                && final(self).spec_advanced() == old(self).spec_advanced(),
            old(self).spec_is_live(live) ==> match outcome {
                DecodeOutcome::End => r == UnitAction::Finish(old(self).payload(PlaybackStatus::Finished))
                    && final(self).spec_current_time() == old(self).spec_current_time()
                    && final(self).spec_reference() == old(self).spec_reference()
                    && final(self).spec_advanced() == old(self).spec_advanced(),
                DecodeOutcome::Failed => r == UnitAction::Finish(old(self).payload(PlaybackStatus::Error))
                    && final(self).spec_current_time() == old(self).spec_current_time()
                    && final(self).spec_reference() == old(self).spec_reference()
                    && final(self).spec_advanced() == old(self).spec_advanced(),
                DecodeOutcome::Video { pts } => {
                    &&& final(self).spec_current_time() == pts
                    &&& final(self).spec_advanced()
                    &&& final(self).spec_reference() == paced_reference(old(self).spec_reference(), mode, pts, now)
                    &&& r == (UnitAction::Present {
                        sleep: paced_sleep(old(self).spec_reference(), mode, pts, now, FIXED_VIDEO_STEP),
                    })
                },
                DecodeOutcome::Audio { pts } => if old(self).spec_has_video() {
                    &&& r == UnitAction::PassThrough
                    &&& final(self).spec_current_time() == old(self).spec_current_time()
                    &&& !final(self).spec_advanced()
                    &&& final(self).spec_reference() == old(self).spec_reference()
                } else {
                    &&& final(self).spec_current_time() == pts
                    &&& final(self).spec_advanced()
                    &&& final(self).spec_reference() == paced_reference(old(self).spec_reference(), mode, pts, now)
                    &&& r == (UnitAction::Advance {
                        sleep: paced_sleep(old(self).spec_reference(), mode, pts, now, FIXED_AUDIO_STEP),
                    })
                },
            },
    {
        if self.session != live {
            return UnitAction::Stop;
        }
        match outcome {
            DecodeOutcome::End => UnitAction::Finish(
                PlaybackPayload { current_time: self.current_time, duration: self.duration, status: PlaybackStatus::Finished },
            ),
            DecodeOutcome::Failed => UnitAction::Finish(
                PlaybackPayload { current_time: self.current_time, duration: self.duration, status: PlaybackStatus::Error },
            ),
            DecodeOutcome::Video { pts } => {
                self.current_time = pts;
                self.advanced = true;
                let sleep = self.pacer.delay(mode, pts, now, FIXED_VIDEO_STEP);
                UnitAction::Present { sleep }
            },
            DecodeOutcome::Audio { pts } => {
                if self.has_video {
                    self.advanced = false;
                    UnitAction::PassThrough
                } else {
                    self.current_time = pts;
                    self.advanced = true;
                    let sleep = self.pacer.delay(mode, pts, now, FIXED_AUDIO_STEP);
                    UnitAction::Advance { sleep }
                }
            },
        }
    }

    /// The paused update when the play flag is off; none when playing or stale.
    /// It carries the time last reported.
    pub fn pause_update(&self, live: u64, playing: bool) -> (r: Option<PlaybackPayload>)
        ensures
            r == spec_pause_update(*self, live, playing),
    {
        if self.session == live && !playing {
            Some(PlaybackPayload { current_time: self.current_time, duration: self.duration, status: PlaybackStatus::Paused })
        } else {
            None
        }
    }

    /// One poll while paused. It leaves the loop unchanged: time does not advance.
    pub fn pause_poll(&self, live: u64, playing: bool) -> (r: PauseStep)
        ensures
            r == spec_pause_poll(*self, live, playing),
    {
        if self.session != live {
            PauseStep::Exit
        } else if playing {
            PauseStep::Resume
        } else {
            PauseStep::Wait
        }
    }

    /// Back from a pause: the pacing anchor is dropped, the time kept.
    pub fn resume(&mut self)
        requires
            old(self).wf(),
        ensures
            final(self).wf(),
            final(self).spec_session() == old(self).spec_session(),
            final(self).spec_has_video() == old(self).spec_has_video(),
            final(self).spec_duration() == old(self).spec_duration(),
            final(self).spec_current_time() == old(self).spec_current_time(),
            final(self).spec_advanced() == old(self).spec_advanced(),
            final(self).spec_reference().is_none(),
    {
        self.pacer.reset();
    }

    /// The playing update at the end of an iteration whose unit advanced the
    /// timeline; none otherwise or when stale.
    pub fn end_update(&self, live: u64) -> (r: Option<PlaybackPayload>)
        ensures
            r == spec_end_update(*self, live),
    {
        if self.session == live && self.advanced {
            Some(PlaybackPayload { current_time: self.current_time, duration: self.duration, status: PlaybackStatus::Playing })
        } else {
            None
        }
    }
}

/// After two opens, a loop started for the first one is stale under the
/// second generation and every later one: it exits at its next check and
/// delivers no update; only the second session's loop is live.
pub proof fn lemma_second_open_silences_first(s: PreviewState, first: PlaybackLoop, second: PlaybackLoop, later: u64, playing: bool)
    requires
        s.session_id < u64::MAX - 1,
        first.spec_session() == spec_open(s).session_id,
        second.spec_session() == spec_open(spec_open(s)).session_id,
        later >= spec_open(spec_open(s)).session_id,
    ensures
        !first.spec_is_live(later),
        spec_start_update(first, later).is_none(),
        spec_pause_update(first, later, playing).is_none(),
        spec_pause_poll(first, later, playing) == PauseStep::Exit,
        spec_end_update(first, later).is_none(),
        second.spec_is_live(spec_open(spec_open(s)).session_id),
{
}

/// While paused the reported time stands still: the paused update carries the
/// time last set, polls change nothing and report `Wait` until the play flag
/// is back, and a resume keeps the time and drops the pacing anchor, so that
/// realtime pacing restarts from the resume instant.
pub proof fn lemma_pause_freezes_time(l: PlaybackLoop, live: u64, resumed: PlaybackLoop, ts: u64, now: u64)
    requires
        l.spec_is_live(live),
        resumed.spec_session() == l.spec_session(),
        resumed.spec_duration() == l.spec_duration(),
        resumed.spec_current_time() == l.spec_current_time(),
        resumed.spec_reference().is_none(),
    ensures
        spec_pause_update(l, live, false) == Some(l.payload(PlaybackStatus::Paused)),
        l.payload(PlaybackStatus::Paused).current_time == l.spec_current_time(),
        spec_pause_poll(l, live, false) == PauseStep::Wait,
        spec_pause_poll(l, live, true) == PauseStep::Resume,
        resumed.payload(PlaybackStatus::Playing).current_time == l.spec_current_time(),
        paced_sleep(resumed.spec_reference(), SyncMode::Realtime, ts, now, FIXED_VIDEO_STEP) == 0,
        paced_reference(resumed.spec_reference(), SyncMode::Realtime, ts, now) == Some(now - ts),
{
}

} // verus!
