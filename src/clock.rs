//! The engine clock and pacing. All times are ticks of `SAMPLE_RATE` per
//! second: media timestamps as well as the wall clock handed in by the caller.
use vstd::prelude::*;
use crate::types::{SyncMode, SAMPLE_RATE};

verus! {

/// Sleep after each video unit in fixed-step mode (30 ms).
pub const FIXED_VIDEO_STEP: u64 = 1440;

/// Sleep after each audio-only update in fixed-step mode (16 ms).
pub const FIXED_AUDIO_STEP: u64 = 768;

/// Clamps an integer into the range of `u64`.
pub open spec fn clamp_u64(v: int) -> u64 {
    if v <= 0 {
        0
    } else if v >= u64::MAX {
        u64::MAX
    } else {
        v as u64
    }
}

/// Ticks of a stream timestamp `pts` in time base `num / den` seconds;
/// negative times, and a time base that is not positive, give zero.
pub open spec fn spec_pts_ticks(pts: i64, num: i32, den: i32) -> u64 {
    if den <= 0 || pts * num <= 0 {
        0
    } else {
        clamp_u64(pts * num * SAMPLE_RATE / (den as int))
    }
}

/// Converts a stream timestamp to engine ticks (rounding down).
pub fn pts_to_ticks(pts: i64, num: i32, den: i32) -> (r: u64)
    ensures
        r == spec_pts_ticks(pts, num, den),
{
    assert(-0x8000_0000_0000_0000 * 0x8000_0000 <= pts * num <= 0x8000_0000_0000_0000 * 0x8000_0000)
        by (nonlinear_arith)
        requires
            -0x8000_0000_0000_0000 <= pts <= 0x8000_0000_0000_0000,
            -0x8000_0000 <= num <= 0x8000_0000,
    ;
    let p: i128 = pts as i128 * num as i128;
    if den <= 0 || p <= 0 {
        return 0;
    }
    assert(p <= 0x8000_0000_0000_0000 * 0x8000_0000) by (nonlinear_arith)
        requires
            p == pts * num,
            -0x8000_0000_0000_0000 <= pts <= 0x8000_0000_0000_0000,
            -0x8000_0000 <= num <= 0x8000_0000,
    ;
    let q: i128 = (p * 48000) / den as i128;
    if q >= u64::MAX as i128 {
        u64::MAX
    } else {
        q as u64
    }
}

/// Ticks in `us` microseconds (rounding down; negative gives zero).
pub open spec fn spec_micros_ticks(us: i64) -> u64 {
    if us <= 0 {
        0
    } else {
        (us * 6 / 125) as u64
    }
}

/// Converts a container duration in microseconds to engine ticks.
pub fn micros_to_ticks(us: i64) -> (r: u64)
    ensures
        r == spec_micros_ticks(us),
{
    if us <= 0 {
        0
    } else {
        ((us as u128 * 6) / 125) as u64
    }
}

/// Microseconds in `t` ticks (rounding down, at most `i64::MAX`).
pub open spec fn spec_ticks_micros(t: u64) -> i64 {
    if t * 125 / 6 >= i64::MAX {
        i64::MAX
    } else {
        (t * 125 / 6) as i64
    }
}

/// Converts engine ticks to the microseconds in which containers seek.
pub fn ticks_to_micros(t: u64) -> (r: i64)
    ensures
        r == spec_ticks_micros(t),
{
    let v: u128 = (t as u128 * 125) / 6;
    if v >= i64::MAX as u128 {
        i64::MAX
    } else {
        v as i64
    }
}

/// Ticks in `nanos` nanoseconds of wall time (rounding down).
pub open spec fn spec_nanos_ticks(nanos: u64) -> u64 {
    (nanos * 6 / 125000) as u64
}

/// Converts a wall-clock reading in nanoseconds to ticks.
pub fn nanos_to_ticks(nanos: u64) -> (r: u64)
    ensures
        r == spec_nanos_ticks(nanos),
{
    ((nanos as u128 * 6) / 125000) as u64
}

/// Nanoseconds in `t` ticks (rounding down, at most `u64::MAX`).
pub open spec fn spec_ticks_nanos(t: u64) -> u64 {
    clamp_u64(t * 125000 / 6)
}

/// Converts a sleep in ticks to nanoseconds.
pub fn ticks_to_nanos(t: u64) -> (r: u64)
    ensures
        r == spec_ticks_nanos(t),
{
    let v: u128 = (t as u128 * 125000) / 6;
    if v >= u64::MAX as u128 {
        u64::MAX
    } else {
        v as u64
    }
}

/// Ticks to sleep so that a unit stamped `ts` is released at `reference + ts`
/// on the wall clock, where the wall clock now reads `now`; none when late.
pub open spec fn release_delay(reference: int, ts: u64, now: u64) -> u64 {
    if reference + ts > now {
        clamp_u64(reference + ts - now)
    } else {
        0
    }
}

/// The anchor after pacing a unit stamped `ts` at wall reading `now`.
pub open spec fn paced_reference(reference: Option<int>, mode: SyncMode, ts: u64, now: u64) -> Option<int> {
    match mode {
        SyncMode::Fixed => reference,
        SyncMode::Realtime => match reference {
            Some(r) => Some(r),
            None => Some(now - ts),
        },
    }
}

/// The sleep after pacing a unit stamped `ts` at wall reading `now`; `step`
/// is the fixed-mode interval.
pub open spec fn paced_sleep(reference: Option<int>, mode: SyncMode, ts: u64, now: u64, step: u64) -> u64 {
    match mode {
        SyncMode::Fixed => step,
        SyncMode::Realtime => release_delay(paced_reference(reference, mode, ts, now).unwrap(), ts, now),
    }
}

/// The wall-clock anchor of realtime pacing: the reading at which media time
/// zero would have been released. Empty until the first unit after a start,
/// seek or resume establishes it.
pub struct Pacer {
    reference: Option<i128>,
}

impl Pacer {
    pub closed spec fn spec_reference(&self) -> Option<int> {
        match self.reference {
            Some(r) => Some(r as int),
            None => None,
        }
    }

    /// A reference the pacer can hold: a wall reading minus a timestamp.
    pub closed spec fn wf(&self) -> bool {
        match self.reference {
            Some(r) => -(u64::MAX as int) <= r <= u64::MAX,
            None => true,
        }
    }

    pub fn new() -> (r: Pacer)
        ensures
            r.wf(),
            r.spec_reference().is_none(),
    {
        Pacer { reference: None }
    }

    /// Forgets the anchor; the next paced unit establishes a new one.
    pub fn reset(&mut self)
        ensures
            final(self).wf(),
            final(self).spec_reference().is_none(),
    {
        self.reference = None;
    }

    /// Ticks to sleep after a unit stamped `ts`, with the wall clock at `now`.
    /// Fixed mode sleeps `step`; realtime mode anchors the reference at
    /// `now - ts` when it is empty and sleeps until `reference + ts`.
    pub fn delay(&mut self, mode: SyncMode, ts: u64, now: u64, step: u64) -> (sleep: u64)
        requires
            old(self).wf(),
        ensures
            final(self).wf(),
            final(self).spec_reference() == paced_reference(old(self).spec_reference(), mode, ts, now),
            sleep == paced_sleep(old(self).spec_reference(), mode, ts, now, step),
    {
        match mode {
            SyncMode::Fixed => step,
            SyncMode::Realtime => {
                let reference: i128 = match self.reference {
                    Some(r) => r,
                    None => now as i128 - ts as i128,
                };
                self.reference = Some(reference);
                let target: i128 = reference + ts as i128;
                if target > now as i128 {
                    let d: i128 = target - now as i128;
                    if d >= u64::MAX as i128 {
                        u64::MAX
                    } else {
                        d as u64
                    }
                } else {
                    0
                }
            },
        }
    }
}

/// Realtime pacing from a fresh anchor (after a start, seek or resume): the
/// unit that sets the anchor at wall reading `w0` is released at once, and a
/// later unit is released no earlier than `w0` plus the media time between the
/// two, and exactly then when it is not late. Media time and wall time advance
/// at the same rate from the anchor on.
pub proof fn lemma_realtime_release(w0: u64, ts0: u64, w1: u64, ts1: u64, step: u64)
    requires
        ts0 <= ts1,
        w0 + (ts1 - ts0) <= u64::MAX,
    ensures
        paced_sleep(None, SyncMode::Realtime, ts0, w0, step) == 0,
        ({
            let anchor = paced_reference(None, SyncMode::Realtime, ts0, w0);
            &&& w1 + paced_sleep(anchor, SyncMode::Realtime, ts1, w1, step) >= w0 + (ts1 - ts0)
            &&& w1 <= w0 + (ts1 - ts0) ==> w1 + paced_sleep(anchor, SyncMode::Realtime, ts1, w1, step) == w0
                + (ts1 - ts0)
        }),
{
}

} // verus!
