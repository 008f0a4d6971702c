//! Time keeping for the frame loop: a time service anchored at context
//! initialization, and a frame clock whose pacing arithmetic is exact.

use vstd::prelude::*;
use std::sync::Arc;
use crate::context::{instant_now, ContextData};
use crate::error::GameError;

verus! {

/// The standard time service: measures from the moment its context was
/// initialized.
pub struct TimeStd {
    context_data: Arc<ContextData>,
}

impl TimeStd {
    /// The context data this service measures from.
    pub closed spec fn context_spec(&self) -> Arc<ContextData> {
        self.context_data
    }

    /// A time service anchored at the given context.
    pub fn from(context: Arc<ContextData>) -> (r: Result<TimeStd, GameError>)
        ensures
            r matches Ok(t) && t.context_spec() == context,
    {
        Ok(TimeStd { context_data: context })
    }

    /// A fresh clock that has not ticked yet.
    pub fn new_clock(&self) -> (c: Clock)
        ensures
            c.frames_spec() == 0,
    {
        let time_now = instant_now();
        Clock { start_time: time_now, previous_time: time_now, frames: 0 }
    }
}

/// A frame clock: counts the frames since its first tick and remembers when
/// it started and when it last ticked. The backend's tick loop reads the
/// timestamps; the pacing arithmetic lives in `frame_delay_ms`.
pub struct Clock {
    pub start_time: std::time::Instant,
    pub previous_time: std::time::Instant,
    pub frames: u64,
}

/// How long a frame loop should sleep to hold a frame rate: the time by
/// which the clock is ahead of schedule, in milliseconds. After `frames`
/// frames at `frame_rate` frames per second, `frames * 1000 / frame_rate`
/// milliseconds should have passed; the delay is the part of that not yet
/// spent, zero when the loop is on time or late, and capped at `u64::MAX`.
pub open spec fn frame_delay_spec(frames: nat, frame_rate: nat, actual_ms: nat) -> int
    recommends
        frame_rate >= 1,
{
    let expected = (frames * 1000) as int / (frame_rate as int);
    let delta = if expected > actual_ms {
        expected - actual_ms
    } else {
        0
    };
    if delta > u64::MAX {
        u64::MAX as int
    } else {
        delta
    }
}

impl Clock {
    /// The number of frames counted so far.
    pub closed spec fn frames_spec(&self) -> u64 {
        self.frames
    }

    pub fn get_frames(&self) -> (r: u64)
        ensures
            r == self.frames_spec(),
    {
        self.frames
    }

    /// The milliseconds a frame loop should sleep after `frames` frames at
    /// `frame_rate` frames per second, `actual_ms` milliseconds after the
    /// clock started.
    pub fn frame_delay_ms(frames: u64, frame_rate: u16, actual_ms: u64) -> (r: u64)
        requires
            frame_rate >= 1,
        ensures
            r == frame_delay_spec(frames as nat, frame_rate as nat, actual_ms as nat),
    {
        let expected: u128 = (frames as u128) * 1000 / (frame_rate as u128);
        let delta: u128 = if expected > actual_ms as u128 {
            expected - actual_ms as u128
        } else {
            0
        };
        if delta > u64::MAX as u128 {
            u64::MAX
        } else {
            delta as u64
        }
    }
}

} // verus!
