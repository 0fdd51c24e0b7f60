//! The playback position: a counter of consumed sample-frames that the feeder, the
//! output callback and the control surface share, and the flag by which a feeder
//! reports that it stalled.
//!
//! Other threads may change the counter between any two calls, so nothing is
//! claimed about the values read from it.

use vstd::prelude::*;
use std::sync::atomic::AtomicBool;
use std::sync::atomic::AtomicU32;
use std::sync::atomic::Ordering;
use std::sync::Arc;

verus! {

/// The position after `frames` more frames: the sum, held to the counter's range.
pub open spec fn spec_advance_target(observed: u32, frames: u32) -> u32 {
    if observed + frames > u32::MAX {
        u32::MAX
    } else {
        (observed + frames) as u32
    }
}

/// The number of whole frames in `samples` interleaved samples.
pub open spec fn spec_frames_in(samples: usize, channels: u16) -> int {
    if (samples as int) / (channels as int) > u32::MAX {
        u32::MAX as int
    } else {
        (samples as int) / (channels as int)
    }
}

/// The position after `frames` more frames. It is never before `observed` and at
/// most `frames` after it.
pub fn advance_target(observed: u32, frames: u32) -> (target: u32)
    ensures
        target == spec_advance_target(observed, frames),
        observed <= target <= observed + frames,
{
    if frames > u32::MAX - observed {
        u32::MAX
    } else {
        observed + frames
    }
}

/// The number of whole frames in `samples` interleaved samples.
pub fn frames_in(samples: usize, channels: u16) -> (frames: u32)
    requires
        channels > 0,
    ensures
        frames == spec_frames_in(samples, channels),
{
    let whole: usize = samples / (channels as usize);
    if whole > u32::MAX as usize {
        u32::MAX
    } else {
        whole as u32
    }
}

/// `Arc::clone` on the position counter: another handle to the same counter.
#[verifier::external_body]
fn share_counter(counter: &Arc<AtomicU32>) -> (shared: Arc<AtomicU32>)
    ensures
        shared == counter,
{
    Arc::clone(counter)
}

/// `Arc::clone` on the stall flag: another handle to the same flag.
#[verifier::external_body]
fn share_flag(flag: &Arc<AtomicBool>) -> (shared: Arc<AtomicBool>)
    ensures
        shared == flag,
{
    Arc::clone(flag)
}

/// A handle to the shared playback position.
pub struct PlaybackPosition {
    counter: Arc<AtomicU32>,
}

impl PlaybackPosition {
    /// A fresh counter, at frame zero.
    pub fn new() -> (position: PlaybackPosition) {
        PlaybackPosition { counter: Arc::new(AtomicU32::new(0)) }
    }

    /// Another handle to the same counter.
    pub fn share(&self) -> (shared: PlaybackPosition)
        ensures
            shared == *self,
    {
        PlaybackPosition { counter: share_counter(&self.counter) }
    }

    /// The frame that the counter holds now.
    pub fn frames(&self) -> (frame: u32) {
        self.counter.load(Ordering::Relaxed)
    }

    /// A seek: overwrites the counter with `frame`.
    pub fn seek(&self, frame: u32) {
        self.counter.store(frame, Ordering::Relaxed)
    }

    /// Advances the counter from `observed` by `frames`, unless it no longer holds
    /// `observed`: then it is left alone. On success the result is `Ok` of the
    /// position stored, which is `spec_advance_target(observed, frames)`; on failure
    /// it is `Err` of the value that the counter was found to hold.
    pub fn try_advance(&self, observed: u32, frames: u32) -> (swap: Result<u32, u32>)
        ensures
            swap matches Ok(stored) ==> stored == spec_advance_target(observed, frames),
    {
        let target = advance_target(observed, frames);
        match self.counter.compare_exchange(observed, target, Ordering::Relaxed, Ordering::Relaxed) {
            Ok(_) => Ok(target),
            Err(found) => Err(found),
        }
    }
}

/// A handle to the flag that a feeder raises when decoding fails mid-stream.
pub struct StallFlag {
    flag: Arc<AtomicBool>,
}

impl StallFlag {
    /// A fresh flag, lowered.
    pub fn new() -> (flag: StallFlag) {
        StallFlag { flag: Arc::new(AtomicBool::new(false)) }
    }

    /// Another handle to the same flag.
    pub fn share(&self) -> (shared: StallFlag)
        ensures
            shared == *self,
    {
        StallFlag { flag: share_flag(&self.flag) }
    }

    /// Raises the flag.
    pub fn raise(&self) {
        self.flag.store(true, Ordering::Relaxed)
    }

    /// Whether the flag is raised now.
    pub fn is_raised(&self) -> (raised: bool) {
        self.flag.load(Ordering::Relaxed)
    }
}

} // verus!
