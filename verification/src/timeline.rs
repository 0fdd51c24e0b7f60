//! Conversions between sample-frame counts and time in microseconds.

use vstd::prelude::*;
use crate::fixed::floor_div;
use crate::position::spec_advance_target;

verus! {

/// Microseconds in one second.
pub const MICROS_PER_SECOND: u64 = 1_000_000;

/// Largest frame that a seek can name.
pub const MAX_SEEK_FRAME: u32 = 0x7fff_ffff;

/// The time at which frame `frames` starts, in microseconds, rounded down.
pub open spec fn spec_frames_to_micros(frames: u32, sample_rate: u32) -> int {
    frames * MICROS_PER_SECOND / (sample_rate as int)
}

/// The frame that is playing at `micros`, held to `MAX_SEEK_FRAME`.
pub open spec fn spec_micros_to_frames(micros: u64, sample_rate: u32) -> int {
    let frame = micros * sample_rate / (MICROS_PER_SECOND as int);
    if frame > MAX_SEEK_FRAME {
        MAX_SEEK_FRAME as int
    } else {
        frame
    }
}

/// The frame reached from `current` by moving `micros` microseconds, backward where
/// `micros` is negative: never before frame zero, never after `MAX_SEEK_FRAME`.
pub open spec fn spec_forward_target(current: u32, micros: i64, sample_rate: u32) -> int {
    let frame = current + micros * sample_rate / (MICROS_PER_SECOND as int);
    if frame < 0 {
        0
    } else if frame > MAX_SEEK_FRAME {
        MAX_SEEK_FRAME as int
    } else {
        frame
    }
}

/// The index of the first sample of a frame in an interleaved buffer.
pub open spec fn spec_sample_index(frame: u32, channels: u16) -> int {
    frame * channels
}

/// The time at which frame `frames` starts, in microseconds.
pub fn frames_to_micros(frames: u32, sample_rate: u32) -> (micros: u64)
    requires
        sample_rate > 0,
    ensures
        micros == spec_frames_to_micros(frames, sample_rate),
        micros * sample_rate <= frames * MICROS_PER_SECOND < (micros + 1) * sample_rate,
{
    let scaled: u64 = (frames as u64) * MICROS_PER_SECOND;
    let micros: u64 = scaled / (sample_rate as u64);
    proof {
        lemma_floor_quotient(scaled as int, sample_rate as int);
    }
    micros
}

/// The frame that is playing at `micros`.
pub fn micros_to_frames(micros: u64, sample_rate: u32) -> (frame: u32)
    ensures
        frame == spec_micros_to_frames(micros, sample_rate),
        frame <= MAX_SEEK_FRAME,
{
    assert(micros * sample_rate <= 0xffff_ffff_ffff_ffff * 0xffff_ffff) by (nonlinear_arith)
        requires
            0 <= micros <= 0xffff_ffff_ffff_ffff,
            0 <= sample_rate <= 0xffff_ffff,
    ;
    let scaled: u128 = (micros as u128) * (sample_rate as u128);
    let frame: u128 = scaled / (MICROS_PER_SECOND as u128);
    if frame > MAX_SEEK_FRAME as u128 {
        MAX_SEEK_FRAME
    } else {
        frame as u32
    }
}

/// The frame reached from `current` by moving `micros` microseconds.
pub fn forward_target(current: u32, micros: i64, sample_rate: u32) -> (frame: u32)
    ensures
        frame == spec_forward_target(current, micros, sample_rate),
        frame <= MAX_SEEK_FRAME,
{
    assert(-0x8000_0000_0000_0000 * 0xffff_ffff <= micros * sample_rate <= 0x8000_0000_0000_0000
        * 0xffff_ffff) by (nonlinear_arith)
        requires
            -0x8000_0000_0000_0000 <= micros <= 0x8000_0000_0000_0000,
            0 <= sample_rate <= 0xffff_ffff,
    ;
    let scaled: i128 = (micros as i128) * (sample_rate as i128);
    let delta: i128 = floor_div(scaled, MICROS_PER_SECOND as i128);
    let frame: i128 = (current as i128) + delta;
    if frame < 0 {
        0
    } else if frame > MAX_SEEK_FRAME as i128 {
        MAX_SEEK_FRAME
    } else {
        frame as u32
    }
}

/// The index of the first sample of `frame` in a buffer that interleaves
/// `channels` channels.
pub fn sample_index(frame: u32, channels: u16) -> (index: u64)
    ensures
        index == spec_sample_index(frame, channels),
{
    assert(frame * channels <= 0xffff_ffff * 0xffff) by (nonlinear_arith)
        requires
            0 <= frame <= 0xffff_ffff,
            0 <= channels <= 0xffff,
    ;
    (frame as u64) * (channels as u64)
}

/// Splits a time in whole seconds into the minutes and the seconds left over that
/// a clock label shows.
pub fn clock_parts(seconds: u32) -> (parts: (u32, u32))
    ensures
        parts.0 == seconds / 60,
        parts.1 == seconds % 60,
        parts.0 * 60 + parts.1 == seconds,
        parts.1 < 60,
{
    (seconds / 60, seconds % 60)
}

/// A rounded-down quotient lies within one divisor of the dividend.
pub proof fn lemma_floor_quotient(n: int, d: int)
    by (nonlinear_arith)
    requires
        0 <= n,
        0 < d,
    ensures
        (n / d) * d <= n < (n / d + 1) * d,
        0 <= n / d,
{
}

/// The duration of `frames` frames is their number divided by the sample rate, to
/// within one microsecond.
pub proof fn lemma_duration_is_frames_over_rate(frames: u32, sample_rate: u32)
    requires
        sample_rate > 0,
    ensures
        spec_frames_to_micros(frames, sample_rate) * sample_rate <= frames * MICROS_PER_SECOND,
        frames * MICROS_PER_SECOND < (spec_frames_to_micros(frames, sample_rate) + 1) * sample_rate,
{
    lemma_floor_quotient(frames * MICROS_PER_SECOND, sample_rate as int);
}

/// Time never runs backwards as the frame count grows.
pub proof fn lemma_time_monotone(earlier: u32, later: u32, sample_rate: u32)
    requires
        sample_rate > 0,
        earlier <= later,
    ensures
        spec_frames_to_micros(earlier, sample_rate) <= spec_frames_to_micros(later, sample_rate),
{
    let a = earlier * MICROS_PER_SECOND;
    let b = later * MICROS_PER_SECOND;
    let d = sample_rate as int;
    lemma_floor_quotient(a, d);
    lemma_floor_quotient(b, d);
    assert(a / d <= b / d) by (nonlinear_arith)
        requires
            0 < d,
            a <= b,
            (a / d) * d <= a,
            b < (b / d + 1) * d,
    ;
}

/// Without a seek the position read never decreases: advancing the counter by any
/// number of frames gives a time that is not before the time it gave.
pub proof fn lemma_position_never_decreases(observed: u32, frames: u32, sample_rate: u32)
    requires
        sample_rate > 0,
    ensures
        spec_frames_to_micros(observed, sample_rate) <= spec_frames_to_micros(
            spec_advance_target(observed, frames),
            sample_rate,
        ),
{
    lemma_time_monotone(
        observed,
        spec_advance_target(observed, frames),
        sample_rate,
    );
}

/// A seek to `micros` names a frame whose start is not after `micros` and less than
/// one frame and one microsecond before it, unless the seek was held to
/// `MAX_SEEK_FRAME`.
pub proof fn lemma_seek_round_trip(micros: u64, sample_rate: u32)
    requires
        sample_rate > 0,
        micros * sample_rate / (MICROS_PER_SECOND as int) <= MAX_SEEK_FRAME,
    ensures
        spec_frames_to_micros(spec_micros_to_frames(micros, sample_rate) as u32, sample_rate)
            <= micros,
        (micros - spec_frames_to_micros(
            spec_micros_to_frames(micros, sample_rate) as u32,
            sample_rate,
        ) - 1) * sample_rate < MICROS_PER_SECOND,
{
    let r = sample_rate as int;
    let n = micros * sample_rate;
    let f = n / (MICROS_PER_SECOND as int);
    assert(0 <= n) by (nonlinear_arith)
        requires
            0 <= micros,
            0 <= sample_rate,
            n == micros * sample_rate,
    ;
    lemma_floor_quotient(n, MICROS_PER_SECOND as int);
    let m = f * MICROS_PER_SECOND;
    lemma_floor_quotient(m, r);
    let back = m / r;
    assert(back <= micros) by (nonlinear_arith)
        requires
            0 < r,
            back * r <= m,
            m <= micros * r,
    ;
    assert((micros - back - 1) * r < 1_000_000) by (nonlinear_arith)
        requires
            0 < r,
            m < (back + 1) * r,
            micros * r < m + 1_000_000,
    ;
}

} // verus!
