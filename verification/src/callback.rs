//! The output callback: the routine that the device invokes to have its buffer
//! filled. It drains the input queue, taps every value into the analysis queue and
//! advances the playback position. It never blocks and never fails.

use vstd::prelude::*;
use rtrb::Consumer;
use rtrb::Producer;
use crate::position::{frames_in, spec_frames_in, PlaybackPosition};
use crate::ring::{consumer_capacity, pop_sample, producer_capacity, push_sample};

verus! {

/// The value played for one frame slot: the sample popped, or silence on underrun.
pub open spec fn frame_value(popped: Option<i16>) -> i16 {
    match popped {
        Some(value) => value,
        None => 0i16,
    }
}

/// The drop count after one more tap: it grows by one where the analysis queue
/// refused the value, and stops at the counter's maximum.
pub open spec fn spec_count_drop(dropped: u64, accepted: bool) -> u64 {
    if accepted || dropped == u64::MAX {
        dropped
    } else {
        (dropped + 1) as u64
    }
}

/// The value played for one frame slot.
pub fn value_or_silence(popped: Option<i16>) -> (value: i16)
    ensures
        value == frame_value(popped),
{
    match popped {
        Some(value) => value,
        None => 0,
    }
}

/// Counts a tap that the analysis queue may have refused.
pub fn count_drop(dropped: u64, accepted: bool) -> (count: u64)
    ensures
        count == spec_count_drop(dropped, accepted),
        count >= dropped,
{
    if accepted || dropped == u64::MAX {
        dropped
    } else {
        dropped + 1
    }
}

/// Fills `samples`: each slot gets the next sample of the input queue, or silence
/// where the queue is empty, and the same value is offered to the analysis queue.
/// Returns how many values the analysis queue refused; they are dropped.
pub fn process_samples(
    samples: &mut [i16],
    input_consumer: &mut Consumer<i16>,
    output_producer: &mut Producer<i16>,
) -> (dropped: u64)
    ensures
        final(samples)@.len() == old(samples)@.len(),
        dropped <= old(samples)@.len(),
        consumer_capacity(*final(input_consumer)) == consumer_capacity(*old(input_consumer)),
        producer_capacity(*final(output_producer)) == producer_capacity(*old(output_producer)),
{
    let n: usize = samples.len();
    let mut dropped: u64 = 0;
    let mut i: usize = 0;
    while i < n
        invariant
            i <= n,
            samples@.len() == n,
            dropped <= i,
            consumer_capacity(*input_consumer) == consumer_capacity(*old(input_consumer)),
            producer_capacity(*output_producer) == producer_capacity(*old(output_producer)),
        decreases n - i,
    {
        let value = value_or_silence(pop_sample(input_consumer));
        samples[i] = value;
        let accepted = push_sample(output_producer, value);
        dropped = count_drop(dropped, accepted);
        i = i + 1;
    }
    dropped
}

/// The output callback's side of one playback session.
pub struct OutputCallback {
    position: PlaybackPosition,
    input: Consumer<i16>,
    tap: Producer<i16>,
    channels: u16,
    dropped: u64,
}

impl OutputCallback {
    /// How many tapped values the analysis queue has refused so far.
    pub closed spec fn spec_dropped(&self) -> u64 {
        self.dropped
    }

    /// The number of interleaved channels of the source.
    pub closed spec fn spec_channels(&self) -> u16 {
        self.channels
    }

    /// The number of slots of the input queue.
    pub closed spec fn input_capacity(&self) -> usize {
        consumer_capacity(self.input)
    }

    /// The number of slots of the analysis queue.
    pub closed spec fn tap_capacity(&self) -> usize {
        producer_capacity(self.tap)
    }

    /// The source has at least one channel.
    pub open spec fn wf(&self) -> bool {
        self.spec_channels() > 0
    }

    /// A callback that plays from `input`, taps into `tap` and advances `position`.
    pub fn new(position: PlaybackPosition, input: Consumer<i16>, tap: Producer<i16>, channels: u16)
        -> (callback: OutputCallback)
        requires
            channels > 0,
        ensures
            callback.wf(),
            callback.spec_dropped() == 0,
            callback.spec_channels() == channels,
            callback.input_capacity() == consumer_capacity(input),
            callback.tap_capacity() == producer_capacity(tap),
    {
        OutputCallback { position, input, tap, channels, dropped: 0 }
    }

    /// How many tapped values the analysis queue has refused so far.
    pub fn dropped(&self) -> (count: u64)
        ensures
            count == self.spec_dropped(),
    {
        self.dropped
    }

    /// One invocation by the device: fills `samples`, then advances the position by
    /// the frames filled, on condition that it still is what it was when the
    /// invocation began. Returns the number of frames filled, which is the number
    /// of whole frames in `samples`. The drop count never decreases.
    pub fn run(&mut self, samples: &mut [i16]) -> (frames: u32)
        requires
            old(self).wf(),
        ensures
            frames == spec_frames_in(old(samples)@.len() as usize, old(self).spec_channels()),
            final(self).wf(),
            final(self).spec_channels() == old(self).spec_channels(),
            final(self).input_capacity() == old(self).input_capacity(),
            final(self).tap_capacity() == old(self).tap_capacity(),
            final(samples)@.len() == old(samples)@.len(),
            old(self).spec_dropped() <= final(self).spec_dropped(),
            final(self).spec_dropped() - old(self).spec_dropped() <= old(samples)@.len(),
    {
        let observed = self.position.frames();
        let refused = process_samples(samples, &mut self.input, &mut self.tap);
        self.dropped = if refused > u64::MAX - self.dropped {
            u64::MAX
        } else {
            self.dropped + refused
        };
        let frames = frames_in(samples.len(), self.channels);
        let _ = self.position.try_advance(observed, frames);
        frames
    }
}

} // verus!
