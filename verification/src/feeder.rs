//! The decoder feeder: it keeps the input queue supplied with decoded samples and
//! reconciles its own progress with seeks.
//!
//! The feeder decides; whoever owns the decoder sleeps, reads and seeks. One round
//! is: `plan`, then (for a `Read` plan) a read of at most `count` samples from the
//! decoder's cursor, then `deliver` with what the read gave, then the action that
//! `deliver` returns.

use vstd::prelude::*;
use rtrb::Producer;
use crate::analyzer::WINDOW_SIZE;
use crate::position::{frames_in, PlaybackPosition, StallFlag};
use crate::ring::{
    producer_capacity, producer_is_abandoned, producer_is_full, producer_slots, push_chunk,
};

verus! {

/// What the feeder wants next.
#[derive(Clone, Copy, Debug)]
pub enum FeederPlan {
    /// Nobody reads the input queue any more: the session has been replaced, stop
    /// feeding.
    Stop,
    /// The input queue is full: back off briefly and plan again.
    Wait,
    /// Read `count` samples from the decoder's cursor. `observed` is the playback
    /// position at the time of planning.
    Read { observed: u32, count: usize },
}

/// What a read from the decoder gave.
#[derive(Debug)]
pub enum ReadOutcome {
    /// The samples read: at most as many as were asked for, none if the source is
    /// exhausted.
    Samples(Vec<i16>),
    /// The source has no more samples.
    Exhausted,
    /// The decoder failed.
    Failed,
}

/// What the owner of the decoder does after a delivery.
#[derive(Clone, Copy, Debug)]
pub enum FeederAction {
    /// Go on with the next round.
    Continue,
    /// Move the decoder's cursor to this frame, then go on with the next round.
    Reseek(u32),
    /// The source is exhausted: stop feeding.
    Finished,
    /// Decoding failed: stop feeding; playback is reported as stalled.
    Stalled,
}

/// The plan for a queue that reports `abandoned`, `full` and `slots` free slots:
/// stop where the queue has lost its reader, wait while nothing can be written, else
/// read one chunk of at most a window's length.
pub open spec fn spec_chunk_plan(abandoned: bool, full: bool, slots: usize, observed: u32)
    -> FeederPlan {
    if abandoned {
        FeederPlan::Stop
    } else if full || slots == 0 {
        FeederPlan::Wait
    } else {
        FeederPlan::Read {
            observed,
            count: if slots < WINDOW_SIZE {
                slots
            } else {
                WINDOW_SIZE
            },
        }
    }
}

/// A chunk of exactly `count` samples: the samples read, cut to `count`, with
/// silence behind them where they are fewer.
pub open spec fn padded_chunk(samples: Seq<i16>, count: usize) -> Seq<i16> {
    Seq::new(
        count as nat,
        |i: int|
            if i < samples.len() {
                samples[i]
            } else {
                0i16
            },
    )
}

/// What follows the attempt to advance the position: if the position was still the
/// observed one, it has been advanced and feeding goes on; if not, it was set from
/// outside, and the decoder's cursor follows it.
pub open spec fn spec_reconcile(swap: Result<u32, u32>) -> FeederAction {
    match swap {
        Ok(_) => FeederAction::Continue,
        Err(current) => FeederAction::Reseek(current),
    }
}

/// What a delivery decides. Without a plan nothing happens. A failed read stalls,
/// an exhausted source finishes. Samples are enqueued as one padded chunk: if the
/// queue took it (`written`), the position is advanced and `swap` reconciled; if
/// not, the cursor goes back to where the chunk began.
pub open spec fn delivery_action(
    pending: Option<(u32, usize)>,
    outcome: ReadOutcome,
    written: bool,
    swap: Result<u32, u32>,
) -> FeederAction {
    match pending {
        None => FeederAction::Continue,
        Some((observed, count)) => match outcome {
            ReadOutcome::Failed => FeederAction::Stalled,
            ReadOutcome::Exhausted => FeederAction::Finished,
            ReadOutcome::Samples(samples) => if samples@.len() == 0 {
                FeederAction::Finished
            } else if !written {
                FeederAction::Reseek(observed)
            } else {
                spec_reconcile(swap)
            },
        },
    }
}

/// Plans one round from what the queue and the position report.
pub fn chunk_plan(abandoned: bool, full: bool, slots: usize, observed: u32) -> (plan: FeederPlan)
    ensures
        plan == spec_chunk_plan(abandoned, full, slots, observed),
        plan matches FeederPlan::Read { count, .. } ==> 0 < count <= WINDOW_SIZE,
{
    if abandoned {
        FeederPlan::Stop
    } else if full || slots == 0 {
        FeederPlan::Wait
    } else if slots < WINDOW_SIZE {
        FeederPlan::Read { observed, count: slots }
    } else {
        FeederPlan::Read { observed, count: WINDOW_SIZE }
    }
}

/// Cuts or pads the samples read to a chunk of exactly `count` samples.
pub fn pad_chunk(samples: Vec<i16>, count: usize) -> (chunk: Vec<i16>)
    ensures
        chunk@ == padded_chunk(samples@, count),
        chunk@.len() == count,
{
    let mut chunk = samples;
    chunk.truncate(count);
    while chunk.len() < count
        invariant
            chunk@.len() <= count,
            chunk@.len() >= samples@.len() || chunk@.len() == count,
            forall|i: int| 0 <= i < chunk@.len() ==> chunk@[i] == padded_chunk(samples@, count)[i],
        decreases count - chunk@.len(),
    {
        chunk.push(0);
    }
    assert(chunk@ =~= padded_chunk(samples@, count));
    chunk
}

/// Decides what follows the attempt to advance the position.
pub fn reconcile(swap: Result<u32, u32>) -> (action: FeederAction)
    ensures
        action == spec_reconcile(swap),
{
    match swap {
        Ok(_) => FeederAction::Continue,
        Err(current) => FeederAction::Reseek(current),
    }
}

/// The feeder's side of one playback session.
pub struct Feeder {
    position: PlaybackPosition,
    stall: StallFlag,
    producer: Producer<i16>,
    channels: u16,
    observed: Option<u32>,
    pending: Option<(u32, usize)>,
}

impl Feeder {
    /// The position observed at the start of the round in progress. It is kept
    /// while the feeder waits for room, so that a seek made meanwhile is noticed
    /// when the round ends.
    pub closed spec fn observed(&self) -> Option<u32> {
        self.observed
    }

    /// The plan that awaits delivery: the position observed and the chunk length.
    pub closed spec fn pending(&self) -> Option<(u32, usize)> {
        self.pending
    }

    /// The number of interleaved channels of the source.
    pub closed spec fn spec_channels(&self) -> u16 {
        self.channels
    }

    /// The number of slots of the input queue.
    pub closed spec fn queue_capacity(&self) -> usize {
        producer_capacity(self.producer)
    }

    /// The source has at least one channel, and a pending chunk belongs to the
    /// round in progress and is neither empty nor longer than a window.
    pub open spec fn wf(&self) -> bool {
        &&& self.spec_channels() > 0
        &&& self.pending() matches Some((observed, count)) ==> {
            &&& self.observed() == Some(observed)
            &&& 0 < count <= WINDOW_SIZE
        }
    }

    /// A feeder that writes to `producer` and follows `position`.
    pub fn new(position: PlaybackPosition, stall: StallFlag, producer: Producer<i16>, channels: u16)
        -> (feeder: Feeder)
        requires
            channels > 0,
        ensures
            feeder.wf(),
            feeder.observed() is None,
            feeder.pending() is None,
            feeder.spec_channels() == channels,
            feeder.queue_capacity() == producer_capacity(producer),
    {
        Feeder { position, stall, producer, channels, observed: None, pending: None }
    }

    /// Plans the next step. A new round begins by observing the position; a round
    /// that was waiting keeps its observation. Then the queue is asked for room,
    /// and the plan is the one that `spec_chunk_plan` gives for what was reported.
    /// A `Read` plan is remembered for the delivery.
    pub fn plan(&mut self) -> (plan: FeederPlan)
        requires
            old(self).wf(),
        ensures
            final(self).wf(),
            final(self).spec_channels() == old(self).spec_channels(),
            final(self).queue_capacity() == old(self).queue_capacity(),
            exists|abandoned: bool, full: bool, slots: usize, observed: u32|
                {
                    &&& plan == spec_chunk_plan(abandoned, full, slots, observed)
                    &&& slots <= old(self).queue_capacity()
                    &&& old(self).observed() matches Some(kept) ==> observed == kept
                    &&& final(self).observed() == (if abandoned {
                        None
                    } else {
                        Some(observed)
                    })
                },
            final(self).pending() == (match plan {
                FeederPlan::Read { observed, count } => Some((observed, count)),
                _ => None,
            }),
            plan matches FeederPlan::Read { count, .. } ==> 0 < count <= WINDOW_SIZE && count
                <= old(self).queue_capacity(),
    {
        let observed = match self.observed {
            Some(kept) => kept,
            None => self.position.frames(),
        };
        let abandoned = producer_is_abandoned(&self.producer);
        let full = producer_is_full(&self.producer);
        let slots = producer_slots(&self.producer);
        let plan = chunk_plan(abandoned, full, slots, observed);
        match plan {
            FeederPlan::Stop => {
                self.observed = None;
                self.pending = None;
            },
            FeederPlan::Wait => {
                self.observed = Some(observed);
                self.pending = None;
            },
            FeederPlan::Read { observed, count } => {
                self.observed = Some(observed);
                self.pending = Some((observed, count));
            },
        }
        assert({
            &&& plan == spec_chunk_plan(abandoned, full, slots, observed)
            &&& slots <= old(self).queue_capacity()
            &&& old(self).observed() matches Some(kept) ==> observed == kept
            &&& self.observed() == (if abandoned {
                None
            } else {
                Some(observed)
            })
        });
        plan
    }

    /// Gives up feeding after a failure outside a read, such as a seek that the
    /// decoder refused: the round is dropped and playback is reported as stalled.
    pub fn fail(&mut self) -> (action: FeederAction)
        requires
            old(self).wf(),
        ensures
            final(self).wf(),
            final(self).observed() is None,
            final(self).pending() is None,
            final(self).spec_channels() == old(self).spec_channels(),
            final(self).queue_capacity() == old(self).queue_capacity(),
            action == FeederAction::Stalled,
    {
        self.observed = None;
        self.pending = None;
        self.stall.raise();
        FeederAction::Stalled
    }

    /// Takes what the read gave and decides how to go on. Samples are padded with
    /// silence to the planned length and enqueued; then the position is advanced by
    /// the frames enqueued, on condition that it still is the observed one. That
    /// ends the round. Without a pending plan nothing happens.
    pub fn deliver(&mut self, outcome: ReadOutcome) -> (action: FeederAction)
        requires
            old(self).wf(),
        ensures
            final(self).wf(),
            final(self).pending() is None,
            final(self).observed() == (if old(self).pending() is Some {
                None
            } else {
                old(self).observed()
            }),
            final(self).spec_channels() == old(self).spec_channels(),
            final(self).queue_capacity() == old(self).queue_capacity(),
            exists|written: bool, swap: Result<u32, u32>|
                action == delivery_action(old(self).pending(), outcome, written, swap),
    {
        let pending = self.pending;
        if pending.is_some() {
            self.observed = None;
            self.pending = None;
        }
        match pending {
            None => {
                assert(FeederAction::Continue == delivery_action(pending, outcome, true, Ok(0u32)));
                FeederAction::Continue
            },
            Some((observed, count)) => match outcome {
                ReadOutcome::Failed => {
                    self.stall.raise();
                    assert(FeederAction::Stalled == delivery_action(
                        pending,
                        outcome,
                        true,
                        Ok(0u32),
                    ));
                    FeederAction::Stalled
                },
                ReadOutcome::Exhausted => {
                    assert(FeederAction::Finished == delivery_action(
                        pending,
                        outcome,
                        true,
                        Ok(0u32),
                    ));
                    FeederAction::Finished
                },
                ReadOutcome::Samples(samples) => {
                    if samples.len() == 0 {
                        assert(FeederAction::Finished == delivery_action(
                            pending,
                            outcome,
                            true,
                            Ok(0u32),
                        ));
                        FeederAction::Finished
                    } else {
                        let chunk = pad_chunk(samples, count);
                        let written = push_chunk(&mut self.producer, &chunk);
                        if written {
                            let frames = frames_in(count, self.channels);
                            let swap = self.position.try_advance(observed, frames);
                            let action = reconcile(swap);
                            assert(action == delivery_action(pending, outcome, true, swap));
                            action
                        } else {
                            assert(FeederAction::Reseek(observed) == delivery_action(
                                pending,
                                outcome,
                                false,
                                Ok(0u32),
                            ));
                            FeederAction::Reseek(observed)
                        }
                    }
                },
            },
        }
    }
}

/// Reconciliation follows a seek exactly: when the position no longer holds what
/// the feeder observed, the decoder's cursor is sent to the frame it holds now.
pub proof fn lemma_reseek_follows_seek(observed: u32, count: usize, samples: Vec<i16>, current: u32)
    requires
        samples@.len() > 0,
    ensures
        delivery_action(
            Some((observed, count)),
            ReadOutcome::Samples(samples),
            true,
            Err(current),
        ) == FeederAction::Reseek(current),
{
}

} // verus!
