//! The two ends of the bounded single-producer single-consumer queues that carry
//! samples between the feeder, the output callback and the analyser.
//!
//! The queues are `rtrb` ring buffers. Their other end lives on another thread, so
//! nothing is claimed here about how full a queue is: every function says only what
//! holds whatever the other end has done in the meantime.

use vstd::prelude::*;
use rtrb::Consumer;
use rtrb::Producer;
use rtrb::RingBuffer;

verus! {

/// Largest capacity that a queue is created with.
pub const MAX_RING_CAPACITY: usize = 0x0100_0000;

/// `rtrb::Producer`, the writing end of a queue, carried as an opaque value.
#[verifier::external_type_specification]
#[verifier::external_body]
#[verifier::reject_recursive_types(T)]
pub struct ExProducer<T>(Producer<T>);

/// `rtrb::Consumer`, the reading end of a queue, carried as an opaque value.
#[verifier::external_type_specification]
#[verifier::external_body]
#[verifier::reject_recursive_types(T)]
pub struct ExConsumer<T>(Consumer<T>);

/// The number of slots that the queue behind this writing end was made with. It is
/// fixed when the queue is made and no call changes it.
pub uninterp spec fn producer_capacity(producer: Producer<i16>) -> usize;

/// The number of slots that the queue behind this reading end was made with. It is
/// fixed when the queue is made and no call changes it.
pub uninterp spec fn consumer_capacity(consumer: Consumer<i16>) -> usize;

/// `RingBuffer::new`: a fresh queue of the given capacity, as its two ends, both of
/// which have that capacity. The capacity is bounded so that the allocation cannot
/// overflow.
#[verifier::external_body]
pub(crate) fn new_ring(capacity: usize) -> (ends: (Producer<i16>, Consumer<i16>))
    requires
        capacity <= MAX_RING_CAPACITY,
    ensures
        producer_capacity(ends.0) == capacity,
        consumer_capacity(ends.1) == capacity,
{
    RingBuffer::new(capacity)
}

/// `Producer::is_full`: whether no slot was free for writing when asked.
#[verifier::external_body]
pub(crate) fn producer_is_full(producer: &Producer<i16>) -> (full: bool) {
    producer.is_full()
}

/// `Producer::is_abandoned`: whether the consuming end had been dropped when asked.
#[verifier::external_body]
pub(crate) fn producer_is_abandoned(producer: &Producer<i16>) -> (abandoned: bool) {
    producer.is_abandoned()
}

/// `Producer::slots`: the number of slots that were free for writing when asked,
/// which is at most the capacity.
#[verifier::external_body]
pub(crate) fn producer_slots(producer: &Producer<i16>) -> (slots: usize)
    ensures
        slots <= producer_capacity(*producer),
{
    producer.slots()
}

/// `Producer::push`: tries to enqueue one sample; `false` means that the queue was
/// full and the sample was not enqueued. The capacity stays.
#[verifier::external_body]
pub(crate) fn push_sample(producer: &mut Producer<i16>, value: i16) -> (accepted: bool)
    ensures
        producer_capacity(*final(producer)) == producer_capacity(*old(producer)),
{
    producer.push(value).is_ok()
}

/// `Producer::push_entire_slice`: tries to enqueue the whole chunk; `false` means
/// that too few slots were free and nothing was enqueued. The capacity stays.
#[verifier::external_body]
pub(crate) fn push_chunk(producer: &mut Producer<i16>, chunk: &Vec<i16>) -> (accepted: bool)
    ensures
        producer_capacity(*final(producer)) == producer_capacity(*old(producer)),
{
    producer.push_entire_slice(chunk.as_slice()).is_ok()
}

/// `Consumer::pop`: dequeues one sample, or `None` where the queue was empty. The
/// capacity stays.
#[verifier::external_body]
pub(crate) fn pop_sample(consumer: &mut Consumer<i16>) -> (popped: Option<i16>)
    ensures
        consumer_capacity(*final(consumer)) == consumer_capacity(*old(consumer)),
{
    consumer.pop().ok()
}

/// `Consumer::slots`: the number of samples that were ready for reading when asked,
/// which is at most the capacity.
#[verifier::external_body]
pub(crate) fn consumer_slots(consumer: &Consumer<i16>) -> (slots: usize)
    ensures
        slots <= consumer_capacity(*consumer),
{
    consumer.slots()
}

/// `Consumer::read_chunk`, iterated to its end: dequeues exactly `n` samples, or
/// none where fewer than `n` were ready. The capacity stays.
#[verifier::external_body]
pub(crate) fn pop_window(consumer: &mut Consumer<i16>, n: usize) -> (window: Option<Vec<i16>>)
    ensures
        window matches Some(w) ==> w@.len() == n,
        consumer_capacity(*final(consumer)) == consumer_capacity(*old(consumer)),
{
    consumer.read_chunk(n).ok().map(|chunk| chunk.into_iter().collect())
}

} // verus!
