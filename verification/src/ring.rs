//! The trusted face of the `ringbuf` crate: its two halves as opaque types, and what
//! this library takes on trust about the calls it makes on them.
//!
//! A ring is shared by exactly one producer half and one consumer half, which may run
//! on different threads. Between two calls on one half the other half may have moved,
//! so nothing here speaks of "what the ring holds right now" as seen from one half.
//! What is said of a half is said over four things that only that half's own calls
//! change:
//!
//! - what the ring has taken in through the producer, and handed out through the
//!   consumer, since it was made;
//! - the free places that the producer knows of, and the waiting samples that the
//!   consumer knows of. Both are floors: the other half can only add to them, a
//!   consumer by taking samples out, a producer by putting samples in.
//!
//! Only a caller that holds both halves at once sees the ring stand still; the one
//! call made with both in hand says what the ring holds then.

use vstd::prelude::*;

verus! {

#[verifier::external_type_specification]
#[verifier::external_body]
#[verifier::reject_recursive_types(T)]
pub struct ExProducer<T>(ringbuf::Producer<T>);

#[verifier::external_type_specification]
#[verifier::external_body]
#[verifier::reject_recursive_types(T)]
pub struct ExConsumer<T>(ringbuf::Consumer<T>);

/// Which ring a producer half belongs to.
pub uninterp spec fn producer_ring(p: ringbuf::Producer<i16>) -> nat;

/// The number of samples that the ring behind a producer half can hold at once. It is
/// fixed when the ring is made.
pub uninterp spec fn producer_capacity(p: ringbuf::Producer<i16>) -> nat;

/// Every sample that the ring has taken in through a producer half since it was made,
/// oldest first.
pub uninterp spec fn producer_accepted(p: ringbuf::Producer<i16>) -> Seq<i16>;

/// The free places of the ring that a producer half knows of: those it last counted,
/// less those it has filled since. The ring has at least that many.
pub uninterp spec fn producer_room(p: ringbuf::Producer<i16>) -> nat;

/// Which ring a consumer half belongs to.
pub uninterp spec fn consumer_ring(c: ringbuf::Consumer<i16>) -> nat;

/// The number of samples that the ring behind a consumer half can hold at once.
pub uninterp spec fn consumer_capacity(c: ringbuf::Consumer<i16>) -> nat;

/// Every sample that the ring has handed out through a consumer half since it was
/// made, oldest first.
pub uninterp spec fn consumer_released(c: ringbuf::Consumer<i16>) -> Seq<i16>;

/// The samples that a consumer half knows to be waiting in the ring, oldest first:
/// those it last saw, less those it has taken out since. The ring holds at least
/// these, and they are the next to come out.
pub uninterp spec fn consumer_ready(c: ringbuf::Consumer<i16>) -> Seq<i16>;

/// `ringbuf::RingBuffer::new(capacity).split()`: the two halves of one new ring that
/// holds up to `capacity` samples and has neither taken in nor handed out any yet.
/// `new` allocates one slot more than `capacity`; the bound keeps that allocation
/// within what a `Vec` accepts.
#[verifier::external_body]
pub(crate) fn ring_with_capacity(capacity: usize) -> (halves: (
    ringbuf::Producer<i16>,
    ringbuf::Consumer<i16>,
))
    requires
        (capacity + 1) * 2 <= isize::MAX,
    ensures
        producer_ring(halves.0) == consumer_ring(halves.1),
        producer_capacity(halves.0) == capacity,
        producer_accepted(halves.0) == Seq::<i16>::empty(),
        producer_room(halves.0) == capacity,
        consumer_capacity(halves.1) == capacity,
        consumer_released(halves.1) == Seq::<i16>::empty(),
        consumer_ready(halves.1) == Seq::<i16>::empty(),
{
    ringbuf::RingBuffer::new(capacity).split()
}

/// `ringbuf::Producer::push`: appends `sample`, or hands it back in `Err` where the
/// ring is full at that moment. A producer that knows of a free place is not refused,
/// and has then one place less to count on. A ring can only be full once it has taken
/// in at least as many samples as it can hold.
#[verifier::external_body]
pub(crate) fn producer_push(p: &mut ringbuf::Producer<i16>, sample: i16) -> (r: Result<(), i16>)
    ensures
        producer_ring(*final(p)) == producer_ring(*old(p)),
        producer_capacity(*final(p)) == producer_capacity(*old(p)),
        producer_room(*old(p)) > 0 ==> r is Ok && producer_room(*final(p)) == producer_room(*old(p))
            - 1,
        producer_room(*old(p)) == 0 ==> producer_room(*final(p)) == 0,
        r is Ok ==> producer_accepted(*final(p)) == producer_accepted(*old(p)).push(sample),
        r matches Err(rejected) ==> rejected == sample
            && producer_accepted(*final(p)) == producer_accepted(*old(p))
            && producer_accepted(*old(p)).len() >= producer_capacity(*old(p)),
{
    p.push(sample)
}

/// `ringbuf::Producer::remaining`: the free places of the ring when the call was
/// made. The consumer can only have freed more since the producer last counted, so
/// the count is no less than what the producer knew, and is what it knows now.
#[verifier::external_body]
pub(crate) fn producer_remaining(p: &mut ringbuf::Producer<i16>) -> (n: usize)
    ensures
        producer_ring(*final(p)) == producer_ring(*old(p)),
        producer_capacity(*final(p)) == producer_capacity(*old(p)),
        producer_accepted(*final(p)) == producer_accepted(*old(p)),
        producer_room(*old(p)) <= n <= producer_capacity(*old(p)),
        producer_room(*final(p)) == n,
{
    p.remaining()
}

/// `ringbuf::Consumer::pop`: removes the oldest sample of the ring and gives it, or
/// gives `None` where the ring is empty at that moment. Where the consumer knows of a
/// waiting sample, that sample comes out. Otherwise which of the two happens, and
/// which sample comes out, depends on what the producer half has pushed by then. A
/// sample that is given has left the ring through this half; `None` takes nothing
/// out.
#[verifier::external_body]
pub(crate) fn consumer_pop(c: &mut ringbuf::Consumer<i16>) -> (r: Option<i16>)
    ensures
        consumer_ring(*final(c)) == consumer_ring(*old(c)),
        consumer_capacity(*final(c)) == consumer_capacity(*old(c)),
        consumer_ready(*old(c)).len() > 0 ==> r == Some(consumer_ready(*old(c))[0])
            && consumer_ready(*final(c)) == consumer_ready(*old(c)).drop_first(),
        consumer_ready(*old(c)).len() == 0 ==> consumer_ready(*final(c)) == Seq::<i16>::empty(),
        r matches Some(sample) ==> consumer_released(*final(c)) == consumer_released(*old(c)).push(
            sample,
        ),
        r is None ==> consumer_released(*final(c)) == consumer_released(*old(c)),
{
    c.pop()
}

/// `ringbuf::Consumer::len`: the number of samples that waited in the ring when the
/// call was made: never more than the ring can hold, and no fewer than the consumer
/// knows of.
#[verifier::external_body]
pub(crate) fn consumer_len(c: &ringbuf::Consumer<i16>) -> (n: usize)
    ensures
        consumer_ready(*c).len() <= n <= consumer_capacity(*c),
{
    c.len()
}

/// `ringbuf::Consumer::remaining`, called with both halves of one ring in hand. While
/// both are held neither can move, so the ring holds exactly what it has taken in and
/// not yet handed out, in that order: what it has handed out is the head of what it
/// has taken in. The result is the capacity less the samples that wait. Both halves
/// then know all of it.
#[verifier::external_body]
pub(crate) fn consumer_remaining(c: &mut ringbuf::Consumer<i16>, p: &mut ringbuf::Producer<i16>) -> (n:
    usize)
    requires
        producer_ring(*old(p)) == consumer_ring(*old(c)),
    ensures
        producer_ring(*final(p)) == producer_ring(*old(p)),
        producer_capacity(*final(p)) == producer_capacity(*old(p)),
        producer_accepted(*final(p)) == producer_accepted(*old(p)),
        consumer_ring(*final(c)) == consumer_ring(*old(c)),
        consumer_capacity(*final(c)) == consumer_capacity(*old(c)),
        consumer_released(*final(c)) == consumer_released(*old(c)),
        consumer_capacity(*final(c)) == producer_capacity(*final(p)),
        consumer_released(*final(c)).len() <= producer_accepted(*final(p)).len(),
        consumer_released(*final(c)) == producer_accepted(*final(p)).take(
            consumer_released(*final(c)).len() as int,
        ),
        consumer_ready(*final(c)) == producer_accepted(*final(p)).skip(
            consumer_released(*final(c)).len() as int,
        ),
        n + consumer_ready(*final(c)).len() == consumer_capacity(*final(c)),
        producer_room(*final(p)) == n,
{
    c.remaining()
}

} // verus!
