//! The single-producer, single-consumer sample queue between the network loop
//! and the playback callback, kept in a `ringbuf` ring buffer.
//!
//! The two halves live on different threads. Each half knows its own history:
//! the samples its producer has appended, and the samples its consumer has
//! removed. The contracts here speak of those histories, of the ring's
//! capacity, and of which ring a half belongs to. Whatever either side does,
//! what a consumer removes agrees, sample for sample, with what a producer of
//! the same ring appended. Free space seen by the producer is at least the
//! capacity less everything it ever appended, so a push into a ring that has
//! room is accepted whole.
//!
//! How many samples a pop takes is left open: the samples the producer
//! appended a moment ago may not be visible to the consumer yet, and a
//! bound in terms of what is available would need state shared by both halves.

use vstd::prelude::*;
use ringbuf::{Consumer, Producer, RingBuffer};

verus! {

#[verifier::external_type_specification]
#[verifier::external_body]
#[verifier::reject_recursive_types(T)]
pub struct ExProducer<T>(Producer<T>);

#[verifier::external_type_specification]
#[verifier::external_body]
#[verifier::reject_recursive_types(T)]
pub struct ExConsumer<T>(Consumer<T>);

/// Every sample that this producer half has appended to its ring, in order.
pub uninterp spec fn appended(p: Producer<u32>) -> Seq<u32>;

/// Every sample that this consumer half has removed from its ring, in order.
pub uninterp spec fn removed(c: Consumer<u32>) -> Seq<u32>;

/// The number of samples the ring of this producer half can hold.
pub uninterp spec fn ring_capacity(p: Producer<u32>) -> nat;

/// The ring that this producer half belongs to.
pub uninterp spec fn producer_ring(p: Producer<u32>) -> int;

/// The ring that this consumer half belongs to.
pub uninterp spec fn consumer_ring(c: Consumer<u32>) -> int;

/// Two histories of one ring agree on every position both of them have.
pub open spec fn common_prefix(a: Seq<u32>, b: Seq<u32>) -> bool {
    forall|i: int| 0 <= i < a.len() && i < b.len() ==> a[i] == b[i]
}

/// Relies on `ringbuf::RingBuffer::new` and `RingBuffer::split`: a new ring
/// of the given capacity is empty, so neither half has moved a sample yet,
/// and both halves share it. `new` allocates one slot more than the capacity.
#[verifier::external_body]
fn new_ring(capacity: usize) -> (r: (Producer<u32>, Consumer<u32>))
    requires
        capacity < usize::MAX,
    ensures
        appended(r.0) == Seq::<u32>::empty(),
        removed(r.1) == Seq::<u32>::empty(),
        ring_capacity(r.0) == capacity,
        producer_ring(r.0) == consumer_ring(r.1),
{
    RingBuffer::<u32>::new(capacity).split()
}

/// Relies on `ringbuf::Producer::push_slice`: it appends the longest prefix
/// of `samples` that fits in the free space and returns its length. The ring
/// never holds more than was appended, so the free space is at least the
/// capacity less everything appended so far.
#[verifier::external_body]
fn ring_push_slice(p: &mut Producer<u32>, samples: &[u32]) -> (n: usize)
    ensures
        n <= samples@.len(),
        n == samples@.len() || n as int >= ring_capacity(*old(p)) - appended(*old(p)).len(),
        appended(*final(p)) == appended(*old(p)) + samples@.subrange(0, n as int),
        ring_capacity(*final(p)) == ring_capacity(*old(p)),
        producer_ring(*final(p)) == producer_ring(*old(p)),
{
    p.push_slice(samples)
}

/// Relies on `ringbuf::Producer::len`: the number of samples in the ring, of
/// which the consumer may already have taken some. It is never more than the
/// capacity, nor more than was ever appended.
#[verifier::external_body]
fn ring_len(p: &Producer<u32>) -> (r: usize)
    ensures
        r <= appended(*p).len(),
        r <= ring_capacity(*p),
{
    p.len()
}

/// Relies on `ringbuf::Consumer::pop_slice`: it moves the oldest samples of
/// the ring, as many as are there and fit, to the front of `out`, leaves the
/// rest of `out` untouched and returns how many it moved. The ring hands
/// samples out in the order they were appended, so what this half removed
/// agrees with what any producer of the same ring appended.
#[verifier::external_body]
fn ring_pop_slice(c: &mut Consumer<u32>, out: &mut [u32]) -> (n: usize)
    ensures
        n <= old(out)@.len(),
        final(out)@.len() == old(out)@.len(),
        final(out)@.subrange(n as int, old(out)@.len() as int) == old(out)@.subrange(
            n as int,
            old(out)@.len() as int,
        ),
        removed(*final(c)) == removed(*old(c)) + final(out)@.subrange(0, n as int),
        consumer_ring(*final(c)) == consumer_ring(*old(c)),
        forall|p: Producer<u32>|
            #[trigger] producer_ring(p) == consumer_ring(*final(c)) ==> common_prefix(
                removed(*final(c)),
                appended(p),
            ),
{
    c.pop_slice(out)
}

/// The network side of a sample ring.
pub struct SampleProducer {
    inner: Producer<u32>,
}

/// The playback side of a sample ring.
pub struct SampleConsumer {
    inner: Consumer<u32>,
}

impl View for SampleProducer {
    type V = Seq<u32>;

    /// The samples accepted so far, in the order they were offered.
    closed spec fn view(&self) -> Seq<u32> {
        appended(self.inner)
    }
}

impl View for SampleConsumer {
    type V = Seq<u32>;

    /// The samples taken out so far, in the order they were taken.
    closed spec fn view(&self) -> Seq<u32> {
        removed(self.inner)
    }
}

impl SampleProducer {
    /// The ring this half feeds.
    pub closed spec fn ring(&self) -> int {
        producer_ring(self.inner)
    }

    /// The number of samples the ring can hold.
    pub closed spec fn capacity(&self) -> nat {
        ring_capacity(self.inner)
    }
}

impl SampleConsumer {
    /// The ring this half drains.
    pub closed spec fn ring(&self) -> int {
        consumer_ring(self.inner)
    }

    /// What this half has taken out agrees with what every producer of its
    /// ring has put in, position by position.
    pub open spec fn in_step(&self) -> bool {
        forall|p: SampleProducer| #[trigger] p.ring() == self.ring() ==> common_prefix(self@, p@)
    }
}

/// Makes an empty ring that holds up to `capacity` samples and splits it into
/// its two halves.
pub fn sample_ring(capacity: usize) -> (r: (SampleProducer, SampleConsumer))
    requires
        capacity < usize::MAX,
    ensures
        r.0@ == Seq::<u32>::empty(),
        r.1@ == Seq::<u32>::empty(),
        r.0.capacity() == capacity,
        r.0.ring() == r.1.ring(),
        r.1.in_step(),
{
    let (p, c) = new_ring(capacity);
    (SampleProducer { inner: p }, SampleConsumer { inner: c })
}

impl SampleProducer {
    /// Offers samples to the ring without blocking. The samples that fit are
    /// accepted, in order; the trailing ones that do not fit are dropped. All
    /// of them are accepted when the ring has room for them even if nothing
    /// was ever taken out. Returns how many were accepted.
    pub fn push(&mut self, samples: &[u32]) -> (n: usize)
        ensures
            n <= samples@.len(),
            n == samples@.len() || n as int >= old(self).capacity() - old(self)@.len(),
            final(self)@ == old(self)@ + samples@.subrange(0, n as int),
            final(self).capacity() == old(self).capacity(),
            final(self).ring() == old(self).ring(),
    {
        ring_push_slice(&mut self.inner, samples)
    }

    /// The number of samples waiting in the ring, as far as this side can
    /// tell: the consumer may have taken some of them meanwhile. It is never
    /// more than the capacity nor more than was ever accepted.
    pub fn buffered(&self) -> (r: usize)
        ensures
            r <= self@.len(),
            r <= self.capacity(),
    {
        ring_len(&self.inner)
    }
}

impl SampleConsumer {
    /// Fills `out` without blocking: its front with the oldest samples in the
    /// ring, in order, and every position the ring could not fill with the
    /// silent word `0`. Returns how many samples came from the ring.
    pub fn pop_fill(&mut self, out: &mut [u32]) -> (n: usize)
        ensures
            n <= old(out)@.len(),
            final(out)@.len() == old(out)@.len(),
            final(self)@ == old(self)@ + final(out)@.subrange(0, n as int),
            forall|i: int| n <= i < final(out)@.len() ==> final(out)@[i] == 0u32,
            final(self).ring() == old(self).ring(),
            final(self).in_step(),
    {
        let n = ring_pop_slice(&mut self.inner, out);
        let len = out.len();
        let ghost taken = out@.subrange(0, n as int);
        let mut j: usize = n;
        while j < len
            invariant
                n <= j <= len,
                out@.len() == len,
                out@.subrange(0, n as int) == taken,
                forall|i: int| n <= i < j ==> out@[i] == 0u32,
            decreases len - j,
        {
            out[j] = 0;
            assert(out@.subrange(0, n as int) =~= taken);
            j += 1;
        }
        assert forall|p: SampleProducer| #[trigger] p.ring() == self.ring() implies common_prefix(
            self@,
            p@,
        ) by {
            assert(producer_ring(p.inner) == consumer_ring(self.inner));
        }
        n
    }
}

} // verus!
