//! Bounded single-producer/single-consumer sample queues.
//!
//! Samples travel through a ring as the bit patterns of 32-bit float samples
//! (`f32::to_bits`); the all-zero pattern is silence (`+0.0`).
use vstd::prelude::*;

use ringbuf::traits::{Consumer, Observer, Producer, Split};

verus! {

/// A fixed-capacity FIFO of samples that never blocks: a push keeps what fits,
/// a pop hands out what is held and fills the rest with silence.
#[verifier::external_body]
pub struct SampleRing {
    rb: ringbuf::HeapRb<u32>,
}

/// The writing half of a ring, for the thread that produces samples.
#[verifier::external_body]
pub struct SampleProducer {
    p: ringbuf::HeapProd<u32>,
}

/// The reading half of a ring, for the thread that consumes samples.
#[verifier::external_body]
pub struct SampleConsumer {
    c: ringbuf::HeapCons<u32>,
}

/// What a ring holds, oldest sample first.
pub uninterp spec fn ring_items(r: SampleRing) -> Seq<u32>;

/// The number of samples a ring was created to hold.
pub uninterp spec fn ring_capacity(r: SampleRing) -> nat;

/// Relies on `SharedRb::new` for heap storage: an empty ring of `capacity`
/// slots (it panics on zero).
#[verifier::external_body]
fn rb_new(capacity: usize) -> (r: SampleRing)
    requires
        capacity > 0,
    ensures
        ring_items(r) == Seq::<u32>::empty(),
        ring_capacity(r) == capacity,
{
    SampleRing { rb: ringbuf::HeapRb::<u32>::new(capacity) }
}

/// Relies on `Producer::push_slice`: it appends the longest prefix of `elems`
/// that fits in the vacant slots and returns its length.
#[verifier::external_body]
fn rb_push(r: &mut SampleRing, elems: &[u32]) -> (n: usize)
    ensures
        n as int == min(elems@.len() as int, ring_capacity(*old(r)) - ring_items(*old(r)).len()),
        ring_items(*final(r)) == ring_items(*old(r)) + elems@.take(n as int),
        ring_capacity(*final(r)) == ring_capacity(*old(r)),
{
    r.rb.push_slice(elems)
}

/// Relies on `Consumer::pop_slice`: it moves the oldest samples into the
/// front of `elems`, as many as fit and are held, leaves the rest of `elems`
/// as it was, and returns how many it moved.
#[verifier::external_body]
fn rb_pop(r: &mut SampleRing, elems: &mut [u32]) -> (n: usize)
    ensures
        n as int == min(old(elems)@.len() as int, ring_items(*old(r)).len() as int),
        final(elems)@ == ring_items(*old(r)).take(n as int) + old(elems)@.skip(n as int),
        ring_items(*final(r)) == ring_items(*old(r)).skip(n as int),
        ring_capacity(*final(r)) == ring_capacity(*old(r)),
{
    r.rb.pop_slice(elems)
}

/// Relies on `Observer::occupied_len`: the number of samples held.
#[verifier::external_body]
fn rb_len(r: &SampleRing) -> (n: usize)
    ensures
        n == ring_items(*r).len(),
{
    r.rb.occupied_len()
}

/// Relies on `Split::split` for `SharedRb`: it hands out the producer and the
/// consumer half of the same ring.
#[verifier::external_body]
fn rb_split(r: SampleRing) -> (halves: (SampleProducer, SampleConsumer)) {
    let (p, c) = r.rb.split();
    (SampleProducer { p }, SampleConsumer { c })
}

/// Relies on `Producer::push_slice` for a producer half: it writes a prefix of
/// `elems` and returns its length.
#[verifier::external_body]
fn prod_push(p: &mut SampleProducer, elems: &[u32]) -> (n: usize)
    ensures
        n <= elems@.len(),
{
    p.p.push_slice(elems)
}

/// Relies on `Consumer::pop_slice` for a consumer half: it writes into a
/// prefix of `elems`, returns that prefix's length, and leaves the rest of
/// `elems` as it was.
#[verifier::external_body]
fn cons_pop(c: &mut SampleConsumer, elems: &mut [u32]) -> (n: usize)
    ensures
        n <= old(elems)@.len(),
        final(elems)@.len() == old(elems)@.len(),
        final(elems)@.skip(n as int) == old(elems)@.skip(n as int),
{
    c.c.pop_slice(elems)
}

pub open spec fn min(a: int, b: int) -> int {
    if a <= b { a } else { b }
}

/// `n` samples of silence.
pub open spec fn silence(n: nat) -> Seq<u32> {
    Seq::new(n, |i: int| 0u32)
}

/// The ring's contents after a push of `block`: as much of the block as fits.
pub open spec fn pushed(items: Seq<u32>, capacity: nat, block: Seq<u32>) -> Seq<u32> {
    items + block.take(min(block.len() as int, capacity - items.len()))
}

/// What a pop into a buffer of `len` slots writes there: the oldest samples
/// held, then silence for the slots that nothing was held for.
pub open spec fn popped(items: Seq<u32>, len: nat) -> Seq<u32> {
    let n = min(len as int, items.len() as int);
    items.take(n) + silence((len - n) as nat)
}

impl SampleRing {
    pub closed spec fn items(&self) -> Seq<u32> {
        ring_items(*self)
    }

    pub closed spec fn capacity(&self) -> nat {
        ring_capacity(*self)
    }

    pub open spec fn wf(&self) -> bool {
        self.items().len() <= self.capacity()
    }

    /// An empty ring with room for `capacity` samples.
    pub fn new(capacity: usize) -> (r: SampleRing)
        requires
            capacity > 0,
        ensures
            r.wf(),
            r.items() == Seq::<u32>::empty(),
            r.capacity() == capacity,
    {
        rb_new(capacity)
    }

    /// Number of samples held.
    pub fn len(&self) -> (n: usize)
        ensures
            n == self.items().len(),
    {
        rb_len(self)
    }

    /// Appends as much of `block` as fits and returns how much that was.
    pub fn push(&mut self, block: &[u32]) -> (n: usize)
        requires
            old(self).wf(),
        ensures
            final(self).wf(),
            n == min(block@.len() as int, old(self).capacity() - old(self).items().len()),
            final(self).items() == pushed(old(self).items(), old(self).capacity(), block@),
            final(self).capacity() == old(self).capacity(),
    {
        rb_push(self, block)
    }

    /// Moves the oldest samples into `out`, as many as are held and fit, and
    /// fills the slots left over with silence. Returns how many samples were
    /// moved.
    pub fn pop_or_silence(&mut self, out: &mut [u32]) -> (n: usize)
        requires
            old(self).wf(),
        ensures
            final(self).wf(),
            n == min(old(out)@.len() as int, old(self).items().len() as int),
            final(out)@ == popped(old(self).items(), old(out)@.len()),
            final(self).items() == old(self).items().skip(n as int),
            final(self).capacity() == old(self).capacity(),
    {
        let ghost held = self.items();
        let n = rb_pop(self, out);
        let ghost moved = out@;
        fill_silence(out, n);
        proof {
            assert(moved.take(n as int) =~= held.take(n as int));
            assert(out@ =~= out@.take(n as int) + out@.skip(n as int));
            assert(out@ =~= popped(held, out@.len()));
        }
        n
    }

    /// Parts the ring into a producer half and a consumer half, each to be
    /// owned by one thread.
    pub fn split(self) -> (halves: (SampleProducer, SampleConsumer)) {
        rb_split(self)
    }
}

/// Writes silence into `out` from index `from` on.
fn fill_silence(out: &mut [u32], from: usize)
    requires
        from <= old(out)@.len(),
    ensures
        final(out)@.len() == old(out)@.len(),
        final(out)@.take(from as int) == old(out)@.take(from as int),
        final(out)@.skip(from as int) == silence((old(out)@.len() - from) as nat),
{
    let mut i: usize = from;
    while i < out.len()
        invariant
            from <= i <= out@.len(),
            out@.len() == old(out)@.len(),
            forall|j: int| 0 <= j < from ==> out@[j] == old(out)@[j],
            forall|j: int| from <= j < i ==> out@[j] == 0u32,
        decreases out@.len() - i,
    {
        out[i] = 0;
        i = i + 1;
    }
    assert(out@.take(from as int) =~= old(out)@.take(from as int));
    assert(out@.skip(from as int) =~= silence((old(out)@.len() - from) as nat));
}

impl SampleProducer {
    /// Appends a prefix of `block`, as much as the consumer has left room
    /// for, and returns its length.
    pub fn push(&mut self, block: &[u32]) -> (n: usize)
        ensures
            n <= block@.len(),
    {
        prod_push(self, block)
    }
}

impl SampleConsumer {
    /// Moves the samples that are ready into the front of `out` and fills the
    /// rest with silence; returns how many samples were moved.
    pub fn pop_or_silence(&mut self, out: &mut [u32]) -> (n: usize)
        ensures
            n <= old(out)@.len(),
            final(out)@.len() == old(out)@.len(),
            final(out)@.skip(n as int) == silence((old(out)@.len() - n) as nat),
    {
        let n = cons_pop(self, out);
        fill_silence(out, n);
        n
    }
}

/// No sample is lost to a push that fits: when the ring has room for the
/// whole block, a push appends all of it. And a pop that asks for more than
/// is held hands out everything held, in order, followed by silence.
pub proof fn lemma_push_keeps_pop_pads(items: Seq<u32>, capacity: nat, block: Seq<u32>, out_len: nat)
    requires
        items.len() + block.len() <= capacity,
    ensures
        pushed(items, capacity, block) == items + block,
        out_len >= items.len() ==> popped(items, out_len) == items + silence(
            (out_len - items.len()) as nat,
        ),
{
    assert(block.take(block.len() as int) =~= block);
    assert(items.take(items.len() as int) =~= items);
}

} // verus!
