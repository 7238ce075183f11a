//! The audio bridge: a fixed-capacity FIFO of interleaved samples between the
//! decode loop and the output device. Samples travel as the bit patterns of
//! 32-bit floats; silence is the pattern of `0.0`, which is `0`.
use vstd::prelude::*;

verus! {

/// Storage of the ring: a `ringbuf` heap ring, opaque to proofs.
#[verifier::external_body]
pub struct HeapSamples {
    rb: ringbuf::HeapRb<u32>,
}

/// The samples that a heap ring holds, oldest first.
pub uninterp spec fn rb_items(rb: HeapSamples) -> Seq<u32>;

/// The capacity that a heap ring was made with.
pub uninterp spec fn rb_capacity(rb: HeapSamples) -> nat;

/// Relies on `HeapRb::new`: an empty ring of the given capacity (it panics on zero).
#[verifier::external_body]
fn rb_new(capacity: usize) -> (rb: HeapSamples)
    requires
        capacity > 0,
    ensures
        rb_items(rb) == Seq::<u32>::empty(),
        rb_capacity(rb) == capacity,
{
    HeapSamples { rb: ringbuf::HeapRb::<u32>::new(capacity) }
}

/// Relies on `Rb::len`: the number of samples held.
#[verifier::external_body]
fn rb_len(rb: &HeapSamples) -> (r: usize)
    ensures
        r == rb_items(*rb).len(),
{
    ringbuf::Rb::len(&rb.rb)
}

/// Relies on `Rb::push_slice`: appends all of `elems`, which must fit (it panics otherwise).
#[verifier::external_body]
fn rb_push_slice(rb: &mut HeapSamples, elems: &[u32])
    requires
        rb_items(*old(rb)).len() + elems@.len() <= rb_capacity(*old(rb)),
    ensures
        rb_items(*final(rb)) == rb_items(*old(rb)) + elems@,
        rb_capacity(*final(rb)) == rb_capacity(*old(rb)),
{
    ringbuf::Rb::push_slice(&mut rb.rb, elems)
}

/// Relies on `Rb::pop`: removes and returns the oldest sample, `None` when empty.
#[verifier::external_body]
fn rb_pop(rb: &mut HeapSamples) -> (r: Option<u32>)
    ensures
        rb_capacity(*final(rb)) == rb_capacity(*old(rb)),
        rb_items(*old(rb)).len() == 0 ==> r.is_none() && rb_items(*final(rb)) == rb_items(*old(rb)),
        rb_items(*old(rb)).len() > 0 ==> r == Some(rb_items(*old(rb))[0])
            && rb_items(*final(rb)) == rb_items(*old(rb)).drop_first(),
{
    ringbuf::Rb::pop(&mut rb.rb)
}

/// Capacity of the bridge: one second of stereo output.
pub const BRIDGE_CAPACITY: usize = 96000;

/// Bit pattern of a silent sample.
pub const SILENCE: u32 = 0;

/// Contents after pushing `samples` into a ring holding `items`: as many as fit, from the front.
pub open spec fn push_result(items: Seq<u32>, capacity: nat, samples: Seq<u32>) -> Seq<u32> {
    items + samples.take(vstd::math::min(samples.len() as int, capacity - items.len()))
}

/// What `n` device reads deliver from a ring holding `items`: the held samples
/// in order, then silence.
pub open spec fn output_of(items: Seq<u32>, n: nat) -> Seq<u32> {
    Seq::new(n, |i: int| if i < items.len() { items[i] } else { SILENCE })
}

/// How many of `n` reads find the ring holding `items` empty.
pub open spec fn missing_of(items: Seq<u32>, n: nat) -> nat {
    if n <= items.len() { 0 } else { (n - items.len()) as nat }
}

/// Fixed-capacity sample FIFO with an underrun counter.
pub struct SampleRing {
    rb: HeapSamples,
    capacity: usize,
    underruns: u64,
}

impl View for SampleRing {
    type V = Seq<u32>;

    closed spec fn view(&self) -> Seq<u32> {
        rb_items(self.rb)
    }
}

impl SampleRing {
    /// The capacity fixed at construction.
    pub closed spec fn spec_capacity(&self) -> nat {
        self.capacity as nat
    }

    /// How many pops found the ring empty.
    pub closed spec fn spec_underruns(&self) -> nat {
        self.underruns as nat
    }

    pub closed spec fn wf(&self) -> bool {
        &&& self.capacity > 0
        &&& rb_capacity(self.rb) == self.capacity
        &&& rb_items(self.rb).len() <= self.capacity
    }

    /// An empty ring holding at most `capacity` samples.
    pub fn new(capacity: usize) -> (r: SampleRing)
        requires
            capacity > 0,
        ensures
            r.wf(),
            r@ == Seq::<u32>::empty(),
            r.spec_capacity() == capacity,
            r.spec_underruns() == 0,
    {
        SampleRing { rb: rb_new(capacity), capacity, underruns: 0 }
    }

    pub fn capacity(&self) -> (r: usize)
        ensures
            r == self.spec_capacity(),
    {
        self.capacity
    }

    /// Number of samples waiting.
    pub fn len(&self) -> (r: usize)
        requires
            self.wf(),
        ensures
            r == self@.len(),
    {
        rb_len(&self.rb)
    }

    /// Number of samples that can still be pushed.
    pub fn free_len(&self) -> (r: usize)
        requires
            self.wf(),
        ensures
            r == self.spec_capacity() - self@.len(),
    {
        self.capacity - rb_len(&self.rb)
    }

    /// Whether the producer should pause briefly: more than half the
    /// capacity is taken.
    pub fn needs_backpressure(&self) -> (r: bool)
        requires
            self.wf(),
        ensures
            r == (self@.len() > self.spec_capacity() / 2),
    {
        self.len() > self.capacity / 2
    }

    pub fn underruns(&self) -> (r: u64)
        ensures
            r == self.spec_underruns(),
    {
        self.underruns
    }

    /// Pushes as many samples of `samples` as fit, from the front, and returns
    /// how many were taken. Never blocks and never drops a sample silently.
    pub fn push(&mut self, samples: &[u32]) -> (n: usize)
        requires
            old(self).wf(),
        ensures
            final(self).wf(),
            n == vstd::math::min(samples@.len() as int, old(self).spec_capacity() - old(self)@.len()),
            final(self)@ == push_result(old(self)@, old(self).spec_capacity(), samples@),
            final(self).spec_capacity() == old(self).spec_capacity(),
            final(self).spec_underruns() == old(self).spec_underruns(),
    {
        let free = self.free_len();
        let n: usize = if samples.len() < free { samples.len() } else { free };
        let part = slice_prefix(samples, n);
        rb_push_slice(&mut self.rb, part);
        n
    }

    /// Removes the oldest sample. On an empty ring it yields `None` and counts
    /// an underrun (saturating at the counter's maximum).
    pub fn pop(&mut self) -> (r: Option<u32>)
        requires
            old(self).wf(),
        ensures
            final(self).wf(),
            final(self).spec_capacity() == old(self).spec_capacity(),
            old(self)@.len() == 0 ==> r.is_none() && final(self)@ == old(self)@
                && final(self).spec_underruns() == vstd::math::min(
                    old(self).spec_underruns() + 1int,
                    u64::MAX as int,
                ),
            old(self)@.len() > 0 ==> r == Some(old(self)@[0]) && final(self)@ == old(self)@.drop_first()
                && final(self).spec_underruns() == old(self).spec_underruns(),
    {
        let r = rb_pop(&mut self.rb);
        if r.is_none() {
            self.underruns = self.underruns.saturating_add(1);
        }
        r
    }

    /// Fills a device buffer of `n` samples: each read pops the oldest sample,
    /// or gives silence and counts an underrun when the ring is empty.
    pub fn fill(&mut self, n: usize) -> (out: Vec<u32>)
        requires
            old(self).wf(),
        ensures
            final(self).wf(),
            out@ == output_of(old(self)@, n as nat),
            final(self)@ == old(self)@.skip(vstd::math::min(n as int, old(self)@.len() as int)),
            final(self).spec_capacity() == old(self).spec_capacity(),
            final(self).spec_underruns() == vstd::math::min(
                (old(self).spec_underruns() + missing_of(old(self)@, n as nat)) as int,
                u64::MAX as int,
            ),
    {
        let ghost items = self@;
        let ghost u0 = self.spec_underruns();
        let mut out: Vec<u32> = Vec::new();
        let mut i: usize = 0;
        while i < n
            invariant
                self.wf(),
                i <= n,
                self.spec_capacity() == old(self).spec_capacity(),
                items == old(self)@,
                u0 == old(self).spec_underruns(),
                out@ == output_of(items, i as nat),
                self@ == items.skip(vstd::math::min(i as int, items.len() as int)),
                self.spec_underruns() == vstd::math::min((u0 + missing_of(items, i as nat)) as int, u64::MAX as int),
            decreases n - i,
        {
            let s = match self.pop() {
                Some(v) => v,
                None => SILENCE,
            };
            out.push(s);
            i = i + 1;
            assert(out@ =~= output_of(items, i as nat));
            assert(self@ =~= items.skip(vstd::math::min(i as int, items.len() as int)));
        }
        out
    }
}

/// A ring that was empty gives back, read for read, exactly the samples pushed
/// into it when they fit, and is empty again afterwards; reading an empty ring
/// gives silence and counts one underrun per read.
pub proof fn lemma_fifo_round_trip(capacity: nat, samples: Seq<u32>)
    requires
        samples.len() < capacity,
    ensures
        output_of(push_result(Seq::empty(), capacity, samples), samples.len()) == samples,
        push_result(Seq::empty(), capacity, samples).skip(samples.len() as int) == Seq::<u32>::empty(),
        missing_of(push_result(Seq::empty(), capacity, samples), samples.len()) == 0,
        output_of(Seq::empty(), 1) == seq![SILENCE],
        missing_of(Seq::empty(), 1) == 1,
{
    let pushed = push_result(Seq::empty(), capacity, samples);
    assert(pushed =~= samples);
    assert(output_of(pushed, samples.len()) =~= samples);
    assert(pushed.skip(samples.len() as int) =~= Seq::<u32>::empty());
    assert(output_of(Seq::empty(), 1) =~= seq![SILENCE]);
}

/// The first `n` elements of `s`.
fn slice_prefix(s: &[u32], n: usize) -> (r: &[u32])
    requires
        n <= s@.len(),
    ensures
        r@ == s@.take(n as int),
{
    let (a, _b) = s.split_at(n);
    a
}

} // verus!
