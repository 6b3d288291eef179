//! A bounded FIFO of audio samples that drops the oldest samples on overflow.
//!
//! Samples are held as the IEEE-754 bit patterns of 32-bit floats
//! (`f32::to_bits`), which round-trip exactly, so the buffer moves samples
//! without ever interpreting them.
use ringbuf::traits::{Consumer, Observer, Producer};
use vstd::prelude::*;

verus! {

/// The outside ring buffer, held opaque; what it holds is stated through
/// `ring_items` and `ring_capacity`.
#[verifier::external_body]
pub struct SampleRing {
    rb: ringbuf::HeapRb<u32>,
}

/// The items held by a heap ring buffer, oldest first.
pub uninterp spec fn ring_items(rb: SampleRing) -> Seq<u32>;

/// The capacity a heap ring buffer was created with.
pub uninterp spec fn ring_capacity(rb: SampleRing) -> nat;

/// `ringbuf::HeapRb::new`: an empty buffer of exactly `capacity` slots.
/// The crate panics on a zero capacity, which `requires` excludes.
#[verifier::external_body]
fn rb_new(capacity: usize) -> (rb: SampleRing)
    requires
        capacity > 0,
    ensures
        ring_items(rb) == Seq::<u32>::empty(),
        ring_capacity(rb) == capacity,
{
    SampleRing { rb: ringbuf::HeapRb::<u32>::new(capacity) }
}

/// `Producer::try_push`: appends `item` at the back when the buffer holds
/// fewer items than its capacity (returns `true`); otherwise leaves the
/// buffer as it was (returns `false`).
#[verifier::external_body]
fn rb_try_push(rb: &mut SampleRing, item: u32) -> (pushed: bool)
    requires
        ring_items(*old(rb)).len() <= ring_capacity(*old(rb)),
    ensures
        ring_capacity(*final(rb)) == ring_capacity(*old(rb)),
        pushed == (ring_items(*old(rb)).len() < ring_capacity(*old(rb))),
        pushed ==> ring_items(*final(rb)) == ring_items(*old(rb)).push(item),
        !pushed ==> ring_items(*final(rb)) == ring_items(*old(rb)),
{
    rb.rb.try_push(item).is_ok()
}

/// `Consumer::try_pop`: removes and returns the oldest item, or `None` when
/// the buffer is empty (leaving it unchanged).
#[verifier::external_body]
fn rb_try_pop(rb: &mut SampleRing) -> (item: Option<u32>)
    ensures
        ring_capacity(*final(rb)) == ring_capacity(*old(rb)),
        ring_items(*old(rb)).len() == 0 ==> item.is_none() && ring_items(*final(rb))
            == ring_items(*old(rb)),
        ring_items(*old(rb)).len() > 0 ==> item == Some(ring_items(*old(rb))[0]) && ring_items(
            *final(rb),
        ) == ring_items(*old(rb)).drop_first(),
{
    rb.rb.try_pop()
}

/// `Observer::occupied_len`: the number of items held.
#[verifier::external_body]
fn rb_occupied_len(rb: &SampleRing) -> (n: usize)
    ensures
        n == ring_items(*rb).len(),
{
    rb.rb.occupied_len()
}

/// `Observer::capacity`: the capacity the buffer was created with.
#[verifier::external_body]
fn rb_capacity(rb: &SampleRing) -> (n: usize)
    ensures
        n == ring_capacity(*rb),
{
    rb.rb.capacity().get()
}

/// `Consumer::clear`: drops every item held.
#[verifier::external_body]
fn rb_clear(rb: &mut SampleRing)
    ensures
        ring_capacity(*final(rb)) == ring_capacity(*old(rb)),
        ring_items(*final(rb)) == Seq::<u32>::empty(),
{
    rb.rb.clear();
}

/// What a buffer of capacity `cap` holds after `incoming` is written to a
/// buffer holding `held`: the newest `cap` samples of the two together.
pub open spec fn after_write(held: Seq<u32>, incoming: Seq<u32>, cap: nat) -> Seq<u32> {
    let all = held + incoming;
    if all.len() <= cap {
        all
    } else {
        all.skip(all.len() - cap)
    }
}

/// Law: a write that fits is kept whole; writing `samples` to an empty
/// buffer that can hold them all leaves exactly `samples`, in order.
pub proof fn law_write_that_fits_is_kept(samples: Seq<u32>, cap: nat)
    requires
        samples.len() <= cap,
    ensures
        after_write(Seq::empty(), samples, cap) == samples,
{
    assert(Seq::<u32>::empty() + samples =~= samples);
}

/// Law: on overflow the newest samples stay; the buffer then holds
/// exactly `cap` samples, and when one write alone overflows, exactly its
/// last `cap` samples.
pub proof fn law_overflow_keeps_newest(held: Seq<u32>, incoming: Seq<u32>, cap: nat)
    requires
        held.len() <= cap,
        held.len() + incoming.len() > cap,
    ensures
        after_write(held, incoming, cap).len() == cap,
        incoming.len() >= cap ==> after_write(held, incoming, cap) == incoming.skip(
            incoming.len() - cap,
        ),
{
    let all = held + incoming;
    if incoming.len() >= cap {
        assert(all.skip(all.len() - cap) =~= incoming.skip(incoming.len() - cap));
    }
}

/// Law: writing in two pieces leaves what writing both at once leaves.
pub proof fn law_write_in_pieces(held: Seq<u32>, a: Seq<u32>, b: Seq<u32>, cap: nat)
    requires
        held.len() <= cap,
    ensures
        after_write(after_write(held, a, cap), b, cap) == after_write(held, a + b, cap),
{
    let all1 = held + a;
    let r1 = after_write(held, a, cap);
    let k1: int = if all1.len() <= cap { 0 } else { all1.len() - cap };
    assert(r1 =~= all1.skip(k1));
    let whole = held + (a + b);
    assert(whole =~= all1 + b);
    assert(r1 + b =~= whole.skip(k1));
    let left = after_write(r1, b, cap);
    let right = after_write(held, a + b, cap);
    assert(left =~= right);
}

/// Bounded audio sample FIFO. When full, writing drops the oldest samples.
pub struct AudioRingBuffer {
    buffer: SampleRing,
}

impl AudioRingBuffer {
    /// The samples held, oldest first.
    pub closed spec fn view(&self) -> Seq<u32> {
        ring_items(self.buffer)
    }

    /// The maximum number of samples held.
    pub closed spec fn cap(&self) -> nat {
        ring_capacity(self.buffer)
    }

    /// The buffer holds at most its capacity, which is positive.
    pub closed spec fn well_formed(&self) -> bool {
        &&& ring_capacity(self.buffer) > 0
        &&& ring_items(self.buffer).len() <= ring_capacity(self.buffer)
    }

    /// An empty buffer of `capacity` samples.
    pub fn new(capacity: usize) -> (b: Self)
        requires
            capacity > 0,
        ensures
            b.well_formed(),
            b.view() == Seq::<u32>::empty(),
            b.cap() == capacity,
    {
        AudioRingBuffer { buffer: rb_new(capacity) }
    }

    /// Writes all of `samples`; when the buffer overflows, the oldest
    /// samples are dropped. Returns the number of samples written.
    pub fn write(&mut self, samples: &[u32]) -> (written: usize)
        requires
            old(self).well_formed(),
        ensures
            final(self).well_formed(),
            final(self).cap() == old(self).cap(),
            written == samples.len(),
            final(self).view() == after_write(old(self).view(), samples@, old(self).cap()),
    {
        let n = samples.len();
        let mut i: usize = 0;
        while i < n
            invariant
                n == samples.len(),
                i <= n,
                self.well_formed(),
                self.cap() == old(self).cap(),
                self.view() == after_write(old(self).view(), samples@.take(i as int), self.cap()),
            decreases n - i,
        {
            let sample = samples[i];
            let ghost before = self.view();
            if !rb_try_push(&mut self.buffer, sample) {
                let _ = rb_try_pop(&mut self.buffer);
                let _ = rb_try_push(&mut self.buffer, sample);
            }
            proof {
                let cap = self.cap();
                let held = old(self).view();
                let prev = held + samples@.take(i as int);
                let next = held + samples@.take(i + 1);
                assert(next =~= prev.push(sample));
                if prev.len() <= cap {
                    assert(before =~= prev);
                } else {
                    assert(before =~= prev.skip(prev.len() - cap));
                }
                if next.len() > cap {
                    if prev.len() <= cap {
                        assert(self.view() =~= next.skip(next.len() - cap));
                    } else {
                        assert(self.view() =~= next.skip(next.len() - cap));
                    }
                } else {
                    assert(self.view() =~= next);
                }
            }
            i = i + 1;
        }
        proof {
            assert(samples@.take(n as int) =~= samples@);
        }
        n
    }

    /// Removes and returns up to `count` of the oldest samples, oldest first.
    pub fn read(&mut self, count: usize) -> (out: Vec<u32>)
        requires
            old(self).well_formed(),
        ensures
            final(self).well_formed(),
            final(self).cap() == old(self).cap(),
            out@.len() == if count <= old(self).view().len() {
                count as nat
            } else {
                old(self).view().len()
            },
            out@ == old(self).view().take(out@.len() as int),
            final(self).view() == old(self).view().skip(out@.len() as int),
    {
        let mut out: Vec<u32> = Vec::new();
        let mut i: usize = 0;
        while i < count
            invariant_except_break
                i <= count,
                out@.len() == i,
                i <= old(self).view().len(),
            invariant
                self.well_formed(),
                self.cap() == old(self).cap(),
                out@ == old(self).view().take(out@.len() as int),
                self.view() == old(self).view().skip(out@.len() as int),
                out@.len() <= count,
                out@.len() <= old(self).view().len(),
            ensures
                out@.len() == count || self.view().len() == 0,
            decreases count - i,
        {
            match rb_try_pop(&mut self.buffer) {
                Some(s) => {
                    proof {
                        assert(old(self).view().take(out@.len() + 1int) =~= out@.push(s));
                    }
                    out.push(s);
                    i = i + 1;
                },
                None => {
                    break;
                },
            }
        }
        out
    }

    /// Removes and returns every sample held, oldest first.
    pub fn read_all(&mut self) -> (out: Vec<u32>)
        requires
            old(self).well_formed(),
        ensures
            final(self).well_formed(),
            final(self).cap() == old(self).cap(),
            out@ == old(self).view(),
            final(self).view() == Seq::<u32>::empty(),
    {
        let n = rb_occupied_len(&self.buffer);
        let out = self.read(n);
        proof {
            assert(out@ =~= old(self).view());
            assert(self.view() =~= Seq::<u32>::empty());
        }
        out
    }

    /// Drops every sample held.
    pub fn clear(&mut self)
        requires
            old(self).well_formed(),
        ensures
            final(self).well_formed(),
            final(self).cap() == old(self).cap(),
            final(self).view() == Seq::<u32>::empty(),
    {
        rb_clear(&mut self.buffer);
    }

    /// The number of samples held.
    pub fn len(&self) -> (n: usize)
        ensures
            n == self.view().len(),
    {
        rb_occupied_len(&self.buffer)
    }

    /// Whether no sample is held.
    pub fn is_empty(&self) -> (b: bool)
        ensures
            b == (self.view().len() == 0),
    {
        rb_occupied_len(&self.buffer) == 0
    }

    /// The maximum number of samples held.
    pub fn capacity(&self) -> (n: usize)
        ensures
            n == self.cap(),
    {
        rb_capacity(&self.buffer)
    }
}

} // verus!
