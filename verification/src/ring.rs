//! Single-producer/single-consumer rings shared with the kernel.
//!
//! An `AF_XDP` socket has four rings (FILL, COMPLETION, RX, TX). Each consists of a producer
//! index, a consumer index, a flags word and an array of descriptors. One side (the application
//! or the kernel) produces into the ring and the other consumes. Both indices are free-running
//! `u32` counters; the slot of index `i` is `i & (size - 1)`, so the size is a power of two.
//!
//! [`XskRing`] holds the words and descriptors of one ring as plain values. The application's own
//! index advances through [`XskRing::release`] or [`XskRing::submit`]. Whoever maps the shared
//! memory records the kernel's progress before an operation, with [`XskRing::record_produced`],
//! [`XskRing::record_consumed`] and [`XskRing::set_flags`], and publishes the application's after
//! it. Each operation reads the kernel's index once, so nothing is lost by reading it up front.

use vstd::arithmetic::power2::is_pow2;
use vstd::prelude::*;

use crate::abi::XDP_RING_NEED_WAKEUP;
use crate::arith::{index_range, lemma_index_range_multiple, lemma_mask_is_remainder};
use crate::ring_laws::{law_write_one_at_a_time, law_writing_nothing};

verus! {

/// The mathematical content of a ring.
#[verifier::ext_equal]
pub struct RingView<T> {
    /// Number of descriptor slots.
    pub size: int,
    /// The producer index, modulo [`index_range`].
    pub producer: int,
    /// The consumer index, modulo [`index_range`].
    pub consumer: int,
    /// The flags word that the kernel sets.
    pub flags: u32,
    /// The descriptors, by slot.
    pub slots: Seq<T>,
}

impl<T> RingView<T> {
    /// What holds of every ring: the size is a power of two that fits in a `u32`, there is one
    /// descriptor per slot, and both indices are in range.
    pub open spec fn wf(self) -> bool {
        &&& is_pow2(self.size)
        &&& 0 < self.size < index_range()
        &&& self.slots.len() == self.size
        &&& 0 <= self.producer < index_range()
        &&& 0 <= self.consumer < index_range()
    }

    /// Number of descriptors produced and not yet released.
    pub open spec fn outstanding(self) -> int {
        (self.producer - self.consumer) % index_range()
    }

    /// Whether the two indices agree with the size: no more is outstanding than there are slots.
    pub open spec fn in_step(self) -> bool {
        self.outstanding() <= self.size
    }

    /// Number of slots that can be produced into; none where the indices are out of step.
    pub open spec fn free(self) -> int {
        if self.outstanding() <= self.size {
            self.size - self.outstanding()
        } else {
            0
        }
    }

    /// The slot of a free-running index.
    pub open spec fn slot_of(self, index: int) -> int {
        index % self.size
    }

    /// The descriptor in the slot of a free-running index.
    pub open spec fn at(self, index: int) -> T {
        self.slots[self.slot_of(index)]
    }

    /// The outstanding descriptors, oldest first.
    pub open spec fn queue(self) -> Seq<T> {
        Seq::new(self.outstanding() as nat, |i: int| self.at(self.consumer + i))
    }

    /// The ring after `value` was written `i` positions ahead of the producer index.
    pub open spec fn write_entry(self, i: int, value: T) -> RingView<T> {
        RingView { slots: self.slots.update(self.slot_of(self.producer + i), value), ..self }
    }

    /// The ring after `values` were written, in order, from the producer index on.
    pub open spec fn write(self, values: Seq<T>) -> RingView<T> {
        RingView {
            slots: Seq::new(
                self.slots.len(),
                |s: int|
                    {
                        let i = (s - self.producer) % self.size;
                        if i < values.len() {
                            values[i]
                        } else {
                            self.slots[s]
                        }
                    },
            ),
            ..self
        }
    }

    /// The ring after `n` descriptors were published.
    pub open spec fn submit(self, n: int) -> RingView<T> {
        RingView { producer: (self.producer + n) % index_range(), ..self }
    }

    /// The ring after `n` descriptors were released.
    pub open spec fn release(self, n: int) -> RingView<T> {
        RingView { consumer: (self.consumer + n) % index_range(), ..self }
    }

    /// How many of the entries that the kernel produced up to the index `producer` are to be
    /// copied: those past the recorded index, and never more than there are slots.
    pub open spec fn unrecorded(self, producer: int) -> int {
        let n = (producer - self.producer) % index_range();
        if n <= self.size {
            n
        } else {
            self.size
        }
    }

    /// Whether the kernel asks for a wake-up: bit 0 of the flags word.
    pub open spec fn needs_wakeup(self) -> bool {
        self.flags % 2 == 1
    }
}

/// A producer/consumer ring shared with the kernel.
///
/// `T` is the descriptor: `u64` (the address of a UMEM frame) for the FILL and COMPLETION rings,
/// [`XdpDesc`](crate::abi::XdpDesc) for the RX and TX rings.
pub struct XskRing<T> {
    producer: u32,
    consumer: u32,
    flags: u32,
    descs: Vec<T>,
    /// Number of descriptor slots; always a power of two, so the slot for index `i` is
    /// `i & (size - 1)`.
    size: u32,
}

impl<T> View for XskRing<T> {
    type V = RingView<T>;

    closed spec fn view(&self) -> RingView<T> {
        RingView {
            size: self.size as int,
            producer: self.producer as int,
            consumer: self.consumer as int,
            flags: self.flags,
            slots: self.descs@,
        }
    }
}

impl<T> XskRing<T> {
    /// The invariant of a ring, see [`RingView::wf`].
    pub open spec fn wf(self) -> bool {
        self@.wf()
    }

    /// Builds a ring from the words and descriptors of its memory.
    ///
    /// There is one descriptor per slot and their number `size` is a power of two.
    pub fn from_raw(descs: Vec<T>, producer: u32, consumer: u32, flags: u32, size: u32) -> (r: Self)
        requires
            is_pow2(size as int),
            descs@.len() == size,
        ensures
            r.wf(),
            r@ == (RingView {
                size: size as int,
                producer: producer as int,
                consumer: consumer as int,
                flags,
                slots: descs@,
            }),
    {
        proof {
            lemma_index_range_multiple(0, size);
        }
        XskRing { producer, consumer, flags, descs, size }
    }

    /// Number of descriptor slots.
    pub fn size(&self) -> (r: u32)
        ensures
            r == self@.size,
    {
        self.size
    }

    /// The producer index.
    pub fn producer(&self) -> (r: u32)
        ensures
            r == self@.producer,
    {
        self.producer
    }

    /// The consumer index.
    pub fn consumer(&self) -> (r: u32)
        ensures
            r == self@.consumer,
    {
        self.consumer
    }

    /// Records the flags word that the kernel set.
    pub fn set_flags(&mut self, flags: u32)
        ensures
            final(self)@ == (RingView { flags, ..old(self)@ }),
    {
        self.flags = flags;
    }

    /// How many entries to copy from the shared memory, from the recorded producer index on, once
    /// the kernel has produced up to the index `producer`.
    pub fn unrecorded(&self, producer: u32) -> (r: u32)
        ensures
            r == self@.unrecorded(producer as int),
    {
        let n: u32 = producer.wrapping_sub(self.producer);
        if n <= self.size {
            n
        } else {
            self.size
        }
    }

    /// Records that the kernel has produced up to the index `producer`, with the
    /// [`unrecorded`](Self::unrecorded) entries as they were copied.
    pub fn record_produced(&mut self, producer: u32, entries: &[T]) where T: Copy
        requires
            old(self).wf(),
            entries@.len() == old(self)@.unrecorded(producer as int),
        ensures
            final(self).wf(),
            final(self)@ == (RingView {
                producer: producer as int,
                ..old(self)@.write(entries@)
            }),
    {
        let ghost before = self@;
        let mut i: u32 = 0;
        proof {
            law_writing_nothing(before);
            assert(entries@.take(0) =~= Seq::empty());
        }
        while (i as usize) < entries.len()
            invariant
                before.wf(),
                self.wf(),
                i <= entries@.len() <= before.size,
                self@ == before.write(entries@.take(i as int)),
            decreases entries.len() - i,
        {
            let entry: T = entries[i as usize];
            proof {
                assert(entries@.take(i + 1) =~= entries@.take(i as int).push(entry));
                law_write_one_at_a_time(before, entries@.take(i as int), entry);
            }
            self.set_producer_entry(i, entry);
            i = i + 1;
        }
        assert(entries@.take(i as int) =~= entries@);
        self.producer = producer;
    }

    /// Records that the kernel has consumed up to the index `consumer`.
    pub fn record_consumed(&mut self, consumer: u32)
        ensures
            final(self)@ == (RingView { consumer: consumer as int, ..old(self)@ }),
            old(self).wf() ==> final(self).wf(),
    {
        self.consumer = consumer;
    }

    /// Whether the kernel has signalled that it needs a wake-up (`sendto`/`recvfrom`) to make
    /// progress on this ring. Only meaningful when the socket was bound with
    /// [`XDP_USE_NEED_WAKEUP`](crate::abi::XDP_USE_NEED_WAKEUP).
    pub fn needs_wakeup(&self) -> (r: bool)
        ensures
            r == self@.needs_wakeup(),
            r == (self@.flags & 1 != 0),
    {
        let flags: u32 = self.flags;
        assert((flags & 1 != 0) == (flags % 2 == 1)) by (bit_vector);
        flags & XDP_RING_NEED_WAKEUP != 0
    }

    /// The slot of the free-running index `index`.
    fn slot_index(&self, index: u32) -> (r: usize)
        requires
            self.wf(),
        ensures
            r == self@.slot_of(index as int),
            r < self.descs@.len(),
    {
        proof {
            lemma_mask_is_remainder(index, self.size);
        }
        (index & (self.size - 1)) as usize
    }

    /// The descriptor in the slot of the free-running index `index`.
    pub fn slot(&self, index: u32) -> (r: T) where T: Copy
        requires
            self.wf(),
        ensures
            r == self@.at(index as int),
            r == self@.slots[index as int % self@.size],
    {
        let idx: usize = self.slot_index(index);
        self.descs[idx]
    }

    // --- Consumer side: RX, COMPLETION ---

    /// Number of descriptors that have been produced and not yet released.
    pub fn available(&self) -> (r: u32)
        ensures
            r == self@.outstanding(),
            self@.producer >= self@.consumer ==> r == self@.producer - self@.consumer,
            self@.producer < self@.consumer ==> r == self@.producer - self@.consumer + u32::MAX + 1,
    {
        self.producer.wrapping_sub(self.consumer)
    }

    /// Reads the descriptor `i` positions ahead of the consumer index.
    ///
    /// It is one that the producer published if `i < available()`.
    pub fn consumer_entry(&self, i: u32) -> (r: T) where T: Copy
        requires
            self.wf(),
        ensures
            r == self@.at(self@.consumer + i),
            r == self@.slots[(self@.consumer + i) % self@.size],
            i < self@.outstanding() ==> r == self@.queue()[i as int],
    {
        proof {
            lemma_index_range_multiple(self.consumer + i, self.size);
        }
        self.slot(self.consumer.wrapping_add(i))
    }

    /// Releases `n` consumed descriptors back to the producer.
    pub fn release(&mut self, n: u32)
        ensures
            final(self)@ == old(self)@.release(n as int),
            old(self).wf() ==> final(self).wf(),
    {
        self.consumer = self.consumer.wrapping_add(n);
    }

    // --- Producer side: FILL, TX ---

    /// Number of free slots to produce into.
    pub fn free(&self) -> (r: u32)
        ensures
            r == self@.free(),
    {
        // Where the indices are out of step, more is outstanding than the ring holds and nothing
        // is free.
        self.size.saturating_sub(self.producer.wrapping_sub(self.consumer))
    }

    /// Writes `value` into the slot `i` positions ahead of the producer index.
    ///
    /// The slot is not in use if `i < free()`. The consumer does not see it until
    /// [`submit`](Self::submit).
    pub fn set_producer_entry(&mut self, i: u32, value: T)
        requires
            old(self).wf(),
        ensures
            final(self)@ == old(self)@.write_entry(i as int, value),
            final(self)@.slots == old(self)@.slots.update(
                (old(self)@.producer + i) % old(self)@.size,
                value,
            ),
            final(self).wf(),
    {
        proof {
            lemma_index_range_multiple(self.producer + i, self.size);
        }
        let idx: usize = self.slot_index(self.producer.wrapping_add(i));
        self.descs[idx] = value;
    }

    /// Publishes `n` produced descriptors to the consumer.
    pub fn submit(&mut self, n: u32)
        ensures
            final(self)@ == old(self)@.submit(n as int),
            old(self).wf() ==> final(self).wf(),
    {
        self.producer = self.producer.wrapping_add(n);
    }
}

} // verus!
