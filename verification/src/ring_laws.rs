//! What holds of every ring, stated over its mathematical content.
//!
//! A ring that is in step is a bounded first-in first-out queue: what is written and published is
//! appended to it, what is released leaves it from the front, and nothing else changes it.

use vstd::arithmetic::power2::is_pow2;
use vstd::prelude::*;

use crate::arith::{
    index_range, lemma_congruent, lemma_index_range_multiple, lemma_mask_is_remainder,
    lemma_near_remainder,
};
use crate::ring::RingView;

verus! {

/// Every slot of a ring that is in step is either outstanding or free; where the indices are out
/// of step, nothing is free.
pub proof fn law_available_and_free<T>(ring: RingView<T>)
    requires
        ring.wf(),
    ensures
        0 <= ring.outstanding() < index_range(),
        0 <= ring.free() <= ring.size,
        ring.in_step() ==> ring.outstanding() + ring.free() == ring.size,
        !ring.in_step() ==> ring.free() == 0,
{
}

/// What a ring is: a power of two of slots, one descriptor for each, and two `u32` indices.
pub proof fn law_shape_of_a_ring<T>(ring: RingView<T>)
    ensures
        ring.wf() <==> {
            &&& is_pow2(ring.size)
            &&& 1 <= ring.size <= u32::MAX
            &&& ring.slots.len() == ring.size
            &&& 0 <= ring.producer <= u32::MAX
            &&& 0 <= ring.consumer <= u32::MAX
        },
{
}

/// What is outstanding is how far the producer index is ahead of the consumer index, counting on
/// past the end of the index range. The ring is in step if that is no more than its size, and
/// then the rest of its slots is free.
pub proof fn law_outstanding_is_the_distance<T>(ring: RingView<T>, distance: int)
    requires
        ring.wf(),
        0 <= distance <= u32::MAX,
        ring.consumer + distance == ring.producer || ring.consumer + distance == ring.producer
            + 0x1_0000_0000,
    ensures
        ring.outstanding() == distance,
        ring.queue().len() == distance,
        ring.in_step() <==> distance <= ring.size,
        distance <= ring.size ==> distance + ring.free() == ring.size,
        distance > ring.size ==> ring.free() == 0,
{
}

/// The slot of an index is the index masked with the size less one.
pub proof fn law_slot_is_the_masked_index<T>(ring: RingView<T>, index: u32)
    requires
        ring.wf(),
    ensures
        ring.slot_of(index as int) == index & ((ring.size - 1) as u32),
        ring.at(index as int) == ring.slots[(index & ((ring.size - 1) as u32)) as int],
{
    lemma_mask_is_remainder(index, ring.size as u32);
}

/// The `i`-th outstanding descriptor is in the slot of the `i`-th index from the consumer index
/// on, whether or not the indices wrap on the way.
pub proof fn law_queue_reads_the_slots<T>(ring: RingView<T>, i: int)
    requires
        ring.wf(),
        0 <= i < ring.queue().len(),
    ensures
        ring.queue()[i] == ring.slots[(ring.consumer + i) % ring.size],
        ({
            let index = ((ring.consumer + i) % 0x1_0000_0000) as u32;
            ring.queue()[i] == ring.slots[(index & ((ring.size - 1) as u32)) as int]
        }),
{
    let index = ((ring.consumer + i) % 0x1_0000_0000) as u32;
    lemma_index_range_multiple(ring.consumer + i, ring.size as u32);
    lemma_mask_is_remainder(index, ring.size as u32);
}

/// Writing one entry puts it into the one slot that is `i` indices ahead of the producer index,
/// and changes no other slot, nor the indices, the size or the flags.
pub proof fn law_written_entry_is_in_its_slot<T>(ring: RingView<T>, i: int, value: T, slot: int)
    requires
        ring.wf(),
        0 <= slot < ring.size,
    ensures
        ({
            let after = ring.write_entry(i, value);
            &&& after.slots.len() == ring.slots.len()
            &&& slot == (ring.producer + i) % ring.size ==> after.slots[slot] == value
            &&& slot != (ring.producer + i) % ring.size ==> after.slots[slot] == ring.slots[slot]
            &&& after.size == ring.size
            &&& after.producer == ring.producer
            &&& after.consumer == ring.consumer
            &&& after.flags == ring.flags
        }),
{
    vstd::arithmetic::div_mod::lemma_mod_bound(ring.producer + i, ring.size);
}

/// Writing values puts the `j`-th into the slot `j` indices ahead of the producer index, and
/// changes no slot further ahead, nor the indices, the size or the flags.
pub proof fn law_written_values_are_in_their_slots<T>(ring: RingView<T>, values: Seq<T>, j: int)
    requires
        ring.wf(),
        values.len() <= ring.size,
        0 <= j < ring.size,
    ensures
        ({
            let after = ring.write(values);
            let slot = (ring.producer + j) % ring.size;
            &&& after.slots.len() == ring.slots.len()
            &&& j < values.len() ==> after.slots[slot] == values[j]
            &&& j >= values.len() ==> after.slots[slot] == ring.slots[slot]
            &&& after.size == ring.size
            &&& after.producer == ring.producer
            &&& after.consumer == ring.consumer
            &&& after.flags == ring.flags
        }),
{
    lemma_slot_offset(ring, ring.producer, j);
}

/// Publishing moves the producer index on by `n`, past the end of its range if need be, and
/// changes nothing else.
pub proof fn law_submit_moves_the_producer<T>(ring: RingView<T>, n: u32)
    requires
        ring.wf(),
    ensures
        ({
            let after = ring.submit(n as int);
            &&& ring.producer + n <= u32::MAX ==> after.producer == ring.producer + n
            &&& ring.producer + n > u32::MAX ==> after.producer == ring.producer + n
                - 0x1_0000_0000
            &&& after.consumer == ring.consumer
            &&& after.size == ring.size
            &&& after.flags == ring.flags
            &&& after.slots == ring.slots
        }),
{
}

/// Releasing moves the consumer index on by `n`, past the end of its range if need be, and
/// changes nothing else.
pub proof fn law_release_moves_the_consumer<T>(ring: RingView<T>, n: u32)
    requires
        ring.wf(),
    ensures
        ({
            let after = ring.release(n as int);
            &&& ring.consumer + n <= u32::MAX ==> after.consumer == ring.consumer + n
            &&& ring.consumer + n > u32::MAX ==> after.consumer == ring.consumer + n
                - 0x1_0000_0000
            &&& after.producer == ring.producer
            &&& after.size == ring.size
            &&& after.flags == ring.flags
            &&& after.slots == ring.slots
        }),
{
}

/// Of `n` entries that the kernel has produced past the recorded index all are to be copied, or as
/// many as there are slots.
pub proof fn law_unrecorded_entries<T>(ring: RingView<T>, producer: int, n: int)
    requires
        ring.wf(),
        0 <= producer <= u32::MAX,
        0 <= n <= u32::MAX,
        ring.producer + n == producer || ring.producer + n == producer + 0x1_0000_0000,
    ensures
        n <= ring.size ==> ring.unrecorded(producer) == n,
        n > ring.size ==> ring.unrecorded(producer) == ring.size,
{
}

/// A ring asks for a wake-up exactly when bit 0 of its flags word is set, whatever its indices,
/// its size and its descriptors are.
pub proof fn law_wakeup_is_bit_zero_of_the_flags<T>(ring: RingView<T>)
    ensures
        ring.needs_wakeup() <==> ring.flags & 1 != 0,
{
    let flags = ring.flags;
    assert((flags & 1 != 0) == (flags % 2 == 1)) by (bit_vector);
}

/// The slots of `size` consecutive indices are all different.
pub proof fn law_slots_are_distinct<T>(ring: RingView<T>, start: int, i: int, j: int)
    requires
        ring.wf(),
        0 <= i < j < ring.size,
    ensures
        ring.slot_of(start + i) != ring.slot_of(start + j),
{
    lemma_slot_offset(ring, start, i);
    lemma_slot_offset(ring, start, j);
}

/// Every slot is among those of `size` consecutive indices.
pub proof fn law_every_slot_is_reached<T>(ring: RingView<T>, start: int, s: int)
    requires
        ring.wf(),
        0 <= s < ring.size,
    ensures
        0 <= (s - start) % ring.size < ring.size,
        ring.slot_of(start + (s - start) % ring.size) == s,
{
    let m = ring.size;
    let i = (s - start) % m;
    vstd::arithmetic::div_mod::lemma_mod_bound(s - start, m);
    lemma_near_remainder(i, m);
    lemma_near_remainder(s, m);
    lemma_congruent(start, start, i, s - start, m);
}

/// The offset of a slot from an index recovers how far ahead of the index the slot is.
proof fn lemma_slot_offset<T>(ring: RingView<T>, start: int, i: int)
    requires
        ring.wf(),
        0 <= i < ring.size,
    ensures
        (ring.slot_of(start + i) - start) % ring.size == i,
        0 <= ring.slot_of(start + i) < ring.size,
{
    let m = ring.size;
    lemma_near_remainder(ring.slot_of(start + i), m);
    lemma_congruent(ring.slot_of(start + i), start + i, start, start, m);
    lemma_near_remainder(i, m);
}

/// The offset from the producer index of the `i`-th slot ahead of the consumer index.
proof fn lemma_queue_offset<T>(ring: RingView<T>, i: int)
    requires
        ring.wf(),
    ensures
        0 <= ring.slot_of(ring.consumer + i) < ring.size,
        (ring.slot_of(ring.consumer + i) - ring.producer) % ring.size == (i - ring.outstanding())
            % ring.size,
{
    let m = ring.size;
    let s = ring.slot_of(ring.consumer + i);
    lemma_index_range_multiple(ring.producer - ring.consumer, m as u32);
    lemma_near_remainder(s, m);
    lemma_congruent(s, ring.consumer + i, ring.producer, ring.producer, m);
    lemma_congruent(i, i, ring.outstanding(), ring.producer - ring.consumer, m);
}

/// Writing nothing changes nothing.
pub proof fn law_writing_nothing<T>(ring: RingView<T>)
    requires
        ring.wf(),
    ensures
        ring.write(Seq::empty()) == ring,
{
    assert(ring.write(Seq::empty()).slots =~= ring.slots) by {
        assert forall|s: int| 0 <= s < ring.size implies ring.write(Seq::empty()).slots[s]
            == ring.slots[s] by {
            vstd::arithmetic::div_mod::lemma_mod_bound(s - ring.producer, ring.size);
        }
    }
}

/// Writing values one at a time, each one position further ahead, is writing them all.
pub proof fn law_write_one_at_a_time<T>(ring: RingView<T>, values: Seq<T>, value: T)
    requires
        ring.wf(),
        values.len() < ring.size,
    ensures
        ring.write(values).write_entry(values.len() as int, value) == ring.write(
            values.push(value),
        ),
{
    let m = ring.size;
    let n = values.len() as int;
    let one = ring.write(values).write_entry(n, value);
    let all = ring.write(values.push(value));
    lemma_slot_offset(ring, ring.producer, n);
    assert forall|s: int| 0 <= s < m implies one.slots[s] == all.slots[s] by {
        law_every_slot_is_reached(ring, ring.producer, s);
    }
    assert(one.slots =~= all.slots);
}

/// What is written into free slots does not show in the queue until it is published.
pub proof fn law_written_is_not_visible<T>(ring: RingView<T>, values: Seq<T>)
    requires
        ring.wf(),
        values.len() <= ring.free(),
    ensures
        ring.write(values).wf(),
        ring.write(values).queue() == ring.queue(),
        ring.write(values).free() == ring.free(),
{
    let after = ring.write(values);
    if ring.in_step() {
        assert forall|i: int| 0 <= i < ring.outstanding() implies after.queue()[i]
            == ring.queue()[i] by {
            lemma_queue_offset(ring, i);
            lemma_near_remainder(i - ring.outstanding(), ring.size);
        }
    } else {
        assert(values =~= Seq::empty());
        law_writing_nothing(ring);
    }
    assert(after.queue() =~= ring.queue());
}

/// An entry written into any one free slot can be found there, and does not show in the queue
/// until it is published.
pub proof fn law_written_entry_is_not_visible<T>(ring: RingView<T>, i: int, value: T)
    requires
        ring.wf(),
        0 <= i < ring.free(),
    ensures
        ring.write_entry(i, value).wf(),
        ring.write_entry(i, value).at(ring.producer + i) == value,
        ring.write_entry(i, value).queue() == ring.queue(),
        ring.write_entry(i, value).free() == ring.free(),
{
    let after = ring.write_entry(i, value);
    lemma_slot_offset(ring, ring.producer, i);
    assert forall|k: int| 0 <= k < ring.outstanding() implies after.queue()[k]
        == ring.queue()[k] by {
        lemma_queue_offset(ring, k);
        lemma_near_remainder(k - ring.outstanding(), ring.size);
    }
    assert(after.queue() =~= ring.queue());
}

/// Values written into free slots and published are appended to the queue, in order; the ring
/// stays in step and that many fewer slots are free.
pub proof fn law_publish_appends<T>(ring: RingView<T>, values: Seq<T>)
    requires
        ring.wf(),
        ring.in_step(),
        values.len() <= ring.free(),
    ensures
        ring.write(values).submit(values.len() as int).wf(),
        ring.write(values).submit(values.len() as int).in_step(),
        ring.write(values).submit(values.len() as int).queue() == ring.queue() + values,
        ring.write(values).submit(values.len() as int).free() == ring.free() - values.len(),
{
    let n = values.len() as int;
    let after = ring.write(values).submit(n);
    assert(after.outstanding() == ring.outstanding() + n);
    assert forall|i: int| 0 <= i < after.outstanding() implies after.queue()[i] == (ring.queue()
        + values)[i] by {
        lemma_queue_offset(ring, i);
        lemma_near_remainder(i - ring.outstanding(), ring.size);
    }
    assert(after.queue() =~= ring.queue() + values);
}

/// Recording what the kernel produced, where it produced no more than there were free slots for,
/// appends its entries to the queue.
pub proof fn law_recording_appends<T>(ring: RingView<T>, producer: int, entries: Seq<T>)
    requires
        ring.wf(),
        ring.in_step(),
        0 <= producer < index_range(),
        (producer - ring.producer) % index_range() <= ring.free(),
        entries.len() == ring.unrecorded(producer),
    ensures
        (RingView { producer, ..ring.write(entries) }).wf(),
        (RingView { producer, ..ring.write(entries) }).in_step(),
        (RingView { producer, ..ring.write(entries) }).queue() == ring.queue() + entries,
{
    law_publish_appends(ring, entries);
    assert((RingView { producer, ..ring.write(entries) }) == ring.write(entries).submit(
        entries.len() as int,
    ));
}

/// Recording that the kernel consumed some of the outstanding descriptors releases them.
pub proof fn law_recording_releases<T>(ring: RingView<T>, consumer: int)
    requires
        ring.wf(),
        0 <= consumer < index_range(),
        (consumer - ring.consumer) % index_range() <= ring.outstanding(),
    ensures
        (RingView { consumer, ..ring }).wf(),
        (RingView { consumer, ..ring }).queue() == ring.queue().skip(
            (consumer - ring.consumer) % index_range(),
        ),
        ring.in_step() ==> (RingView { consumer, ..ring }).in_step(),
{
    let n = (consumer - ring.consumer) % index_range();
    law_release_drops_the_oldest(ring, n);
    assert((RingView { consumer, ..ring }) == ring.release(n));
}

/// Releasing drops that many of the oldest outstanding descriptors, and frees as many slots where
/// the ring is in step.
pub proof fn law_release_drops_the_oldest<T>(ring: RingView<T>, n: int)
    requires
        ring.wf(),
        0 <= n <= ring.outstanding(),
    ensures
        ring.release(n).wf(),
        ring.release(n).outstanding() == ring.outstanding() - n,
        ring.release(n).queue() == ring.queue().skip(n),
        ring.in_step() ==> ring.release(n).in_step(),
        ring.in_step() ==> ring.release(n).free() == ring.free() + n,
{
    let after = ring.release(n);
    let m = ring.size;
    assert(after.outstanding() == ring.outstanding() - n);
    assert forall|i: int| 0 <= i < after.outstanding() implies after.queue()[i]
        == ring.queue().skip(n)[i] by {
        lemma_index_range_multiple(ring.consumer + n, m as u32);
        lemma_congruent(after.consumer, ring.consumer + n, i, i, m);
    }
    assert(after.queue() =~= ring.queue().skip(n));
}

/// What one side produces the other consumes, in the same order: once everything that was
/// outstanding before has been released, the queue holds the published values; once those have
/// been released too, the queue is empty and every slot is free.
pub proof fn law_produce_then_consume<T>(ring: RingView<T>, values: Seq<T>)
    requires
        ring.wf(),
        ring.in_step(),
        values.len() <= ring.free(),
    ensures
        ({
            let published = ring.write(values).submit(values.len() as int);
            let caught_up = published.release(ring.outstanding());
            let drained = published.release(published.outstanding());
            &&& caught_up.queue() == values
            &&& drained.queue() == Seq::<T>::empty()
            &&& drained.free() == ring.size
        }),
{
    let published = ring.write(values).submit(values.len() as int);
    law_publish_appends(ring, values);
    law_release_drops_the_oldest(published, ring.outstanding());
    law_release_drops_the_oldest(published, published.outstanding());
    assert(ring.queue().len() == ring.outstanding());
    assert((ring.queue() + values).skip(ring.outstanding()) =~= values);
    assert((ring.queue() + values).skip(published.outstanding()) =~= Seq::empty());
}

/// Releasing in two steps is releasing at once.
pub proof fn law_releases_add_up<T>(ring: RingView<T>, n: int, k: int)
    ensures
        ring.release(n).release(k) == ring.release(n + k),
{
}

/// Publishing in two steps is publishing at once.
pub proof fn law_submissions_add_up<T>(ring: RingView<T>, n: int, k: int)
    ensures
        ring.submit(n).submit(k) == ring.submit(n + k),
{
}

/// Only the difference of the indices and their position in the ring matter: moving both indices
/// ahead by whole rounds, past the end of their range or not, changes neither the queue nor the
/// number of free slots.
pub proof fn law_indices_wrap_around<T>(ring: RingView<T>, rounds: int)
    requires
        ring.wf(),
    ensures
        ring.submit(rounds * ring.size).release(rounds * ring.size).wf(),
        ring.submit(rounds * ring.size).release(rounds * ring.size).queue() == ring.queue(),
        ring.submit(rounds * ring.size).release(rounds * ring.size).free() == ring.free(),
{
    let m = ring.size;
    let k = rounds * m;
    let after = ring.submit(k).release(k);
    assert(after.outstanding() == ring.outstanding());
    assert forall|i: int| 0 <= i < ring.outstanding() implies after.queue()[i] == ring.queue()[i] by {
        lemma_index_range_multiple(ring.consumer + k, m as u32);
        vstd::arithmetic::div_mod::lemma_mod_multiples_basic(rounds, m);
        lemma_near_remainder(0, m);
        lemma_congruent(ring.consumer, ring.consumer, k, 0, m);
        lemma_congruent(after.consumer, ring.consumer, i, i, m);
    }
    assert(after.queue() =~= ring.queue());
}

} // verus!
