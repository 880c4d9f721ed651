//! What holds of every socket, stated over its mathematical content.

use vstd::prelude::*;

use crate::abi::XdpDesc;
use crate::ring::RingView;
use crate::ring_laws::{
    law_available_and_free, law_publish_appends, law_queue_reads_the_slots,
    law_release_drops_the_oldest, law_wakeup_is_bit_zero_of_the_flags, law_write_one_at_a_time,
    law_writing_nothing, law_written_is_not_visible, law_written_values_are_in_their_slots,
};
use crate::socket::{tx_descs, SocketView};
use crate::umem::{
    bytes_at, law_frames_lie_within, law_written_bytes_are_read_back, with_bytes,
};

verus! {

/// A ring takes everything that it is given, or as much as it has free slots for; it takes less
/// than it is given only where it has no free slot left for more.
pub proof fn law_a_ring_takes_what_it_has_room_for<T>(ring: RingView<T>, len: int)
    requires
        ring.wf(),
        0 <= len,
    ensures
        0 <= SocketView::taken(ring, len) <= len,
        SocketView::taken(ring, len) <= ring.free(),
        SocketView::taken(ring, len) < len ==> SocketView::taken(ring, len) == ring.free(),
{
    law_available_and_free(ring);
}

/// The UMEM has frames for indices exactly when none of them is the number of its frames or more.
pub proof fn law_indices_of_frames(socket: SocketView, indices: Seq<u32>, j: int)
    requires
        0 <= j < indices.len(),
    ensures
        socket.has_frames(indices) ==> indices[j] < socket.umem.frame_count(),
        (forall|k: int|
            0 <= k < indices.len() ==> #[trigger] indices[k] < socket.umem.frame_count())
            ==> socket.has_frames(indices),
{
}

/// The `j`-th address is that of the frame that the `j`-th index names: the index times the frame
/// size.
pub proof fn law_addresses_of_frames(socket: SocketView, indices: Seq<u32>, j: int)
    requires
        socket.wf(),
        0 <= j < indices.len(),
    ensures
        socket.frame_addrs(indices).len() == indices.len(),
        socket.frame_addrs(indices)[j] == indices[j] * socket.umem.config.frame_size,
{
    let index = indices[j];
    let size = socket.umem.config.frame_size;
    assert(0 <= index * size <= u64::MAX) by (nonlinear_arith)
        requires
            0 <= index <= 0xffff_ffff,
            0 <= size <= 0xffff_ffff,
    ;
}

/// The `j`-th descriptor is for the `j`-th pair: its address, its length and no options.
pub proof fn law_descriptors_of_pairs(pairs: Seq<(u64, u32)>, j: int)
    requires
        0 <= j < pairs.len(),
    ensures
        tx_descs(pairs).len() == pairs.len(),
        tx_descs(pairs)[j].addr == pairs[j].0,
        tx_descs(pairs)[j].len == pairs[j].1,
        tx_descs(pairs)[j].options == 0,
{
}

/// Filling submits all frames or as many as there are free slots for, and fewer than supplied only
/// if the FILL ring is full afterwards. The `j`-th frame goes into the slot `j` indices ahead of
/// the producer index, and comes `j`-th behind what was outstanding; each address is the index
/// times the frame size, and that of a frame within the UMEM.
pub proof fn law_fill_appends(socket: SocketView, indices: Seq<u32>)
    requires
        socket.wf(),
        socket.fill.in_step(),
        socket.has_frames(indices.take(SocketView::taken(socket.fill, indices.len() as int))),
    ensures
        ({
            let n = SocketView::taken(socket.fill, indices.len() as int);
            let addrs = socket.frame_addrs(indices.take(n));
            let after = socket.fill.write(addrs).submit(n);
            &&& 0 <= n <= indices.len()
            &&& after.wf()
            &&& after.in_step()
            &&& after.queue() == socket.fill.queue() + addrs
            &&& after.free() == socket.fill.free() - n
            &&& n < indices.len() ==> after.free() == 0
            &&& after.outstanding() == socket.fill.outstanding() + n
            &&& forall|j: int|
                0 <= j < n ==> #[trigger] addrs[j] == indices[j] * socket.umem.config.frame_size
                    && socket.umem.contains(addrs[j] as int, socket.umem.frame_size())
                    && after.slots[(socket.fill.producer + j) % socket.fill.size] == addrs[j]
                    && after.queue()[socket.fill.outstanding() + j] == addrs[j]
            &&& after.consumer == socket.fill.consumer
            &&& after.flags == socket.fill.flags
            &&& after.size == socket.fill.size
        }),
{
    let n = SocketView::taken(socket.fill, indices.len() as int);
    let taken = indices.take(n);
    let addrs = socket.frame_addrs(taken);
    let after = socket.fill.write(addrs).submit(n);
    law_available_and_free(socket.fill);
    law_publish_appends(socket.fill, addrs);
    assert forall|j: int| 0 <= j < n implies #[trigger] addrs[j] == indices[j]
        * socket.umem.config.frame_size && socket.umem.contains(
        addrs[j] as int,
        socket.umem.frame_size(),
    ) && after.slots[(socket.fill.producer + j) % socket.fill.size] == addrs[j]
        && after.queue()[socket.fill.outstanding() + j] == addrs[j] by {
        assert(taken[j] < socket.umem.frame_count());
        law_addresses_of_frames(socket, taken, j);
        law_frames_lie_within(socket.umem, indices[j] as int);
        law_written_values_are_in_their_slots(socket.fill, addrs, j);
    }
}

/// Filling with an index that the UMEM has no frame for hands nothing to the kernel: the queue and
/// the free slots of the FILL ring are as before.
pub proof fn law_failed_fill_hands_over_nothing(socket: SocketView, indices: Seq<u32>, bad: int)
    requires
        socket.wf(),
        0 <= bad < SocketView::taken(socket.fill, indices.len() as int),
    ensures
        ({
            let after = socket.fill.write(socket.frame_addrs(indices.take(bad)));
            &&& after.queue() == socket.fill.queue()
            &&& after.free() == socket.fill.free()
            &&& after.producer == socket.fill.producer
        }),
{
    law_written_is_not_visible(socket.fill, socket.frame_addrs(indices.take(bad)));
}

/// Transmitting enqueues a descriptor for each pair or for as many as there are free slots, and
/// fewer than supplied only if the TX ring is full afterwards. The `j`-th descriptor has the
/// address and the length of the `j`-th pair; it goes into the slot `j` indices ahead of the
/// producer index, and comes `j`-th behind what was outstanding.
pub proof fn law_transmit_appends(socket: SocketView, pairs: Seq<(u64, u32)>)
    requires
        socket.wf(),
        socket.tx.in_step(),
    ensures
        ({
            let n = SocketView::taken(socket.tx, pairs.len() as int);
            let after = socket.tx.write(tx_descs(pairs.take(n))).submit(n);
            &&& 0 <= n <= pairs.len()
            &&& after.wf()
            &&& after.in_step()
            &&& after.queue() == socket.tx.queue() + tx_descs(pairs.take(n))
            &&& after.free() == socket.tx.free() - n
            &&& n < pairs.len() ==> after.free() == 0
            &&& after.outstanding() == socket.tx.outstanding() + n
            &&& forall|j: int|
                #![trigger pairs[j]]
                0 <= j < n ==> {
                    let desc = XdpDesc { addr: pairs[j].0, len: pairs[j].1, options: 0 };
                    &&& after.queue()[socket.tx.outstanding() + j] == desc
                    &&& after.slots[(socket.tx.producer + j) % socket.tx.size] == desc
                }
            &&& after.consumer == socket.tx.consumer
            &&& after.flags == socket.tx.flags
            &&& after.size == socket.tx.size
        }),
{
    let n = SocketView::taken(socket.tx, pairs.len() as int);
    let descs = tx_descs(pairs.take(n));
    let after = socket.tx.write(descs).submit(n);
    law_available_and_free(socket.tx);
    law_publish_appends(socket.tx, descs);
    assert forall|j: int| #![trigger pairs[j]] 0 <= j < n implies {
        let desc = XdpDesc { addr: pairs[j].0, len: pairs[j].1, options: 0 };
        &&& after.queue()[socket.tx.outstanding() + j] == desc
        &&& after.slots[(socket.tx.producer + j) % socket.tx.size] == desc
    } by {
        law_descriptors_of_pairs(pairs.take(n), j);
        law_written_values_are_in_their_slots(socket.tx, descs, j);
        assert(pairs.take(n)[j] == pairs[j]);
    }
}

/// Completing leaves nothing on the COMPLETION ring, and every slot of it free for the kernel
/// where the ring was in step.
pub proof fn law_complete_drains(socket: SocketView)
    requires
        socket.wf(),
    ensures
        ({
            let after = socket.completion.release(socket.completion.outstanding());
            &&& after.wf()
            &&& after.queue() == Seq::<u64>::empty()
            &&& socket.completion.in_step() ==> after.free() == after.size
        }),
{
    law_available_and_free(socket.completion);
    law_release_drops_the_oldest(socket.completion, socket.completion.outstanding());
    let after = socket.completion.release(socket.completion.outstanding());
    assert(after.queue() =~= Seq::<u64>::empty());
}

/// Releasing received packets moves the later ones to the front: what was the `(index + n)`-th
/// packet is the `index`-th. The consumer never passes the producer.
pub proof fn law_release_moves_packets_up(socket: SocketView, n: int, index: int)
    requires
        socket.wf(),
        0 <= n <= socket.rx.outstanding(),
        0 <= index,
    ensures
        ({
            let after = SocketView { rx: socket.rx.release(n), ..socket };
            &&& after.wf()
            &&& after.rx.outstanding() == socket.rx.outstanding() - n
            &&& after.packet(index) == socket.packet(index + n)
            &&& socket.rx.in_step() ==> after.rx.in_step()
        }),
{
    law_available_and_free(socket.rx);
    law_release_drops_the_oldest(socket.rx, n);
    let after = SocketView { rx: socket.rx.release(n), ..socket };
    if index < after.rx.outstanding() {
        assert(socket.rx.queue().skip(n)[index] == socket.rx.queue()[index + n]);
    }
}

/// A packet that the kernel produces comes after those that are available, which stay as they
/// are, and can be read if its descriptor lies within the UMEM.
pub proof fn law_received_packet_comes_last(socket: SocketView, desc: XdpDesc, index: int)
    requires
        socket.wf(),
        socket.rx.outstanding() < socket.rx.size,
    ensures
        ({
            let after = SocketView { rx: socket.rx.write_entry(0, desc).submit(1), ..socket };
            &&& after.wf()
            &&& after.rx.outstanding() == socket.rx.outstanding() + 1
            &&& index < socket.rx.outstanding() ==> after.packet(index) == socket.packet(index)
            &&& socket.umem.contains(desc.addr as int, desc.len as int) ==> after.packet(
                socket.rx.outstanding(),
            ) == Some(desc)
        }),
{
    let values = seq![desc];
    law_writing_nothing(socket.rx);
    law_write_one_at_a_time(socket.rx, Seq::empty(), desc);
    assert(Seq::empty().push(desc) =~= values);
    law_available_and_free(socket.rx);
    law_publish_appends(socket.rx, values);
    let after = SocketView { rx: socket.rx.write_entry(0, desc).submit(1), ..socket };
    assert(after.rx.queue() == socket.rx.queue() + values);
    if 0 <= index < socket.rx.outstanding() {
        assert(after.rx.queue()[index] == socket.rx.queue()[index]);
    }
    assert(after.rx.queue()[socket.rx.outstanding()] == desc);
}

/// What was written into a frame and transmitted is what the kernel finds: the last descriptor on
/// the TX ring describes exactly the bytes that were written.
pub proof fn law_kernel_finds_what_was_written(
    socket: SocketView,
    mem: Seq<u8>,
    addr: u64,
    len: u32,
    bytes: Seq<u8>,
)
    requires
        socket.wf(),
        socket.tx.in_step(),
        socket.tx.free() > 0,
        mem.len() == socket.umem.len,
        bytes.len() == len,
        socket.umem.contains(addr as int, len as int),
    ensures
        ({
            let written = with_bytes(mem, addr as int, len as int, bytes);
            let pairs = seq![(addr, len)];
            let after = socket.tx.write(tx_descs(pairs)).submit(1);
            let desc = after.queue().last();
            &&& after.outstanding() == socket.tx.outstanding() + 1
            &&& bytes_at(written, desc.addr as int, desc.len as int) == bytes
        }),
{
    let pairs = seq![(addr, len)];
    law_available_and_free(socket.tx);
    law_publish_appends(socket.tx, tx_descs(pairs));
    law_written_bytes_are_read_back(socket.umem, mem, addr as int, bytes);
    let after = socket.tx.write(tx_descs(pairs)).submit(1);
    assert(after.queue().last() == tx_descs(pairs)[0]);
}

/// A packet can be read exactly when it is among those that are available and its descriptor ends
/// within the UMEM; the descriptor is the one in the slot of its index.
pub proof fn law_packets_that_can_be_read(socket: SocketView, index: u32)
    requires
        socket.wf(),
    ensures
        ({
            let desc = socket.rx.slots[(socket.rx.consumer + index) % socket.rx.size];
            &&& socket.packet(index as int) is Some <==> index < socket.rx.outstanding()
                && desc.addr + desc.len <= socket.umem.len
            &&& socket.packet(index as int) matches Some(d) ==> d == desc
        }),
{
    if index < socket.rx.outstanding() {
        law_queue_reads_the_slots(socket.rx, index as int);
    }
}

/// Without `XDP_USE_NEED_WAKEUP` every kick wakes the kernel and RX never does; with it, a kick
/// wakes the kernel exactly when bit 0 of the TX ring's flags is set, and RX exactly when bit 0 of
/// the FILL ring's is. Nothing else of the socket matters.
pub proof fn law_wakeups(socket: SocketView)
    ensures
        socket.kicks_tx() <==> !socket.uses_need_wakeup || socket.tx.flags & 1 != 0,
        socket.wakes_rx() <==> socket.uses_need_wakeup && socket.fill.flags & 1 != 0,
        socket.tx.needs_wakeup() <==> socket.tx.flags & 1 != 0,
        socket.fill.needs_wakeup() <==> socket.fill.flags & 1 != 0,
{
    law_wakeup_is_bit_zero_of_the_flags(socket.tx);
    law_wakeup_is_bit_zero_of_the_flags(socket.fill);
}

} // verus!
