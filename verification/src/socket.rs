//! The `AF_XDP` socket itself: ties a UMEM to the FILL, COMPLETION, RX and TX rings.

use vstd::prelude::*;

use crate::abi::{XdpDesc, XDP_USE_NEED_WAKEUP};
use crate::error::XskError;
use crate::ring::{RingView, XskRing};
use crate::ring_laws::{law_available_and_free, law_write_one_at_a_time, law_writing_nothing};
use crate::setup::{XskSetup, XskSocketConfig};
use crate::umem::{bytes_at, with_bytes, FrameSpan, UmemView, XskUmem};

verus! {

/// The mathematical content of a socket.
pub struct SocketView {
    /// The UMEM.
    pub umem: UmemView,
    /// The FILL ring: frames that the kernel may receive into.
    pub fill: RingView<u64>,
    /// The COMPLETION ring: frames that the kernel has transmitted.
    pub completion: RingView<u64>,
    /// The RX ring: packets that the kernel has received.
    pub rx: RingView<XdpDesc>,
    /// The TX ring: packets to transmit.
    pub tx: RingView<XdpDesc>,
    /// Whether the socket is bound with `XDP_USE_NEED_WAKEUP`.
    pub uses_need_wakeup: bool,
}

impl SocketView {
    /// What holds of every socket: its UMEM and its rings are well-formed.
    pub open spec fn wf(self) -> bool {
        &&& self.umem.wf()
        &&& self.fill.wf()
        &&& self.completion.wf()
        &&& self.rx.wf()
        &&& self.tx.wf()
    }

    /// How many of `len` items a ring takes: as many as it has free slots for.
    pub open spec fn taken<T>(ring: RingView<T>, len: int) -> int {
        if len < ring.free() {
            len
        } else {
            ring.free()
        }
    }

    /// Whether the UMEM has a frame for every index.
    pub open spec fn has_frames(self, indices: Seq<u32>) -> bool {
        forall|j: int| 0 <= j < indices.len() ==> #[trigger] indices[j] < self.umem.frame_count()
    }

    /// The addresses of frames.
    pub open spec fn frame_addrs(self, indices: Seq<u32>) -> Seq<u64> {
        Seq::new(indices.len(), |j: int| self.umem.frame_addr(indices[j] as int) as u64)
    }

    /// The descriptor of the `index`-th available packet, if there is one and it lies within the
    /// UMEM.
    pub open spec fn packet(self, index: int) -> Option<XdpDesc> {
        if 0 <= index < self.rx.outstanding() && self.umem.contains(
            self.rx.queue()[index].addr as int,
            self.rx.queue()[index].len as int,
        ) {
            Some(self.rx.queue()[index])
        } else {
            None
        }
    }

    /// Whether waking the kernel for RX takes a system call.
    pub open spec fn wakes_rx(self) -> bool {
        self.uses_need_wakeup && self.fill.needs_wakeup()
    }

    /// Whether waking the kernel for TX takes a system call.
    pub open spec fn kicks_tx(self) -> bool {
        !self.uses_need_wakeup || self.tx.needs_wakeup()
    }
}

/// The descriptors that transmit `(addr, len)` pairs.
pub open spec fn tx_descs(pairs: Seq<(u64, u32)>) -> Seq<XdpDesc> {
    Seq::new(
        pairs.len(),
        |j: int| XdpDesc { addr: pairs[j].0, len: pairs[j].1, options: 0 },
    )
}

/// An `AF_XDP` socket bound to a single netdev queue.
///
/// Frame ownership is the caller's responsibility: a frame is owned by either the caller or the
/// kernel, never both.
///
/// - **RX:** hand empty frames to the kernel with [`fill`](Self::fill); read received packets with
///   [`rx_peek`](Self::rx_peek) and return their descriptors with [`rx_release`](Self::rx_release).
/// - **TX:** write a frame with [`tx_frame_mut`](Self::tx_frame_mut), enqueue it with
///   [`transmit`](Self::transmit), wake the kernel as [`kick`](Self::kick) says, then reclaim sent
///   frames with [`complete`](Self::complete).
///
/// The kernel's progress on a ring is recorded through [`fill_ring`](Self::fill_ring),
/// [`completion_ring`](Self::completion_ring), [`rx_ring`](Self::rx_ring) and
/// [`tx_ring`](Self::tx_ring).
///
/// # Zero-copy
///
/// In zero-copy mode with `XDP_USE_NEED_WAKEUP` the driver must be woken after refilling the FILL
/// ring, so ask [`wake_rx`](Self::wake_rx) after [`fill`](Self::fill) (just as
/// [`kick`](Self::kick) follows [`transmit`](Self::transmit)), or RX silently stalls.
pub struct XskSocket {
    umem: XskUmem,
    fill: XskRing<u64>,
    completion: XskRing<u64>,
    rx: XskRing<XdpDesc>,
    tx: XskRing<XdpDesc>,
    /// Whether the socket was bound with `XDP_USE_NEED_WAKEUP`; when set, [`kick`](Self::kick)
    /// only asks to wake the kernel if the TX ring requests it.
    uses_need_wakeup: bool,
}

impl View for XskSocket {
    type V = SocketView;

    closed spec fn view(&self) -> SocketView {
        SocketView {
            umem: self.umem@,
            fill: self.fill@,
            completion: self.completion@,
            rx: self.rx@,
            tx: self.tx@,
            uses_need_wakeup: self.uses_need_wakeup,
        }
    }
}

impl XskSocket {
    /// The invariant of a socket, see [`SocketView::wf`].
    pub open spec fn wf(self) -> bool {
        self@.wf()
    }

    /// Starts setting up an `AF_XDP` socket over `umem` that is to be bound to
    /// `(ifindex, queue_id)`. The set-up says which system calls to make; when it is finished,
    /// [`from_setup`](Self::from_setup) gives the socket.
    ///
    /// # Errors
    ///
    /// Returns [`XskError::InvalidRingSize`] if a ring size is not a power of two.
    pub fn new(umem: XskUmem, ifindex: u32, queue_id: u32, config: XskSocketConfig) -> (r: Result<
        XskSetup,
        XskError,
    >)
        requires
            umem.wf(),
        ensures
            config.valid() <==> r is Ok,
            r is Err ==> r == Err::<XskSetup, XskError>(XskError::InvalidRingSize),
            r matches Ok(setup) ==> {
                &&& setup.wf()
                &&& setup@.umem == umem@
                &&& setup@.ifindex == ifindex
                &&& setup@.queue_id == queue_id
                &&& setup@.config == config
                &&& setup@.step is CreateSocket
            },
    {
        XskSetup::start(umem, ifindex, queue_id, config)
    }

    /// The socket that was set up, over the rings that were mapped.
    pub fn from_setup(
        setup: XskSetup,
        fill: XskRing<u64>,
        completion: XskRing<u64>,
        rx: XskRing<XdpDesc>,
        tx: XskRing<XdpDesc>,
    ) -> (r: Self)
        requires
            setup.wf(),
            setup@.step is Finished,
            fill.wf(),
            fill@.size == setup@.config.fill_size,
            completion.wf(),
            completion@.size == setup@.config.completion_size,
            rx.wf(),
            rx@.size == setup@.config.rx_size,
            tx.wf(),
            tx@.size == setup@.config.tx_size,
        ensures
            r.wf(),
            r@ == (SocketView {
                umem: setup@.umem,
                fill: fill@,
                completion: completion@,
                rx: rx@,
                tx: tx@,
                uses_need_wakeup: setup@.config.uses_need_wakeup(),
            }),
            r@.uses_need_wakeup == (setup@.config.bind_flags & 8 != 0),
    {
        let (umem, config) = setup.into_parts();
        let bind_flags: u16 = config.bind_flags;
        assert((bind_flags & 8 != 0) == ((bind_flags / 8) % 2 == 1)) by (bit_vector);
        XskSocket {
            umem,
            fill,
            completion,
            rx,
            tx,
            uses_need_wakeup: bind_flags & XDP_USE_NEED_WAKEUP != 0,
        }
    }

    /// The UMEM registered on this socket.
    pub fn umem(&self) -> (r: &XskUmem)
        ensures
            r@ == self@.umem,
            self.wf() ==> r.wf(),
    {
        &self.umem
    }

    /// The FILL ring, to record what the kernel consumed of it and its flags.
    pub fn fill_ring(&mut self) -> (r: &mut XskRing<u64>)
        ensures
            r@ == old(self)@.fill,
            final(self)@ == (SocketView { fill: final(r)@, ..old(self)@ }),
    {
        &mut self.fill
    }

    /// The COMPLETION ring, to record what the kernel produced into it.
    pub fn completion_ring(&mut self) -> (r: &mut XskRing<u64>)
        ensures
            r@ == old(self)@.completion,
            final(self)@ == (SocketView { completion: final(r)@, ..old(self)@ }),
    {
        &mut self.completion
    }

    /// The RX ring, to record what the kernel produced into it.
    pub fn rx_ring(&mut self) -> (r: &mut XskRing<XdpDesc>)
        ensures
            r@ == old(self)@.rx,
            final(self)@ == (SocketView { rx: final(r)@, ..old(self)@ }),
    {
        &mut self.rx
    }

    /// The TX ring, to record what the kernel consumed of it and its flags.
    pub fn tx_ring(&mut self) -> (r: &mut XskRing<XdpDesc>)
        ensures
            r@ == old(self)@.tx,
            final(self)@ == (SocketView { tx: final(r)@, ..old(self)@ }),
    {
        &mut self.tx
    }

    /// Number of received packets available to read.
    pub fn rx_available(&self) -> (r: u32)
        ensures
            r == self@.rx.outstanding(),
    {
        self.rx.available()
    }

    /// Where in the UMEM the bytes of the `index`-th currently-available received packet lie, or
    /// `None` if `index >= rx_available()` or if its descriptor does not lie within the UMEM.
    pub fn rx_span(&self, index: u32) -> (r: Option<FrameSpan>)
        requires
            self.wf(),
        ensures
            r is Some <==> self@.packet(index as int) is Some,
            r matches Some(span) ==> span.start == self@.rx.queue()[index as int].addr && span.len
                == self@.rx.queue()[index as int].len,
    {
        if index >= self.rx.available() {
            return None;
        }
        let desc: XdpDesc = self.rx.consumer_entry(index);
        self.umem.frame_span(desc.addr, desc.len)
    }

    /// Returns the bytes of the `index`-th currently-available received packet without consuming
    /// it, or `None` if `index >= rx_available()` or if its descriptor does not lie within the
    /// UMEM. `mem` is the UMEM's memory.
    pub fn rx_peek<'a>(&self, mem: &'a [u8], index: u32) -> (r: Option<&'a [u8]>)
        requires
            self.wf(),
            mem@.len() == self@.umem.len,
        ensures
            r is Some <==> self@.packet(index as int) is Some,
            r matches Some(bytes) ==> bytes@ == bytes_at(
                mem@,
                self@.rx.queue()[index as int].addr as int,
                self@.rx.queue()[index as int].len as int,
            ),
            r matches Some(bytes) ==> {
                let desc = self@.rx.slots[(self@.rx.consumer + index) % self@.rx.size];
                &&& bytes@.len() == desc.len
                &&& forall|k: int|
                    0 <= k < desc.len ==> #[trigger] bytes@[k] == mem@[desc.addr + k]
            },
    {
        if index >= self.rx.available() {
            return None;
        }
        let desc: XdpDesc = self.rx.consumer_entry(index);
        self.umem.frame_bytes(mem, desc.addr, desc.len)
    }

    /// Releases up to `n` of the oldest received descriptors back to the kernel.
    ///
    /// `n` is clamped to the number currently available, so over-releasing cannot advance the
    /// consumer past the producer. Returns the number actually released. The released frames are
    /// not reusable until they are returned to the kernel via [`fill`](Self::fill).
    pub fn rx_release(&mut self, n: u32) -> (r: u32)
        ensures
            r == (if n < old(self)@.rx.outstanding() {
                n as int
            } else {
                old(self)@.rx.outstanding()
            }),
            final(self)@ == (SocketView { rx: old(self)@.rx.release(r as int), ..old(self)@ }),
            old(self).wf() ==> final(self).wf(),
    {
        let available: u32 = self.rx.available();
        let released: u32 = if n < available {
            n
        } else {
            available
        };
        self.rx.release(released);
        released
    }

    /// Submits UMEM frames to the FILL ring so the kernel can receive packets into them.
    ///
    /// Returns the number of frames actually submitted, which may be fewer than supplied if the
    /// FILL ring fills up.
    ///
    /// # Errors
    ///
    /// Returns [`XskError::FrameOutOfBounds`] with the first index, among those that the ring has
    /// room for, that the UMEM has no frame for. Nothing is submitted then.
    pub fn fill(&mut self, frame_indices: &[u32]) -> (r: Result<u32, XskError>)
        requires
            old(self).wf(),
        ensures
            final(self).wf(),
            ({
                let n = SocketView::taken(old(self)@.fill, frame_indices@.len() as int);
                let taken = frame_indices@.take(n);
                &&& n == frame_indices@.len() || n == old(self)@.fill.free()
                &&& n <= frame_indices@.len() && n <= old(self)@.fill.free()
                &&& r is Ok <==> old(self)@.has_frames(taken)
                &&& r matches Ok(submitted) ==> {
                    &&& submitted == n
                    &&& final(self)@ == (SocketView {
                        fill: old(self)@.fill.write(old(self)@.frame_addrs(taken)).submit(n),
                        ..old(self)@
                    })
                }
                &&& r matches Err(error) ==> exists|bad: int|
                    {
                        &&& 0 <= bad < n
                        &&& #[trigger] frame_indices@[bad] >= old(self)@.umem.frame_count()
                        &&& old(self)@.has_frames(frame_indices@.take(bad))
                        &&& error == XskError::FrameOutOfBounds(frame_indices@[bad])
                        &&& final(self)@ == (SocketView {
                            fill: old(self)@.fill.write(
                                old(self)@.frame_addrs(frame_indices@.take(bad)),
                            ),
                            ..old(self)@
                        })
                    }
            }),
    {
        let free: u32 = self.fill.free();
        let mut submitted: u32 = 0;
        let mut next: usize = 0;
        let ghost before = self@;
        let ghost indices = frame_indices@;
        proof {
            law_available_and_free(before.fill);
            assert(indices.take(0) =~= Seq::empty());
            assert(before.frame_addrs(indices.take(0)) =~= Seq::empty());
            law_writing_nothing(before.fill);
        }
        while next < frame_indices.len()
            invariant_except_break
                next == submitted,
            invariant
                before == old(self)@,
                before.wf(),
                self.wf(),
                indices == frame_indices@,
                free == before.fill.free(),
                free <= before.fill.size,
                submitted <= free,
                submitted <= indices.len(),
                before.has_frames(indices.take(submitted as int)),
                self@ == (SocketView {
                    fill: before.fill.write(before.frame_addrs(indices.take(submitted as int))),
                    ..before
                }),
            ensures
                submitted == SocketView::taken(before.fill, indices.len() as int),
            decreases frame_indices.len() - next,
        {
            if submitted >= free {
                break;
            }
            let index: u32 = frame_indices[next];
            match self.umem.frame_addr(index) {
                Ok(addr) => {
                    proof {
                        let done = indices.take(submitted as int);
                        let more = indices.take(submitted + 1);
                        assert(more =~= done.push(index));
                        assert(before.frame_addrs(more) =~= before.frame_addrs(done).push(addr));
                        law_write_one_at_a_time(before.fill, before.frame_addrs(done), addr);
                    }
                    self.fill.set_producer_entry(submitted, addr);
                },
                Err(error) => {
                    assert(indices[next as int] == index);
                    assert(!before.has_frames(
                        indices.take(SocketView::taken(before.fill, indices.len() as int)),
                    )) by {
                        let taken = indices.take(
                            SocketView::taken(before.fill, indices.len() as int),
                        );
                        assert(taken[next as int] == index);
                    }
                    return Err(error);
                },
            }
            submitted = submitted + 1;
            next = next + 1;
        }
        self.fill.submit(submitted);
        Ok(submitted)
    }

    /// Whether the kernel has to be woken, with `recvfrom`, to refill RX from the FILL ring.
    ///
    /// Only needed in zero-copy + `XDP_USE_NEED_WAKEUP` mode, where the driver must be woken after
    /// [`fill`](Self::fill) or RX stalls. It is not unless the socket was bound with
    /// `XDP_USE_NEED_WAKEUP` and the FILL ring has flagged that it needs a wake-up; in copy mode
    /// no system call is made. (Unlike [`kick`](Self::kick), which must always fire to drive
    /// copy-mode TX.)
    pub fn wake_rx(&self) -> (r: bool)
        ensures
            r == self@.wakes_rx(),
            r == (self@.uses_need_wakeup && self@.fill.flags & 1 != 0),
    {
        self.uses_need_wakeup && self.fill.needs_wakeup()
    }

    /// Returns a mutable view of the frame at UMEM offset `addr` for `len` bytes, into which a
    /// packet to transmit can be written, or `None` if `[addr, addr + len)` is outside the UMEM.
    /// `mem` is the UMEM's memory.
    ///
    /// The frame must be one the caller currently owns (not enqueued in the FILL or TX rings). Use
    /// [`XskUmem::frame_addr`] to turn a frame index into an `addr`.
    pub fn tx_frame_mut<'a>(&self, mem: &'a mut [u8], addr: u64, len: u32) -> (r: Option<
        &'a mut [u8],
    >)
        requires
            old(mem)@.len() == self@.umem.len,
        ensures
            r is Some <==> self@.umem.contains(addr as int, len as int),
            r is None ==> final(mem)@ == old(mem)@,
            r matches Some(bytes) ==> bytes@ == bytes_at(old(mem)@, addr as int, len as int)
                && final(mem)@ == with_bytes(old(mem)@, addr as int, len as int, final(bytes)@),
            r is Some <==> addr + len <= self@.umem.len,
            r matches Some(bytes) ==> bytes@.len() == len && forall|k: int|
                0 <= k < len ==> #[trigger] bytes@[k] == old(mem)@[addr + k],
            r matches Some(bytes) ==> (final(bytes)@.len() == len ==> {
                &&& final(mem)@.len() == old(mem)@.len()
                &&& forall|i: int|
                    0 <= i < self@.umem.len ==> #[trigger] final(mem)@[i] == (if addr <= i < addr
                        + len {
                        final(bytes)@[i - addr]
                    } else {
                        old(mem)@[i]
                    })
            }),
    {
        self.umem.frame_bytes_mut(mem, addr, len)
    }

    /// Enqueues frames for transmission on the TX ring.
    ///
    /// Each item is an `(addr, len)` pair describing a frame previously written via
    /// [`tx_frame_mut`](Self::tx_frame_mut). Returns the number of descriptors actually enqueued,
    /// which may be fewer than supplied if the TX ring fills up. Ask [`kick`](Self::kick)
    /// afterwards whether to wake the kernel so that it processes them.
    pub fn transmit(&mut self, descs: &[(u64, u32)]) -> (r: Result<u32, XskError>)
        requires
            old(self).wf(),
        ensures
            final(self).wf(),
            ({
                let n = SocketView::taken(old(self)@.tx, descs@.len() as int);
                &&& n == descs@.len() || n == old(self)@.tx.free()
                &&& n <= descs@.len() && n <= old(self)@.tx.free()
                &&& r matches Ok(submitted) && submitted == n
                &&& final(self)@ == (SocketView {
                    tx: old(self)@.tx.write(tx_descs(descs@.take(n))).submit(n),
                    ..old(self)@
                })
            }),
    {
        let free: u32 = self.tx.free();
        let mut submitted: u32 = 0;
        let mut next: usize = 0;
        let ghost before = self@;
        let ghost pairs = descs@;
        proof {
            law_available_and_free(before.tx);
            assert(tx_descs(pairs.take(0)) =~= Seq::empty());
            law_writing_nothing(before.tx);
        }
        while next < descs.len()
            invariant_except_break
                next == submitted,
            invariant
                before.wf(),
                self.wf(),
                pairs == descs@,
                free == before.tx.free(),
                free <= before.tx.size,
                submitted <= free,
                submitted <= pairs.len(),
                self@ == (SocketView {
                    tx: before.tx.write(tx_descs(pairs.take(submitted as int))),
                    ..before
                }),
            ensures
                submitted == SocketView::taken(before.tx, pairs.len() as int),
            decreases descs.len() - next,
        {
            if submitted >= free {
                break;
            }
            let (addr, len) = descs[next];
            let desc = XdpDesc { addr, len, options: 0 };
            proof {
                let done = pairs.take(submitted as int);
                let more = pairs.take(submitted + 1);
                assert(more =~= done.push((addr, len)));
                assert(tx_descs(more) =~= tx_descs(done).push(desc));
                law_write_one_at_a_time(before.tx, tx_descs(done), desc);
            }
            self.tx.set_producer_entry(submitted, desc);
            submitted = submitted + 1;
            next = next + 1;
        }
        self.tx.submit(submitted);
        Ok(submitted)
    }

    /// Whether the kernel has to be woken, with `sendto`, to process the TX ring.
    ///
    /// When the socket was bound with `XDP_USE_NEED_WAKEUP`, it is not unless the kernel has
    /// flagged that it needs a wake-up; otherwise it always is.
    pub fn kick(&self) -> (r: bool)
        ensures
            r == self@.kicks_tx(),
            r == (!self@.uses_need_wakeup || self@.tx.flags & 1 != 0),
    {
        if self.uses_need_wakeup && !self.tx.needs_wakeup() {
            return false;
        }
        true
    }

    /// Drains the COMPLETION ring, appending to `out` the UMEM `addr` of each transmitted frame
    /// the kernel has finished with, and returns the number of frames reclaimed.
    ///
    /// The caller regains ownership of these frames and can reuse them for TX or the FILL ring.
    pub fn complete(&mut self, out: &mut Vec<u64>) -> (r: u32)
        requires
            old(self).wf(),
        ensures
            final(self).wf(),
            r == old(self)@.completion.outstanding(),
            final(out)@ == old(out)@ + old(self)@.completion.queue(),
            final(out)@.len() == old(out)@.len() + r,
            forall|i: int|
                0 <= i < r ==> #[trigger] final(out)@[old(out)@.len() + i]
                    == old(self)@.completion.slots[(old(self)@.completion.consumer + i)
                    % old(self)@.completion.size],
            final(self)@ == (SocketView {
                completion: old(self)@.completion.release(r as int),
                ..old(self)@
            }),
    {
        let n: u32 = self.completion.available();
        let ghost queue = self@.completion.queue();
        let ghost reclaimed = out@;
        let mut i: u32 = 0;
        while i < n
            invariant
                i <= n,
                self.wf(),
                self@ == old(self)@,
                queue == self@.completion.queue(),
                n == self@.completion.outstanding(),
                out@ == reclaimed + queue.take(i as int),
            decreases n - i,
        {
            let addr: u64 = self.completion.consumer_entry(i);
            out.push(addr);
            assert(queue.take(i + 1) =~= queue.take(i as int).push(addr));
            i = i + 1;
        }
        assert(queue.take(n as int) =~= queue);
        self.completion.release(n);
        n
    }
}

} // verus!
