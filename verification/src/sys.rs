//! What the results of `AF_XDP` system calls mean.
//!
//! The calls themselves are made elsewhere; each function here takes what a call returned, and the
//! `errno` that it left, and gives the outcome.

use vstd::prelude::*;

use crate::abi::{
    XdpMmapOffsets, XdpMmapOffsetsV1, XdpRingOffset, XdpRingOffsetV1, MMAP_OFFSETS_SIZE,
    MMAP_OFFSETS_V1_SIZE, MMAP_OFFSETS_WORDS,
};
use crate::error::{IoError, SyscallError};

verus! {

/// The outcome of a call that fails where it returns less than zero.
pub open spec fn outcome<T>(failed: bool, value: T, call: &'static str, errno: i32) -> Result<
    T,
    SyscallError,
> {
    if failed {
        Err(SyscallError { call, io_error: IoError::Os(errno) })
    } else {
        Ok(value)
    }
}

/// A call that failed gives an error with its name and the kernel's `errno`; any other gives its
/// value.
pub proof fn law_outcomes<T>(failed: bool, value: T, call: &'static str, errno: i32)
    ensures
        failed ==> (outcome(failed, value, call, errno) matches Err(error) && error.call == call
            && error.io_error == IoError::Os(errno)),
        !failed ==> (outcome(failed, value, call, errno) matches Ok(v) && v == value),
{
}

/// The outcome of `socket`: the file descriptor of a new socket.
pub fn socket_result(ret: i32, errno: i32) -> (r: Result<i32, SyscallError>)
    ensures
        r == outcome(ret < 0, ret, "socket", errno),
{
    if ret < 0 {
        return Err(SyscallError { call: "socket", io_error: IoError::Os(errno) });
    }
    Ok(ret)
}

/// The outcome of `setsockopt`.
pub fn setsockopt_result(ret: i32, errno: i32) -> (r: Result<(), SyscallError>)
    ensures
        r == outcome(ret < 0, (), "setsockopt", errno),
{
    if ret < 0 {
        return Err(SyscallError { call: "setsockopt", io_error: IoError::Os(errno) });
    }
    Ok(())
}

/// The outcome of `bind`.
pub fn bind_result(ret: i32, errno: i32) -> (r: Result<(), SyscallError>)
    ensures
        r == outcome(ret < 0, (), "bind", errno),
{
    if ret < 0 {
        return Err(SyscallError { call: "bind", io_error: IoError::Os(errno) });
    }
    Ok(())
}

// --- Ring offsets ---

/// The ring that four consecutive words describe.
pub open spec fn ring_offset_at(words: Seq<u64>, at: int) -> XdpRingOffset {
    XdpRingOffset {
        producer: words[at],
        consumer: words[at + 1],
        desc: words[at + 2],
        flags: words[at + 3],
    }
}

/// The offsets that the words hold in the current layout.
pub open spec fn mmap_offsets_at(words: Seq<u64>) -> XdpMmapOffsets {
    XdpMmapOffsets {
        rx: ring_offset_at(words, 0),
        tx: ring_offset_at(words, 4),
        fr: ring_offset_at(words, 8),
        cr: ring_offset_at(words, 12),
    }
}

/// The ring that three consecutive words describe in the layout without flags.
pub open spec fn ring_offset_v1_at(words: Seq<u64>, at: int) -> XdpRingOffsetV1 {
    XdpRingOffsetV1 { producer: words[at], consumer: words[at + 1], desc: words[at + 2] }
}

/// The offsets that the words hold in the layout without flags.
pub open spec fn mmap_offsets_v1_at(words: Seq<u64>) -> XdpMmapOffsetsV1 {
    XdpMmapOffsetsV1 {
        rx: ring_offset_v1_at(words, 0),
        tx: ring_offset_v1_at(words, 3),
        fr: ring_offset_v1_at(words, 6),
        cr: ring_offset_v1_at(words, 9),
    }
}

/// A ring of the layout without flags in the current one: the flags offset is zero.
pub open spec fn ring_offset_translated(v1: XdpRingOffsetV1) -> XdpRingOffset {
    XdpRingOffset { producer: v1.producer, consumer: v1.consumer, desc: v1.desc, flags: 0 }
}

/// All rings of the layout without flags in the current one.
pub open spec fn mmap_offsets_translated(v1: XdpMmapOffsetsV1) -> XdpMmapOffsets {
    XdpMmapOffsets {
        rx: ring_offset_translated(v1.rx),
        tx: ring_offset_translated(v1.tx),
        fr: ring_offset_translated(v1.fr),
        cr: ring_offset_translated(v1.cr),
    }
}

/// The kernel writes the RX ring first, then TX, FILL and COMPLETION, and of each the offsets of
/// the producer index, the consumer index, the descriptors and the flags.
pub proof fn law_words_of_the_offsets(words: Seq<u64>)
    ensures
        ({
            let r = mmap_offsets_at(words);
            &&& r.rx.producer == words[0] && r.rx.consumer == words[1]
            &&& r.rx.desc == words[2] && r.rx.flags == words[3]
            &&& r.tx.producer == words[4] && r.tx.consumer == words[5]
            &&& r.tx.desc == words[6] && r.tx.flags == words[7]
            &&& r.fr.producer == words[8] && r.fr.consumer == words[9]
            &&& r.fr.desc == words[10] && r.fr.flags == words[11]
            &&& r.cr.producer == words[12] && r.cr.consumer == words[13]
            &&& r.cr.desc == words[14] && r.cr.flags == words[15]
        }),
{
}

/// A kernel before 5.4 writes the rings in the same order, with no flags.
pub proof fn law_words_of_the_offsets_without_flags(words: Seq<u64>)
    ensures
        ({
            let r = mmap_offsets_v1_at(words);
            &&& r.rx.producer == words[0] && r.rx.consumer == words[1] && r.rx.desc == words[2]
            &&& r.tx.producer == words[3] && r.tx.consumer == words[4] && r.tx.desc == words[5]
            &&& r.fr.producer == words[6] && r.fr.consumer == words[7] && r.fr.desc == words[8]
            &&& r.cr.producer == words[9] && r.cr.consumer == words[10] && r.cr.desc == words[11]
        }),
{
}

/// Translating keeps the three offsets of each ring and gives each ring zero for its flags.
pub proof fn law_translating_keeps_the_offsets(v1: XdpMmapOffsetsV1)
    ensures
        ({
            let r = mmap_offsets_translated(v1);
            &&& r.rx.producer == v1.rx.producer && r.rx.consumer == v1.rx.consumer
            &&& r.rx.desc == v1.rx.desc && r.rx.flags == 0
            &&& r.tx.producer == v1.tx.producer && r.tx.consumer == v1.tx.consumer
            &&& r.tx.desc == v1.tx.desc && r.tx.flags == 0
            &&& r.fr.producer == v1.fr.producer && r.fr.consumer == v1.fr.consumer
            &&& r.fr.desc == v1.fr.desc && r.fr.flags == 0
            &&& r.cr.producer == v1.cr.producer && r.cr.consumer == v1.cr.consumer
            &&& r.cr.desc == v1.cr.desc && r.cr.flags == 0
        }),
{
}

fn ring_offset_from_v1(src: &XdpRingOffsetV1) -> (r: XdpRingOffset)
    ensures
        r == ring_offset_translated(*src),
{
    XdpRingOffset { producer: src.producer, consumer: src.consumer, desc: src.desc, flags: 0 }
}

/// Translates the offsets of a kernel before 5.4 into the current layout, leaving each ring's
/// `flags` zero.
pub fn mmap_offsets_from_v1(v1: &XdpMmapOffsetsV1) -> (r: XdpMmapOffsets)
    ensures
        r == mmap_offsets_translated(*v1),
{
    XdpMmapOffsets {
        rx: ring_offset_from_v1(&v1.rx),
        tx: ring_offset_from_v1(&v1.tx),
        fr: ring_offset_from_v1(&v1.fr),
        cr: ring_offset_from_v1(&v1.cr),
    }
}

fn read_ring_offset(words: &[u64; MMAP_OFFSETS_WORDS], at: usize) -> (r: XdpRingOffset)
    requires
        at + 4 <= 16,
    ensures
        r == ring_offset_at(words@, at as int),
{
    XdpRingOffset {
        producer: words[at],
        consumer: words[at + 1],
        desc: words[at + 2],
        flags: words[at + 3],
    }
}

fn read_ring_offset_v1(words: &[u64; MMAP_OFFSETS_WORDS], at: usize) -> (r: XdpRingOffsetV1)
    requires
        at + 3 <= 16,
    ensures
        r == ring_offset_v1_at(words@, at as int),
{
    XdpRingOffsetV1 { producer: words[at], consumer: words[at + 1], desc: words[at + 2] }
}

/// The outcome of reading the layout of the rings with `getsockopt(XDP_MMAP_OFFSETS)`.
///
/// `words` is the memory that the kernel filled in and `optlen` the number of bytes that it says
/// it wrote. Kernels before 5.4 write a smaller structure without the `flags` of each ring; it is
/// told by its size and translated. A structure of any other size is an error.
pub fn mmap_offsets_result(
    ret: i32,
    errno: i32,
    words: &[u64; MMAP_OFFSETS_WORDS],
    optlen: usize,
) -> (r: Result<XdpMmapOffsets, SyscallError>)
    ensures
        ret < 0 ==> r == Err::<XdpMmapOffsets, SyscallError>(
            SyscallError { call: "getsockopt", io_error: IoError::Os(errno) },
        ),
        ret >= 0 && optlen == 128 ==> r == Ok::<XdpMmapOffsets, SyscallError>(
            mmap_offsets_at(words@),
        ),
        ret >= 0 && optlen == 96 ==> r == Ok::<XdpMmapOffsets, SyscallError>(
            mmap_offsets_translated(mmap_offsets_v1_at(words@)),
        ),
        ret >= 0 && optlen != 128 && optlen != 96 ==> r == Err::<XdpMmapOffsets, SyscallError>(
            SyscallError {
                call: "getsockopt",
                io_error: IoError::UnexpectedOffsetsSize(optlen),
            },
        ),
{
    if ret < 0 {
        return Err(SyscallError { call: "getsockopt", io_error: IoError::Os(errno) });
    }
    if optlen == MMAP_OFFSETS_SIZE {
        return Ok(
            XdpMmapOffsets {
                rx: read_ring_offset(words, 0),
                tx: read_ring_offset(words, 4),
                fr: read_ring_offset(words, 8),
                cr: read_ring_offset(words, 12),
            },
        );
    }
    if optlen == MMAP_OFFSETS_V1_SIZE {
        let v1 = XdpMmapOffsetsV1 {
            rx: read_ring_offset_v1(words, 0),
            tx: read_ring_offset_v1(words, 3),
            fr: read_ring_offset_v1(words, 6),
            cr: read_ring_offset_v1(words, 9),
        };
        return Ok(mmap_offsets_from_v1(&v1));
    }
    Err(
        SyscallError {
            call: "getsockopt",
            io_error: IoError::UnexpectedOffsetsSize(optlen),
        },
    )
}

// --- Wake-ups ---

/// The value of `libc::EBUSY`, which is 16 on every Linux target.
#[verifier::external_body]
fn ebusy() -> (r: i32)
    ensures
        r == 16,
{
    libc::EBUSY
}

/// The value of `libc::EAGAIN`, which is 11 on every Linux target.
#[verifier::external_body]
fn eagain() -> (r: i32)
    ensures
        r == 11,
{
    libc::EAGAIN
}

/// The value of `libc::ENOBUFS`. It depends on the target: 105 on most Linux targets, 132 on
/// those for MIPS and 55 on those for SPARC.
#[verifier::external_body]
fn enobufs() -> (r: i32)
    ensures
        r == 105 || r == 132 || r == 55,
{
    libc::ENOBUFS
}

/// The value of `libc::ENETDOWN`. It depends on the target: 100 on most Linux targets, 127 on
/// those for MIPS and 50 on those for SPARC.
#[verifier::external_body]
fn enetdown() -> (r: i32)
    ensures
        r == 100 || r == 127 || r == 50,
{
    libc::ENETDOWN
}

/// The values of `errno` that mean that a wake-up was not needed or will be tried again.
#[derive(Clone, Copy, Debug, PartialEq, Eq, Structural)]
pub struct BenignErrnos {
    /// `EBUSY`
    pub busy: i32,
    /// `EAGAIN`
    pub again: i32,
    /// `ENOBUFS`
    pub no_bufs: i32,
    /// `ENETDOWN`
    pub net_down: i32,
}

impl BenignErrnos {
    /// Whether `errno` is one of them.
    pub open spec fn contains(self, errno: i32) -> bool {
        errno == self.busy || errno == self.again || errno == self.no_bufs || errno
            == self.net_down
    }

    /// What holds of the values on every Linux target.
    pub open spec fn of_linux(self) -> bool {
        &&& self.busy == 16
        &&& self.again == 11
        &&& self.no_bufs == 105 || self.no_bufs == 132 || self.no_bufs == 55
        &&& self.net_down == 100 || self.net_down == 127 || self.net_down == 50
    }

    /// Whether each value is the one that the `libc` crate has for its name on this target.
    pub closed spec fn of_libc(self) -> bool {
        &&& call_ensures(ebusy, (), self.busy)
        &&& call_ensures(eagain, (), self.again)
        &&& call_ensures(enobufs, (), self.no_bufs)
        &&& call_ensures(enetdown, (), self.net_down)
    }

    /// The values on this target.
    pub fn of_target() -> (r: Self)
        ensures
            r.of_libc(),
            r.of_linux(),
    {
        BenignErrnos {
            busy: ebusy(),
            again: eagain(),
            no_bufs: enobufs(),
            net_down: enetdown(),
        }
    }
}

/// The outcome of a driver wake-up (`sendto`/`recvfrom` with an empty buffer), where `benign` are
/// the errors that merely mean that the wake-up was unnecessary or will be retried: they are
/// successes.
pub fn wakeup_outcome(ret: isize, errno: i32, call: &'static str, benign: &BenignErrnos) -> (r:
    Result<(), SyscallError>)
    ensures
        r == outcome(ret < 0 && !benign.contains(errno), (), call, errno),
        r is Ok <==> ret >= 0 || errno == benign.busy || errno == benign.again || errno
            == benign.no_bufs || errno == benign.net_down,
{
    if ret < 0 {
        if errno == benign.busy || errno == benign.again || errno == benign.no_bufs || errno
            == benign.net_down {
            return Ok(());
        }
        return Err(SyscallError { call, io_error: IoError::Os(errno) });
    }
    Ok(())
}

/// Whether `r` is the outcome of a driver wake-up on this target: the errors that are benign are
/// those that `libc` names, and have values that they have on some Linux target.
pub open spec fn is_wakeup_outcome(
    ret: isize,
    errno: i32,
    call: &'static str,
    r: Result<(), SyscallError>,
) -> bool {
    exists|benign: BenignErrnos|
        {
            &&& #[trigger] benign.of_libc()
            &&& benign.of_linux()
            &&& r == outcome(ret < 0 && !benign.contains(errno), (), call, errno)
        }
}

/// The outcome of a driver wake-up on this target: the errors that merely mean that the wake-up
/// was unnecessary or will be retried (`EBUSY`, `EAGAIN`, `ENOBUFS`, `ENETDOWN`) are successes.
pub fn wakeup_result(ret: isize, errno: i32, call: &'static str) -> (r: Result<(), SyscallError>)
    ensures
        is_wakeup_outcome(ret, errno, call, r),
{
    let benign = BenignErrnos::of_target();
    wakeup_outcome(ret, errno, call, &benign)
}

/// The outcome of waking the kernel to process the TX ring with `sendto`.
pub fn kick_tx_result(ret: isize, errno: i32) -> (r: Result<(), SyscallError>)
    ensures
        is_wakeup_outcome(ret, errno, "sendto", r),
{
    wakeup_result(ret, errno, "sendto")
}

/// The outcome of waking the kernel to refill RX from the FILL ring with `recvfrom`.
pub fn wake_rx_result(ret: isize, errno: i32) -> (r: Result<(), SyscallError>)
    ensures
        is_wakeup_outcome(ret, errno, "recvfrom", r),
{
    wakeup_result(ret, errno, "recvfrom")
}

/// The values come from `libc`, each from the constant of its own name.
proof fn law_values_come_from_libc(benign: BenignErrnos)
    requires
        benign.of_libc(),
    ensures
        call_ensures(ebusy, (), benign.busy),
        call_ensures(eagain, (), benign.again),
        call_ensures(enobufs, (), benign.no_bufs),
        call_ensures(enetdown, (), benign.net_down),
{
}

/// Four errors are benign, whatever values they have on a target, and no other.
pub proof fn law_four_errors_are_benign(benign: BenignErrnos, errno: i32)
    ensures
        benign.contains(benign.busy),
        benign.contains(benign.again),
        benign.contains(benign.no_bufs),
        benign.contains(benign.net_down),
        errno != benign.busy && errno != benign.again && errno != benign.no_bufs && errno
            != benign.net_down ==> !benign.contains(errno),
{
}

/// A wake-up on this target succeeds exactly when the kernel takes it or turns it down with one of
/// four errors, whose values are those of `libc`.
pub proof fn law_wakeup_succeeds_with_libc_values(
    ret: isize,
    errno: i32,
    call: &'static str,
    r: Result<(), SyscallError>,
)
    requires
        is_wakeup_outcome(ret, errno, call, r),
    ensures
        exists|benign: BenignErrnos|
            {
                &&& #[trigger] benign.of_libc()
                &&& r is Ok <==> ret >= 0 || errno == benign.busy || errno == benign.again
                    || errno == benign.no_bufs || errno == benign.net_down
            },
{
}

/// The values that `libc` has are values of a Linux target.
pub proof fn law_libc_has_linux_values(benign: BenignErrnos)
    requires
        benign.of_libc(),
    ensures
        benign.of_linux(),
        benign.busy == 16,
        benign.again == 11,
        benign.no_bufs == 105 || benign.no_bufs == 132 || benign.no_bufs == 55,
        benign.net_down == 100 || benign.net_down == 127 || benign.net_down == 50,
{
}

/// On every Linux target a wake-up succeeds if the kernel takes it, or turns it down as busy or to
/// be tried again, and fails with the kernel's error if that error is benign on none of them.
pub proof fn law_wakeup_outcomes(
    ret: isize,
    errno: i32,
    call: &'static str,
    r: Result<(), SyscallError>,
)
    requires
        is_wakeup_outcome(ret, errno, call, r),
    ensures
        ret >= 0 || errno == 16 || errno == 11 ==> r is Ok,
        ret < 0 && errno != 16 && errno != 11 && errno != 105 && errno != 132 && errno != 55
            && errno != 100 && errno != 127 && errno != 50 ==> r == Err::<(), SyscallError>(
            SyscallError { call, io_error: IoError::Os(errno) },
        ),
        r is Err ==> r == Err::<(), SyscallError>(
            SyscallError { call, io_error: IoError::Os(errno) },
        ),
{
}

} // verus!
