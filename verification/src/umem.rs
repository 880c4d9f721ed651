//! `AF_XDP` UMEM: the shared memory region that holds packet frames.

use vstd::arithmetic::power2::is_pow2;
use vstd::prelude::*;

use crate::abi::{XdpUmemReg, XDP_UMEM_MIN_CHUNK_SIZE, XDP_UMEM_UNALIGNED_CHUNK_FLAG};
use crate::arith::{index_range, is_power_of_two};
use crate::error::XskError;

verus! {

/// Configuration for a [`XskUmem`].
#[derive(Clone, Copy, Debug)]
pub struct XskUmemConfig {
    /// Size of each frame (chunk) in bytes. Must be a power of two in `2048..=page_size`.
    pub frame_size: u32,
    /// Per-frame headroom reserved for the application, in bytes.
    pub headroom: u32,
    /// UMEM flags. `0` selects aligned-chunk mode.
    pub flags: u32,
}

impl Default for XskUmemConfig {
    fn default() -> (r: Self)
        ensures
            r.frame_size == 4096,
            r.headroom == 0,
            r.flags == 0,
    {
        XskUmemConfig { frame_size: 4096, headroom: 0, flags: 0 }
    }
}

impl XskUmemConfig {
    /// Whether the flags select unaligned chunks: bit 0.
    pub open spec fn unaligned_chunks(self) -> bool {
        self.flags % 2 == 1
    }

    /// Whether `len` bytes of memory at address `base` make a UMEM with this configuration on a
    /// machine with pages of `page_size` bytes: aligned chunks whose size is a power of two from
    /// 2048 to the page size, a whole number of them and at least one, and memory that starts at
    /// a page.
    pub open spec fn accepts(self, base: int, len: int, page_size: int) -> bool {
        &&& !self.unaligned_chunks()
        &&& is_pow2(self.frame_size as int)
        &&& 2048 <= self.frame_size <= page_size
        &&& len > 0
        &&& len % self.frame_size as int == 0
        &&& base % page_size == 0
    }
}

/// The mathematical content of a UMEM: where its memory is and how it is divided. The bytes
/// themselves stay with the caller.
pub struct UmemView {
    /// Address of the memory.
    pub base: int,
    /// Length of the memory in bytes.
    pub len: int,
    /// The configuration.
    pub config: XskUmemConfig,
}

impl UmemView {
    /// What holds of every UMEM.
    pub open spec fn wf(self) -> bool {
        &&& exists|page_size: int| #[trigger] self.config.accepts(self.base, self.len, page_size)
        &&& 0 <= self.base <= usize::MAX
        &&& self.len <= usize::MAX
    }

    /// Size of each frame.
    pub open spec fn frame_size(self) -> int {
        self.config.frame_size as int
    }

    /// Number of whole frames in the memory.
    pub open spec fn frames(self) -> int {
        self.len / self.frame_size()
    }

    /// The low 32 bits of the number of whole frames: all of it, up to `u32::MAX` frames.
    pub open spec fn frame_count(self) -> int {
        self.frames() % index_range()
    }

    /// Offset of a frame in the memory.
    pub open spec fn frame_addr(self, index: int) -> int {
        index * self.frame_size()
    }

    /// Whether the `len` bytes from offset `addr` on lie within the memory.
    pub open spec fn contains(self, addr: int, len: int) -> bool {
        0 <= addr && 0 <= len && addr + len <= self.len
    }
}

/// The `len` bytes of `mem` from offset `addr` on.
pub open spec fn bytes_at(mem: Seq<u8>, addr: int, len: int) -> Seq<u8> {
    mem.subrange(addr, addr + len)
}

/// `mem` with `bytes` in place of the `len` bytes from offset `addr` on.
pub open spec fn with_bytes(mem: Seq<u8>, addr: int, len: int, bytes: Seq<u8>) -> Seq<u8> {
    mem.subrange(0, addr) + bytes + mem.subrange(addr + len, mem.len() as int)
}

/// A range of bytes within a UMEM.
#[derive(Clone, Copy, Debug, PartialEq, Eq, Structural)]
pub struct FrameSpan {
    /// Offset of the first byte.
    pub start: usize,
    /// Number of bytes.
    pub len: usize,
}

/// A UMEM region.
///
/// The UMEM is a contiguous, page-aligned chunk of memory divided into equal-sized frames. The
/// caller supplies and owns the memory; the kernel reads received packets into it and reads
/// outgoing packets from it. This type knows the address and length of the memory and checks what
/// lies within it; the bytes are handed in where they are needed.
pub struct XskUmem {
    base: usize,
    len: usize,
    config: XskUmemConfig,
}

impl View for XskUmem {
    type V = UmemView;

    closed spec fn view(&self) -> UmemView {
        UmemView { base: self.base as int, len: self.len as int, config: self.config }
    }
}

impl XskUmem {
    /// The invariant of a UMEM, see [`UmemView::wf`].
    pub open spec fn wf(self) -> bool {
        self@.wf()
    }

    /// Creates a UMEM over the `len` bytes of memory at address `base`, on a machine whose pages
    /// are `page_size` bytes long.
    ///
    /// # Errors
    ///
    /// Returns [`XskError::InvalidUmem`] if the configuration asks for unaligned chunks, if the
    /// frame size is not a power of two in `2048..=page_size`, if the memory is empty or not a
    /// whole number of frames, or if it does not start at a page.
    pub fn new(config: XskUmemConfig, base: usize, len: usize, page_size: usize) -> (r: Result<
        Self,
        XskError,
    >)
        ensures
            config.accepts(base as int, len as int, page_size as int) <==> r is Ok,
            r is Err ==> r == Err::<Self, XskError>(XskError::InvalidUmem),
            r matches Ok(umem) ==> umem.wf() && umem@ == (UmemView {
                base: base as int,
                len: len as int,
                config,
            }),
    {
        let frame_size: u32 = config.frame_size;
        let flags: u32 = config.flags;
        assert((flags & 1 != 0) == (flags % 2 == 1)) by (bit_vector);
        if flags & XDP_UMEM_UNALIGNED_CHUNK_FLAG != 0 {
            // Unaligned-chunk mode packs the chunk index and intra-chunk offset into the UMEM
            // address; frame addresses here assume aligned chunks.
            return Err(XskError::InvalidUmem);
        }
        if !is_power_of_two(frame_size) || frame_size < XDP_UMEM_MIN_CHUNK_SIZE
            || frame_size as usize > page_size || len == 0 || !len.is_multiple_of(
            frame_size as usize,
        ) || !base.is_multiple_of(page_size) {
            return Err(XskError::InvalidUmem);
        }
        let umem = XskUmem { base, len, config };
        assert(umem@.config.accepts(umem@.base, umem@.len, page_size as int));
        Ok(umem)
    }

    /// What registers the UMEM on a socket, the value of
    /// [`XDP_UMEM_REG`](crate::abi::XDP_UMEM_REG).
    pub fn register(&self) -> (r: XdpUmemReg)
        ensures
            r.addr == self@.base,
            r.len == self@.len,
            r.chunk_size == self@.config.frame_size,
            r.headroom == self@.config.headroom,
            r.flags == self@.config.flags,
            r.tx_metadata_len == 0,
    {
        XdpUmemReg {
            addr: self.base as u64,
            len: self.len as u64,
            chunk_size: self.config.frame_size,
            headroom: self.config.headroom,
            flags: self.config.flags,
            tx_metadata_len: 0,
        }
    }

    /// Number of frames in the UMEM.
    ///
    /// It is exact for every UMEM of at most `u32::MAX` frames; a larger one has more frames than
    /// an index can name, and the count keeps the low 32 bits.
    pub fn frame_count(&self) -> (r: u32)
        requires
            self.wf(),
        ensures
            r == self@.frame_count(),
            self@.frames() <= u32::MAX ==> r == self@.frames(),
    {
        let frames: u64 = (self.len / self.config.frame_size as usize) as u64;
        assert(frames as u32 == frames % 0x1_0000_0000) by (bit_vector);
        frames as u32
    }

    /// Size of each frame in bytes.
    pub fn frame_size(&self) -> (r: u32)
        ensures
            r == self@.frame_size(),
            r == self@.config.frame_size,
    {
        self.config.frame_size
    }

    /// The UMEM address (offset) of frame `index`, for use with the FILL and TX rings.
    ///
    /// # Errors
    ///
    /// Returns [`XskError::FrameOutOfBounds`] if `index >= frame_count()`.
    pub fn frame_addr(&self, index: u32) -> (r: Result<u64, XskError>)
        requires
            self.wf(),
        ensures
            index < self@.frame_count() ==> (r matches Ok(addr) && addr == self@.frame_addr(
                index as int,
            )),
            index >= self@.frame_count() ==> r == Err::<u64, XskError>(
                XskError::FrameOutOfBounds(index),
            ),
            r matches Ok(addr) ==> addr == index * self@.config.frame_size,
    {
        if index >= self.frame_count() {
            return Err(XskError::FrameOutOfBounds(index));
        }
        let frame_size: u32 = self.config.frame_size;
        assert(index * frame_size <= u64::MAX) by (nonlinear_arith)
            requires
                0 <= index <= 0xffff_ffff,
                0 <= frame_size <= 0xffff_ffff,
        ;
        Ok(index as u64 * frame_size as u64)
    }

    /// The range of the `len` bytes at UMEM offset `addr`, or `None` if `[addr, addr + len)` does
    /// not lie within the UMEM.
    pub fn frame_span(&self, addr: u64, len: u32) -> (r: Option<FrameSpan>)
        ensures
            r is Some <==> self@.contains(addr as int, len as int),
            r is Some <==> addr + len <= self@.len,
            r matches Some(span) ==> span.start == addr && span.len == len,
    {
        if addr > usize::MAX as u64 {
            return None;
        }
        let start: usize = addr as usize;
        let len: usize = len as usize;
        match start.checked_add(len) {
            Some(end) => {
                if end > self.len {
                    None
                } else {
                    Some(FrameSpan { start, len })
                }
            },
            None => None,
        }
    }

    /// The packet bytes at UMEM offset `addr` for `len` bytes, or `None` if `[addr, addr + len)`
    /// does not lie within the UMEM. `mem` is the UMEM's memory.
    pub fn frame_bytes<'a>(&self, mem: &'a [u8], addr: u64, len: u32) -> (r: Option<&'a [u8]>)
        requires
            mem@.len() == self@.len,
        ensures
            r is Some <==> self@.contains(addr as int, len as int),
            r is Some <==> addr + len <= self@.len,
            r matches Some(bytes) ==> bytes@ == bytes_at(mem@, addr as int, len as int),
            r matches Some(bytes) ==> bytes@.len() == len && forall|k: int|
                0 <= k < len ==> #[trigger] bytes@[k] == mem@[addr + k],
    {
        match self.frame_span(addr, len) {
            Some(span) => Some(
                vstd::slice::slice_subrange(mem, span.start, span.start + span.len),
            ),
            None => None,
        }
    }

    /// A mutable view of the UMEM bytes at offset `addr` for `len` bytes, or `None` if
    /// `[addr, addr + len)` does not lie within the UMEM. `mem` is the UMEM's memory. Used to
    /// write a frame before transmitting.
    pub fn frame_bytes_mut<'a>(&self, mem: &'a mut [u8], addr: u64, len: u32) -> (r: Option<
        &'a mut [u8],
    >)
        requires
            old(mem)@.len() == self@.len,
        ensures
            r is Some <==> self@.contains(addr as int, len as int),
            r is None ==> final(mem)@ == old(mem)@,
            r matches Some(bytes) ==> bytes@ == bytes_at(old(mem)@, addr as int, len as int)
                && final(mem)@ == with_bytes(old(mem)@, addr as int, len as int, final(bytes)@),
            r is Some <==> addr + len <= self@.len,
            r matches Some(bytes) ==> bytes@.len() == len && forall|k: int|
                0 <= k < len ==> #[trigger] bytes@[k] == old(mem)@[addr + k],
            r matches Some(bytes) ==> (final(bytes)@.len() == len ==> {
                &&& final(mem)@.len() == old(mem)@.len()
                &&& forall|i: int|
                    0 <= i < self@.len ==> #[trigger] final(mem)@[i] == (if addr <= i < addr
                        + len {
                        final(bytes)@[i - addr]
                    } else {
                        old(mem)@[i]
                    })
            }),
    {
        match self.frame_span(addr, len) {
            Some(span) => {
                let (_, tail) = mem.split_at_mut(span.start);
                let (bytes, _) = tail.split_at_mut(span.len);
                Some(bytes)
            },
            None => None,
        }
    }
}

/// Memory of one frame or more that starts at a whole page makes a UMEM, if chunks are aligned and
/// the frame size is a power of two from 2048 to the size of a page.
pub proof fn law_whole_frames_at_a_page_are_accepted(
    config: XskUmemConfig,
    pages: int,
    frames: int,
    page_size: int,
)
    requires
        config.flags & 1 == 0,
        is_pow2(config.frame_size as int),
        2048 <= config.frame_size <= page_size,
        frames >= 1,
    ensures
        config.accepts(pages * page_size, frames * config.frame_size, page_size),
{
    let flags = config.flags;
    let size = config.frame_size as int;
    assert((flags & 1 == 0) == (flags % 2 == 0)) by (bit_vector);
    vstd::arithmetic::div_mod::lemma_mod_multiples_basic(frames, size);
    vstd::arithmetic::div_mod::lemma_mod_multiples_basic(pages, page_size);
    assert(frames * size > 0) by (nonlinear_arith)
        requires
            frames >= 1,
            size >= 2048,
    ;
}

/// Nothing else makes a UMEM: the chunks are aligned, the frame size is a power of two from 2048
/// to the size of a page, and memory and address are whole numbers of frames and pages.
pub proof fn law_only_whole_frames_at_a_page_are_accepted(
    config: XskUmemConfig,
    base: int,
    len: int,
    page_size: int,
)
    requires
        config.accepts(base, len, page_size),
    ensures
        config.flags & 1 == 0,
        is_pow2(config.frame_size as int),
        2048 <= config.frame_size <= page_size,
        len / config.frame_size as int >= 1,
        len == (len / config.frame_size as int) * config.frame_size,
        base == (base / page_size) * page_size,
{
    let flags = config.flags;
    let size = config.frame_size as int;
    let frames = len / size;
    let pages = base / page_size;
    assert((flags & 1 == 0) == (flags % 2 == 0)) by (bit_vector);
    vstd::arithmetic::div_mod::lemma_fundamental_div_mod(len, size);
    vstd::arithmetic::div_mod::lemma_fundamental_div_mod(base, page_size);
    assert(size * frames == frames * size) by (nonlinear_arith);
    assert(page_size * pages == pages * page_size) by (nonlinear_arith);
    assert(frames >= 1) by (nonlinear_arith)
        requires
            frames * size > 0,
            size > 0,
    ;
}

/// A UMEM of `frames` frames counts that many, up to `u32::MAX`; a larger one counts what is left
/// when every 2^32 frames are dropped.
pub proof fn law_frames_are_counted(umem: UmemView, frames: int)
    requires
        umem.wf(),
        umem.len == frames * umem.config.frame_size,
    ensures
        umem.frames() == frames,
        0 <= umem.frame_count() <= u32::MAX,
        frames <= u32::MAX ==> umem.frame_count() == frames,
        umem.frame_count() == frames - 0x1_0000_0000 * (frames / 0x1_0000_0000),
{
    let size = umem.config.frame_size as int;
    vstd::arithmetic::div_mod::lemma_div_multiples_vanish(frames, size);
    assert(size * frames == frames * size) by (nonlinear_arith);
    assert(frames >= 0) by (nonlinear_arith)
        requires
            frames * size > 0,
            size > 0,
    ;
}

/// The first frame is at the start of the memory, and each frame is one frame size behind the one
/// before it.
pub proof fn law_frames_follow_each_other(umem: UmemView, index: int)
    ensures
        umem.frame_size() == umem.config.frame_size,
        umem.frame_addr(0) == 0,
        umem.frame_addr(index + 1) == umem.frame_addr(index) + umem.config.frame_size,
        umem.frame_addr(index) == index * umem.config.frame_size,
{
    let size = umem.config.frame_size as int;
    assert((index + 1) * size == index * size + size) by (nonlinear_arith);
}

/// A range lies within the memory exactly when it ends no later than the memory does.
pub proof fn law_ranges_within_the_memory(umem: UmemView, addr: u64, len: u32)
    ensures
        umem.contains(addr as int, len as int) <==> addr + len <= umem.len,
{
}

/// Byte `k` of a range is the byte of the memory at the range's offset plus `k`.
pub proof fn law_bytes_are_those_at_the_offset(mem: Seq<u8>, addr: int, len: int, k: int)
    requires
        0 <= addr,
        0 <= len,
        addr + len <= mem.len(),
        0 <= k < len,
    ensures
        bytes_at(mem, addr, len).len() == len,
        bytes_at(mem, addr, len)[k] == mem[addr + k],
{
}

/// Byte `k` of what is written to a range ends up in the memory at the range's offset plus `k`,
/// and every byte of the memory outside the range stays as it was.
pub proof fn law_bytes_are_written_at_the_offset(mem: Seq<u8>, addr: int, bytes: Seq<u8>, i: int)
    requires
        0 <= addr,
        addr + bytes.len() <= mem.len(),
        0 <= i < mem.len(),
    ensures
        ({
            let after = with_bytes(mem, addr, bytes.len() as int, bytes);
            &&& after.len() == mem.len()
            &&& addr <= i < addr + bytes.len() ==> after[i] == bytes[i - addr]
            &&& i < addr || addr + bytes.len() <= i ==> after[i] == mem[i]
        }),
{
}

/// Every frame lies within the memory, and starts at a multiple of the frame size.
pub proof fn law_frames_lie_within(umem: UmemView, index: int)
    requires
        umem.wf(),
        0 <= index < umem.frame_count(),
    ensures
        umem.contains(umem.frame_addr(index), umem.frame_size()),
        umem.frame_addr(index) % umem.frame_size() == 0,
{
    let size = umem.frame_size();
    vstd::arithmetic::div_mod::lemma_fundamental_div_mod(umem.len, size);
    vstd::arithmetic::div_mod::lemma_mod_multiples_basic(index, size);
    assert(index * size + size <= size * umem.frames()) by (nonlinear_arith)
        requires
            index + 1 <= umem.frames(),
            size > 0,
    ;
    assert(index * size >= 0) by (nonlinear_arith)
        requires
            index >= 0,
            size > 0,
    ;
}

/// Different frames do not overlap.
pub proof fn law_frames_are_disjoint(umem: UmemView, i: int, j: int)
    requires
        umem.wf(),
        0 <= i < j < umem.frame_count(),
    ensures
        umem.frame_addr(i) + umem.frame_size() <= umem.frame_addr(j),
{
    let size = umem.frame_size();
    assert(i * size + size <= j * size) by (nonlinear_arith)
        requires
            i + 1 <= j,
            size > 0,
    ;
}

/// Every byte of the memory lies in the frame that its offset names, where an index can name
/// every frame.
pub proof fn law_frames_cover_the_memory(umem: UmemView, offset: int)
    requires
        umem.wf(),
        umem.frames() <= u32::MAX,
        0 <= offset < umem.len,
    ensures
        umem.frame_count() * umem.frame_size() == umem.len,
        ({
            let index = offset / umem.frame_size();
            &&& 0 <= index < umem.frame_count()
            &&& umem.frame_addr(index) <= offset < umem.frame_addr(index) + umem.frame_size()
        }),
{
    let size = umem.frame_size();
    let index = offset / size;
    vstd::arithmetic::div_mod::lemma_fundamental_div_mod(umem.len, size);
    vstd::arithmetic::div_mod::lemma_fundamental_div_mod(offset, size);
    vstd::arithmetic::div_mod::lemma_mod_bound(offset, size);
    assert(size * umem.frames() == umem.frames() * size) by (nonlinear_arith);
    assert(size * index == index * size) by (nonlinear_arith);
    assert(0 <= index < umem.frames()) by (nonlinear_arith)
        requires
            size > 0,
            0 <= offset < size * umem.frames(),
            offset == size * index + offset % size,
            0 <= offset % size < size,
    ;
}

/// A packet that fits in a frame behind some headroom lies within the memory, whichever frame it
/// is placed in.
pub proof fn law_packets_fit_in_frames(umem: UmemView, index: int, headroom: int, len: int)
    requires
        umem.wf(),
        0 <= index < umem.frame_count(),
        0 <= headroom,
        0 <= len,
        headroom + len <= umem.frame_size(),
    ensures
        umem.contains(umem.frame_addr(index) + headroom, len),
{
    law_frames_lie_within(umem, index);
}

/// What was written at an offset is read back from it.
pub proof fn law_written_bytes_are_read_back(umem: UmemView, mem: Seq<u8>, addr: int, bytes: Seq<u8>)
    requires
        mem.len() == umem.len,
        umem.contains(addr, bytes.len() as int),
    ensures
        with_bytes(mem, addr, bytes.len() as int, bytes).len() == umem.len,
        bytes_at(with_bytes(mem, addr, bytes.len() as int, bytes), addr, bytes.len() as int) == bytes,
{
    assert(bytes_at(with_bytes(mem, addr, bytes.len() as int, bytes), addr, bytes.len() as int) =~= bytes);
}

/// Writing at an offset leaves every range that does not overlap as it was.
pub proof fn law_writing_leaves_the_rest(
    umem: UmemView,
    mem: Seq<u8>,
    addr: int,
    bytes: Seq<u8>,
    other: int,
    len: int,
)
    requires
        mem.len() == umem.len,
        umem.contains(addr, bytes.len() as int),
        umem.contains(other, len),
        other + len <= addr || addr + bytes.len() <= other,
    ensures
        bytes_at(with_bytes(mem, addr, bytes.len() as int, bytes), other, len) == bytes_at(mem, other, len),
{
    assert(bytes_at(with_bytes(mem, addr, bytes.len() as int, bytes), other, len) =~= bytes_at(mem, other, len));
}

} // verus!
