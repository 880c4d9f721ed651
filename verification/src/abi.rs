//! The kernel's `AF_XDP` interface: its constants and the plain form of its structures.

use vstd::prelude::*;

verus! {

/// Flag of a ring's flags word: the kernel needs a wake-up to make progress.
pub const XDP_RING_NEED_WAKEUP: u32 = 1;

/// Bind flag: the kernel tells through the rings' flags words when it needs a wake-up.
pub const XDP_USE_NEED_WAKEUP: u16 = 8;

/// UMEM flag: chunks need not be aligned.
pub const XDP_UMEM_UNALIGNED_CHUNK_FLAG: u32 = 1;

/// The minimum UMEM chunk (frame) size accepted by the kernel.
pub const XDP_UMEM_MIN_CHUNK_SIZE: u32 = 2048;

/// Option that reads the layout of the rings.
pub const XDP_MMAP_OFFSETS: i32 = 1;

/// Option that sizes the RX ring.
pub const XDP_RX_RING: i32 = 2;

/// Option that sizes the TX ring.
pub const XDP_TX_RING: i32 = 3;

/// Option that registers the UMEM.
pub const XDP_UMEM_REG: i32 = 4;

/// Option that sizes the FILL ring.
pub const XDP_UMEM_FILL_RING: i32 = 5;

/// Option that sizes the COMPLETION ring.
pub const XDP_UMEM_COMPLETION_RING: i32 = 6;

/// Offset at which the RX ring is mapped.
pub const XDP_PGOFF_RX_RING: u64 = 0;

/// Offset at which the TX ring is mapped.
pub const XDP_PGOFF_TX_RING: u64 = 0x8000_0000;

/// Offset at which the FILL ring is mapped.
pub const XDP_UMEM_PGOFF_FILL_RING: u64 = 0x1_0000_0000;

/// Offset at which the COMPLETION ring is mapped.
pub const XDP_UMEM_PGOFF_COMPLETION_RING: u64 = 0x1_8000_0000;

/// A descriptor of the RX and TX rings: `len` bytes of a packet at UMEM offset `addr`.
#[derive(Clone, Copy, Debug, PartialEq, Eq, Structural)]
pub struct XdpDesc {
    /// Offset of the packet in the UMEM.
    pub addr: u64,
    /// Length of the packet in bytes.
    pub len: u32,
    /// Options; none is in use.
    pub options: u32,
}

/// What registers a UMEM: the value of [`XDP_UMEM_REG`].
#[derive(Clone, Copy, Debug, PartialEq, Eq, Structural)]
pub struct XdpUmemReg {
    /// Address of the memory.
    pub addr: u64,
    /// Length of the memory in bytes.
    pub len: u64,
    /// Size of each chunk (frame) in bytes.
    pub chunk_size: u32,
    /// Headroom of each chunk in bytes.
    pub headroom: u32,
    /// UMEM flags.
    pub flags: u32,
    /// Length of the metadata in front of a packet to transmit; none is in use.
    pub tx_metadata_len: u32,
}

/// Where the parts of a ring lie within its mapping, in bytes.
#[derive(Clone, Copy, Debug, PartialEq, Eq, Structural)]
pub struct XdpRingOffset {
    /// Offset of the producer index.
    pub producer: u64,
    /// Offset of the consumer index.
    pub consumer: u64,
    /// Offset of the descriptors.
    pub desc: u64,
    /// Offset of the flags word.
    pub flags: u64,
}

/// Where the parts of all rings lie: the value of [`XDP_MMAP_OFFSETS`].
#[derive(Clone, Copy, Debug, PartialEq, Eq, Structural)]
pub struct XdpMmapOffsets {
    /// The RX ring.
    pub rx: XdpRingOffset,
    /// The TX ring.
    pub tx: XdpRingOffset,
    /// The FILL ring.
    pub fr: XdpRingOffset,
    /// The COMPLETION ring.
    pub cr: XdpRingOffset,
}

/// The layout of a ring on kernels before 5.4, whose rings have no flags word.
#[derive(Clone, Copy, Debug, PartialEq, Eq, Structural)]
pub struct XdpRingOffsetV1 {
    /// Offset of the producer index.
    pub producer: u64,
    /// Offset of the consumer index.
    pub consumer: u64,
    /// Offset of the descriptors.
    pub desc: u64,
}

/// The layout of all rings on kernels before 5.4.
#[derive(Clone, Copy, Debug, PartialEq, Eq, Structural)]
pub struct XdpMmapOffsetsV1 {
    /// The RX ring.
    pub rx: XdpRingOffsetV1,
    /// The TX ring.
    pub tx: XdpRingOffsetV1,
    /// The FILL ring.
    pub fr: XdpRingOffsetV1,
    /// The COMPLETION ring.
    pub cr: XdpRingOffsetV1,
}

/// Number of 64-bit words of [`XdpMmapOffsets`] as the kernel writes it.
pub const MMAP_OFFSETS_WORDS: usize = 16;

/// Size of [`XdpMmapOffsets`] as the kernel writes it, in bytes.
pub const MMAP_OFFSETS_SIZE: usize = 128;

/// Size of [`XdpMmapOffsetsV1`] as the kernel writes it, in bytes.
pub const MMAP_OFFSETS_V1_SIZE: usize = 96;

/// The address that a socket is bound to.
#[derive(Clone, Copy, Debug, PartialEq, Eq, Structural)]
pub struct SockaddrXdp {
    /// The address family, `AF_XDP`.
    pub family: u16,
    /// Bind flags.
    pub flags: u16,
    /// Index of the network interface.
    pub ifindex: u32,
    /// Queue of the interface.
    pub queue_id: u32,
    /// Socket whose UMEM is shared; none is.
    pub shared_umem_fd: u32,
}

} // verus!
