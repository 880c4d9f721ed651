//! Setting up a socket: the system calls to make, in the order that the kernel requires.
//!
//! [`XskSetup`] says what to do next and is told how it went; the caller makes the calls.

use vstd::arithmetic::power2::is_pow2;
use vstd::prelude::*;

use crate::abi::{
    SockaddrXdp, XdpMmapOffsets, XdpRingOffset, XdpUmemReg, XDP_PGOFF_RX_RING,
    XDP_PGOFF_TX_RING, XDP_RX_RING, XDP_TX_RING, XDP_UMEM_COMPLETION_RING, XDP_UMEM_FILL_RING,
    XDP_UMEM_PGOFF_COMPLETION_RING, XDP_UMEM_PGOFF_FILL_RING, XDP_UMEM_REG,
};
use crate::arith::{is_power_of_two, lemma_index_range_multiple, lemma_mask_is_remainder};
use crate::error::{SyscallError, XskError};
use crate::umem::{UmemView, XskUmem};

verus! {

/// Configuration for a [`XskSocket`](crate::socket::XskSocket).
///
/// Ring sizes are in number of descriptors and must each be a power of two; they are independent
/// of the UMEM's frame count.
#[derive(Clone, Copy, Debug)]
pub struct XskSocketConfig {
    /// Size of the RX ring.
    pub rx_size: u32,
    /// Size of the TX ring.
    pub tx_size: u32,
    /// Size of the FILL ring.
    pub fill_size: u32,
    /// Size of the COMPLETION ring. Required by the kernel at bind time even for RX-only sockets.
    pub completion_size: u32,
    /// Bind flags: e.g. `XDP_COPY`, `XDP_ZEROCOPY`, `XDP_USE_NEED_WAKEUP`. `0` lets the kernel
    /// choose copy or zero-copy mode.
    pub bind_flags: u16,
}

impl Default for XskSocketConfig {
    fn default() -> (r: Self)
        ensures
            r.rx_size == 2048,
            r.tx_size == 2048,
            r.fill_size == 2048,
            r.completion_size == 2048,
            r.bind_flags == 0,
    {
        XskSocketConfig {
            rx_size: 2048,
            tx_size: 2048,
            fill_size: 2048,
            completion_size: 2048,
            bind_flags: 0,
        }
    }
}

impl XskSocketConfig {
    /// Whether every ring size is a power of two.
    pub open spec fn valid(self) -> bool {
        &&& is_pow2(self.rx_size as int)
        &&& is_pow2(self.tx_size as int)
        &&& is_pow2(self.fill_size as int)
        &&& is_pow2(self.completion_size as int)
    }

    /// Whether the bind flags hold `XDP_USE_NEED_WAKEUP`: bit 3.
    pub open spec fn uses_need_wakeup(self) -> bool {
        (self.bind_flags / 8) % 2 == 1
    }

    /// The size of a ring.
    pub open spec fn ring_size(self, ring: RingKind) -> u32 {
        match ring {
            RingKind::Fill => self.fill_size,
            RingKind::Completion => self.completion_size,
            RingKind::Rx => self.rx_size,
            RingKind::Tx => self.tx_size,
        }
    }
}

/// One of the four rings of a socket.
#[derive(Clone, Copy, Debug, PartialEq, Eq, Structural)]
pub enum RingKind {
    /// Frames that the kernel may receive into.
    Fill,
    /// Frames that the kernel has transmitted.
    Completion,
    /// Packets that the kernel has received.
    Rx,
    /// Packets to transmit.
    Tx,
}

impl RingKind {
    /// Size of a descriptor in bytes: an address, or an address, a length and options.
    pub open spec fn spec_entry_size(self) -> int {
        match self {
            RingKind::Fill => 8,
            RingKind::Completion => 8,
            RingKind::Rx => 16,
            RingKind::Tx => 16,
        }
    }

    /// Size in bytes of a descriptor of this ring.
    pub fn entry_size(&self) -> (r: u64)
        ensures
            r == self.spec_entry_size(),
    {
        match self {
            RingKind::Fill => 8,
            RingKind::Completion => 8,
            RingKind::Rx => 16,
            RingKind::Tx => 16,
        }
    }
}

/// How to map a ring and where its parts lie within the mapping.
#[derive(Clone, Copy, Debug, PartialEq, Eq, Structural)]
pub struct RingMapping {
    /// The ring.
    pub ring: RingKind,
    /// Length of the mapping in bytes.
    pub len: usize,
    /// Offset to map at.
    pub page_offset: u64,
    /// Where the parts of the ring lie.
    pub offset: XdpRingOffset,
    /// Number of descriptors.
    pub size: u32,
}

/// Where the descriptors of a ring end within its mapping.
pub open spec fn descriptors_end(ring: RingKind, size: u32, offset: XdpRingOffset) -> int {
    offset.desc + size * ring.spec_entry_size()
}

impl RingMapping {
    /// Whether the descriptors of a ring end at an offset that fits in a `usize`.
    pub fn fits(ring: RingKind, size: u32, offset: &XdpRingOffset) -> (r: bool)
        ensures
            r == (descriptors_end(ring, size, *offset) <= usize::MAX),
    {
        // A descriptor is at most 16 bytes long and there are fewer than 2^32.
        let bytes: u64 = size as u64 * ring.entry_size();
        match offset.desc.checked_add(bytes) {
            Some(end) => end <= usize::MAX as u64,
            None => false,
        }
    }

    /// Plans the mapping of a ring of `size` descriptors.
    ///
    /// `page_offset` is the ring's fixed offset; `offset` is the ring's layout as read from the
    /// socket.
    ///
    /// # Errors
    ///
    /// Returns [`XskError::InvalidRingSize`] if `size` is not a power of two, wherever the
    /// descriptors are. The descriptors of a ring of any other size must end at an offset that
    /// fits in a `usize`, see [`fits`](Self::fits).
    pub fn plan(ring: RingKind, size: u32, page_offset: u64, offset: &XdpRingOffset) -> (r: Result<
        Self,
        XskError,
    >)
        requires
            is_pow2(size as int) ==> descriptors_end(ring, size, *offset) <= usize::MAX,
        ensures
            !is_pow2(size as int) ==> r == Err::<Self, XskError>(XskError::InvalidRingSize),
            is_pow2(size as int) ==> r == Ok::<Self, XskError>(
                RingMapping {
                    ring,
                    len: descriptors_end(ring, size, *offset) as usize,
                    page_offset,
                    offset: *offset,
                    size,
                },
            ),
    {
        if !is_power_of_two(size) {
            return Err(XskError::InvalidRingSize);
        }
        let len: usize = (offset.desc + size as u64 * ring.entry_size()) as usize;
        Ok(RingMapping { ring, len, page_offset, offset: *offset, size })
    }

    /// What holds of every planned mapping: the size is a power of two and the mapping ends with
    /// the descriptors.
    pub open spec fn wf(self) -> bool {
        &&& is_pow2(self.size as int)
        &&& self.len == descriptors_end(self.ring, self.size, self.offset)
    }

    /// The byte offset of the slot of a free-running index.
    pub open spec fn spec_slot_offset(self, index: int) -> int {
        self.offset.desc + (index % self.size as int) * self.ring.spec_entry_size()
    }

    /// The byte offset, within the mapping, of the descriptor in the slot of the free-running
    /// index `index`.
    pub fn slot_offset(&self, index: u32) -> (r: usize)
        requires
            self.wf(),
        ensures
            r == self.spec_slot_offset(index as int),
            r + self.ring.spec_entry_size() <= self.len,
    {
        proof {
            lemma_index_range_multiple(0, self.size);
            lemma_mask_is_remainder(index, self.size);
            law_descriptors_lie_within(*self, index as int);
        }
        let slot: u32 = index & (self.size - 1);
        (self.offset.desc + slot as u64 * self.ring.entry_size()) as usize
    }
}

/// Every descriptor of a planned mapping lies within it, behind the start of the descriptors.
pub proof fn law_descriptors_lie_within(mapping: RingMapping, index: int)
    requires
        mapping.wf(),
    ensures
        mapping.offset.desc <= mapping.spec_slot_offset(index),
        mapping.spec_slot_offset(index) + mapping.ring.spec_entry_size() <= mapping.len,
{
    lemma_index_range_multiple(0, mapping.size);
    vstd::arithmetic::div_mod::lemma_mod_bound(index, mapping.size as int);
}

/// A step of setting up a socket.
#[derive(Clone, Copy, Debug, PartialEq, Eq, Structural)]
pub enum SetupStep {
    /// Create the socket.
    CreateSocket,
    /// Register the UMEM.
    RegisterUmem,
    /// Size the FILL ring.
    SizeFill,
    /// Size the COMPLETION ring.
    SizeCompletion,
    /// Size the RX ring.
    SizeRx,
    /// Size the TX ring.
    SizeTx,
    /// Read the layout of the rings.
    ReadOffsets,
    /// Map the FILL ring.
    MapFill,
    /// Map the COMPLETION ring.
    MapCompletion,
    /// Map the RX ring.
    MapRx,
    /// Map the TX ring.
    MapTx,
    /// Bind the socket.
    Bind,
    /// Nothing is left to do.
    Finished,
}

impl SetupStep {
    /// How many steps come before this one.
    pub open spec fn rank(self) -> int {
        match self {
            SetupStep::CreateSocket => 0,
            SetupStep::RegisterUmem => 1,
            SetupStep::SizeFill => 2,
            SetupStep::SizeCompletion => 3,
            SetupStep::SizeRx => 4,
            SetupStep::SizeTx => 5,
            SetupStep::ReadOffsets => 6,
            SetupStep::MapFill => 7,
            SetupStep::MapCompletion => 8,
            SetupStep::MapRx => 9,
            SetupStep::MapTx => 10,
            SetupStep::Bind => 11,
            SetupStep::Finished => 12,
        }
    }

    /// The step after this one; the last has none.
    fn next(self) -> (r: Self)
        ensures
            self is Finished ==> r is Finished,
            !(self is Finished) ==> r.rank() == self.rank() + 1,
    {
        match self {
            SetupStep::CreateSocket => SetupStep::RegisterUmem,
            SetupStep::RegisterUmem => SetupStep::SizeFill,
            SetupStep::SizeFill => SetupStep::SizeCompletion,
            SetupStep::SizeCompletion => SetupStep::SizeRx,
            SetupStep::SizeRx => SetupStep::SizeTx,
            SetupStep::SizeTx => SetupStep::ReadOffsets,
            SetupStep::ReadOffsets => SetupStep::MapFill,
            SetupStep::MapFill => SetupStep::MapCompletion,
            SetupStep::MapCompletion => SetupStep::MapRx,
            SetupStep::MapRx => SetupStep::MapTx,
            SetupStep::MapTx => SetupStep::Bind,
            SetupStep::Bind => SetupStep::Finished,
            SetupStep::Finished => SetupStep::Finished,
        }
    }
}

/// What to do next in setting up a socket.
#[derive(Clone, Copy, Debug, PartialEq, Eq, Structural)]
pub enum SetupAction {
    /// Create an `AF_XDP` socket.
    CreateSocket,
    /// Register the UMEM: set option `optname` of the socket to this value.
    RegisterUmem {
        /// The option.
        optname: i32,
        /// The value.
        reg: XdpUmemReg,
    },
    /// Size a ring: set option `optname` of the socket to this number of descriptors.
    SizeRing {
        /// The option.
        optname: i32,
        /// The number of descriptors.
        size: u32,
    },
    /// Read the layout of the rings from the socket.
    ReadOffsets,
    /// Map a ring of this size and layout.
    MapRing {
        /// Which ring.
        ring: RingKind,
        /// The number of descriptors.
        size: u32,
        /// The offset to map at.
        page_offset: u64,
        /// The layout of the ring.
        offset: XdpRingOffset,
    },
    /// Bind the socket to this address.
    Bind(SockaddrXdp),
    /// Nothing: the socket is set up.
    Finished,
}

/// How the last action went.
#[derive(Clone, Copy, Debug, PartialEq, Eq)]
pub enum SetupReply {
    /// It succeeded.
    Done,
    /// The layout of the rings was read.
    Offsets(XdpMmapOffsets),
    /// A system call failed.
    Failed(SyscallError),
}

/// The mathematical content of a socket that is being set up.
pub struct SetupView {
    /// The UMEM.
    pub umem: UmemView,
    /// Index of the network interface to bind to.
    pub ifindex: u32,
    /// Queue of the interface to bind to.
    pub queue_id: u32,
    /// The configuration.
    pub config: XskSocketConfig,
    /// The step that comes next.
    pub step: SetupStep,
    /// The layout of the rings, once it was read.
    pub offsets: XdpMmapOffsets,
}

impl SetupView {
    /// What holds throughout: the UMEM is well-formed and the ring sizes are powers of two.
    pub open spec fn wf(self) -> bool {
        self.umem.wf() && self.config.valid()
    }

    /// What registers the UMEM.
    pub open spec fn reg(self) -> XdpUmemReg {
        XdpUmemReg {
            addr: self.umem.base as u64,
            len: self.umem.len as u64,
            chunk_size: self.umem.config.frame_size,
            headroom: self.umem.config.headroom,
            flags: self.umem.config.flags,
            tx_metadata_len: 0,
        }
    }

    /// Which ring is sized or mapped at a step that does either.
    pub open spec fn ring(self) -> RingKind {
        match self.step {
            SetupStep::SizeFill | SetupStep::MapFill => RingKind::Fill,
            SetupStep::SizeCompletion | SetupStep::MapCompletion => RingKind::Completion,
            SetupStep::SizeRx | SetupStep::MapRx => RingKind::Rx,
            _ => RingKind::Tx,
        }
    }

    /// What is to be done at the next step.
    pub open spec fn action(self) -> SetupAction {
        let size = self.config.ring_size(self.ring());
        match self.step {
            SetupStep::CreateSocket => SetupAction::CreateSocket,
            SetupStep::RegisterUmem => SetupAction::RegisterUmem { optname: 4, reg: self.reg() },
            SetupStep::SizeFill => SetupAction::SizeRing { optname: 5, size },
            SetupStep::SizeCompletion => SetupAction::SizeRing { optname: 6, size },
            SetupStep::SizeRx => SetupAction::SizeRing { optname: 2, size },
            SetupStep::SizeTx => SetupAction::SizeRing { optname: 3, size },
            SetupStep::ReadOffsets => SetupAction::ReadOffsets,
            SetupStep::MapFill => SetupAction::MapRing {
                ring: self.ring(),
                size,
                page_offset: 0x1_0000_0000,
                offset: self.offsets.fr,
            },
            SetupStep::MapCompletion => SetupAction::MapRing {
                ring: self.ring(),
                size,
                page_offset: 0x1_8000_0000,
                offset: self.offsets.cr,
            },
            SetupStep::MapRx => SetupAction::MapRing {
                ring: self.ring(),
                size,
                page_offset: 0,
                offset: self.offsets.rx,
            },
            SetupStep::MapTx => SetupAction::MapRing {
                ring: self.ring(),
                size,
                page_offset: 0x8000_0000,
                offset: self.offsets.tx,
            },
            SetupStep::Bind => SetupAction::Bind(
                SockaddrXdp {
                    family: 44,
                    flags: self.config.bind_flags,
                    ifindex: self.ifindex,
                    queue_id: self.queue_id,
                    shared_umem_fd: 0,
                },
            ),
            SetupStep::Finished => SetupAction::Finished,
        }
    }

    /// Whether `reply` answers the next step: a failure answers any but the last, the layout
    /// answers the step that reads it, and plain success answers the others.
    pub open spec fn expects(self, reply: SetupReply) -> bool {
        match reply {
            SetupReply::Done => !(self.step is ReadOffsets) && !(self.step is Finished),
            SetupReply::Offsets(_) => self.step is ReadOffsets,
            SetupReply::Failed(_) => !(self.step is Finished),
        }
    }
}

/// A socket that is being set up.
pub struct XskSetup {
    umem: XskUmem,
    ifindex: u32,
    queue_id: u32,
    config: XskSocketConfig,
    step: SetupStep,
    offsets: XdpMmapOffsets,
}

impl View for XskSetup {
    type V = SetupView;

    closed spec fn view(&self) -> SetupView {
        SetupView {
            umem: self.umem@,
            ifindex: self.ifindex,
            queue_id: self.queue_id,
            config: self.config,
            step: self.step,
            offsets: self.offsets,
        }
    }
}

/// The value of `libc::AF_XDP`, which is 44 on every target that has it.
#[verifier::external_body]
fn af_xdp() -> (r: i32)
    ensures
        r == 44,
{
    libc::AF_XDP
}

impl XskSetup {
    /// The invariant, see [`SetupView::wf`].
    pub open spec fn wf(self) -> bool {
        self@.wf()
    }

    /// Starts setting up a socket over `umem`, to be bound to `(ifindex, queue_id)`.
    ///
    /// # Errors
    ///
    /// Returns [`XskError::InvalidRingSize`] if a ring size is not a power of two.
    pub(crate) fn start(umem: XskUmem, ifindex: u32, queue_id: u32, config: XskSocketConfig) -> (r: Result<
        Self,
        XskError,
    >)
        requires
            umem.wf(),
        ensures
            config.valid() <==> r is Ok,
            r is Err ==> r == Err::<Self, XskError>(XskError::InvalidRingSize),
            r matches Ok(setup) ==> {
                &&& setup.wf()
                &&& setup@.umem == umem@
                &&& setup@.ifindex == ifindex
                &&& setup@.queue_id == queue_id
                &&& setup@.config == config
                &&& setup@.step is CreateSocket
            },
    {
        if !is_power_of_two(config.rx_size) || !is_power_of_two(config.tx_size)
            || !is_power_of_two(config.fill_size) || !is_power_of_two(config.completion_size) {
            return Err(XskError::InvalidRingSize);
        }
        let none = XdpRingOffset { producer: 0, consumer: 0, desc: 0, flags: 0 };
        Ok(
            XskSetup {
                umem,
                ifindex,
                queue_id,
                config,
                step: SetupStep::CreateSocket,
                offsets: XdpMmapOffsets { rx: none, tx: none, fr: none, cr: none },
            },
        )
    }

    /// What to do next.
    pub fn action(&self) -> (r: SetupAction)
        ensures
            r == self@.action(),
    {
        match self.step {
            SetupStep::CreateSocket => SetupAction::CreateSocket,
            SetupStep::RegisterUmem => SetupAction::RegisterUmem {
                optname: XDP_UMEM_REG,
                reg: self.umem.register(),
            },
            SetupStep::SizeFill => SetupAction::SizeRing {
                optname: XDP_UMEM_FILL_RING,
                size: self.config.fill_size,
            },
            SetupStep::SizeCompletion => SetupAction::SizeRing {
                optname: XDP_UMEM_COMPLETION_RING,
                size: self.config.completion_size,
            },
            SetupStep::SizeRx => SetupAction::SizeRing {
                optname: XDP_RX_RING,
                size: self.config.rx_size,
            },
            SetupStep::SizeTx => SetupAction::SizeRing {
                optname: XDP_TX_RING,
                size: self.config.tx_size,
            },
            SetupStep::ReadOffsets => SetupAction::ReadOffsets,
            SetupStep::MapFill => SetupAction::MapRing {
                ring: RingKind::Fill,
                size: self.config.fill_size,
                page_offset: XDP_UMEM_PGOFF_FILL_RING,
                offset: self.offsets.fr,
            },
            SetupStep::MapCompletion => SetupAction::MapRing {
                ring: RingKind::Completion,
                size: self.config.completion_size,
                page_offset: XDP_UMEM_PGOFF_COMPLETION_RING,
                offset: self.offsets.cr,
            },
            SetupStep::MapRx => SetupAction::MapRing {
                ring: RingKind::Rx,
                size: self.config.rx_size,
                page_offset: XDP_PGOFF_RX_RING,
                offset: self.offsets.rx,
            },
            SetupStep::MapTx => SetupAction::MapRing {
                ring: RingKind::Tx,
                size: self.config.tx_size,
                page_offset: XDP_PGOFF_TX_RING,
                offset: self.offsets.tx,
            },
            SetupStep::Bind => SetupAction::Bind(
                SockaddrXdp {
                    family: af_xdp() as u16,
                    flags: self.config.bind_flags,
                    ifindex: self.ifindex,
                    queue_id: self.queue_id,
                    shared_umem_fd: 0,
                },
            ),
            SetupStep::Finished => SetupAction::Finished,
        }
    }

    /// Takes the reply to the last action and moves on to the next.
    ///
    /// # Errors
    ///
    /// Returns [`XskError::Syscall`] with the error of a call that failed; the set-up then stays
    /// where it is.
    pub fn advance(&mut self, reply: SetupReply) -> (r: Result<(), XskError>)
        requires
            old(self)@.expects(reply),
        ensures
            match reply {
                SetupReply::Done => {
                    &&& r is Ok
                    &&& final(self)@.step.rank() == old(self)@.step.rank() + 1
                    &&& final(self)@ == (SetupView { step: final(self)@.step, ..old(self)@ })
                },
                SetupReply::Offsets(offsets) => {
                    &&& r is Ok
                    &&& final(self)@.step.rank() == old(self)@.step.rank() + 1
                    &&& final(self)@ == (SetupView {
                        step: final(self)@.step,
                        offsets,
                        ..old(self)@
                    })
                },
                SetupReply::Failed(error) => {
                    &&& r == Err::<(), XskError>(XskError::Syscall(error))
                    &&& final(self)@ == old(self)@
                },
            },
    {
        match reply {
            SetupReply::Failed(error) => {
                return Err(XskError::from(error));
            },
            SetupReply::Offsets(offsets) => {
                self.offsets = offsets;
            },
            SetupReply::Done => {},
        }
        self.step = self.step.next();
        Ok(())
    }

    /// The UMEM and the configuration.
    pub(crate) fn into_parts(self) -> (r: (XskUmem, XskSocketConfig))
        ensures
            r.0@ == self@.umem,
            r.1 == self@.config,
    {
        (self.umem, self.config)
    }
}

/// A configuration is valid exactly when each of its four ring sizes is a power of two, and asks
/// for wake-ups by need exactly when `XDP_USE_NEED_WAKEUP` is among its bind flags.
pub proof fn law_valid_configurations(config: XskSocketConfig)
    ensures
        config.valid() <==> {
            &&& is_pow2(config.fill_size as int)
            &&& is_pow2(config.completion_size as int)
            &&& is_pow2(config.rx_size as int)
            &&& is_pow2(config.tx_size as int)
        },
        config.uses_need_wakeup() <==> config.bind_flags & 8 != 0,
{
    let bind_flags = config.bind_flags;
    assert((bind_flags & 8 != 0) == ((bind_flags / 8) % 2 == 1)) by (bit_vector);
}

/// What registering the UMEM tells the kernel: the option `XDP_UMEM_REG`, with the address and
/// length of the memory and the fields of the UMEM's configuration.
pub proof fn law_umem_is_registered(setup: SetupView)
    requires
        setup.wf(),
        setup.step is RegisterUmem,
    ensures
        setup.action() matches SetupAction::RegisterUmem { optname, reg } && {
            &&& optname == 4
            &&& reg.addr == setup.umem.base
            &&& reg.len == setup.umem.len
            &&& reg.chunk_size == setup.umem.config.frame_size
            &&& reg.headroom == setup.umem.config.headroom
            &&& reg.flags == setup.umem.config.flags
            &&& reg.tx_metadata_len == 0
        },
{
}

/// Each ring is sized by its own option, to the number of descriptors that its own field of the
/// configuration says.
pub proof fn law_rings_are_sized_as_configured(setup: SetupView)
    ensures
        setup.step is SizeFill ==> setup.action() == (SetupAction::SizeRing {
            optname: 5,
            size: setup.config.fill_size,
        }),
        setup.step is SizeCompletion ==> setup.action() == (SetupAction::SizeRing {
            optname: 6,
            size: setup.config.completion_size,
        }),
        setup.step is SizeRx ==> setup.action() == (SetupAction::SizeRing {
            optname: 2,
            size: setup.config.rx_size,
        }),
        setup.step is SizeTx ==> setup.action() == (SetupAction::SizeRing {
            optname: 3,
            size: setup.config.tx_size,
        }),
{
}

/// Whatever option an action sizes a ring by, the size is that of the option's ring in the
/// configuration.
pub proof fn law_options_carry_their_sizes(setup: SetupView, option: i32, descriptors: u32)
    requires
        setup.action() == (SetupAction::SizeRing { optname: option, size: descriptors }),
    ensures
        option == XDP_UMEM_FILL_RING || option == XDP_UMEM_COMPLETION_RING || option == XDP_RX_RING
            || option == XDP_TX_RING,
        option == XDP_UMEM_FILL_RING ==> descriptors == setup.config.fill_size,
        option == XDP_UMEM_COMPLETION_RING ==> descriptors == setup.config.completion_size,
        option == XDP_RX_RING ==> descriptors == setup.config.rx_size,
        option == XDP_TX_RING ==> descriptors == setup.config.tx_size,
{
}

/// Each ring is mapped at its own offset, with the number of descriptors that its own field of the
/// configuration says and the layout that was read for it.
pub proof fn law_rings_are_mapped_as_configured(setup: SetupView)
    ensures
        setup.step is MapFill ==> setup.action() == (SetupAction::MapRing {
            ring: RingKind::Fill,
            size: setup.config.fill_size,
            page_offset: 0x1_0000_0000,
            offset: setup.offsets.fr,
        }),
        setup.step is MapCompletion ==> setup.action() == (SetupAction::MapRing {
            ring: RingKind::Completion,
            size: setup.config.completion_size,
            page_offset: 0x1_8000_0000,
            offset: setup.offsets.cr,
        }),
        setup.step is MapRx ==> setup.action() == (SetupAction::MapRing {
            ring: RingKind::Rx,
            size: setup.config.rx_size,
            page_offset: 0,
            offset: setup.offsets.rx,
        }),
        setup.step is MapTx ==> setup.action() == (SetupAction::MapRing {
            ring: RingKind::Tx,
            size: setup.config.tx_size,
            page_offset: 0x8000_0000,
            offset: setup.offsets.tx,
        }),
{
}

/// The socket is bound to the interface, the queue and with the flags that it was asked for, in
/// the family `AF_XDP` and with no UMEM of another socket.
pub proof fn law_socket_is_bound_as_asked(setup: SetupView)
    requires
        setup.step is Bind,
    ensures
        setup.action() matches SetupAction::Bind(addr) && {
            &&& addr.family == 44
            &&& addr.flags == setup.config.bind_flags
            &&& addr.ifindex == setup.ifindex
            &&& addr.queue_id == setup.queue_id
            &&& addr.shared_umem_fd == 0
        },
{
}

/// The other steps: the socket is created first, the layout is read once, and at the end nothing
/// is left to do.
pub proof fn law_remaining_steps(setup: SetupView)
    ensures
        setup.action() is CreateSocket <==> setup.step is CreateSocket,
        setup.action() is ReadOffsets <==> setup.step is ReadOffsets,
        setup.action() is Finished <==> setup.step is Finished,
{
}

/// The steps in the order in which a set-up takes them: the step that follows one of the list is
/// the next of the list.
pub proof fn law_steps_follow_each_other(before: SetupStep, after: SetupStep)
    requires
        after.rank() == before.rank() + 1,
    ensures
        before is CreateSocket ==> after is RegisterUmem,
        before is RegisterUmem ==> after is SizeFill,
        before is SizeFill ==> after is SizeCompletion,
        before is SizeCompletion ==> after is SizeRx,
        before is SizeRx ==> after is SizeTx,
        before is SizeTx ==> after is ReadOffsets,
        before is ReadOffsets ==> after is MapFill,
        before is MapFill ==> after is MapCompletion,
        before is MapCompletion ==> after is MapRx,
        before is MapRx ==> after is MapTx,
        before is MapTx ==> after is Bind,
        before is Bind ==> after is Finished,
        !(before is Finished),
{
}

/// Every step but the last can fail; reading the layout is answered by a layout, and every other
/// step by plain success.
pub proof fn law_expected_replies(
    setup: SetupView,
    offsets: XdpMmapOffsets,
    error: SyscallError,
)
    ensures
        setup.expects(SetupReply::Failed(error)) <==> !(setup.step is Finished),
        setup.expects(SetupReply::Offsets(offsets)) <==> setup.step is ReadOffsets,
        setup.expects(SetupReply::Done) <==> !(setup.step is ReadOffsets) && !(setup.step
            is Finished),
{
}

/// The descriptors of a ring take up 8 bytes each on the FILL and COMPLETION rings and 16 bytes
/// each on the RX and TX rings, from the descriptor offset on.
pub proof fn law_length_of_the_descriptors(ring: RingKind, size: u32, offset: XdpRingOffset)
    ensures
        ring is Fill || ring is Completion ==> descriptors_end(ring, size, offset) == offset.desc
            + 8 * size && ring.spec_entry_size() == 8,
        ring is Rx || ring is Tx ==> descriptors_end(ring, size, offset) == offset.desc + 16 * size
            && ring.spec_entry_size() == 16,
{
}

/// The descriptor of an index lies, from the descriptor offset on, behind as many descriptors as
/// the index masked with the size less one says.
pub proof fn law_descriptor_of_an_index(mapping: RingMapping, index: u32)
    requires
        is_pow2(mapping.size as int),
    ensures
        ({
            let slot = index & ((mapping.size - 1) as u32);
            &&& mapping.ring is Fill || mapping.ring is Completion
                ==> mapping.spec_slot_offset(index as int) == mapping.offset.desc + 8 * slot
            &&& mapping.ring is Rx || mapping.ring is Tx ==> mapping.spec_slot_offset(index as int)
                == mapping.offset.desc + 16 * slot
        }),
{
    lemma_mask_is_remainder(index, mapping.size);
}

/// A mapping that was planned is well-formed.
pub proof fn law_planned_mappings(mapping: RingMapping)
    requires
        is_pow2(mapping.size as int),
        mapping.ring is Fill || mapping.ring is Completion ==> mapping.len == mapping.offset.desc
            + 8 * mapping.size,
        mapping.ring is Rx || mapping.ring is Tx ==> mapping.len == mapping.offset.desc + 16
            * mapping.size,
    ensures
        mapping.wf(),
{
}

/// The order of the actions of two steps, of one set-up or of two: creating the socket comes
/// first; registering the UMEM comes before any ring is sized, sizing before the layout is read,
/// reading before any ring is mapped, and mapping before binding.
pub proof fn law_setup_order(before: SetupView, after: SetupView)
    ensures
        before.action() is CreateSocket && !(after.action() is CreateSocket)
            ==> before.step.rank() < after.step.rank(),
        before.action() is RegisterUmem && after.action() is SizeRing ==> before.step.rank()
            < after.step.rank(),
        before.action() is SizeRing && after.action() is ReadOffsets ==> before.step.rank()
            < after.step.rank(),
        before.action() is ReadOffsets && after.action() is MapRing ==> before.step.rank()
            < after.step.rank(),
        before.action() is MapRing && after.action() is Bind ==> before.step.rank()
            < after.step.rank(),
        before.action() is Bind && after.action() is Finished ==> before.step.rank()
            < after.step.rank(),
{
}

/// A step is known by its rank, so that a set-up passes through every step once.
pub proof fn law_one_step_per_rank(a: SetupStep, b: SetupStep)
    ensures
        0 <= a.rank() <= 12,
        a.rank() == b.rank() ==> a == b,
{
}

/// Each ring is mapped with the size that it was given: a step that sizes a ring and one that
/// maps the same ring agree, and the size is a power of two.
pub proof fn law_rings_are_mapped_as_sized(sizing: SetupView, mapping: SetupView)
    requires
        sizing.wf(),
        sizing.config == mapping.config,
        sizing.action() is SizeRing,
        mapping.action() is MapRing,
        sizing.ring() == mapping.ring(),
    ensures
        mapping.action()->MapRing_ring == mapping.ring(),
        sizing.action()->SizeRing_size == mapping.action()->MapRing_size,
        is_pow2(mapping.action()->MapRing_size as int),
{
}

} // verus!
