use xsk::abi::{SockaddrXdp, XdpDesc, XdpMmapOffsets, XdpRingOffset};
use xsk::error::{IoError, SyscallError};
use xsk::setup::{RingKind, RingMapping, SetupAction, SetupReply};
use xsk::umem::FrameSpan;
use xsk::{XskError, XskRing, XskSetup, XskSocket, XskSocketConfig, XskUmem, XskUmemConfig};

const FRAMES: usize = 8;
const FRAME_SIZE: usize = 2048;

fn umem() -> XskUmem {
    let config = XskUmemConfig {
        frame_size: FRAME_SIZE as u32,
        headroom: 64,
        flags: 0,
    };
    XskUmem::new(config, 0x10_0000, FRAMES * FRAME_SIZE, 4096).unwrap()
}

fn config(bind_flags: u16) -> XskSocketConfig {
    XskSocketConfig {
        rx_size: 4,
        tx_size: 4,
        fill_size: 4,
        completion_size: 8,
        bind_flags,
    }
}

fn offsets() -> XdpMmapOffsets {
    let ring = |base: u64| XdpRingOffset {
        producer: base,
        consumer: base + 64,
        desc: base + 192,
        flags: base + 128,
    };
    XdpMmapOffsets {
        rx: ring(0),
        tx: ring(1000),
        fr: ring(2000),
        cr: ring(3000),
    }
}

fn desc(addr: u64, len: u32) -> XdpDesc {
    XdpDesc {
        addr,
        len,
        options: 0,
    }
}

fn addr_ring(size: u32) -> XskRing<u64> {
    XskRing::from_raw(vec![0; size as usize], 0, 0, 0, size)
}

fn desc_ring(size: u32) -> XskRing<XdpDesc> {
    XskRing::from_raw(vec![desc(0, 0); size as usize], 0, 0, 0, size)
}

/// Makes every call of the set-up succeed.
fn finish(mut setup: XskSetup) -> XskSetup {
    loop {
        match setup.action() {
            SetupAction::Finished => return setup,
            SetupAction::ReadOffsets => setup.advance(SetupReply::Offsets(offsets())).unwrap(),
            _ => setup.advance(SetupReply::Done).unwrap(),
        }
    }
}

fn socket(bind_flags: u16) -> XskSocket {
    let setup = finish(XskSocket::new(umem(), 3, 1, config(bind_flags)).unwrap());
    XskSocket::from_setup(
        setup,
        addr_ring(4),
        addr_ring(8),
        desc_ring(4),
        desc_ring(4),
    )
}

/// Produces a packet into the RX ring, as the kernel does.
fn receive(socket: &mut XskSocket, addr: u64, len: u32) {
    let ring = socket.rx_ring();
    ring.set_producer_entry(0, desc(addr, len));
    ring.submit(1);
}

#[test]
fn default_socket_config() {
    let config = XskSocketConfig::default();
    assert_eq!(config.rx_size, 2048);
    assert_eq!(config.tx_size, 2048);
    assert_eq!(config.fill_size, 2048);
    assert_eq!(config.completion_size, 2048);
    assert_eq!(config.bind_flags, 0);
}

#[test]
fn ring_sizes_must_be_powers_of_two() {
    let valid = config(0);
    for config in [
        XskSocketConfig { rx_size: 0, ..valid },
        XskSocketConfig { tx_size: 3, ..valid },
        XskSocketConfig {
            fill_size: 2047,
            ..valid
        },
        XskSocketConfig {
            completion_size: u32::MAX,
            ..valid
        },
    ] {
        assert!(matches!(
            XskSocket::new(umem(), 1, 0, config),
            Err(XskError::InvalidRingSize)
        ));
    }
    assert!(XskSocket::new(umem(), 1, 0, valid).is_ok());
}

#[test]
fn setup_makes_the_calls_in_order() {
    let mut setup = XskSocket::new(umem(), 3, 1, config(0xc)).unwrap();
    let mut actions = Vec::new();
    loop {
        let action = setup.action();
        actions.push(action);
        match action {
            SetupAction::Finished => break,
            SetupAction::ReadOffsets => setup.advance(SetupReply::Offsets(offsets())).unwrap(),
            _ => setup.advance(SetupReply::Done).unwrap(),
        }
    }
    let expected = vec![
        SetupAction::CreateSocket,
        SetupAction::RegisterUmem {
            optname: libc::XDP_UMEM_REG,
            reg: umem().register(),
        },
        SetupAction::SizeRing {
            optname: libc::XDP_UMEM_FILL_RING,
            size: 4,
        },
        SetupAction::SizeRing {
            optname: libc::XDP_UMEM_COMPLETION_RING,
            size: 8,
        },
        SetupAction::SizeRing {
            optname: libc::XDP_RX_RING,
            size: 4,
        },
        SetupAction::SizeRing {
            optname: libc::XDP_TX_RING,
            size: 4,
        },
        SetupAction::ReadOffsets,
        SetupAction::MapRing {
            ring: RingKind::Fill,
            size: 4,
            page_offset: libc::XDP_UMEM_PGOFF_FILL_RING,
            offset: offsets().fr,
        },
        SetupAction::MapRing {
            ring: RingKind::Completion,
            size: 8,
            page_offset: libc::XDP_UMEM_PGOFF_COMPLETION_RING,
            offset: offsets().cr,
        },
        SetupAction::MapRing {
            ring: RingKind::Rx,
            size: 4,
            page_offset: 0,
            offset: offsets().rx,
        },
        SetupAction::MapRing {
            ring: RingKind::Tx,
            size: 4,
            page_offset: 0x8000_0000,
            offset: offsets().tx,
        },
        SetupAction::Bind(SockaddrXdp {
            family: libc::AF_XDP as u16,
            flags: 0xc,
            ifindex: 3,
            queue_id: 1,
            shared_umem_fd: 0,
        }),
        SetupAction::Finished,
    ];
    assert_eq!(actions, expected);
}

#[test]
fn a_failed_call_ends_the_setup() {
    let error = SyscallError {
        call: "setsockopt",
        io_error: IoError::Os(22),
    };
    let mut setup = XskSocket::new(umem(), 3, 1, config(0)).unwrap();
    setup.advance(SetupReply::Done).unwrap();
    let action = setup.action();
    assert_eq!(
        setup.advance(SetupReply::Failed(error)),
        Err(XskError::Syscall(error))
    );
    assert_eq!(setup.action(), action);
}

#[test]
fn ring_mappings() {
    let offset = offsets().rx;
    assert_eq!(
        RingMapping::plan(RingKind::Rx, 2048, 0x8000_0000, &offset),
        Ok(RingMapping {
            ring: RingKind::Rx,
            len: 192 + 2048 * 16,
            page_offset: 0x8000_0000,
            offset,
            size: 2048,
        })
    );
    assert_eq!(
        RingMapping::plan(RingKind::Fill, 2048, 0, &offset).unwrap().len,
        192 + 2048 * 8
    );
    assert!(matches!(
        RingMapping::plan(RingKind::Rx, 6, 0, &offset),
        Err(XskError::InvalidRingSize)
    ));
    assert!(RingMapping::fits(RingKind::Rx, 2048, &offset));
    // A size that is no power of two is refused wherever the descriptors are.
    let end = XdpRingOffset {
        desc: u64::MAX,
        ..offset
    };
    for size in [0u32, 3, u32::MAX] {
        assert_eq!(
            RingMapping::plan(RingKind::Rx, size, 0, &end),
            Err(XskError::InvalidRingSize)
        );
    }
    let far = XdpRingOffset {
        desc: u64::MAX - 31,
        ..offset
    };
    assert!(!RingMapping::fits(RingKind::Rx, 2, &far));
    assert!(RingMapping::fits(RingKind::Rx, 1, &far));
    assert!(RingMapping::fits(RingKind::Fill, 2, &far));
}

#[test]
fn slots_lie_within_their_mapping() {
    let offset = offsets().rx;
    for ring in [RingKind::Fill, RingKind::Rx] {
        let mapping = RingMapping::plan(ring, 4, 0, &offset).unwrap();
        let entry = ring.entry_size() as usize;
        assert_eq!(mapping.slot_offset(0), 192);
        assert_eq!(mapping.slot_offset(3), 192 + 3 * entry);
        assert_eq!(mapping.slot_offset(3) + entry, mapping.len);
        assert_eq!(mapping.slot_offset(5), 192 + entry);
        assert_eq!(mapping.slot_offset(u32::MAX), 192 + 3 * entry);
    }
}

#[test]
fn kernel_finds_what_was_written() {
    let mut socket = socket(0);
    let mut mem = vec![0u8; FRAMES * FRAME_SIZE];
    let addr = socket.umem().frame_addr(5).unwrap();
    socket
        .tx_frame_mut(&mut mem, addr, 4)
        .unwrap()
        .copy_from_slice(b"ping");
    assert_eq!(socket.transmit(&[(addr, 4)]), Ok(1));
    let sent = socket.tx_ring().consumer_entry(0);
    let start = sent.addr as usize;
    assert_eq!(&mem[start..start + sent.len as usize], b"ping");
}

#[test]
fn descriptor_sizes() {
    let desc_size = std::mem::size_of::<libc::xdp_desc>() as u64;
    let addr_size = std::mem::size_of::<u64>() as u64;
    assert_eq!(RingKind::Rx.entry_size(), desc_size);
    assert_eq!(RingKind::Tx.entry_size(), desc_size);
    assert_eq!(RingKind::Fill.entry_size(), addr_size);
    assert_eq!(RingKind::Completion.entry_size(), addr_size);
}

#[test]
fn fill_submits_frame_addresses() {
    let mut socket = socket(0);
    assert_eq!(socket.fill(&[2, 0, 7]), Ok(3));
    let ring = socket.fill_ring();
    assert_eq!(ring.available(), 3);
    assert_eq!(ring.consumer_entry(0), 2 * 2048);
    assert_eq!(ring.consumer_entry(1), 0);
    assert_eq!(ring.consumer_entry(2), 7 * 2048);
}

#[test]
fn fill_stops_when_the_ring_is_full() {
    let mut socket = socket(0);
    assert_eq!(socket.fill(&[0, 1, 2]), Ok(3));
    // One slot is left; the index that is out of bounds is never looked at.
    assert_eq!(socket.fill(&[3, 99]), Ok(1));
    assert_eq!(socket.fill(&[4]), Ok(0));
    assert_eq!(socket.fill(&[]), Ok(0));
    // The kernel takes two.
    socket.fill_ring().release(2);
    assert_eq!(socket.fill(&[4, 5, 6]), Ok(2));
    let ring = socket.fill_ring();
    let queue: Vec<u64> = (0..4).map(|i| ring.consumer_entry(i) / 2048).collect();
    assert_eq!(queue, vec![2, 3, 4, 5]);
}

#[test]
fn fill_with_a_bad_index_hands_over_nothing() {
    let mut socket = socket(0);
    assert_eq!(socket.fill(&[1]), Ok(1));
    assert_eq!(
        socket.fill(&[2, 8, 9]),
        Err(XskError::FrameOutOfBounds(8))
    );
    let ring = socket.fill_ring();
    assert_eq!(ring.available(), 1);
    assert_eq!(ring.free(), 3);
    assert_eq!(ring.producer(), 1);
    assert_eq!(ring.consumer_entry(0), 2048);
}

#[test]
fn received_packets_are_peeked_in_order() {
    let mut socket = socket(0);
    let mut mem = vec![0u8; FRAMES * FRAME_SIZE];
    mem[2048..2051].copy_from_slice(&[1, 2, 3]);
    mem[4096 + 256..4096 + 258].copy_from_slice(&[9, 8]);
    assert_eq!(socket.rx_available(), 0);
    assert!(socket.rx_peek(&mem, 0).is_none());

    receive(&mut socket, 2048, 3);
    receive(&mut socket, 4096 + 256, 2);
    assert_eq!(socket.rx_available(), 2);
    assert_eq!(socket.rx_peek(&mem, 0).unwrap(), &[1, 2, 3]);
    assert_eq!(socket.rx_peek(&mem, 1).unwrap(), &[9, 8]);
    assert_eq!(
        socket.rx_span(1),
        Some(FrameSpan {
            start: 4352,
            len: 2
        })
    );
    assert!(socket.rx_peek(&mem, 2).is_none());
    assert!(socket.rx_span(2).is_none());

    // Peeking consumes nothing; releasing moves the next packet up.
    assert_eq!(socket.rx_release(1), 1);
    assert_eq!(socket.rx_available(), 1);
    assert_eq!(socket.rx_peek(&mem, 0).unwrap(), &[9, 8]);
}

#[test]
fn malformed_descriptors_are_not_read() {
    let mut socket = socket(0);
    let mem = vec![0u8; FRAMES * FRAME_SIZE];
    receive(&mut socket, (FRAMES * FRAME_SIZE) as u64 - 1, 2);
    receive(&mut socket, u64::MAX, 1);
    receive(&mut socket, 0, 1);
    assert_eq!(socket.rx_available(), 3);
    assert!(socket.rx_peek(&mem, 0).is_none());
    assert!(socket.rx_peek(&mem, 1).is_none());
    assert!(socket.rx_peek(&mem, 2).is_some());
}

#[test]
fn releasing_too_many_is_clamped() {
    let mut socket = socket(0);
    receive(&mut socket, 0, 1);
    receive(&mut socket, 2048, 1);
    assert_eq!(socket.rx_release(u32::MAX), 2);
    assert_eq!(socket.rx_available(), 0);
    assert_eq!(socket.rx_release(1), 0);
    assert_eq!(socket.rx_available(), 0);
}

#[test]
fn transmit_enqueues_descriptors() {
    let mut socket = socket(0);
    let mut mem = vec![0u8; FRAMES * FRAME_SIZE];
    let addr = socket.umem().frame_addr(3).unwrap();
    socket
        .tx_frame_mut(&mut mem, addr, 3)
        .unwrap()
        .copy_from_slice(&[7, 7, 7]);
    assert_eq!(&mem[3 * 2048..3 * 2048 + 4], &[7, 7, 7, 0]);
    assert!(socket
        .tx_frame_mut(&mut mem, (FRAMES * FRAME_SIZE) as u64, 1)
        .is_none());

    assert_eq!(socket.transmit(&[(addr, 3), (0, 60)]), Ok(2));
    assert_eq!(socket.transmit(&[(1, 1), (2, 2), (3, 3)]), Ok(2));
    assert_eq!(socket.transmit(&[(4, 4)]), Ok(0));
    let ring = socket.tx_ring();
    assert_eq!(ring.available(), 4);
    assert_eq!(ring.consumer_entry(0), desc(3 * 2048, 3));
    assert_eq!(ring.consumer_entry(1), desc(0, 60));
    assert_eq!(ring.consumer_entry(2), desc(1, 1));
    assert_eq!(ring.consumer_entry(3), desc(2, 2));
}

#[test]
fn complete_drains_in_order() {
    let mut socket = socket(0);
    let mut out = vec![42u64];
    assert_eq!(socket.complete(&mut out), 0);
    {
        let ring = socket.completion_ring();
        for i in 0..5 {
            ring.set_producer_entry(i, 2048 * u64::from(i));
        }
        ring.submit(5);
    }
    assert_eq!(socket.complete(&mut out), 5);
    assert_eq!(out, vec![42, 0, 2048, 4096, 6144, 8192]);
    assert_eq!(socket.complete(&mut out), 0);
    assert_eq!(socket.completion_ring().free(), 8);
}

#[test]
fn copy_mode_always_kicks_and_never_wakes_rx() {
    let mut socket = socket(0);
    assert!(socket.kick());
    assert!(!socket.wake_rx());
    socket.fill_ring().set_flags(1);
    socket.tx_ring().set_flags(1);
    assert!(socket.kick());
    assert!(!socket.wake_rx());
}

#[test]
fn need_wakeup_follows_the_rings() {
    // `XDP_USE_NEED_WAKEUP`, alone and with `XDP_ZEROCOPY`.
    for bind_flags in [8u16, 12] {
        let mut socket = socket(bind_flags);
        assert!(!socket.kick());
        assert!(!socket.wake_rx());
        socket.tx_ring().set_flags(1);
        assert!(socket.kick());
        assert!(!socket.wake_rx());
        socket.tx_ring().set_flags(0);
        socket.fill_ring().set_flags(1);
        assert!(!socket.kick());
        assert!(socket.wake_rx());
    }
    // Other bind flags are not `XDP_USE_NEED_WAKEUP`.
    assert!(socket(0xfff7).kick());
}

#[test]
fn socket_keeps_its_umem() {
    let socket = socket(0);
    assert_eq!(socket.umem().frame_count(), 8);
    assert_eq!(socket.umem().frame_size(), 2048);
}
