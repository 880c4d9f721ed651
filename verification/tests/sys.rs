use std::mem::size_of;

use xsk::abi;
use xsk::abi::{XdpMmapOffsets, XdpMmapOffsetsV1, XdpRingOffset, XdpRingOffsetV1};
use xsk::error::{IoError, SyscallError};
use xsk::sys::{
    bind_result, kick_tx_result, mmap_offsets_from_v1, mmap_offsets_result, setsockopt_result,
    socket_result, wake_rx_result, wakeup_outcome, wakeup_result, BenignErrnos,
};
use xsk::XskError;

#[test]
fn v1_offsets_layout() {
    // The v1 struct must be strictly smaller than the current one, so the size returned in
    // `optlen` disambiguates the two layouts.
    assert_eq!(size_of::<XdpMmapOffsetsV1>(), 4 * 3 * size_of::<u64>());
    assert!(size_of::<XdpMmapOffsets>() > size_of::<XdpMmapOffsetsV1>());
}

#[test]
fn v1_offsets_translation() {
    let v1 = XdpMmapOffsetsV1 {
        rx: XdpRingOffsetV1 {
            producer: 1,
            consumer: 2,
            desc: 3,
        },
        tx: XdpRingOffsetV1 {
            producer: 4,
            consumer: 5,
            desc: 6,
        },
        fr: XdpRingOffsetV1 {
            producer: 7,
            consumer: 8,
            desc: 9,
        },
        cr: XdpRingOffsetV1 {
            producer: 10,
            consumer: 11,
            desc: 12,
        },
    };
    let off = mmap_offsets_from_v1(&v1);
    assert_eq!((off.rx.producer, off.rx.consumer, off.rx.desc), (1, 2, 3));
    assert_eq!((off.tx.producer, off.tx.consumer, off.tx.desc), (4, 5, 6));
    assert_eq!((off.fr.producer, off.fr.consumer, off.fr.desc), (7, 8, 9));
    assert_eq!(
        (off.cr.producer, off.cr.consumer, off.cr.desc),
        (10, 11, 12)
    );
    // The `flags` fields have no v1 counterpart and must be zeroed.
    assert_eq!(off.rx.flags, 0);
    assert_eq!(off.cr.flags, 0);
}

fn words() -> [u64; 16] {
    let mut words = [0u64; 16];
    for (i, word) in words.iter_mut().enumerate() {
        *word = i as u64 + 1;
    }
    words
}

#[test]
fn current_offsets_are_read() {
    let offsets = mmap_offsets_result(0, 0, &words(), 128).unwrap();
    let ring = |first: u64| XdpRingOffset {
        producer: first,
        consumer: first + 1,
        desc: first + 2,
        flags: first + 3,
    };
    assert_eq!(offsets.rx, ring(1));
    assert_eq!(offsets.tx, ring(5));
    assert_eq!(offsets.fr, ring(9));
    assert_eq!(offsets.cr, ring(13));
}

#[test]
fn older_offsets_are_read_and_translated() {
    let offsets = mmap_offsets_result(0, 0, &words(), 96).unwrap();
    let ring = |first: u64| XdpRingOffset {
        producer: first,
        consumer: first + 1,
        desc: first + 2,
        flags: 0,
    };
    assert_eq!(offsets.rx, ring(1));
    assert_eq!(offsets.tx, ring(4));
    assert_eq!(offsets.fr, ring(7));
    assert_eq!(offsets.cr, ring(10));
}

#[test]
fn offsets_of_another_size_are_an_error() {
    for optlen in [0usize, 64, 95, 97, 127, 129] {
        assert_eq!(
            mmap_offsets_result(0, 0, &words(), optlen),
            Err(SyscallError {
                call: "getsockopt",
                io_error: IoError::UnexpectedOffsetsSize(optlen),
            })
        );
    }
    assert_eq!(
        mmap_offsets_result(-1, 9, &words(), 128),
        Err(SyscallError {
            call: "getsockopt",
            io_error: IoError::Os(9),
        })
    );
}

#[test]
fn offsets_match_the_structures_of_the_c_library() {
    assert_eq!(abi::MMAP_OFFSETS_SIZE, size_of::<libc::xdp_mmap_offsets>());
    assert_eq!(
        abi::MMAP_OFFSETS_V1_SIZE,
        size_of::<libc::xdp_mmap_offsets_v1>()
    );
    assert_eq!(abi::MMAP_OFFSETS_WORDS * 8, abi::MMAP_OFFSETS_SIZE);
    assert_eq!(size_of::<XdpMmapOffsets>(), abi::MMAP_OFFSETS_SIZE);
    assert_eq!(size_of::<XdpMmapOffsetsV1>(), abi::MMAP_OFFSETS_V1_SIZE);
}

#[test]
fn constants_match_those_of_the_c_library() {
    assert_eq!(abi::XDP_RING_NEED_WAKEUP, libc::XDP_RING_NEED_WAKEUP);
    assert_eq!(abi::XDP_USE_NEED_WAKEUP, libc::XDP_USE_NEED_WAKEUP);
    assert_eq!(
        abi::XDP_UMEM_UNALIGNED_CHUNK_FLAG,
        libc::XDP_UMEM_UNALIGNED_CHUNK_FLAG
    );
    assert_eq!(abi::XDP_MMAP_OFFSETS, libc::XDP_MMAP_OFFSETS);
    assert_eq!(abi::XDP_RX_RING, libc::XDP_RX_RING);
    assert_eq!(abi::XDP_TX_RING, libc::XDP_TX_RING);
    assert_eq!(abi::XDP_UMEM_REG, libc::XDP_UMEM_REG);
    assert_eq!(abi::XDP_UMEM_FILL_RING, libc::XDP_UMEM_FILL_RING);
    assert_eq!(
        abi::XDP_UMEM_COMPLETION_RING,
        libc::XDP_UMEM_COMPLETION_RING
    );
    assert_eq!(abi::XDP_PGOFF_RX_RING, libc::XDP_PGOFF_RX_RING as u64);
    assert_eq!(abi::XDP_PGOFF_TX_RING, libc::XDP_PGOFF_TX_RING as u64);
    assert_eq!(
        abi::XDP_UMEM_PGOFF_FILL_RING,
        libc::XDP_UMEM_PGOFF_FILL_RING
    );
    assert_eq!(
        abi::XDP_UMEM_PGOFF_COMPLETION_RING,
        libc::XDP_UMEM_PGOFF_COMPLETION_RING
    );
}

#[test]
fn failed_calls() {
    let error = |call: &'static str, errno: i32| SyscallError {
        call,
        io_error: IoError::Os(errno),
    };
    assert_eq!(socket_result(7, 0), Ok(7));
    assert_eq!(socket_result(0, 5), Ok(0));
    assert_eq!(socket_result(-1, 97), Err(error("socket", 97)));
    assert_eq!(setsockopt_result(0, 5), Ok(()));
    assert_eq!(setsockopt_result(-1, 22), Err(error("setsockopt", 22)));
    assert_eq!(bind_result(0, 5), Ok(()));
    assert_eq!(bind_result(-1, 95), Err(error("bind", 95)));
}

#[test]
fn syscall_errors_convert() {
    let error = SyscallError {
        call: "bind",
        io_error: IoError::Os(95),
    };
    assert_eq!(XskError::from(error), XskError::Syscall(error));
}

#[test]
fn benign_errors_of_this_target() {
    let benign = BenignErrnos::of_target();
    assert_eq!(benign.busy, libc::EBUSY);
    assert_eq!(benign.again, libc::EAGAIN);
    assert_eq!(benign.no_bufs, libc::ENOBUFS);
    assert_eq!(benign.net_down, libc::ENETDOWN);
}

#[test]
fn benign_wakeup_errors_are_successes() {
    for errno in [libc::EBUSY, libc::EAGAIN, libc::ENOBUFS, libc::ENETDOWN] {
        assert_eq!(wakeup_result(-1, errno, "sendto"), Ok(()));
        assert_eq!(kick_tx_result(-1, errno), Ok(()));
        assert_eq!(wake_rx_result(-1, errno), Ok(()));
    }
}

#[test]
fn other_wakeup_errors_are_errors() {
    for errno in [libc::EINVAL, libc::EBADF, libc::ENXIO, libc::EOPNOTSUPP] {
        let io_error = IoError::Os(errno);
        assert_eq!(
            kick_tx_result(-1, errno),
            Err(SyscallError {
                call: "sendto",
                io_error
            })
        );
        assert_eq!(
            wake_rx_result(-1, errno),
            Err(SyscallError {
                call: "recvfrom",
                io_error
            })
        );
    }
}

#[test]
fn wakeups_that_the_kernel_takes_are_successes() {
    // What `errno` holds does not matter then.
    assert_eq!(kick_tx_result(0, libc::EINVAL), Ok(()));
    assert_eq!(wake_rx_result(12, libc::EINVAL), Ok(()));
}

#[test]
fn which_errors_are_benign_is_given() {
    let benign = BenignErrnos {
        busy: 1,
        again: 2,
        no_bufs: 3,
        net_down: 4,
    };
    for errno in 1..=4 {
        assert_eq!(wakeup_outcome(-1, errno, "sendto", &benign), Ok(()));
    }
    assert_eq!(
        wakeup_outcome(-1, 5, "sendto", &benign),
        Err(SyscallError {
            call: "sendto",
            io_error: IoError::Os(5)
        })
    );
    assert_eq!(wakeup_outcome(0, 5, "sendto", &benign), Ok(()));
}
