use xsk::umem::FrameSpan;
use xsk::{XskError, XskUmem, XskUmemConfig};

const PAGE: usize = 4096;

fn umem(frame_size: u32, frames: usize) -> XskUmem {
    let config = XskUmemConfig {
        frame_size,
        headroom: 0,
        flags: 0,
    };
    XskUmem::new(config, 16 * PAGE, frames * frame_size as usize, PAGE).unwrap()
}

#[test]
fn default_config() {
    let config = XskUmemConfig::default();
    assert_eq!(config.frame_size, 4096);
    assert_eq!(config.headroom, 0);
    assert_eq!(config.flags, 0);
}

#[test]
fn new_accepts_whole_aligned_frames() {
    for frame_size in [2048u32, 4096] {
        let umem = umem(frame_size, 4);
        assert_eq!(umem.frame_count(), 4);
        assert_eq!(umem.frame_size(), frame_size);
    }
    let config = XskUmemConfig {
        frame_size: 8192,
        headroom: 0,
        flags: 0,
    };
    assert!(XskUmem::new(config, 0, 8192, 65536).is_ok());
}

#[test]
fn new_rejects_what_the_kernel_would() {
    let valid = XskUmemConfig::default();
    let refused = |config: XskUmemConfig, base: usize, len: usize, page_size: usize| {
        matches!(
            XskUmem::new(config, base, len, page_size),
            Err(XskError::InvalidUmem)
        )
    };
    assert!(!refused(valid, PAGE, 4 * PAGE, PAGE));
    // Unaligned chunks.
    assert!(refused(XskUmemConfig { flags: 1, ..valid }, PAGE, 4 * PAGE, PAGE));
    assert!(refused(XskUmemConfig { flags: 3, ..valid }, PAGE, 4 * PAGE, PAGE));
    assert!(!refused(XskUmemConfig { flags: 2, ..valid }, PAGE, 4 * PAGE, PAGE));
    // Frame sizes that are no power of two, too small or larger than a page.
    let sized = |frame_size: u32| XskUmemConfig { frame_size, ..valid };
    assert!(refused(sized(3000), PAGE, 3000, PAGE));
    assert!(refused(sized(0), PAGE, 4 * PAGE, PAGE));
    assert!(refused(sized(1024), PAGE, 4 * PAGE, PAGE));
    assert!(refused(sized(8192), PAGE, 4 * PAGE, PAGE));
    // Empty memory, or not a whole number of frames.
    assert!(refused(valid, PAGE, 0, PAGE));
    assert!(refused(valid, PAGE, 4 * PAGE + 1, PAGE));
    assert!(refused(valid, PAGE, 2048, PAGE));
    // Memory that does not start at a page.
    assert!(refused(valid, PAGE + 2048, 4 * PAGE, PAGE));
    assert!(refused(valid, 1, 4 * PAGE, PAGE));
    // No page size.
    assert!(refused(valid, 0, 4 * PAGE, 0));
}

#[test]
fn frame_addresses() {
    let umem = umem(2048, 3);
    assert_eq!(umem.frame_addr(0).unwrap(), 0);
    assert_eq!(umem.frame_addr(1).unwrap(), 2048);
    assert_eq!(umem.frame_addr(2).unwrap(), 4096);
    assert!(matches!(
        umem.frame_addr(3),
        Err(XskError::FrameOutOfBounds(3))
    ));
    assert!(matches!(
        umem.frame_addr(u32::MAX),
        Err(XskError::FrameOutOfBounds(u32::MAX))
    ));
}

#[test]
fn frame_addresses_above_four_gib() {
    // 2^21 frames of 4 KiB.
    let umem = umem(4096, 1 << 21);
    assert_eq!(umem.frame_count(), 1 << 21);
    assert_eq!(umem.frame_addr((1 << 21) - 1).unwrap(), 0x1_ffff_f000);
}

#[test]
fn frame_count_keeps_the_low_bits() {
    let len = (0x1_0000_0005u64 * 2048) as usize;
    let config = XskUmemConfig {
        frame_size: 2048,
        headroom: 0,
        flags: 0,
    };
    let umem = XskUmem::new(config, 0, len, PAGE).unwrap();
    assert_eq!(umem.frame_count(), 5);
}

#[test]
fn frames_do_not_overlap_and_cover_the_memory() {
    let umem = umem(2048, 8);
    let size = u64::from(umem.frame_size());
    for i in 0..umem.frame_count() {
        let addr = umem.frame_addr(i).unwrap();
        assert_eq!(addr % size, 0);
        assert_eq!(addr, u64::from(i) * size);
        assert!(umem.frame_span(addr, umem.frame_size()).is_some());
    }
    assert_eq!(u64::from(umem.frame_count()) * size, 8 * 2048);
}

#[test]
fn registration() {
    let config = XskUmemConfig {
        frame_size: 2048,
        headroom: 128,
        flags: 4,
    };
    let umem = XskUmem::new(config, 3 * PAGE, 2 * PAGE, PAGE).unwrap();
    let reg = umem.register();
    assert_eq!(reg.addr, 3 * 4096);
    assert_eq!(reg.len, 2 * 4096);
    assert_eq!(reg.chunk_size, 2048);
    assert_eq!(reg.headroom, 128);
    assert_eq!(reg.flags, 4);
    assert_eq!(reg.tx_metadata_len, 0);
}

#[test]
fn spans_lie_within() {
    let umem = umem(2048, 2);
    assert_eq!(
        umem.frame_span(2048, 2048),
        Some(FrameSpan {
            start: 2048,
            len: 2048
        })
    );
    assert_eq!(
        umem.frame_span(4096, 0),
        Some(FrameSpan {
            start: 4096,
            len: 0
        })
    );
    assert_eq!(umem.frame_span(2049, 2048), None);
    assert_eq!(umem.frame_span(4097, 0), None);
    assert_eq!(umem.frame_span(u64::MAX, 1), None);
    assert_eq!(umem.frame_span(u64::MAX, u32::MAX), None);
    assert_eq!(umem.frame_span(0, u32::MAX), None);
}

#[test]
fn bytes_are_those_of_the_memory() {
    let umem = umem(2048, 2);
    let mem: Vec<u8> = (0..4096u32).map(|i| (i % 251) as u8).collect();
    assert_eq!(umem.frame_bytes(&mem, 2048, 5).unwrap(), &mem[2048..2053]);
    assert_eq!(umem.frame_bytes(&mem, 0, 4096).unwrap(), &mem[..]);
    assert!(umem.frame_bytes(&mem, 4095, 2).is_none());
}

#[test]
fn written_bytes_are_read_back() {
    let umem = umem(2048, 2);
    let mut mem = vec![0u8; 4096];
    let addr = umem.frame_addr(1).unwrap();
    umem.frame_bytes_mut(&mut mem, addr, 4)
        .unwrap()
        .copy_from_slice(&[1, 2, 3, 4]);
    assert_eq!(umem.frame_bytes(&mem, addr, 4).unwrap(), &[1, 2, 3, 4]);
    // The rest is as it was.
    assert!(umem.frame_bytes(&mem, 0, 2048).unwrap().iter().all(|b| *b == 0));
    assert!(umem
        .frame_bytes(&mem, addr + 4, 2044)
        .unwrap()
        .iter()
        .all(|b| *b == 0));
    assert!(umem.frame_bytes_mut(&mut mem, 4096, 1).is_none());
}

#[test]
fn packets_fit_behind_headroom() {
    let umem = umem(2048, 3);
    for i in 0..3 {
        let addr = umem.frame_addr(i).unwrap();
        assert!(umem.frame_span(addr + 256, 2048 - 256).is_some());
    }
    // One byte more runs out of the last frame.
    assert!(umem.frame_span(2 * 2048 + 256, 2048 - 255).is_none());
}
