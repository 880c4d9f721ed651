use xsk::abi::XDP_RING_NEED_WAKEUP;
use xsk::arith::is_power_of_two;
use xsk::XskRing;

/// A ring of zeroed descriptors with both indices and the flags at zero.
fn new_test(size: u32) -> XskRing<u64> {
    XskRing::from_raw(vec![0u64; size as usize], 0, 0, 0, size)
}

#[test]
fn produce_then_consume() {
    let mut ring = new_test(4);
    assert_eq!(ring.available(), 0);
    assert_eq!(ring.free(), 4);

    // Drive the ring as the producer (as the kernel does for an RX ring).
    for i in 0..3 {
        ring.set_producer_entry(i, 100 + u64::from(i));
    }
    ring.submit(3);

    // Now consume.
    assert_eq!(ring.available(), 3);
    assert_eq!(ring.free(), 1);
    assert_eq!(ring.consumer_entry(0), 100);
    assert_eq!(ring.consumer_entry(2), 102);
    ring.release(3);
    assert_eq!(ring.available(), 0);
    assert_eq!(ring.free(), 4);
}

#[test]
fn indices_wrap_around() {
    let mut ring = new_test(4);
    // Advance producer and consumer past `size` so both wrap the descriptor array.
    for round in 0..3u32 {
        for i in 0..4 {
            ring.set_producer_entry(i, u64::from(round) * 10 + u64::from(i));
        }
        ring.submit(4);
        assert_eq!(ring.available(), 4);
        // Slot for the first available entry is `consumer & mask`.
        assert_eq!(ring.consumer_entry(0), u64::from(round) * 10);
        assert_eq!(ring.consumer_entry(3), u64::from(round) * 10 + 3);
        ring.release(4);
        assert_eq!(ring.available(), 0);
    }
}

#[test]
fn free_tracks_outstanding() {
    let mut ring = new_test(8);
    ring.set_producer_entry(0, 0xdead);
    ring.set_producer_entry(1, 0xbeef);
    ring.submit(2);
    // Two produced, none consumed: six slots free.
    assert_eq!(ring.free(), 6);
    assert_eq!(ring.available(), 2);
    ring.release(2);
    assert_eq!(ring.free(), 8);
}

#[test]
fn needs_wakeup_reads_flags() {
    let mut ring = new_test(4);
    assert!(!ring.needs_wakeup());
    ring.set_flags(XDP_RING_NEED_WAKEUP);
    assert!(ring.needs_wakeup());
    ring.set_flags(0);
    assert!(!ring.needs_wakeup());
}

#[test]
fn other_flags_ask_for_no_wakeup() {
    let mut ring = new_test(4);
    ring.set_flags(0xffff_fffe);
    assert!(!ring.needs_wakeup());
    ring.set_flags(0xffff_ffff);
    assert!(ring.needs_wakeup());
}

#[test]
fn queue_survives_the_end_of_the_index_range() {
    // Two positions before both indices wrap to zero.
    let mut ring = XskRing::from_raw(vec![0u64; 4], u32::MAX - 1, u32::MAX - 1, 0, 4);
    for i in 0..4 {
        ring.set_producer_entry(i, 10 + u64::from(i));
    }
    ring.submit(4);
    assert_eq!(ring.producer(), 2);
    assert_eq!(ring.consumer(), u32::MAX - 1);
    assert_eq!(ring.available(), 4);
    assert_eq!(ring.free(), 0);
    for i in 0..4 {
        assert_eq!(ring.consumer_entry(i), 10 + u64::from(i));
    }
    ring.release(3);
    assert_eq!(ring.consumer(), 1);
    assert_eq!(ring.available(), 1);
    assert_eq!(ring.consumer_entry(0), 13);
}

#[test]
fn nothing_is_free_when_out_of_step() {
    // The consumer is ahead of the producer, so that almost everything seems outstanding.
    let ring = XskRing::from_raw(vec![0u64; 8], 3, 5, 0, 8);
    assert_eq!(ring.available(), u32::MAX - 1);
    assert_eq!(ring.free(), 0);
    // More is outstanding than there are slots.
    let ring = XskRing::from_raw(vec![0u64; 8], 20, 5, 0, 8);
    assert_eq!(ring.available(), 15);
    assert_eq!(ring.free(), 0);
}

#[test]
fn written_entries_show_after_submit() {
    let mut ring = new_test(4);
    ring.set_producer_entry(0, 7);
    assert_eq!(ring.available(), 0);
    assert_eq!(ring.free(), 4);
    ring.submit(1);
    assert_eq!(ring.available(), 1);
    assert_eq!(ring.consumer_entry(0), 7);
}

#[test]
fn an_entry_written_ahead_leaves_the_queue_alone() {
    let mut ring = new_test(4);
    ring.set_producer_entry(0, 1);
    ring.set_producer_entry(1, 2);
    ring.submit(2);
    ring.set_producer_entry(1, 9);
    assert_eq!(ring.available(), 2);
    assert_eq!(ring.consumer_entry(0), 1);
    assert_eq!(ring.consumer_entry(1), 2);
    assert_eq!(ring.slot(ring.producer() + 1), 9);
}

#[test]
fn release_drops_the_oldest() {
    let mut ring = new_test(4);
    for i in 0..4 {
        ring.set_producer_entry(i, u64::from(i) + 1);
    }
    ring.submit(4);
    ring.release(1);
    assert_eq!(ring.consumer_entry(0), 2);
    assert_eq!(ring.free(), 1);
    ring.set_producer_entry(0, 5);
    ring.submit(1);
    let left: Vec<u64> = (0..4).map(|i| ring.consumer_entry(i)).collect();
    assert_eq!(left, vec![2, 3, 4, 5]);
}

#[test]
fn slots_repeat_after_size() {
    let ring = XskRing::from_raw(vec![40u64, 41, 42, 43], 0, 0, 0, 4);
    assert_eq!(ring.size(), 4);
    assert_eq!(ring.slot(0), 40);
    assert_eq!(ring.slot(3), 43);
    assert_eq!(ring.slot(4), 40);
    assert_eq!(ring.slot(u32::MAX), 43);
}

#[test]
fn releases_and_submissions_add_up() {
    let mut split = new_test(8);
    let mut whole = new_test(8);
    split.submit(2);
    split.submit(4);
    whole.submit(6);
    assert_eq!(split.producer(), whole.producer());
    split.release(3);
    split.release(2);
    whole.release(5);
    assert_eq!(split.consumer(), whole.consumer());
    assert_eq!(split.available(), 1);
}

#[test]
fn ring_of_one_slot() {
    let mut ring = new_test(1);
    assert_eq!(ring.free(), 1);
    ring.set_producer_entry(0, 9);
    ring.submit(1);
    assert_eq!(ring.free(), 0);
    assert_eq!(ring.consumer_entry(0), 9);
    ring.release(1);
    assert_eq!(ring.free(), 1);
}

#[test]
fn powers_of_two() {
    for n in 0..70_000u32 {
        assert_eq!(is_power_of_two(n), n.is_power_of_two());
    }
    assert!(is_power_of_two(0x8000_0000));
    assert!(!is_power_of_two(u32::MAX));
    assert!(!is_power_of_two(0xc000_0000));
}

#[test]
fn kernel_progress_is_recorded() {
    let mut ring = XskRing::from_raw(vec![0u64; 4], u32::MAX, u32::MAX, 0, 4);
    // The kernel produced two entries, past the end of the index range.
    assert_eq!(ring.unrecorded(1), 2);
    ring.record_produced(1, &[70, 71]);
    assert_eq!(ring.producer(), 1);
    assert_eq!(ring.available(), 2);
    assert_eq!(ring.consumer_entry(0), 70);
    assert_eq!(ring.consumer_entry(1), 71);
    // And one more.
    assert_eq!(ring.unrecorded(2), 1);
    ring.record_produced(2, &[72]);
    assert_eq!(ring.available(), 3);
    assert_eq!(ring.consumer_entry(2), 72);
    assert_eq!(ring.unrecorded(2), 0);
    ring.record_produced(2, &[]);
    assert_eq!(ring.available(), 3);
    // Seen from the other side, the kernel consumes two.
    ring.record_consumed(1);
    assert_eq!(ring.available(), 1);
    assert_eq!(ring.free(), 3);
    assert_eq!(ring.consumer_entry(0), 72);
}

#[test]
fn at_most_every_slot_is_copied() {
    let mut ring = new_test(4);
    // A producer index that runs away from the ring.
    assert_eq!(ring.unrecorded(100), 4);
    ring.record_produced(100, &[1, 2, 3, 4]);
    assert_eq!(ring.producer(), 100);
    assert_eq!(ring.available(), 100);
    assert_eq!(ring.free(), 0);
    assert_eq!(ring.slot(0), 1);
    assert_eq!(ring.slot(3), 4);
}
