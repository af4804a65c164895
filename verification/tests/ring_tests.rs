use driver_core::ring::{is_power_of_two, Ring, RingFull, SlotHandle};
use driver_core::trb::{Trb, TrbType};

fn command(n: u64) -> Trb {
    let mut trb = Trb { data: 0, status: 0, control: 0 };
    trb.no_op_cmd(false);
    trb.data = n;
    trb
}

#[test]
fn power_of_two_check() {
    assert!(!is_power_of_two(0));
    assert!(is_power_of_two(1));
    assert!(is_power_of_two(2));
    assert!(!is_power_of_two(3));
    assert!(is_power_of_two(4));
    assert!(!is_power_of_two(6));
    assert!(is_power_of_two(256));
    assert!(!is_power_of_two(usize::MAX));
}

#[test]
fn new_rejects_bad_geometry() {
    assert!(Ring::new(0x1000, 0, true).is_none());
    assert!(Ring::new(0x1000, 1, true).is_none());
    assert!(Ring::new(0x1000, 3, true).is_none());
    assert!(Ring::new(0x1000, 12, false).is_none());
    assert!(Ring::new(usize::MAX - 31, 2, true).is_none());
    assert!(Ring::new(usize::MAX - 32, 2, true).is_some());
    assert!(Ring::new(0x1000, 2, true).is_some());
    assert!(Ring::new(0x1000, 16, false).is_some());
}

#[test]
fn new_ring_is_empty_and_blank() {
    let ring = Ring::new(0x1000, 4, true).expect("valid geometry");
    assert_eq!(ring.base(), 0x1000);
    assert_eq!(ring.capacity(), 4);
    assert_eq!(ring.usable(), 3);
    assert!(ring.has_link());
    assert_eq!(ring.len(), 0);
    assert!(ring.is_empty());
    assert!(!ring.is_full());
    assert_eq!(ring.enqueue_index(), 0);
    assert_eq!(ring.dequeue_index(), 0);
    assert!(ring.producer_cycle());
    assert!(ring.consumer_cycle());
    for i in 0..4 {
        assert_eq!(ring.slot(i), Some(Trb { data: 0, status: 0, control: 0 }));
    }
    assert_eq!(ring.slot(4), None);
}

#[test]
fn ring_without_link_uses_every_slot() {
    let mut ring = Ring::new(0, 2, false).expect("valid geometry");
    assert_eq!(ring.usable(), 2);
    assert!(ring.enqueue(command(1)).is_ok());
    assert!(ring.enqueue(command(2)).is_ok());
    assert_eq!(ring.enqueue(command(3)), Err(RingFull));
    assert_eq!(ring.dequeue().map(|t| t.data), Some(1));
    let handle = ring.enqueue(command(3)).expect("one slot is free");
    assert_eq!(handle, SlotHandle { index: 0, address: 0, cycle: false, wrapped: true });
    assert_eq!(ring.dequeue().map(|t| t.data), Some(2));
    let third = ring.dequeue().expect("third record");
    assert_eq!(third.data, 3);
    assert!(!third.cycle());
    assert!(!ring.consumer_cycle());
    assert_eq!(ring.dequeue(), None);
}

#[test]
fn enqueue_sets_the_producer_cycle_bit() {
    let mut ring = Ring::new(0x4000, 4, true).expect("valid geometry");
    let handle = ring.enqueue(command(9)).expect("empty ring");
    assert_eq!(handle, SlotHandle { index: 0, address: 0x4000, cycle: true, wrapped: false });
    let stored = ring.slot(0).expect("slot 0");
    assert_eq!(stored, Trb { data: 9, status: 0, control: (23 << 10) | 1 });
    assert_eq!(ring.len(), 1);
    let handle = ring.enqueue(command(10)).expect("second");
    assert_eq!(handle, SlotHandle { index: 1, address: 0x4010, cycle: true, wrapped: false });
}

#[test]
fn dequeue_on_empty_ring_changes_nothing() {
    let mut ring = Ring::new(0x4000, 4, true).expect("valid geometry");
    assert_eq!(ring.dequeue(), None);
    assert_eq!(ring.dequeue_index(), 0);
    assert!(ring.consumer_cycle());
    assert!(ring.is_empty());
}

#[test]
fn cycle_bit_round_trip() {
    let mut ring = Ring::new(0x8000, 8, true).expect("valid geometry");
    for n in 0..7u64 {
        assert!(ring.enqueue(command(n)).is_ok());
    }
    for n in 0..7u64 {
        let expected_cycle = ring.consumer_cycle();
        let record = ring.dequeue().expect("a record");
        assert_eq!(record.data, n);
        assert_eq!(record.trb_type(), TrbType::NoOpCmd.code());
        assert_eq!(record.cycle(), expected_cycle);
    }
    assert_eq!(ring.dequeue(), None);
    assert!(ring.is_empty());
}

#[test]
fn ring_full_then_drained() {
    let mut ring = Ring::new(0x1000, 4, true).expect("valid geometry");
    assert_eq!(ring.usable(), 3);
    assert!(ring.enqueue(command(1)).is_ok());
    assert!(ring.enqueue(command(2)).is_ok());
    assert!(ring.enqueue(command(3)).is_ok());
    assert!(ring.is_full());
    assert_eq!(ring.enqueue(command(4)), Err(RingFull));
    assert_eq!(ring.len(), 3);
    assert_eq!(ring.enqueue_index(), 3);
    assert!(ring.producer_cycle());
    let first = ring.dequeue().expect("oldest record");
    assert_eq!(first.data, 1);
    assert!(ring.enqueue(command(4)).is_ok());
    assert!(ring.is_full());
}

#[test]
fn wraparound_redirects_behind_the_link_record() {
    let capacity = 4usize;
    let mut ring = Ring::new(0x1000, capacity, true).expect("valid geometry");
    let mut slots = Vec::new();
    let mut cycles = Vec::new();
    let mut taken = Vec::new();
    for n in 0..(capacity as u64 + 1) {
        if ring.is_full() {
            taken.push(ring.dequeue().expect("a record").data);
            taken.push(ring.dequeue().expect("a record").data);
        }
        let handle = ring.enqueue(command(n)).expect("a free slot");
        slots.push(handle.index);
        cycles.push(handle.cycle);
        assert_eq!(handle.wrapped, n == 3);
        assert_eq!(handle.address, 0x1000 + 16 * handle.index);
    }
    assert_eq!(slots, vec![0, 1, 2, 0, 1]);
    assert_eq!(cycles, vec![true, true, true, false, false]);
    assert!(!ring.producer_cycle());
    assert_eq!(ring.enqueue_index(), 2);
    let link = ring.slot(3).expect("last slot");
    assert_eq!(link, Trb { data: 0x1000, status: 0, control: (6 << 10) | 2 | 1 });
    assert_eq!(ring.slot(0).map(|t| t.data), Some(3));
    assert_eq!(ring.slot(0).map(|t| t.cycle()), Some(false));
    while let Some(record) = ring.dequeue() {
        assert_eq!(record.cycle(), ring.consumer_cycle());
        taken.push(record.data);
    }
    assert_eq!(taken, vec![0, 1, 2, 3, 4]);
    assert!(!ring.consumer_cycle());
}

#[test]
fn many_laps_keep_fifo_order() {
    let mut ring = Ring::new(0, 4, true).expect("valid geometry");
    let mut next_in = 0u64;
    let mut next_out = 0u64;
    for round in 0..50u64 {
        let burst = 1 + (round % 3);
        for _ in 0..burst {
            match ring.enqueue(command(next_in)) {
                Ok(_) => next_in += 1,
                Err(RingFull) => assert_eq!(ring.len(), 3),
            }
        }
        let drain = 1 + ((round + 1) % 3);
        for _ in 0..drain {
            match ring.dequeue() {
                Some(record) => {
                    assert_eq!(record.data, next_out);
                    next_out += 1;
                }
                None => assert_eq!(next_in, next_out),
            }
        }
        assert_eq!(ring.len() as u64, next_in - next_out);
    }
    assert!(next_out > 40);
}

#[test]
fn smallest_link_ring_wraps_on_every_record() {
    let mut ring = Ring::new(0x100, 2, true).expect("valid geometry");
    let first = ring.enqueue(command(1)).expect("free");
    assert_eq!(first, SlotHandle { index: 0, address: 0x100, cycle: true, wrapped: false });
    assert_eq!(ring.enqueue(command(2)), Err(RingFull));
    assert_eq!(ring.dequeue().map(|t| t.data), Some(1));
    let second = ring.enqueue(command(2)).expect("free");
    assert_eq!(second, SlotHandle { index: 0, address: 0x100, cycle: false, wrapped: true });
    assert_eq!(ring.dequeue().map(|t| t.data), Some(2));
    let third = ring.enqueue(command(3)).expect("free");
    assert_eq!(third, SlotHandle { index: 0, address: 0x100, cycle: true, wrapped: true });
    assert_eq!(ring.dequeue().map(|t| t.data), Some(3));
    assert_eq!(ring.dequeue(), None);
}

#[test]
fn cursors_name_the_next_slots() {
    let mut ring = Ring::new(0, 4, true).expect("valid geometry");
    assert_eq!((ring.enqueue_slot(), ring.enqueue_cycle()), (0, true));
    assert_eq!((ring.dequeue_slot(), ring.dequeue_cycle()), (0, true));
    for n in 0..3 {
        assert!(ring.enqueue(command(n)).is_ok());
    }
    assert_eq!((ring.enqueue_slot(), ring.enqueue_cycle()), (0, false));
    for _ in 0..3 {
        assert!(ring.dequeue().is_some());
    }
    assert_eq!(ring.dequeue_index(), 3);
    assert_eq!((ring.dequeue_slot(), ring.dequeue_cycle()), (0, false));
    assert!(ring.enqueue(command(3)).is_ok());
    assert_eq!((ring.enqueue_slot(), ring.enqueue_cycle()), (1, false));
    assert_eq!(ring.dequeue().map(|t| t.data), Some(3));
    assert_eq!((ring.dequeue_slot(), ring.dequeue_cycle()), (1, false));
}

#[test]
fn observe_takes_only_records_of_the_current_lap() {
    let mut ring = Ring::new(0, 2, false).expect("valid geometry");
    let stale = Trb { data: 1, status: 0, control: 33 << 10 };
    let fresh = Trb { data: 2, status: 0, control: (33 << 10) | 1 };
    assert!(!ring.observe(stale));
    assert!(ring.is_empty());
    assert!(ring.observe(fresh));
    assert_eq!(ring.slot(0), Some(fresh));
    assert!(ring.observe(fresh));
    assert!(ring.is_full());
    assert!(!ring.observe(stale));
    assert!(!ring.observe(fresh));
    assert_eq!(ring.dequeue(), Some(fresh));
    assert!(!ring.observe(fresh));
    assert!(ring.observe(stale));
    assert_eq!(ring.slot(0), Some(stale));
    assert_eq!(ring.dequeue(), Some(fresh));
    assert_eq!(ring.dequeue(), Some(stale));
    assert_eq!(ring.dequeue(), None);
}
