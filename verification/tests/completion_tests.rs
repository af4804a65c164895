use driver_core::completion::{
    classify, correlate, correlate_index, decode, drain, Completion, CompletionSource,
    CompletionStatus, Disposition, HardwareCompletionError, Outcome, PendingRequest, Target,
};
use driver_core::ring::Ring;
use driver_core::trb::Trb;

fn event(kind: u32, code: u32, slot: u32, endpoint: u32, residual: u32, data: u64) -> Trb {
    Trb {
        data,
        status: (code << 24) | residual,
        control: (slot << 24) | (endpoint << 16) | (kind << 10) | 1,
    }
}

fn waiting(token: u64, slot: u8, endpoint: u8, tag: Option<u64>) -> PendingRequest {
    PendingRequest {
        token,
        target: Target { slot, endpoint, tag },
        disposition: Disposition::WouldBlock,
    }
}

#[test]
fn decode_command_completion_success() {
    let record = Trb { data: 0, status: 1 << 24, control: (5 << 24) | (33 << 10) };
    match decode(&record) {
        Outcome::Completed(completion) => {
            assert_eq!(completion.status, CompletionStatus::Success);
            assert_eq!(completion.slot, 5);
            assert_eq!(completion.source, CompletionSource::Command);
            assert_eq!(completion.code, 1);
            assert_eq!(completion.residual, 0);
            assert_eq!(completion.endpoint, 0);
            assert_eq!(completion.event_data, None);
            assert_eq!(completion.result(), Ok(0));
        }
        other => panic!("not a completion: {:?}", other),
    }
}

#[test]
fn decode_transfer_event_with_event_data() {
    let mut record = event(32, 13, 2, 3, 0x40, 0xFEED);
    record.control |= 4;
    assert_eq!(
        decode(&record),
        Outcome::Completed(Completion {
            source: CompletionSource::Transfer,
            status: CompletionStatus::ShortPacket,
            code: 13,
            residual: 0x40,
            slot: 2,
            endpoint: 3,
            event_data: Some(0xFEED),
            pointer: 0xFEED,
        })
    );
}

#[test]
fn decode_other_kinds_reads_only_the_tag() {
    let record = event(34, 1, 9, 9, 9, 9);
    assert_eq!(decode(&record), Outcome::NotCompletion { trb_type: 34 });
    let link = Trb { data: 0x1000, status: 0, control: (6 << 10) | 3 };
    assert_eq!(decode(&link), Outcome::NotCompletion { trb_type: 6 });
}

#[test]
fn classify_each_class() {
    assert_eq!(classify(1), CompletionStatus::Success);
    assert_eq!(classify(13), CompletionStatus::ShortPacket);
    assert_eq!(classify(6), CompletionStatus::Stall);
    for code in [14u8, 15, 16, 21] {
        assert_eq!(classify(code), CompletionStatus::RingFull);
    }
    assert_eq!(classify(25), CompletionStatus::Aborted);
    for code in [24u8, 26, 27, 28] {
        assert_eq!(classify(code), CompletionStatus::Stopped);
    }
    for code in [11u8, 12] {
        assert_eq!(classify(code), CompletionStatus::DeviceRemoved);
    }
    for code in [0u8, 2, 3, 4, 5, 7, 8, 9, 10, 17, 18, 19, 20, 22, 23, 29, 30, 36] {
        assert_eq!(classify(code), CompletionStatus::Other);
    }
    for code in 37u8..=255 {
        assert_eq!(classify(code), CompletionStatus::Other);
    }
}

#[test]
fn failure_carries_the_code() {
    let stall = event(32, 6, 1, 1, 8, 0);
    match decode(&stall) {
        Outcome::Completed(completion) => {
            assert_eq!(completion.result(), Err(HardwareCompletionError { code: 6 }));
        }
        other => panic!("not a completion: {:?}", other),
    }
    let vendor = event(33, 200, 1, 0, 0, 0);
    match decode(&vendor) {
        Outcome::Completed(completion) => {
            assert_eq!(completion.status, CompletionStatus::Other);
            assert_eq!(completion.result(), Err(HardwareCompletionError { code: 200 }));
        }
        other => panic!("not a completion: {:?}", other),
    }
    let short = event(32, 13, 1, 1, 24, 0);
    match decode(&short) {
        Outcome::Completed(completion) => assert_eq!(completion.result(), Ok(24)),
        other => panic!("not a completion: {:?}", other),
    }
}

#[test]
fn correlate_finds_the_oldest_match() {
    let pending = vec![
        waiting(10, 1, 1, None),
        waiting(11, 2, 3, None),
        waiting(12, 2, 3, None),
        waiting(13, 2, 4, None),
    ];
    let outcome = decode(&event(32, 1, 2, 3, 0, 0));
    assert_eq!(correlate_index(&outcome, &pending), Some(1));
    assert_eq!(correlate(&outcome, &pending), Some(11));
}

#[test]
fn correlate_uses_the_event_data_when_present() {
    let pending = vec![
        waiting(20, 2, 3, None),
        waiting(21, 2, 3, Some(0xAAAA)),
        waiting(22, 2, 3, Some(0xBBBB)),
    ];
    let mut record = event(32, 1, 2, 3, 0, 0xBBBB);
    record.control |= 4;
    let outcome = decode(&record);
    assert_eq!(correlate(&outcome, &pending), Some(22));
    let plain = decode(&event(32, 1, 2, 3, 0, 0xBBBB));
    assert_eq!(correlate(&plain, &pending), Some(20));
}

#[test]
fn correlate_returns_nothing_without_a_match() {
    let pending = vec![waiting(30, 1, 1, None)];
    let other_slot = decode(&event(32, 1, 2, 1, 0, 0));
    assert_eq!(correlate(&other_slot, &pending), None);
    let not_completion = decode(&event(34, 1, 1, 1, 0, 0));
    assert_eq!(correlate(&not_completion, &pending), None);
    let empty: Vec<PendingRequest> = Vec::new();
    let outcome = decode(&event(33, 1, 1, 1, 0, 0));
    assert_eq!(correlate(&outcome, &empty), None);
    assert_eq!(correlate_index(&outcome, &empty), None);
}

#[test]
fn target_match_rule() {
    let target = Target { slot: 4, endpoint: 2, tag: Some(7) };
    let base = Completion {
        source: CompletionSource::Transfer,
        status: CompletionStatus::Success,
        code: 1,
        residual: 0,
        slot: 4,
        endpoint: 2,
        event_data: None,
        pointer: 0,
    };
    assert!(target.answered_by(&base));
    assert!(target.answered_by(&Completion { event_data: Some(7), ..base }));
    assert!(!target.answered_by(&Completion { event_data: Some(8), ..base }));
    assert!(!target.answered_by(&Completion { slot: 5, ..base }));
    assert!(!target.answered_by(&Completion { endpoint: 3, ..base }));
    let untagged = Target { slot: 4, endpoint: 2, tag: None };
    assert!(!untagged.answered_by(&Completion { event_data: Some(7), ..base }));
}

#[test]
fn drain_decodes_in_ring_order() {
    let mut ring = Ring::new(0x2000, 4, false).expect("valid geometry");
    assert!(ring.enqueue(event(33, 1, 5, 0, 0, 0x10)).is_ok());
    assert!(ring.enqueue(event(34, 1, 0, 0, 0, 0)).is_ok());
    assert!(ring.enqueue(event(32, 6, 2, 3, 9, 0x20)).is_ok());
    let outcomes = drain(&mut ring);
    assert_eq!(outcomes.len(), 3);
    assert_eq!(outcomes[0], decode(&event(33, 1, 5, 0, 0, 0x10)));
    assert_eq!(outcomes[1], Outcome::NotCompletion { trb_type: 34 });
    assert_eq!(outcomes[2], decode(&event(32, 6, 2, 3, 9, 0x20)));
    assert!(ring.is_empty());
    assert!(drain(&mut ring).is_empty());
}
