use driver_core::context::StreamContextType;
use driver_core::trb::{TransferKind, Trb, TrbCompletionCode, TrbType};
use driver_core::usb::Setup;

fn blank() -> Trb {
    Trb { data: 0xDEAD_BEEF, status: 0x1234, control: 0xFFFF_FFFF }
}

#[test]
fn set_stores_the_three_words() {
    let mut trb = blank();
    trb.set(0x1122_3344_5566_7788, 0x99AA_BBCC, 0xDDEE_FF00);
    assert_eq!(trb.data, 0x1122_3344_5566_7788);
    assert_eq!(trb.status, 0x99AA_BBCC);
    assert_eq!(trb.control, 0xDDEE_FF00);
}

#[test]
fn clone_copies_the_three_words() {
    let trb = Trb { data: 7, status: 8, control: 9 };
    let copy = trb.clone();
    assert_eq!(copy, trb);
}

#[test]
fn trb_type_codes_follow_declaration_order() {
    assert_eq!(TrbType::Reserved.code(), 0);
    assert_eq!(TrbType::Normal.code(), 1);
    assert_eq!(TrbType::Link.code(), 6);
    assert_eq!(TrbType::NoOp.code(), 8);
    assert_eq!(TrbType::EnableSlot.code(), 9);
    assert_eq!(TrbType::NoOpCmd.code(), 23);
    assert_eq!(TrbType::Rsv31.code(), 31);
    assert_eq!(TrbType::Transfer.code(), 32);
    assert_eq!(TrbType::CommandCompletion.code(), 33);
    assert_eq!(TrbType::MfindexWrap.code(), 39);
}

#[test]
fn trb_type_from_code_round_trips() {
    for code in 0u8..40 {
        let kind = TrbType::from_code(code).expect("defined tag");
        assert_eq!(kind.code(), code);
    }
    for code in 40u8..=255 {
        assert_eq!(TrbType::from_code(code), None);
    }
}

#[test]
fn completion_codes_follow_declaration_order() {
    assert_eq!(TrbCompletionCode::Invalid.code(), 0);
    assert_eq!(TrbCompletionCode::Success.code(), 1);
    assert_eq!(TrbCompletionCode::Stall.code(), 6);
    assert_eq!(TrbCompletionCode::ShortPacket.code(), 13);
    assert_eq!(TrbCompletionCode::EventRingFull.code(), 21);
    assert_eq!(TrbCompletionCode::CommandAborted.code(), 25);
    assert_eq!(TrbCompletionCode::SplitTransaction.code(), 36);
}

#[test]
fn completion_code_from_code_round_trips() {
    for code in 0u8..37 {
        let kind = TrbCompletionCode::from_code(code).expect("defined code");
        assert_eq!(kind.code(), code);
    }
    for code in 37u8..=255 {
        assert_eq!(TrbCompletionCode::from_code(code), None);
    }
}

#[test]
fn transfer_kind_codes() {
    assert_eq!(TransferKind::NoData.code(), 0);
    assert_eq!(TransferKind::Reserved.code(), 1);
    assert_eq!(TransferKind::Out.code(), 2);
    assert_eq!(TransferKind::In.code(), 3);
}

#[test]
fn stream_context_type_codes() {
    assert_eq!(StreamContextType::SecondaryRing.code(), 0);
    assert_eq!(StreamContextType::PrimaryRing.code(), 1);
    assert_eq!(StreamContextType::PrimarySsa256.code(), 7);
}

#[test]
fn getters_read_their_fields() {
    let trb = Trb { data: 0xABCD, status: 0x0D12_3456, control: 0x0513_8405 };
    assert_eq!(trb.completion_code(), 0x0D);
    assert_eq!(trb.completion_param(), 0x12_3456);
    assert_eq!(trb.transfer_length(), 0x12_3456);
    assert_eq!(trb.event_slot(), 5);
    assert_eq!(trb.endpoint_id(), 0x13);
    assert_eq!(trb.trb_type(), 33);
    assert!(trb.event_data_bit());
    assert_eq!(trb.event_data(), Some(0xABCD));
    assert!(trb.cycle());
}

#[test]
fn event_data_is_absent_without_its_flag() {
    let trb = Trb { data: 0xABCD, status: 0, control: 0x0000_8001 };
    assert!(!trb.event_data_bit());
    assert_eq!(trb.event_data(), None);
}

#[test]
fn endpoint_id_is_masked_to_five_bits() {
    let trb = Trb { data: 0, status: 0, control: 0x00FF_0000 };
    assert_eq!(trb.endpoint_id(), 0x1F);
}

#[test]
fn with_cycle_replaces_bit_zero_only() {
    let trb = Trb { data: 1, status: 2, control: 0x0000_8400 };
    let set = trb.with_cycle(true);
    assert_eq!(set, Trb { data: 1, status: 2, control: 0x0000_8401 });
    let cleared = set.with_cycle(false);
    assert_eq!(cleared, trb);
    assert!(set.cycle());
    assert!(!cleared.cycle());
}

#[test]
fn reserved_record() {
    let mut trb = blank();
    trb.reserved(true);
    assert_eq!(trb, Trb { data: 0, status: 0, control: 1 });
    trb.reserved(false);
    assert_eq!(trb, Trb { data: 0, status: 0, control: 0 });
}

#[test]
fn link_record() {
    let mut trb = blank();
    trb.link(0x1000, true, false);
    assert_eq!(trb, Trb { data: 0x1000, status: 0, control: (6 << 10) | 2 });
    trb.link(0x2000, false, true);
    assert_eq!(trb, Trb { data: 0x2000, status: 0, control: (6 << 10) | 1 });
    assert_eq!(trb.trb_type(), TrbType::Link.code());
}

#[test]
fn no_op_cmd_record() {
    let mut trb = blank();
    trb.no_op_cmd(true);
    assert_eq!(trb, Trb { data: 0, status: 0, control: (23 << 10) | 1 });
}

#[test]
fn enable_slot_record_masks_the_slot_type() {
    let mut trb = blank();
    trb.enable_slot(0x03, true);
    assert_eq!(trb, Trb { data: 0, status: 0, control: (3 << 16) | (9 << 10) | 1 });
    trb.enable_slot(0xE3, false);
    assert_eq!(trb, Trb { data: 0, status: 0, control: (3 << 16) | (9 << 10) });
}

#[test]
fn address_device_record() {
    let mut trb = blank();
    trb.address_device(7, 0x4_0000, true, true);
    assert_eq!(
        trb,
        Trb { data: 0x4_0000, status: 0, control: (7 << 24) | (11 << 10) | (1 << 9) | 1 }
    );
    assert_eq!(trb.event_slot(), 7);
}

#[test]
fn configure_endpoint_record() {
    let mut trb = blank();
    trb.configure_endpoint(9, 0x8_0010, false);
    assert_eq!(trb, Trb { data: 0x8_0010, status: 0, control: (9 << 24) | (12 << 10) });
}

#[test]
fn evaluate_context_record() {
    let mut trb = blank();
    trb.evaluate_context(2, 0x20, false, true);
    assert_eq!(trb, Trb { data: 0x20, status: 0, control: (2 << 24) | (13 << 10) | 1 });
}

#[test]
fn reset_endpoint_record() {
    let mut trb = blank();
    trb.reset_endpoint(3, 5, true, true);
    assert_eq!(
        trb,
        Trb { data: 0, status: 0, control: (3 << 24) | (5 << 16) | (14 << 10) | (1 << 9) | 1 }
    );
    assert_eq!(trb.endpoint_id(), 5);
    assert_eq!(trb.event_slot(), 3);
}

#[test]
fn set_tr_deque_ptr_record() {
    let mut trb = blank();
    trb.set_tr_deque_ptr(0x1000_0001, true, StreamContextType::PrimaryRing, 0x0102, 4, 6);
    assert_eq!(
        trb,
        Trb {
            data: 0x1000_0003,
            status: 0x0102_0000,
            control: (6 << 24) | (4 << 16) | (16 << 10) | 1,
        }
    );
}

#[test]
fn stop_endpoint_record() {
    let mut trb = blank();
    trb.stop_endpoint(1, 2, true, false);
    assert_eq!(
        trb,
        Trb { data: 0, status: 0, control: (1 << 24) | (1 << 23) | (2 << 16) | (15 << 10) }
    );
}

#[test]
fn reset_device_record() {
    let mut trb = blank();
    trb.reset_device(0xFF, true);
    assert_eq!(trb, Trb { data: 0, status: 0, control: (0xFF << 24) | (17 << 10) | 1 });
}

#[test]
fn transfer_no_op_record() {
    let mut trb = blank();
    trb.transfer_no_op(3, true, false, true, true);
    assert_eq!(
        trb,
        Trb { data: 0, status: 3 << 22, control: (8 << 10) | (1 << 5) | (1 << 1) | 1 }
    );
    trb.transfer_no_op(0, false, true, false, false);
    assert_eq!(trb, Trb { data: 0, status: 0, control: (8 << 10) | (1 << 4) });
}

#[test]
fn setup_word_is_little_endian() {
    let setup = Setup { kind: 0x80, request: 0x06, value: 0x0100, index: 0x0000, length: 0x0012 };
    assert_eq!(setup.as_word(), 0x0012_0000_0100_0680);
    let bytes = setup.as_word().to_le_bytes();
    assert_eq!(bytes, [0x80, 0x06, 0x00, 0x01, 0x00, 0x00, 0x12, 0x00]);
}

#[test]
fn setup_stage_record() {
    let setup = Setup { kind: 0x80, request: 0x06, value: 0x0100, index: 0x0000, length: 0x0012 };
    let mut trb = blank();
    trb.setup(setup, TransferKind::In, true);
    assert_eq!(
        trb,
        Trb {
            data: 0x0012_0000_0100_0680,
            status: 8,
            control: (3 << 16) | (2 << 10) | (1 << 6) | 1,
        }
    );
}

#[test]
fn data_stage_record() {
    let mut trb = blank();
    trb.data(0x9000, 18, true, false);
    assert_eq!(trb, Trb { data: 0x9000, status: 18, control: (1 << 16) | (3 << 10) });
}

#[test]
fn status_stage_record() {
    let mut trb = blank();
    trb.status(false, true);
    assert_eq!(trb, Trb { data: 0, status: 0, control: (4 << 10) | (1 << 5) | 1 });
    trb.status(true, false);
    assert_eq!(trb, Trb { data: 0, status: 0, control: (1 << 16) | (4 << 10) | (1 << 5) });
}

#[test]
fn normal_record() {
    let mut trb = blank();
    trb.normal(0xCAFE_0000, 512, true, 3, 1, false, true, false, true, false, true);
    assert_eq!(
        trb,
        Trb {
            data: 0xCAFE_0000,
            status: 512 | (3 << 17) | (1 << 22),
            control: 1 | (1 << 2) | (1 << 5) | (1 << 9) | (1 << 10),
        }
    );
    trb.normal(1, 0xFFFF, false, 0x1F, 0xFF, true, false, true, false, true, false);
    assert_eq!(
        trb,
        Trb {
            data: 1,
            status: 0xFFFF | (0x1F << 17) | (0xFF << 22),
            control: (1 << 1) | (1 << 4) | (1 << 6) | (1 << 10),
        }
    );
}

#[test]
fn display_string_pads_each_word() {
    let trb = Trb { data: 0x1234, status: 1, control: 0x8401 };
    assert_eq!(trb.display_string(), "(0000000000001234, 00000001, 00008401)");
    let full = Trb { data: u64::MAX, status: u32::MAX, control: 0xABCD_EF01 };
    assert_eq!(full.display_string(), "(FFFFFFFFFFFFFFFF, FFFFFFFF, ABCDEF01)");
}

#[test]
fn debug_string_names_each_word() {
    let trb = Trb { data: 0xAB, status: 0xC, control: 0xD };
    assert_eq!(
        trb.debug_string(),
        "Trb { data: 00000000000000AB, status: 0000000C, control: 0000000D }"
    );
}
