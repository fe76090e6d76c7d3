use sign_firmware::eeprom::{frame_bytes, plan_page_writes, write_ops, Command};

#[test]
fn first_write_fills_the_starting_page() {
    // 0x1F0 leaves 16 bytes in its page; 32 bytes split 16 + 16.
    let plan = plan_page_writes(0x1F0, 32);
    assert_eq!(plan, vec![(0x1F0u32, 16usize), (0x200u32, 16usize)]);
}

#[test]
fn short_write_stays_in_one_page() {
    let plan = plan_page_writes(0x10, 2);
    assert_eq!(plan, vec![(0x10u32, 2usize)]);
}

#[test]
fn empty_write_still_issues_one_command() {
    let plan = plan_page_writes(0, 0);
    assert_eq!(plan, vec![(0u32, 0usize)]);
}

#[test]
fn aligned_full_page_is_one_write() {
    let plan = plan_page_writes(0x100, 256);
    assert_eq!(plan, vec![(0x100u32, 256usize)]);
}

#[test]
fn long_unaligned_write_splits_at_every_page_boundary() {
    let plan = plan_page_writes(0xF0, 600);
    assert_eq!(
        plan,
        vec![(0xF0u32, 16usize), (0x100u32, 256usize), (0x200u32, 256usize), (0x300u32, 72usize)]
    );
    let total: usize = plan.iter().map(|c| c.1).sum();
    assert_eq!(total, 600);
    for (addr, len) in plan {
        assert!(len <= 256 - (addr as usize % 256));
    }
}

#[test]
fn read_frame_is_instruction_plus_low_three_address_bytes() {
    let bytes = frame_bytes(&Command::Read { address: 0x123456, len: 4 });
    assert_eq!(bytes, vec![0x03, 0x12, 0x34, 0x56]);
}

#[test]
fn page_write_frame_carries_the_payload() {
    let bytes = frame_bytes(&Command::PageWrite { address: 0x10, data: vec![1, 2] });
    assert_eq!(bytes, vec![0x02, 0x00, 0x00, 0x10, 1, 2]);
}

#[test]
fn control_frames_are_single_instruction_bytes() {
    assert_eq!(frame_bytes(&Command::Erase), vec![0xC7]);
    assert_eq!(frame_bytes(&Command::WriteEnable), vec![0x06]);
    assert_eq!(frame_bytes(&Command::ReadStatus), vec![0x05]);
    assert_eq!(frame_bytes(&Command::WriteStatus(7)), vec![0x01, 7]);
}

#[test]
fn write_ops_latch_before_every_page_write() {
    let data = [0xAAu8; 32];
    let ops = write_ops(0x1F0, &data);
    assert_eq!(ops.len(), 4);
    assert_eq!(ops[0], Command::WriteEnable);
    assert_eq!(
        ops[1],
        Command::PageWrite { address: 0x1F0, data: vec![0xAA; 16] }
    );
    assert_eq!(ops[2], Command::WriteEnable);
    assert_eq!(
        ops[3],
        Command::PageWrite { address: 0x200, data: vec![0xAA; 16] }
    );
}
