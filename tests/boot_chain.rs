use scratch_os::console::btl_print;
use scratch_os::firmware::{
    CallRegisters, FirmwareCall, FirmwareReply, DISK_SERVICES, EXTENDED_READ, EXTENSION_CHECK,
    EXTENSION_CHECK_MAGIC, TELETYPE_OUTPUT, VIDEO_SERVICES,
};
use scratch_os::layout::{stage_2_packet, STACK_TOP, STAGE_2_END, STAGE_2_FIRST_SECTOR, STAGE_2_START};
use scratch_os::machine::{Action, Message, RealModeState};
use scratch_os::packet::{DiskAddressPacket, DAP_SIZE, SECTOR_LENGTH};
use scratch_os::stage_1::{entry, stage_1_main, Phase, Stage1};
use scratch_os::stage_2::stage_2_main;

fn firmware_regs() -> RealModeState {
    RealModeState { sp: 0x1234, ds: 0x07c0, es: 0xffff, fs: 3, gs: 4, ss: 0x9000 }
}

fn established() -> RealModeState {
    RealModeState { sp: 0x7c00, ds: 0, es: 0, fs: 0, gs: 0, ss: 0 }
}

fn printed(calls: &[FirmwareCall]) -> Vec<u8> {
    calls
        .iter()
        .filter_map(|c| match c {
            FirmwareCall::TeletypeOutput(b) => Some(*b),
            _ => None,
        })
        .collect()
}

fn console_of(action: Action) -> Vec<u8> {
    match action {
        Action::Halt(m) => printed(&btl_print(m.text())),
        _ => Vec::new(),
    }
}

#[test]
fn packet_bytes_match_hand_built_reference() {
    let p = DiskAddressPacket::new(9, 0x7e00, 1);
    let reference: [u8; 16] = [16, 0, 9, 0, 0x00, 0x7e, 0, 0, 1, 0, 0, 0, 0, 0, 0, 0];
    assert_eq!(p.to_bytes(), reference.to_vec());
}

#[test]
fn packet_fields_in_order_little_endian() {
    let p = DiskAddressPacket::new(0x0102, 0x0304_0506, 0x0708_090a_0b0c_0d0e);
    let reference: [u8; 16] = [
        16, 0, 0x02, 0x01, 0x06, 0x05, 0x04, 0x03, 0x0e, 0x0d, 0x0c, 0x0b, 0x0a, 0x09, 0x08, 0x07,
    ];
    assert_eq!(p.to_bytes(), reference.to_vec());
    assert_eq!(p.to_bytes().len(), DAP_SIZE as usize);
}

#[test]
fn packet_largest_fields() {
    let p = DiskAddressPacket::new(u16::MAX, u32::MAX, u64::MAX);
    let mut reference = vec![16u8, 0];
    reference.extend(std::iter::repeat(0xffu8).take(14));
    assert_eq!(p.to_bytes(), reference);
}

#[test]
fn packet_new_sets_size_and_zero_byte() {
    let p = DiskAddressPacket::new(4, 0x8000, 2);
    assert_eq!(p.dap_size, 16);
    assert_eq!(p.always_zero, 0);
    assert_eq!(p.sectors_to_transfer, 4);
    assert_eq!(p.ram_start, 0x8000);
    assert_eq!(p.sector_start, 2);
}

#[test]
fn print_one_call_per_byte_in_order() {
    let calls = btl_print(b"Hi\n");
    assert_eq!(
        calls,
        vec![
            FirmwareCall::TeletypeOutput(b'H'),
            FirmwareCall::TeletypeOutput(b'i'),
            FirmwareCall::TeletypeOutput(b'\n'),
        ]
    );
}

#[test]
fn print_nothing() {
    assert!(btl_print(b"").is_empty());
}

#[test]
fn call_registers() {
    assert_eq!(
        FirmwareCall::TeletypeOutput(b'A').registers(),
        CallRegisters { vector: VIDEO_SERVICES, ah: TELETYPE_OUTPUT, al: b'A', bx: 0, dl: 0 }
    );
    assert_eq!(
        FirmwareCall::ExtensionCheck { drive: 0x80 }.registers(),
        CallRegisters { vector: 0x13, ah: 0x41, al: 0, bx: 0xaa55, dl: 0x80 }
    );
    let packet = DiskAddressPacket::new(1, 0x7e00, 1);
    assert_eq!(
        FirmwareCall::ExtendedRead { drive: 0x81, packet }.registers(),
        CallRegisters { vector: DISK_SERVICES, ah: EXTENDED_READ, al: 0, bx: 0, dl: 0x81 }
    );
    assert_eq!(EXTENSION_CHECK, 65);
    assert_eq!(EXTENSION_CHECK_MAGIC, 0xaa55);
}

#[test]
fn message_texts() {
    assert_eq!(Message::ExtensionUnsupported.text(), b"BIOS Ext Not Supported");
    assert_eq!(Message::LoadFailed.text(), b"Rest of Btl Load Failed");
    assert_eq!(Message::Greeting.text(), b"Hello from stage 2!");
}

#[test]
fn entry_runs_prologue_and_checks_extensions() {
    let (state, action) = entry(firmware_regs(), 0x80);
    assert_eq!(state.phase, Phase::AwaitingExtensionCheck);
    assert_eq!(state.drive, 0x80);
    assert_eq!(state.regs, established());
    assert_eq!(state.regs.sp, STACK_TOP);
    assert_eq!(action, Action::Invoke(FirmwareCall::ExtensionCheck { drive: 0x80 }));
}

#[test]
fn extensions_unsupported_prints_and_halts() {
    let (state, _) = entry(firmware_regs(), 0x80);
    let (state, action) = stage_1_main(state, FirmwareReply::ExtensionCheck { carry: true });
    assert_eq!(state.phase, Phase::Halted);
    assert_eq!(action, Action::Halt(Message::ExtensionUnsupported));
    assert_eq!(console_of(action), b"BIOS Ext Not Supported".to_vec());
    let (after, next) = stage_1_main(state, FirmwareReply::ExtendedRead { status: 0 });
    assert_eq!(after, state);
    assert_eq!(next, Action::Idle);
}

#[test]
fn load_failure_prints_and_halts() {
    for status in [1u8, 0x0c, 0x80, 0xff] {
        let (state, _) = entry(firmware_regs(), 0x80);
        let (state, _) = stage_1_main(state, FirmwareReply::ExtensionCheck { carry: false });
        let (state, action) = stage_1_main(state, FirmwareReply::ExtendedRead { status });
        assert_eq!(state.phase, Phase::Halted);
        assert_eq!(action, Action::Halt(Message::LoadFailed));
        assert_eq!(console_of(action), b"Rest of Btl Load Failed".to_vec());
        let (_, next) = stage_1_main(state, FirmwareReply::ExtensionCheck { carry: false });
        assert_eq!(next, Action::Idle);
    }
}

#[test]
fn successful_load_enters_stage_2_once() {
    let (state, _) = entry(firmware_regs(), 0x80);
    let (state, read) = stage_1_main(state, FirmwareReply::ExtensionCheck { carry: false });
    assert_eq!(
        read,
        Action::Invoke(FirmwareCall::ExtendedRead { drive: 0x80, packet: stage_2_packet() })
    );
    let (state, action) = stage_1_main(state, FirmwareReply::ExtendedRead { status: 0 });
    assert_eq!(state.phase, Phase::InStage2);
    assert_eq!(action, Action::EnterStage2(established()));
    assert!(console_of(read).is_empty());
    assert!(console_of(action).is_empty());
    for reply in [
        FirmwareReply::ExtendedRead { status: 0 },
        FirmwareReply::ExtensionCheck { carry: false },
    ] {
        assert_eq!(stage_1_main(state, reply), (state, Action::Idle));
    }
}

#[test]
fn every_drive_reaches_stage_2_with_established_registers() {
    for drive in 0..=255u8 {
        let (s1, a1) = entry(firmware_regs(), drive);
        assert_eq!(a1, Action::Invoke(FirmwareCall::ExtensionCheck { drive }));
        let (s2, a2) = stage_1_main(s1, FirmwareReply::ExtensionCheck { carry: false });
        match a2 {
            Action::Invoke(FirmwareCall::ExtendedRead { drive: d, packet }) => {
                assert_eq!(d, drive);
                assert_eq!(packet, stage_2_packet());
            }
            other => panic!("unexpected action {:?}", other),
        }
        let (_, a3) = stage_1_main(s2, FirmwareReply::ExtendedRead { status: 0 });
        assert_eq!(a3, Action::EnterStage2(established()));
    }
}

#[test]
fn reply_to_no_pending_call_changes_nothing() {
    let (state, _) = entry(firmware_regs(), 0x80);
    assert_eq!(
        stage_1_main(state, FirmwareReply::ExtendedRead { status: 0 }),
        (state, Action::Idle)
    );
    let waiting = Stage1 { phase: Phase::AwaitingStage2Load, ..state };
    assert_eq!(
        stage_1_main(waiting, FirmwareReply::ExtensionCheck { carry: true }),
        (waiting, Action::Idle)
    );
}

#[test]
fn stage_2_prints_greeting_and_halts() {
    let (state, _) = entry(firmware_regs(), 0x80);
    let (state, a2) = stage_1_main(state, FirmwareReply::ExtensionCheck { carry: false });
    let (_, a3) = stage_1_main(state, FirmwareReply::ExtendedRead { status: 0 });
    let stage_2 = stage_2_main();
    assert_eq!(stage_2, Action::Halt(Message::Greeting));
    let mut console = console_of(a2);
    console.extend(console_of(a3));
    console.extend(console_of(stage_2));
    assert_eq!(console, b"Hello from stage 2!".to_vec());
}

#[test]
fn stage_2_packet_covers_reserved_memory() {
    let p = stage_2_packet();
    assert_eq!(p.sectors_to_transfer, 9);
    assert_eq!(p.ram_start, STAGE_2_START as u32);
    assert_eq!(p.sector_start, STAGE_2_FIRST_SECTOR);
    assert_eq!(
        p.ram_start + p.sectors_to_transfer as u32 * SECTOR_LENGTH as u32,
        STAGE_2_END as u32
    );
}

// Sizing the request is fixed at build time and never checked at run time:
// the exact sector count covers the whole image, one fewer is still a valid
// request that simply stops short of the image's end.
#[test]
fn sector_count_boundary() {
    let image_len: u32 = (STAGE_2_END - STAGE_2_START) as u32;
    let occupied = (image_len + SECTOR_LENGTH as u32 - 1) / SECTOR_LENGTH as u32;
    assert_eq!(occupied, 9);
    let exact = DiskAddressPacket::new(occupied as u16, STAGE_2_START as u32, 1);
    assert!(exact.sectors_to_transfer as u32 * SECTOR_LENGTH as u32 >= image_len);
    let short = DiskAddressPacket::new(occupied as u16 - 1, STAGE_2_START as u32, 1);
    let short_bytes = short.to_bytes();
    assert_eq!(short_bytes[0], DAP_SIZE);
    assert_eq!(short_bytes[1], 0);
    assert_eq!(short_bytes[2], 8);
    assert!((short.sectors_to_transfer as u32) * (SECTOR_LENGTH as u32) < image_len);
}

#[test]
fn partial_last_sector_needs_its_own_sector() {
    let image_len: u32 = 1000;
    let occupied = (image_len + SECTOR_LENGTH as u32 - 1) / SECTOR_LENGTH as u32;
    assert_eq!(occupied, 2);
    assert!(occupied * SECTOR_LENGTH as u32 >= image_len);
    assert!((occupied - 1) * (SECTOR_LENGTH as u32) < image_len);
}
