use rboy::model::{compute_header_checksum, CHECKSUM_ADDR, ROM_HEADER_LEN};
use rboy::{construct_cpu, SerialMode};

/// A minimal ROM image: header-sized, zero-filled, with a correct header
/// checksum written into place.
fn valid_rom() -> Vec<u8> {
    let mut rom = vec![0u8; ROM_HEADER_LEN];
    let sum = compute_header_checksum(&rom);
    rom[CHECKSUM_ADDR] = sum;
    rom
}

#[test]
fn valid_rom_yields_an_engine() {
    let engine = construct_cpu(valid_rom(), None, true, false, false, false);
    let engine = engine.expect("a valid ROM constructs an engine");
    assert!(!engine.is_cgb());
    assert_eq!(engine.serial_output(), SerialMode::Silent);
    assert!(engine.history_log().is_empty());
}

#[test]
fn later_generation_and_serial_flags_are_wired_through() {
    let engine = construct_cpu(valid_rom(), None, false, true, false, false)
        .expect("a valid ROM constructs an engine");
    assert!(engine.is_cgb());
    assert_eq!(engine.serial_output(), SerialMode::Stdout);
}

#[test]
fn printer_flag_wins_over_serial_output() {
    let engine = construct_cpu(valid_rom(), None, false, true, true, false)
        .expect("a valid ROM constructs an engine");
    assert_eq!(engine.serial_output(), SerialMode::Printer);
}

#[test]
fn short_rom_is_rejected() {
    let rom = vec![0u8; ROM_HEADER_LEN - 1];
    assert!(construct_cpu(rom, None, true, false, false, false).is_none());
    assert!(construct_cpu(Vec::new(), None, true, false, false, true).is_none());
}

#[test]
fn checksum_mismatch_is_rejected_unless_skipped() {
    let mut rom = valid_rom();
    rom[CHECKSUM_ADDR] = rom[CHECKSUM_ADDR].wrapping_add(1);
    assert!(construct_cpu(rom.clone(), None, true, false, false, false).is_none());
    assert!(construct_cpu(rom, None, true, false, false, true).is_some());
}

#[test]
fn blank_header_has_a_known_checksum() {
    // 25 summed bytes, each zero, each lowering the sum by one: -25 mod 256.
    let rom = vec![0u8; ROM_HEADER_LEN];
    assert_eq!(compute_header_checksum(&rom), 231);
}

#[test]
fn header_bytes_change_the_checksum() {
    let mut rom = valid_rom();
    let before = compute_header_checksum(&rom);
    rom[CHECKSUM_ADDR - 2] = 7;
    let after = compute_header_checksum(&rom);
    assert_ne!(before, after);
    // The header rule: each byte lowers the sum by byte + 1, modulo 256.
    assert_eq!(after, before.wrapping_sub(7));
}
