use sturdygb::debugger::{is_step_over_opcode, MemoryRegion};
use sturdygb::persistence::{decode_hex, encode_hex, save_file_name, storage_key};

#[test]
fn memory_region_classifies_boundaries() {
    assert!(matches!(MemoryRegion::for_address(0x0000), MemoryRegion::Rom0));
    assert!(matches!(MemoryRegion::for_address(0x8000), MemoryRegion::Vram));
    assert!(matches!(MemoryRegion::for_address(0xC000), MemoryRegion::Wram0));
    assert!(matches!(MemoryRegion::for_address(0xFEA0), MemoryRegion::Unusable));
    assert!(matches!(MemoryRegion::for_address(0xFFFF), MemoryRegion::InterruptEnable));
}

#[test]
fn step_over_matches_call_like_opcodes() {
    for opcode in [0xC4, 0xCC, 0xCD, 0xD4, 0xDC, 0xC7, 0xCF, 0xD7, 0xDF, 0xE7, 0xEF, 0xF7, 0xFF] {
        assert!(is_step_over_opcode(opcode), "expected {opcode:02X} to step over");
    }
    for opcode in [0x00, 0x18, 0x20, 0xC9] {
        assert!(!is_step_over_opcode(opcode), "expected {opcode:02X} to step into");
    }
}

#[test]
fn hex_round_trips_bytes() {
    let bytes = [0x00, 0x7f, 0x80, 0xfe, 0xff];
    assert_eq!(decode_hex(&encode_hex(&bytes)), Some(bytes.to_vec()));
}

#[test]
fn storage_key_changes_with_rom_bytes() {
    let left = storage_key(&[0x01, 0x02, 0x03]);
    let right = storage_key(&[0x01, 0x02, 0x04]);
    assert_ne!(left, right);
}

#[test]
fn save_file_name_sanitizes_title() {
    assert_eq!(save_file_name("Pokemon Crystal"), "Pokemon_Crystal.sav");
    assert_eq!(save_file_name("PM_CRYSTALBYTEA"), "PM_CRYSTALBYTEA.sav");
}
