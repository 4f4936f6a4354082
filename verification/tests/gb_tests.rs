use sturdygb::cartridge::GbMode;
use sturdygb::gb::{Gb, GbTypes, ModelSelection};
use sturdygb::interrupts::Interrupt;
use sturdygb::prelude::GbInstance;

fn make_test_rom(cgb_flag: u8) -> Vec<u8> {
    let mut rom = vec![0u8; 0x8000];
    rom[0x0143] = cgb_flag;
    rom[0x0147] = 0x00;
    rom[0x0148] = 0x00;
    rom[0x0149] = 0x00;

    let mut checksum = 0u8;
    for byte in &rom[0x0134..=0x014C] {
        checksum = checksum.wrapping_sub(*byte).wrapping_sub(1);
    }
    rom[0x014D] = checksum;
    rom
}

fn make_cgb() -> Gb {
    GbInstance::build_from_bytes_with_model(make_test_rom(0xC0), None, ModelSelection::Auto)
        .expect("CGB instance should build")
}

#[test]
fn general_hdma_copies_full_block_into_current_vram_bank() {
    let mut gb = make_cgb();
    gb.write_byte(0xFF4F, 0x01);
    for offset in 0..0x10u16 {
        gb.write_byte(0xC000 + offset, offset as u8);
    }

    gb.write_byte(0xFF51, 0xC0);
    gb.write_byte(0xFF52, 0x00);
    gb.write_byte(0xFF53, 0x00);
    gb.write_byte(0xFF54, 0x00);
    gb.write_byte(0xFF55, 0x00);

    assert_eq!(&gb.ppu.vram[0x2000..0x2010], (0u8..=0x0F).collect::<Vec<_>>().as_slice());
    assert_eq!(gb.read_byte(0xFF55), 0xFF);
}

#[test]
fn hblank_hdma_copies_one_block_per_step() {
    let mut gb = make_cgb();
    for offset in 0..0x20u16 {
        gb.write_byte(0xC000 + offset, (0x80 + offset) as u8);
    }

    gb.write_byte(0xFF51, 0xC0);
    gb.write_byte(0xFF52, 0x00);
    gb.write_byte(0xFF53, 0x00);
    gb.write_byte(0xFF54, 0x00);
    gb.write_byte(0xFF55, 0x81);

    gb.hdma_hblank_step();
    assert_eq!(&gb.ppu.vram[0x0000..0x0010], (0x80u8..=0x8F).collect::<Vec<_>>().as_slice());
    assert_eq!(gb.read_byte(0xFF55), 0x00);

    gb.hdma_hblank_step();
    assert_eq!(&gb.ppu.vram[0x0010..0x0020], (0x90u8..=0x9F).collect::<Vec<_>>().as_slice());
    assert_eq!(gb.read_byte(0xFF55), 0xFF);
}

/// The machine is built from a blank cartridge image; what the test looks at does not
/// depend on the cartridge's contents.
#[test]
fn handle_interrupt_uses_latched_source_when_stack_write_touches_ie() {
    let mut gb =
        GbInstance::build_from_bytes_with_model(make_test_rom(0x00), None, ModelSelection::Auto)
            .expect("DMG ROM should build");
    gb.cpu.interrupt_master = true;
    gb.cpu.pc = 0x0034;
    gb.cpu.sp = 0x0000;
    gb.ie_flag = Interrupt::Joypad.bit();
    gb.if_flag = Interrupt::Joypad.bit();

    gb.handle_interrupt();

    assert_eq!(gb.cpu.pc, 0x60);
    assert_eq!(gb.cpu.sp, 0xFFFE);
    assert_eq!(gb.ie_flag, 0x00);
    assert_eq!(gb.if_flag, 0x00);
}

#[test]
fn auto_selection_preserves_default_dmg_behavior() {
    let gb = GbInstance::build_from_bytes_with_model(make_test_rom(0x00), None, ModelSelection::Auto)
        .expect("DMG ROM should build");

    assert_eq!(gb.gb_type, GbTypes::Dmg);
    assert_eq!(gb.gb_mode, GbMode::DmgMode);
}

#[test]
fn auto_selection_preserves_default_cgb_behavior() {
    let gb = GbInstance::build_from_bytes_with_model(make_test_rom(0xC0), None, ModelSelection::Auto)
        .expect("CGB ROM should build");

    assert_eq!(gb.gb_type, GbTypes::Cgb);
    assert_eq!(gb.gb_mode, GbMode::CgbMode);
}

#[test]
fn forced_cgb_runs_dmg_rom_in_compatibility_mode() {
    let gb = GbInstance::build_from_bytes_with_model(make_test_rom(0x00), None, ModelSelection::Cgb)
        .expect("DMG ROM should run on CGB hardware");

    assert_eq!(gb.gb_type, GbTypes::Cgb);
    assert_eq!(gb.gb_mode, GbMode::NonCgbMode);
    assert_eq!(gb.wram.len(), 0x8000);
    assert_eq!(gb.vram_bank_count(), 2);
}

#[test]
fn forced_cgb_enables_cgb_features_for_enhanced_roms() {
    let gb = GbInstance::build_from_bytes_with_model(make_test_rom(0x80), None, ModelSelection::Cgb)
        .expect("Enhanced ROM should run in CGB mode when requested");

    assert_eq!(gb.gb_type, GbTypes::Cgb);
    assert_eq!(gb.gb_mode, GbMode::CgbMode);
}

#[test]
fn forced_dmg_rejects_cgb_only_roms() {
    let err = match GbInstance::build_from_bytes_with_model(make_test_rom(0xC0), None, ModelSelection::Dmg) {
        Ok(_) => panic!("CGB-only ROM should not run on DMG hardware"),
        Err(err) => err,
    };

    assert!(err.contains("Game Boy Color"));
}

#[test]
fn cgb_hardware_exposes_palette_and_wram_banking_registers() {
    let mut gb =
        GbInstance::build_from_bytes_with_model(make_test_rom(0x00), None, ModelSelection::Cgb)
            .expect("DMG ROM should run on CGB hardware");

    gb.write_byte(0xFF68, 0x80 | 0x02);
    gb.write_byte(0xFF69, 0xAB);
    gb.write_byte(0xFF68, 0x02);
    assert_eq!(gb.read_byte(0xFF69), 0xAB);

    gb.write_byte(0xFF70, 0x01);
    gb.write_byte(0xD000, 0x11);
    gb.write_byte(0xFF70, 0x02);
    gb.write_byte(0xD000, 0x22);
    assert_eq!(gb.read_byte(0xD000), 0x22);
    gb.write_byte(0xFF70, 0x01);
    assert_eq!(gb.read_byte(0xD000), 0x11);
}

#[test]
fn dmg_hardware_blocks_cgb_only_registers() {
    let mut gb =
        GbInstance::build_from_bytes_with_model(make_test_rom(0x00), None, ModelSelection::Dmg)
            .expect("DMG ROM should build");

    gb.write_byte(0xFF68, 0x80 | 0x02);
    gb.write_byte(0xFF69, 0xAB);
    gb.write_byte(0xFF4F, 0x01);
    gb.write_byte(0xFF70, 0x02);

    assert_eq!(gb.read_byte(0xFF68), 0xFF);
    assert_eq!(gb.read_byte(0xFF69), 0xFF);
    assert_eq!(gb.read_byte(0xFF4F), 0xFF);
    assert_eq!(gb.read_byte(0xFF70), 0xFF);
}

#[test]
fn rejected_rom_reports_parse_error() {
    let mut rom = make_test_rom(0x00);
    rom[0x014D] = rom[0x014D].wrapping_add(1);
    let err = match GbInstance::build_from_bytes(rom, None) {
        Ok(_) => panic!("a bad header checksum is not a cartridge"),
        Err(err) => err,
    };
    assert_eq!(err, "Error parsing ROM bytes: Cartridge is not a valid GB ROM");
}

#[test]
fn wram_echo_mirrors_work_ram() {
    let mut gb = GbInstance::build_from_bytes(make_test_rom(0x00), None).expect("DMG ROM should build");
    gb.write_byte(0xC123, 0x5A);
    assert_eq!(gb.read_byte(0xE123), 0x5A);
    gb.write_byte(0xFF80, 0x77);
    assert_eq!(gb.read_byte(0xFF80), 0x77);
}

#[test]
fn requested_interrupt_sets_its_flag_bit() {
    let mut gb = GbInstance::build_from_bytes(make_test_rom(0x00), None).expect("DMG ROM should build");
    gb.if_flag = 0;
    gb.request_interrupt(Interrupt::Timer);
    assert_eq!(gb.if_flag & 0x1F, 0x04);
}
