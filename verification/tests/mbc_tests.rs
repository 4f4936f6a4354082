use sturdygb::cartridge::{CartridgeHeader, MBCTypes, Mbc};
use sturdygb::mbcs::mbc1::Mbc1;
use sturdygb::mbcs::romonly::RomOnly;

fn header(rom_size: usize, ram_size: u32, mbc_type: MBCTypes) -> CartridgeHeader {
    CartridgeHeader {
        entry: [0; 4],
        title: String::new(),
        logo: [0; 0x30],
        cgb_flag: 0,
        sgb_flag: false,
        mbc_type,
        rom_size: rom_size as u32,
        ram_size,
        company: String::new(),
    }
}

#[test]
fn short_rom_reads_return_ff_instead_of_panicking() {
    let rom = RomOnly::new(vec![0x12; 0x100], header(0x100, 0, MBCTypes::RomOnly));
    assert_eq!(rom.read_rom(0x3FFF), 0xFF);
}

#[test]
fn masks_mbc1_lower_rom_bank_bits() {
    let mut rom_data = vec![0; 0x80000];
    for (bank, chunk) in rom_data.chunks_exact_mut(0x4000).enumerate() {
        chunk[0] = bank as u8;
    }
    let mut mbc = Mbc1::new(
        rom_data,
        header(0x80000, 0, MBCTypes::Mbc1 { ram: false, battery: false }),
        false,
        false,
        None,
    );
    mbc.write_rom(0x2000, 0x42);
    assert_eq!(mbc.read_rom(0x4000), 0x02);
}

#[test]
fn out_of_range_ram_bank_selection_wraps_safely() {
    let mut mbc = Mbc1::new(
        vec![0; 0x8000],
        header(0x8000, 0x2000, MBCTypes::Mbc1 { ram: true, battery: false }),
        true,
        true,
        None,
    );
    mbc.write_rom(0x0000, 0x0A);
    mbc.write_rom(0x6000, 0x01);
    mbc.write_rom(0x4000, 0x03);
    mbc.write_ram(0xA123, 0x5A);
    mbc.write_rom(0x4000, 0x00);
    assert_eq!(mbc.read_ram(0xA123), 0x5A);
}
