use vstd::prelude::*;
use crate::cartridge::{CartridgeHeader, GbMode, MBCTypes, Mbc};
use romonly::RomOnly;
use mbc1::Mbc1;
use mbc2::Mbc2;
use mbc3::Mbc3;
use mbc5::Mbc5;
use mbc6::Mbc6;
use mbc7::Mbc7;

pub mod romonly;
pub mod mbc1;
pub mod mbc2;
pub mod mbc3;
pub mod mbc5;
pub mod mbc6;
pub mod mbc7;

verus! {

/// The byte at `index` of `data`, or 0xFF where `index` lies outside it (an open bus read).
pub open spec fn byte_or_ff(data: Seq<u8>, index: int) -> u8 {
    if 0 <= index < data.len() {
        data[index]
    } else {
        0xFF
    }
}

/// Reads `data[index]`, or 0xFF where the index is out of range.
pub fn get_or_ff(data: &Vec<u8>, index: usize) -> (r: u8)
    ensures
        r == byte_or_ff(data@, index as int),
{
    if index < data.len() {
        data[index]
    } else {
        0xFF
    }
}

/// Reads `data[bank * bank_size + offset]`, or 0xFF where that index lies outside `data`
/// (also where it does not fit a `usize`).
pub fn banked_read(data: &Vec<u8>, bank: usize, bank_size: usize, offset: usize) -> (r: u8)
    ensures
        r == byte_or_ff(data@, bank * bank_size + offset),
{
    let len = data.len();
    match bank.checked_mul(bank_size) {
        Some(base) => match base.checked_add(offset) {
            Some(index) => get_or_ff(data, index),
            None => 0xFF,
        },
        None => {
            assert(bank * bank_size + offset >= bank * bank_size);
            assert(bank * bank_size + offset > len);
            0xFF
        },
    }
}

/// Copies the first `min(dst.len(), src.len())` bytes of `src` over `dst`.
pub fn copy_prefix(dst: &mut Vec<u8>, src: &[u8])
    ensures
        final(dst)@ == copied_prefix(old(dst)@, src@),
{
    let len = if dst.len() < src.len() { dst.len() } else { src.len() };
    let mut i: usize = 0;
    while i < len
        invariant
            0 <= i <= len,
            len <= old(dst)@.len(),
            len <= src@.len(),
            len == if old(dst)@.len() < src@.len() { old(dst)@.len() } else { src@.len() },
            dst@.len() == old(dst)@.len(),
            forall|k: int| 0 <= k < i ==> dst@[k] == src@[k],
            forall|k: int| i <= k < dst@.len() ==> dst@[k] == old(dst)@[k],
        decreases len - i,
    {
        dst.set(i, src[i]);
        i = i + 1;
    }
    assert(dst@ =~= copied_prefix(old(dst)@, src@));
}

/// `dst` with its first `min(dst.len(), src.len())` bytes replaced by those of `src`.
pub open spec fn copied_prefix(dst: Seq<u8>, src: Seq<u8>) -> Seq<u8> {
    Seq::new(dst.len(), |k: int| if k < src.len() { src[k] } else { dst[k] })
}


/// The controller of a loaded cartridge.
pub enum CartridgeMbc {
    RomOnly(RomOnly),
    Mbc1(Mbc1),
    Mbc2(Mbc2),
    Mbc3(Mbc3),
    Mbc5(Mbc5),
    Mbc6(Mbc6),
    Mbc7(Mbc7),
}

impl CartridgeMbc {
    /// The controller `get_mbc` builds for this header: the one the header names, in the state
    /// its `new` gives from these arguments.
    pub open spec fn built(&self, rom_data: Vec<u8>, header: CartridgeHeader, saved: Option<Vec<u8>>) -> bool {
        match (header.mbc_type, *self) {
            (MBCTypes::RomOnly, CartridgeMbc::RomOnly(m)) => m.started(rom_data, header),
            (MBCTypes::Mbc1 { ram, battery }, CartridgeMbc::Mbc1(m)) => m.started(rom_data, header, ram, battery, saved),
            (MBCTypes::Mbc2 { ram, battery }, CartridgeMbc::Mbc2(m)) => m.started(rom_data, header, battery, ram, saved),
            (MBCTypes::Mbc3 { ram, timer, battery }, CartridgeMbc::Mbc3(m)) => m.started(rom_data, header, ram, timer, battery),
            (MBCTypes::Mbc5 { ram, battery, rumble }, CartridgeMbc::Mbc5(m)) => m.started(
                rom_data,
                header,
                ram,
                battery,
                rumble,
                saved,
            ),
            (MBCTypes::Mbc6, CartridgeMbc::Mbc6(m)) => m.started(rom_data, header, saved),
            (MBCTypes::Mbc7, CartridgeMbc::Mbc7(m)) => m.started(rom_data, header, saved),
            _ => false,
        }
    }

    /// Whether the cartridge's RAM is to be written to its save file when the game ends:
    /// MBC1 with a battery once its non-empty RAM has changed, MBC2 with a battery once its RAM
    /// has changed, MBC5 with a battery and RAM, MBC6 once its RAM has changed, MBC7 always.
    pub open spec fn needs_save_spec(&self) -> bool {
        match self {
            CartridgeMbc::RomOnly(m) => false,
            CartridgeMbc::Mbc1(m) => m.has_battery && m.dirty && m.external_ram@.len() > 0,
            CartridgeMbc::Mbc2(m) => m.has_battery && m.dirty,
            CartridgeMbc::Mbc3(m) => false,
            CartridgeMbc::Mbc5(m) => m.has_battery && m.ram@.len() > 0,
            CartridgeMbc::Mbc6(m) => m.dirty,
            CartridgeMbc::Mbc7(m) => true,
        }
    }

    pub fn needs_save(&self) -> (r: bool)
        ensures
            r == self.needs_save_spec(),
    {
        match self {
            CartridgeMbc::RomOnly(_) => false,
            CartridgeMbc::Mbc1(m) => m.has_battery && m.dirty && m.external_ram.len() > 0,
            CartridgeMbc::Mbc2(m) => m.has_battery && m.dirty,
            CartridgeMbc::Mbc3(_) => false,
            CartridgeMbc::Mbc5(m) => m.has_battery && m.ram.len() > 0,
            CartridgeMbc::Mbc6(m) => m.dirty,
            CartridgeMbc::Mbc7(_) => true,
        }
    }

    pub open spec fn rom_value(&self, address: u16) -> u8 {
        match self {
            CartridgeMbc::RomOnly(m) => byte_or_ff(m.rom_data@, address as int),
            CartridgeMbc::Mbc1(m) => m.rom_value(address),
            CartridgeMbc::Mbc2(m) => m.rom_value(address),
            CartridgeMbc::Mbc3(m) => m.rom_value(address),
            CartridgeMbc::Mbc5(m) => m.rom_value(address),
            CartridgeMbc::Mbc6(m) => m.rom_value(address),
            CartridgeMbc::Mbc7(m) => m.rom_value(address),
        }
    }

    pub open spec fn ram_value(&self, address: u16) -> u8 {
        match self {
            CartridgeMbc::RomOnly(m) => 0xFF,
            CartridgeMbc::Mbc1(m) => m.ram_value(address),
            CartridgeMbc::Mbc2(m) => m.ram_value(address),
            CartridgeMbc::Mbc3(m) => m.ram_value(address),
            CartridgeMbc::Mbc5(m) => m.ram_value(address),
            CartridgeMbc::Mbc6(m) => m.ram_value(address),
            CartridgeMbc::Mbc7(m) => m.ram_value(address),
        }
    }

    /// The ROM image the controller was built from.
    pub open spec fn rom_data_view(&self) -> Seq<u8> {
        match self {
            CartridgeMbc::RomOnly(m) => m.rom_data@,
            CartridgeMbc::Mbc1(m) => m.rom_data@,
            CartridgeMbc::Mbc2(m) => m.rom_data@,
            CartridgeMbc::Mbc3(m) => m.rom_data@,
            CartridgeMbc::Mbc5(m) => m.rom_data@,
            CartridgeMbc::Mbc6(m) => m.rom_data@,
            CartridgeMbc::Mbc7(m) => m.rom_data@,
        }
    }

    /// The battery-backed RAM the controller exposes, if any.
    pub open spec fn battery_ram_view(&self) -> Option<Seq<u8>> {
        match self {
            CartridgeMbc::Mbc1(m) => if m.has_battery && m.external_ram@.len() > 0 {
                Some(m.external_ram@)
            } else {
                None
            },
            CartridgeMbc::Mbc2(m) => if m.has_battery && m.has_ram { Some(m.ram@) } else { None },
            CartridgeMbc::Mbc6(m) => if m.ram@.len() > 0 { Some(m.ram@) } else { None },
            _ => None,
        }
    }

    pub open spec fn rom_written(old: &CartridgeMbc, new: &CartridgeMbc, address: u16, value: u8) -> bool {
        match (old, new) {
            (CartridgeMbc::RomOnly(o), CartridgeMbc::RomOnly(n)) => RomOnly::rom_written(o, n, address, value),
            (CartridgeMbc::Mbc1(o), CartridgeMbc::Mbc1(n)) => Mbc1::rom_written(o, n, address, value),
            (CartridgeMbc::Mbc2(o), CartridgeMbc::Mbc2(n)) => Mbc2::rom_written(o, n, address, value),
            (CartridgeMbc::Mbc3(o), CartridgeMbc::Mbc3(n)) => Mbc3::rom_written(o, n, address, value),
            (CartridgeMbc::Mbc5(o), CartridgeMbc::Mbc5(n)) => Mbc5::rom_written(o, n, address, value),
            (CartridgeMbc::Mbc6(o), CartridgeMbc::Mbc6(n)) => Mbc6::rom_written(o, n, address, value),
            (CartridgeMbc::Mbc7(o), CartridgeMbc::Mbc7(n)) => Mbc7::rom_written(o, n, address, value),
            _ => false,
        }
    }

    pub open spec fn ram_written(old: &CartridgeMbc, new: &CartridgeMbc, address: u16, value: u8) -> bool {
        match (old, new) {
            (CartridgeMbc::RomOnly(o), CartridgeMbc::RomOnly(n)) => RomOnly::ram_written(o, n, address, value),
            (CartridgeMbc::Mbc1(o), CartridgeMbc::Mbc1(n)) => Mbc1::ram_written(o, n, address, value),
            (CartridgeMbc::Mbc2(o), CartridgeMbc::Mbc2(n)) => Mbc2::ram_written(o, n, address, value),
            (CartridgeMbc::Mbc3(o), CartridgeMbc::Mbc3(n)) => Mbc3::ram_written(o, n, address, value),
            (CartridgeMbc::Mbc5(o), CartridgeMbc::Mbc5(n)) => Mbc5::ram_written(o, n, address, value),
            (CartridgeMbc::Mbc6(o), CartridgeMbc::Mbc6(n)) => Mbc6::ram_written(o, n, address, value),
            (CartridgeMbc::Mbc7(o), CartridgeMbc::Mbc7(n)) => Mbc7::ram_written(o, n, address, value),
            _ => false,
        }
    }

    pub open spec fn battery_written(old: &CartridgeMbc, new: &CartridgeMbc, data: Seq<u8>) -> bool {
        match (old, new) {
            (CartridgeMbc::RomOnly(o), CartridgeMbc::RomOnly(n)) => RomOnly::battery_written(o, n, data),
            (CartridgeMbc::Mbc1(o), CartridgeMbc::Mbc1(n)) => Mbc1::battery_written(o, n, data),
            (CartridgeMbc::Mbc2(o), CartridgeMbc::Mbc2(n)) => Mbc2::battery_written(o, n, data),
            (CartridgeMbc::Mbc3(o), CartridgeMbc::Mbc3(n)) => Mbc3::battery_written(o, n, data),
            (CartridgeMbc::Mbc5(o), CartridgeMbc::Mbc5(n)) => Mbc5::battery_written(o, n, data),
            (CartridgeMbc::Mbc6(o), CartridgeMbc::Mbc6(n)) => Mbc6::battery_written(o, n, data),
            (CartridgeMbc::Mbc7(o), CartridgeMbc::Mbc7(n)) => Mbc7::battery_written(o, n, data),
            _ => false,
        }
    }
}

impl Mbc for CartridgeMbc {
    fn read_rom(&self, address: u16) -> (r: u8)
        ensures
            r == self.rom_value(address),
    {
        match self {
            CartridgeMbc::RomOnly(m) => m.read_rom(address),
            CartridgeMbc::Mbc1(m) => m.read_rom(address),
            CartridgeMbc::Mbc2(m) => m.read_rom(address),
            CartridgeMbc::Mbc3(m) => m.read_rom(address),
            CartridgeMbc::Mbc5(m) => m.read_rom(address),
            CartridgeMbc::Mbc6(m) => m.read_rom(address),
            CartridgeMbc::Mbc7(m) => m.read_rom(address),
        }
    }

    fn read_ram(&self, address: u16) -> (r: u8)
        ensures
            r == self.ram_value(address),
    {
        match self {
            CartridgeMbc::RomOnly(m) => m.read_ram(address),
            CartridgeMbc::Mbc1(m) => m.read_ram(address),
            CartridgeMbc::Mbc2(m) => m.read_ram(address),
            CartridgeMbc::Mbc3(m) => m.read_ram(address),
            CartridgeMbc::Mbc5(m) => m.read_ram(address),
            CartridgeMbc::Mbc6(m) => m.read_ram(address),
            CartridgeMbc::Mbc7(m) => m.read_ram(address),
        }
    }

    fn write_rom(&mut self, address: u16, value: u8)
        ensures
            CartridgeMbc::rom_written(old(self), final(self), address, value),
    {
        match self {
            CartridgeMbc::RomOnly(m) => m.write_rom(address, value),
            CartridgeMbc::Mbc1(m) => m.write_rom(address, value),
            CartridgeMbc::Mbc2(m) => m.write_rom(address, value),
            CartridgeMbc::Mbc3(m) => m.write_rom(address, value),
            CartridgeMbc::Mbc5(m) => m.write_rom(address, value),
            CartridgeMbc::Mbc6(m) => m.write_rom(address, value),
            CartridgeMbc::Mbc7(m) => m.write_rom(address, value),
        }
    }

    fn write_ram(&mut self, address: u16, value: u8)
        ensures
            CartridgeMbc::ram_written(old(self), final(self), address, value),
    {
        match self {
            CartridgeMbc::RomOnly(m) => m.write_ram(address, value),
            CartridgeMbc::Mbc1(m) => m.write_ram(address, value),
            CartridgeMbc::Mbc2(m) => m.write_ram(address, value),
            CartridgeMbc::Mbc3(m) => m.write_ram(address, value),
            CartridgeMbc::Mbc5(m) => m.write_ram(address, value),
            CartridgeMbc::Mbc6(m) => m.write_ram(address, value),
            CartridgeMbc::Mbc7(m) => m.write_ram(address, value),
        }
    }

    fn get_battery_ram(&self) -> (r: Option<&[u8]>)
        ensures
            r is Some <==> self.battery_ram_view() is Some,
            r matches Some(ram) ==> ram@ == self.battery_ram_view()->0,
    {
        match self {
            CartridgeMbc::RomOnly(m) => m.get_battery_ram(),
            CartridgeMbc::Mbc1(m) => m.get_battery_ram(),
            CartridgeMbc::Mbc2(m) => m.get_battery_ram(),
            CartridgeMbc::Mbc3(m) => m.get_battery_ram(),
            CartridgeMbc::Mbc5(m) => m.get_battery_ram(),
            CartridgeMbc::Mbc6(m) => m.get_battery_ram(),
            CartridgeMbc::Mbc7(m) => m.get_battery_ram(),
        }
    }

    fn set_battery_ram(&mut self, data: &[u8])
        ensures
            CartridgeMbc::battery_written(old(self), final(self), data@),
    {
        match self {
            CartridgeMbc::RomOnly(m) => m.set_battery_ram(data),
            CartridgeMbc::Mbc1(m) => m.set_battery_ram(data),
            CartridgeMbc::Mbc2(m) => m.set_battery_ram(data),
            CartridgeMbc::Mbc3(m) => m.set_battery_ram(data),
            CartridgeMbc::Mbc5(m) => m.set_battery_ram(data),
            CartridgeMbc::Mbc6(m) => m.set_battery_ram(data),
            CartridgeMbc::Mbc7(m) => m.set_battery_ram(data),
        }
    }
}

/// The hardware mode the CGB flag at 0x143 asks for.
pub open spec fn gb_mode_spec(cgb_flag: u8) -> GbMode {
    if cgb_flag == 0x80 {
        GbMode::NonCgbMode
    } else if cgb_flag == 0xC0 {
        GbMode::CgbMode
    } else {
        GbMode::DmgMode
    }
}

/// Whether a controller of this type can be built.
pub open spec fn supported_mbc(t: MBCTypes) -> bool {
    !(t is Mmm01) && !(t is Unknown)
}

/// Builds the controller the header names and the mode its CGB flag asks for. `saved` holds
/// the contents of the save file, where there is one.
pub fn get_mbc(rom_data: Vec<u8>, header: CartridgeHeader, saved: Option<Vec<u8>>) -> (r: (CartridgeMbc, GbMode))
    requires
        supported_mbc(header.mbc_type),
    ensures
        r.1 == gb_mode_spec(header.cgb_flag),
        r.0.rom_data_view() == rom_data@,
        r.0.built(rom_data, header, saved),
{
    let gb_mode = if header.cgb_flag == 0x80 {
        GbMode::NonCgbMode
    } else if header.cgb_flag == 0xC0 {
        GbMode::CgbMode
    } else {
        GbMode::DmgMode
    };
    let mbc_type = header.mbc_type;
    match mbc_type {
        MBCTypes::RomOnly => (CartridgeMbc::RomOnly(RomOnly::new(rom_data, header)), gb_mode),
        MBCTypes::Mbc1 { ram, battery } => (CartridgeMbc::Mbc1(Mbc1::new(rom_data, header, ram, battery, saved)), gb_mode),
        MBCTypes::Mbc2 { battery, ram } => (CartridgeMbc::Mbc2(Mbc2::new(rom_data, header, battery, ram, saved)), gb_mode),
        MBCTypes::Mbc3 { ram, timer, battery } => (
            CartridgeMbc::Mbc3(Mbc3::new(rom_data, header, ram, timer, battery)),
            gb_mode,
        ),
        MBCTypes::Mbc5 { ram, battery, rumble } => (
            CartridgeMbc::Mbc5(Mbc5::new(rom_data, header, ram, battery, rumble, saved)),
            gb_mode,
        ),
        MBCTypes::Mbc6 => (CartridgeMbc::Mbc6(Mbc6::new(rom_data, header, saved)), gb_mode),
        MBCTypes::Mbc7 => (CartridgeMbc::Mbc7(Mbc7::new(rom_data, header, saved)), gb_mode),
        MBCTypes::Mmm01 { .. } | MBCTypes::Unknown => vstd::pervasive::unreached(),
    }
}

} // verus!
