use vstd::prelude::*;
use crate::cartridge::{CartridgeHeader, Mbc};
use super::{byte_or_ff, get_or_ff};

verus! {

/// A cartridge without a controller: 32 KiB of ROM mapped directly, no RAM.
pub struct RomOnly {
    pub header: CartridgeHeader,
    pub rom_data: Vec<u8>,
}

impl RomOnly {
    pub open spec fn rom_written(old: &RomOnly, new: &RomOnly, address: u16, value: u8) -> bool {
        &&& *new == *old
    }

    pub open spec fn ram_written(old: &RomOnly, new: &RomOnly, address: u16, value: u8) -> bool {
        &&& *new == *old
    }

    pub open spec fn battery_written(old: &RomOnly, new: &RomOnly, data: Seq<u8>) -> bool {
        &&& *new == *old
    }

    /// The controller that `new` builds from these arguments.
    pub open spec fn started(&self, rom_data: Vec<u8>, header: CartridgeHeader) -> bool {
        &&& (self.rom_data@ == rom_data@)
        &&& (self.header == header)
    }

    pub fn new(rom_data: Vec<u8>, header: CartridgeHeader) -> (r: Self)
        ensures
            r.started(rom_data, header),
    {
        Self { header, rom_data }
    }
}

impl Mbc for RomOnly {
    /// Reads the ROM byte at the address; 0xFF past the end of a short image.
    fn read_rom(&self, address: u16) -> (r: u8)
        ensures
            r == byte_or_ff(self.rom_data@, address as int),
    {
        get_or_ff(&self.rom_data, address as usize)
    }

    fn read_ram(&self, address: u16) -> (r: u8)
        ensures
            r == 0xFF,
    {
        0xFF
    }

    fn write_rom(&mut self, address: u16, value: u8)
        ensures
            RomOnly::rom_written(old(self), final(self), address, value),
    {
    }

    fn write_ram(&mut self, address: u16, value: u8)
        ensures
            RomOnly::ram_written(old(self), final(self), address, value),
    {
    }

    fn get_battery_ram(&self) -> (r: Option<&[u8]>)
        ensures
            r is None,
    {
        None
    }

    fn set_battery_ram(&mut self, data: &[u8])
        ensures
            RomOnly::battery_written(old(self), final(self), data@),
    {
    }
}

} // verus!
