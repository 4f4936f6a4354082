use vstd::prelude::*;
use crate::cartridge::{CartridgeHeader, Mbc};
use super::{banked_read, byte_or_ff, copied_prefix, copy_prefix, get_or_ff};

verus! {

/// MBC6: two independently switched 8 KiB ROM windows, two 4 KiB RAM windows and a flash
/// memory that can be programmed through a command sequence.
pub struct Mbc6 {
    pub rom_data: Vec<u8>,
    pub header: CartridgeHeader,
    pub ram: Vec<u8>,
    pub ram_enabled: bool,
    pub rom_bank_a: usize,
    pub rom_bank_b: usize,
    pub ram_bank_a: usize,
    pub ram_bank_b: usize,
    pub bank_a_mapping: usize,
    pub bank_b_mapping: usize,
    pub flash_mode: bool,
    pub flash_command: u8,
    pub dirty: bool,
}

/// `bank * size + offset` where it fits a `usize`.
fn banked_index(bank: usize, size: usize, offset: usize) -> (r: Option<usize>)
    ensures
        r matches Some(i) ==> i == bank * size + offset,
        r is None ==> bank * size + offset > usize::MAX,
{
    match bank.checked_mul(size) {
        Some(base) => base.checked_add(offset),
        None => {
            assert(bank * size + offset >= bank * size);
            None
        },
    }
}

impl Mbc6 {
    pub open spec fn rom_written(old: &Mbc6, new: &Mbc6, address: u16, value: u8) -> bool {
        &&& new.rom_data@ == old.rom_after_write(address, value)
        &&& *new == (Mbc6 { rom_data: new.rom_data, ..old.after_write_rom(address, value) })
    }

    pub open spec fn ram_written(old: &Mbc6, new: &Mbc6, address: u16, value: u8) -> bool {
        &&& new.ram@ == (if old.ram_enabled && 0xA000 <= address <= 0xBFFF && 0 <= old.ram_index(address) < old.ram@.len() { old.ram@.update(old.ram_index(address), value) } else { old.ram@ })
        &&& new.dirty == (old.dirty || (old.ram_enabled && 0xA000 <= address <= 0xBFFF && 0 <= old.ram_index(address) < old.ram@.len() && old.ram@[old.ram_index(address)] != value))
        &&& *new == (Mbc6 { ram: new.ram, dirty: new.dirty, ..*old })
    }

    pub open spec fn battery_written(old: &Mbc6, new: &Mbc6, data: Seq<u8>) -> bool {
        &&& new.ram@ == (if old.ram@.len() > 0 { copied_prefix(old.ram@, data) } else { old.ram@ })
        &&& *new == (Mbc6 { ram: new.ram, ..*old })
    }

    pub open spec fn rom_value(&self, address: u16) -> u8 {
        if address <= 0x3FFF {
            byte_or_ff(self.rom_data@, address as int)
        } else if address <= 0x5FFF {
            byte_or_ff(self.rom_data@, self.rom_bank_a * 0x2000 + (address - 0x4000))
        } else if address <= 0x7FFF {
            byte_or_ff(self.rom_data@, self.rom_bank_b * 0x2000 + (address - 0x6000))
        } else {
            0xFF
        }
    }

    /// Index into the RAM that an access to `address` reaches.
    pub open spec fn ram_index(&self, address: u16) -> int {
        if address <= 0xAFFF {
            self.ram_bank_a * 0x1000 + (address - 0xA000)
        } else {
            self.ram_bank_b * 0x1000 + (address - 0xB000)
        }
    }

    pub open spec fn ram_value(&self, address: u16) -> u8 {
        if !self.ram_enabled || !(0xA000 <= address <= 0xBFFF) {
            0xFF
        } else {
            byte_or_ff(self.ram@, self.ram_index(address))
        }
    }

    /// The command state after a write outside the register ranges: the unlock sequence
    /// 0xAA@0xAAA, 0x55@0x555, 0xA0@0xAAA enables one flash write; 0xF0@0 resets.
    pub open spec fn after_flash_command(&self, address: u16, value: u8) -> Self {
        if address == 0x0000 && value == 0xF0 {
            Mbc6 { flash_mode: false, flash_command: 0, ..*self }
        } else if address == 0xAAA && value == 0xAA && self.flash_command == 0 {
            Mbc6 { flash_command: 0xAA, ..*self }
        } else if address == 0x555 && value == 0x55 && self.flash_command == 0xAA {
            Mbc6 { flash_command: 0x55, ..*self }
        } else if address == 0xAAA && value == 0xA0 && self.flash_command == 0x55 {
            Mbc6 { flash_mode: true, flash_command: 0, ..*self }
        } else {
            Mbc6 { flash_command: 0, ..*self }
        }
    }

    /// Register state after a write to 0x0000..=0x7FFF (and above), ROM contents aside.
    pub open spec fn after_write_rom(&self, address: u16, value: u8) -> Self {
        if self.flash_mode {
            Mbc6 { flash_mode: false, ..*self }
        } else if address <= 0x1FFF {
            Mbc6 { ram_enabled: value & 0x0F == 0x0A, ..*self }
        } else if address <= 0x2FFF {
            Mbc6 { rom_bank_a: if value == 0 { 1 } else { value as usize }, ..*self }
        } else if address <= 0x3FFF {
            Mbc6 { rom_bank_b: if value == 0 { 1 } else { value as usize }, ..*self }
        } else if address <= 0x4FFF {
            Mbc6 { ram_bank_a: (value as usize) & 0x7, ..*self }
        } else if address <= 0x5FFF {
            Mbc6 { ram_bank_b: (value as usize) & 0x7, ..*self }
        } else {
            self.after_flash_command(address, value)
        }
    }

    /// Index of the flash byte a programming write at `address` reaches, if any.
    pub open spec fn flash_index(&self, address: u16) -> int {
        if 0x4000 <= address <= 0x5FFF {
            self.rom_bank_a * 0x2000 + (address - 0x4000)
        } else if 0x6000 <= address <= 0x7FFF {
            self.rom_bank_b * 0x2000 + (address - 0x6000)
        } else {
            -1
        }
    }

    /// ROM contents after a write: in flash mode a write to a ROM window can only clear bits.
    pub open spec fn rom_after_write(&self, address: u16, value: u8) -> Seq<u8> {
        let i = self.flash_index(address);
        if self.flash_mode && 0 <= i < self.rom_data@.len() {
            self.rom_data@.update(i, self.rom_data@[i] & value)
        } else {
            self.rom_data@
        }
    }

    /// The controller that `new` builds from these arguments.
    pub open spec fn started(&self, rom_data: Vec<u8>, header: CartridgeHeader, saved: Option<Vec<u8>>) -> bool {
        &&& (self.rom_data@ == rom_data@)
        &&& (self.header == header)
        &&& (self.ram@ == (if saved is Some && saved->0@.len() == 0x4000 {
                saved->0@
            } else {
                Seq::new(0x4000, |i: int| 0u8)
            }))
        &&& (!self.ram_enabled)
        &&& (self.rom_bank_a == 1)
        &&& (self.rom_bank_b == 2)
        &&& (self.ram_bank_a == 0)
        &&& (self.ram_bank_b == 0)
        &&& (self.bank_a_mapping == 0x4000)
        &&& (self.bank_b_mapping == 0x6000)
        &&& (!self.flash_mode)
        &&& (self.flash_command == 0)
        &&& (!self.dirty)
    }

    /// A fresh controller with 16 KiB of zeroed RAM, or the save where it has exactly that size.
    pub fn new(rom_data: Vec<u8>, header: CartridgeHeader, saved: Option<Vec<u8>>) -> (r: Self)
        ensures
            r.started(rom_data, header, saved),
    {
        let mut ram: Vec<u8> = vec![0; 0x4000];
        assert(ram@ =~= Seq::new(0x4000, |i: int| 0u8));
        if let Some(data) = saved {
            if data.len() == 0x4000 {
                ram = data;
            }
        }
        Self {
            rom_data,
            header,
            ram,
            ram_enabled: false,
            rom_bank_a: 1,
            rom_bank_b: 2,
            ram_bank_a: 0,
            ram_bank_b: 0,
            bank_a_mapping: 0x4000,
            bank_b_mapping: 0x6000,
            flash_mode: false,
            flash_command: 0,
            dirty: false,
        }
    }

    fn handle_flash_command(&mut self, address: u16, value: u8)
        ensures
            *final(self) == old(self).after_flash_command(address, value),
    {
        if address == 0x0000 && value == 0xF0 {
            self.flash_mode = false;
            self.flash_command = 0;
        } else if address == 0xAAA && value == 0xAA && self.flash_command == 0 {
            self.flash_command = 0xAA;
        } else if address == 0x555 && value == 0x55 && self.flash_command == 0xAA {
            self.flash_command = 0x55;
        } else if address == 0xAAA && value == 0xA0 && self.flash_command == 0x55 {
            self.flash_mode = true;
            self.flash_command = 0;
        } else {
            self.flash_command = 0;
        }
    }

    /// Whether the RAM must be written to the save file when the cartridge is dropped.
    pub fn needs_save(&self) -> (r: bool)
        ensures
            r == self.dirty,
    {
        self.dirty
    }
}

impl Mbc for Mbc6 {
    fn read_rom(&self, address: u16) -> (r: u8)
        ensures
            r == self.rom_value(address),
    {
        if address <= 0x3FFF {
            get_or_ff(&self.rom_data, address as usize)
        } else if address <= 0x5FFF {
            banked_read(&self.rom_data, self.rom_bank_a, 0x2000, address as usize - 0x4000)
        } else if address <= 0x7FFF {
            banked_read(&self.rom_data, self.rom_bank_b, 0x2000, address as usize - 0x6000)
        } else {
            0xFF
        }
    }

    fn write_rom(&mut self, address: u16, value: u8)
        ensures
            Mbc6::rom_written(old(self), final(self), address, value),
    {
        if self.flash_mode {
            let len = self.rom_data.len();
            if 0x4000 <= address && address <= 0x5FFF {
                if let Some(addr) = banked_index(self.rom_bank_a, 0x2000, address as usize - 0x4000) {
                    if addr < len {
                        let old_byte = self.rom_data[addr];
                        self.rom_data.set(addr, old_byte & value);
                    }
                }
            } else if 0x6000 <= address && address <= 0x7FFF {
                if let Some(addr) = banked_index(self.rom_bank_b, 0x2000, address as usize - 0x6000) {
                    if addr < len {
                        let old_byte = self.rom_data[addr];
                        self.rom_data.set(addr, old_byte & value);
                    }
                }
            }
            self.flash_mode = false;
            return;
        }
        if address <= 0x1FFF {
            self.ram_enabled = (value & 0x0F) == 0x0A;
        } else if address <= 0x2FFF {
            self.rom_bank_a = value as usize;
            if self.rom_bank_a == 0 {
                self.rom_bank_a = 1;
            }
        } else if address <= 0x3FFF {
            self.rom_bank_b = value as usize;
            if self.rom_bank_b == 0 {
                self.rom_bank_b = 1;
            }
        } else if address <= 0x4FFF {
            self.ram_bank_a = value as usize & 0x7;
        } else if address <= 0x5FFF {
            self.ram_bank_b = value as usize & 0x7;
        } else {
            self.handle_flash_command(address, value);
        }
    }

    fn read_ram(&self, address: u16) -> (r: u8)
        ensures
            r == self.ram_value(address),
    {
        if !self.ram_enabled {
            return 0xFF;
        }
        if 0xA000 <= address && address <= 0xAFFF {
            banked_read(&self.ram, self.ram_bank_a, 0x1000, address as usize - 0xA000)
        } else if 0xB000 <= address && address <= 0xBFFF {
            banked_read(&self.ram, self.ram_bank_b, 0x1000, address as usize - 0xB000)
        } else {
            0xFF
        }
    }

    fn write_ram(&mut self, address: u16, value: u8)
        ensures
            Mbc6::ram_written(old(self), final(self), address, value),
    {
        if !self.ram_enabled {
            return;
        }
        let len = self.ram.len();
        let index = if 0xA000 <= address && address <= 0xAFFF {
            banked_index(self.ram_bank_a, 0x1000, address as usize - 0xA000)
        } else if 0xB000 <= address && address <= 0xBFFF {
            banked_index(self.ram_bank_b, 0x1000, address as usize - 0xB000)
        } else {
            None
        };
        if let Some(addr) = index {
            if addr < len {
                if self.ram[addr] != value {
                    self.ram.set(addr, value);
                    self.dirty = true;
                } else {
                    assert(old(self).ram@.update(addr as int, value) =~= old(self).ram@);
                }
            }
        }
    }

    fn get_battery_ram(&self) -> (r: Option<&[u8]>)
        ensures
            r is Some <==> self.ram@.len() > 0,
            r matches Some(ram) ==> ram@ == self.ram@,
    {
        if self.ram.len() > 0 {
            Some(self.ram.as_slice())
        } else {
            None
        }
    }

    fn set_battery_ram(&mut self, data: &[u8])
        ensures
            Mbc6::battery_written(old(self), final(self), data@),
    {
        if self.ram.len() > 0 {
            copy_prefix(&mut self.ram, data);
        }
    }
}

} // verus!
