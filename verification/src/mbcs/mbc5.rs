use vstd::prelude::*;
use crate::cartridge::{CartridgeHeader, Mbc};
use super::{banked_read, byte_or_ff, get_or_ff};
use crate::bits::{lemma_bank_register_bits, lemma_byte_digits};

verus! {

/// MBC5: up to 8 MiB of ROM in 512 banks, up to 128 KiB of RAM, optional rumble motor.
pub struct Mbc5 {
    pub rom_data: Vec<u8>,
    pub header: CartridgeHeader,
    pub ram_enabled: bool,
    pub rom_bank: usize,
    pub ram_bank: usize,
    pub ram: Vec<u8>,
    pub has_ram: bool,
    pub has_battery: bool,
    pub has_rumble: bool,
    pub rumble_active: bool,
    /// Set when disabling the RAM asks for the save file to be written; the caller that owns
    /// the file performs the write and clears it.
    pub flush_requested: bool,
}

impl Mbc5 {
    pub open spec fn rom_written(old: &Mbc5, new: &Mbc5, address: u16, value: u8) -> bool {
        &&& *new == old.after_write_rom(address, value)
    }

    pub open spec fn ram_written(old: &Mbc5, new: &Mbc5, address: u16, value: u8) -> bool {
        &&& new.ram@ == (if old.ram_enabled && old.has_ram && 0xA000 <= address <= 0xBFFF && old.ram_index(address) < old.ram@.len() { old.ram@.update(old.ram_index(address), value) } else { old.ram@ })
        &&& *new == (Mbc5 { ram: new.ram, ..*old })
    }

    pub open spec fn battery_written(old: &Mbc5, new: &Mbc5, data: Seq<u8>) -> bool {
        &&& *new == *old
    }

    pub open spec fn rom_value(&self, address: u16) -> u8 {
        if address <= 0x3FFF {
            byte_or_ff(self.rom_data@, address as int)
        } else if address <= 0x7FFF {
            byte_or_ff(self.rom_data@, self.rom_bank * 0x4000 + (address - 0x4000))
        } else {
            0xFF
        }
    }

    pub open spec fn ram_index(&self, address: u16) -> int {
        self.ram_bank * 0x2000 + (address - 0xA000)
    }

    pub open spec fn ram_value(&self, address: u16) -> u8 {
        if !self.ram_enabled || !self.has_ram || !(0xA000 <= address <= 0xBFFF) {
            0xFF
        } else {
            byte_or_ff(self.ram@, self.ram_index(address))
        }
    }

    pub open spec fn after_write_rom(&self, address: u16, value: u8) -> Self {
        if address <= 0x1FFF {
            let enabled = value & 0x0F == 0x0A;
            Mbc5 {
                ram_enabled: enabled,
                flush_requested: self.flush_requested || (self.ram_enabled && !enabled && self.has_battery
                    && self.ram@.len() > 0),
                ..*self
            }
        } else if address <= 0x2FFF {
            Mbc5 { rom_bank: (self.rom_bank & 0x100) | (value as usize), ..*self }
        } else if address <= 0x3FFF {
            let bank = (self.rom_bank & 0xFF) | (((value & 0x01) as usize) << 8usize);
            Mbc5 { rom_bank: if bank == 0 { 1 } else { bank }, ..*self }
        } else if address <= 0x5FFF {
            if self.has_rumble {
                Mbc5 { rumble_active: value & 0x08 != 0, ram_bank: (value & 0x07) as usize, ..*self }
            } else {
                Mbc5 { ram_bank: (value & 0x0F) as usize, ..*self }
            }
        } else {
            *self
        }
    }

    /// The controller that `new` builds from these arguments.
    pub open spec fn started(&self, rom_data: Vec<u8>, header: CartridgeHeader, ram: bool, battery: bool, rumble: bool, saved: Option<Vec<u8>>) -> bool {
        &&& (self.rom_data@ == rom_data@)
        &&& (self.header == header)
        &&& (!self.ram_enabled)
        &&& (self.rom_bank == 1)
        &&& (self.ram_bank == 0)
        &&& (self.ram@ == (if ram && battery && saved is Some && saved->0@.len() == header.ram_size {
                saved->0@
            } else {
                Seq::new(if ram { header.ram_size as nat } else { 0 }, |i: int| 0u8)
            }))
        &&& (self.has_ram == ram)
        &&& (self.has_battery == battery)
        &&& (self.has_rumble == rumble)
        &&& (!self.rumble_active)
        &&& (!self.flush_requested)
    }

    /// A fresh controller: bank 1, RAM disabled; RAM of the header's size where the cartridge
    /// has RAM, taken from the save when it has a battery and a save of exactly that size,
    /// zero otherwise.
    pub fn new(
        rom_data: Vec<u8>,
        header: CartridgeHeader,
        ram: bool,
        battery: bool,
        rumble: bool,
        saved: Option<Vec<u8>>,
    ) -> (r: Self)
        ensures
            r.started(rom_data, header, ram, battery, rumble, saved),
    {
        let ram_size = if ram { header.ram_size as usize } else { 0 };
        let mut external_ram: Vec<u8> = vec![0; ram_size];
        assert(external_ram@ =~= Seq::new(ram_size as nat, |i: int| 0u8));
        if ram && battery {
            if let Some(data) = saved {
                if data.len() == ram_size {
                    external_ram = data;
                }
            }
        }
        Self {
            rom_data,
            header,
            ram_enabled: false,
            rom_bank: 1,
            ram_bank: 0,
            ram: external_ram,
            has_ram: ram,
            has_battery: battery,
            has_rumble: rumble,
            rumble_active: false,
            flush_requested: false,
        }
    }

    /// Whether the RAM must be written to the save file when the cartridge is dropped.
    pub fn needs_save(&self) -> (r: bool)
        ensures
            r == (self.has_battery && self.ram@.len() > 0),
    {
        self.has_battery && self.ram.len() > 0
    }
}

impl Mbc for Mbc5 {
    fn read_rom(&self, address: u16) -> (r: u8)
        ensures
            r == self.rom_value(address),
    {
        if address <= 0x3FFF {
            get_or_ff(&self.rom_data, address as usize)
        } else if address <= 0x7FFF {
            banked_read(&self.rom_data, self.rom_bank, 0x4000, address as usize - 0x4000)
        } else {
            0xFF
        }
    }

    fn write_rom(&mut self, address: u16, value: u8)
        ensures
            Mbc5::rom_written(old(self), final(self), address, value),
    {
        if address <= 0x1FFF {
            let was_enabled = self.ram_enabled;
            self.ram_enabled = (value & 0x0F) == 0x0A;
            if was_enabled && !self.ram_enabled && self.has_battery && self.ram.len() > 0 {
                self.flush_requested = true;
            }
        } else if address <= 0x2FFF {
            let lower = value as usize;
            self.rom_bank = (self.rom_bank & 0x100) | lower;
        } else if address <= 0x3FFF {
            let upper = ((value & 0x01) as usize) << 8usize;
            self.rom_bank = (self.rom_bank & 0xFF) | upper;
            if self.rom_bank == 0 {
                self.rom_bank = 1;
            }
        } else if address <= 0x5FFF {
            if self.has_rumble {
                self.rumble_active = value & 0x08 != 0;
                self.ram_bank = (value & 0x07) as usize;
            } else {
                self.ram_bank = (value & 0x0F) as usize;
            }
        }
    }

    fn read_ram(&self, address: u16) -> (r: u8)
        ensures
            r == self.ram_value(address),
    {
        if !self.ram_enabled || !self.has_ram {
            return 0xFF;
        }
        if 0xA000 <= address && address <= 0xBFFF {
            banked_read(&self.ram, self.ram_bank, 0x2000, address as usize - 0xA000)
        } else {
            0xFF
        }
    }

    fn write_ram(&mut self, address: u16, value: u8)
        ensures
            Mbc5::ram_written(old(self), final(self), address, value),
    {
        if !self.ram_enabled || !self.has_ram {
            return;
        }
        if 0xA000 <= address && address <= 0xBFFF {
            let len = self.ram.len();
            if let Some(base) = self.ram_bank.checked_mul(0x2000) {
                if let Some(addr) = base.checked_add(address as usize - 0xA000) {
                    if addr < len {
                        self.ram.set(addr, value);
                    }
                }
            }
        }
    }

    fn get_battery_ram(&self) -> (r: Option<&[u8]>)
        ensures
            r is None,
    {
        None
    }

    fn set_battery_ram(&mut self, data: &[u8])
        ensures
            Mbc5::battery_written(old(self), final(self), data@),
    {
    }
}

/// A write of `value` to 0x2000..=0x2FFF sets the low eight bits of the ROM bank to `value`
/// (bank 0 can be selected) and keeps bit 8; one to 0x3000..=0x3FFF sets bit 8 to bit 0 of
/// `value` and keeps the low eight bits, a resulting bank 0 read as 1. A read at 0x4000 + o
/// then gives byte o of that bank.
pub proof fn lemma_rom_bank_select(m: Mbc5, address: u16, value: u8, offset: u16)
    requires
        0x2000 <= address <= 0x3FFF,
        offset < 0x4000,
    ensures
        ({
            let bank = if address <= 0x2FFF {
                (m.rom_bank / 256) % 2 * 256 + value
            } else {
                let b = m.rom_bank % 256 + (value % 2) * 256;
                if b == 0 { 1 } else { b }
            };
            m.after_write_rom(address, value).rom_value((0x4000 + offset) as u16) == byte_or_ff(
                m.rom_data@,
                bank * 0x4000 + offset,
            )
        }),
{
    lemma_byte_digits();
    lemma_bank_register_bits();
    let v = value as usize;
    let h = (value & 0x01) as usize;
    assert((m.rom_bank & 0x100usize) | v == (m.rom_bank / 256) % 2 * 256 + v);
    assert((m.rom_bank & 0xFFusize) | (h << 8usize) == m.rom_bank % 256 + h * 256);
}

/// A write to 0x0000..=0x1FFF enables the RAM exactly when the low four bits of `value` are
/// 0xA, and leaves the ROM and RAM banks as they were; while disabled the RAM reads 0xFF.
pub proof fn lemma_ram_switch(m: Mbc5, address: u16, value: u8, at: u16)
    requires
        address <= 0x1FFF,
    ensures
        m.after_write_rom(address, value).ram_enabled == (value % 16 == 10),
        m.after_write_rom(address, value).rom_bank == m.rom_bank,
        m.after_write_rom(address, value).ram_bank == m.ram_bank,
        value % 16 != 10 ==> m.after_write_rom(address, value).ram_value(at) == 0xFF,
{
    lemma_byte_digits();
}

} // verus!
