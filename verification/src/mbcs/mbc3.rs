use vstd::prelude::*;
use crate::cartridge::{CartridgeHeader, Mbc};
use super::{byte_or_ff, get_or_ff};
use crate::bits::{lemma_bank_register_bits, lemma_byte_digits};

verus! {

/// MBC3: up to 2 MiB of ROM, 32 KiB of RAM and a real-time clock.
pub struct Mbc3 {
    pub rom_data: Vec<u8>,
    pub header: CartridgeHeader,
    pub ram_enabled: bool,
    pub rom_bank: usize,
    pub ram_bank: usize,
    pub ram: Vec<u8>,
    pub has_ram: bool,
    pub has_timer: bool,
    pub has_battery: bool,
    /// Seconds, minutes, hours, day low, day high / control.
    pub rtc_registers: [u8; 5],
    pub rtc_latch: u8,
    pub rtc_latched: bool,
}

impl Mbc3 {
    pub open spec fn rom_written(old: &Mbc3, new: &Mbc3, address: u16, value: u8) -> bool {
        &&& new.rtc_registers@ == (if old.latch_ticks(address, value) { old.rtc_registers@.update(0, ((old.rtc_registers@[0] + 1) % 256) as u8) } else { old.rtc_registers@ })
        &&& *new == (Mbc3 { rtc_registers: new.rtc_registers, ..old.after_write_rom(address, value) })
    }

    pub open spec fn ram_written(old: &Mbc3, new: &Mbc3, address: u16, value: u8) -> bool {
        &&& new.rtc_registers@ == (if old.ram_enabled && 0xA000 <= address <= 0xBFFF && old.rtc_selected() && old.ram_bank - 0x08 < 5 { old.rtc_registers@.update(old.ram_bank - 0x08, value) } else { old.rtc_registers@ })
        &&& new.ram@ == (if old.ram_enabled && 0xA000 <= address <= 0xBFFF && !old.rtc_selected() && old.has_ram && old.ram_bank <= 0x03 && old.ram_index(address) < old.ram@.len() { old.ram@.update(old.ram_index(address), value) } else { old.ram@ })
        &&& *new == (Mbc3 { rtc_registers: new.rtc_registers, ram: new.ram, ..*old })
    }

    pub open spec fn battery_written(old: &Mbc3, new: &Mbc3, data: Seq<u8>) -> bool {
        &&& *new == *old
    }

    /// Index into the ROM that a read of `address` in 0x4000..=0x7FFF reaches.
    pub open spec fn banked_rom_index(&self, address: u16) -> int {
        ((self.rom_bank << 14usize) | ((address as usize) & 0x3FFF)) as int
    }

    /// Index into the RAM that an access to `address` reaches.
    pub open spec fn ram_index(&self, address: u16) -> int {
        ((self.ram_bank << 13usize) | ((address as usize) & 0x1FFF)) as int
    }

    pub open spec fn rom_value(&self, address: u16) -> u8 {
        if address <= 0x3FFF {
            byte_or_ff(self.rom_data@, address as int)
        } else if address <= 0x7FFF {
            byte_or_ff(self.rom_data@, self.banked_rom_index(address))
        } else {
            0xFF
        }
    }

    /// Whether the selected bank is a clock register.
    pub open spec fn rtc_selected(&self) -> bool {
        self.has_timer && self.ram_bank >= 0x08
    }

    pub open spec fn ram_value(&self, address: u16) -> u8 {
        if !self.ram_enabled || !(0xA000 <= address <= 0xBFFF) {
            0xFF
        } else if self.rtc_selected() {
            byte_or_ff(self.rtc_registers@, self.ram_bank - 0x08)
        } else if self.has_ram && self.ram_bank <= 0x03 {
            byte_or_ff(self.ram@, self.ram_index(address))
        } else {
            0xFF
        }
    }

    /// The largest bank number the ROM image holds (0 for images under 32 KiB).
    pub open spec fn max_bank(&self) -> usize {
        if (self.rom_data@.len() as usize >> 14usize) >= 1 {
            ((self.rom_data@.len() as usize >> 14usize) - 1) as usize
        } else {
            0
        }
    }

    pub open spec fn after_write_rom(&self, address: u16, value: u8) -> Self {
        if address <= 0x1FFF {
            Mbc3 { ram_enabled: value & 0x0F == 0x0A, ..*self }
        } else if address <= 0x3FFF {
            let bank: usize = if value & 0x7F == 0 { 1 } else { (value & 0x7F) as usize };
            Mbc3 { rom_bank: if bank < self.max_bank() { bank } else { self.max_bank() }, ..*self }
        } else if address <= 0x5FFF {
            if value <= 0x03 || (self.has_timer && 0x08 <= value <= 0x0C) {
                Mbc3 { ram_bank: value as usize, ..*self }
            } else {
                *self
            }
        } else if address <= 0x7FFF {
            if self.has_timer && self.rtc_latch == 0 && value == 1 {
                if self.rtc_latched {
                    Mbc3 {
                        rtc_latched: false,
                        rtc_registers: self.rtc_registers,
                        rtc_latch: value,
                        ..*self
                    }
                } else {
                    Mbc3 { rtc_latched: true, rtc_latch: value, ..*self }
                }
            } else {
                Mbc3 { rtc_latch: value, ..*self }
            }
        } else {
            *self
        }
    }

    /// Whether a latch write at `address` with `value` advances the seconds register.
    pub open spec fn latch_ticks(&self, address: u16, value: u8) -> bool {
        0x6000 <= address <= 0x7FFF && self.has_timer && self.rtc_latch == 0 && value == 1 && self.rtc_latched
    }

    /// The controller that `new` builds from these arguments.
    pub open spec fn started(&self, rom_data: Vec<u8>, header: CartridgeHeader, ram: bool, timer: bool, battery: bool) -> bool {
        &&& (self.rom_data@ == rom_data@)
        &&& (self.header == header)
        &&& (!self.ram_enabled)
        &&& (self.rom_bank == 1)
        &&& (self.ram_bank == 0)
        &&& (self.ram@ == Seq::new(if ram { header.ram_size as nat } else { 0 }, |i: int| 0u8))
        &&& (self.has_ram == ram)
        &&& (self.has_timer == timer)
        &&& (self.has_battery == battery)
        &&& (self.rtc_registers@ == seq![0u8, 0u8, 0u8, 0u8, 0u8])
        &&& (self.rtc_latch == 0xFF)
        &&& (!self.rtc_latched)
    }

    /// A fresh controller: bank 1, RAM disabled, zeroed RAM of the header's size where the
    /// cartridge has RAM, clock registers zero and the latch register at 0xFF.
    pub fn new(rom_data: Vec<u8>, header: CartridgeHeader, ram: bool, timer: bool, battery: bool) -> (r: Self)
        ensures
            r.started(rom_data, header, ram, timer, battery),
    {
        let ram_size = if ram { header.ram_size as usize } else { 0 };
        let ram_vec: Vec<u8> = vec![0; ram_size];
        assert(ram_vec@ =~= Seq::new(ram_size as nat, |i: int| 0u8));
        let rtc = [0u8; 5];
        assert(rtc@ =~= seq![0u8, 0u8, 0u8, 0u8, 0u8]);
        Self {
            rom_data,
            header,
            ram_enabled: false,
            rom_bank: 1,
            ram_bank: 0,
            ram: ram_vec,
            has_ram: ram,
            has_timer: timer,
            has_battery: battery,
            rtc_registers: rtc,
            rtc_latch: 0xFF,
            rtc_latched: false,
        }
    }
}

impl Mbc for Mbc3 {
    fn read_rom(&self, address: u16) -> (r: u8)
        ensures
            r == self.rom_value(address),
    {
        if address <= 0x3FFF {
            get_or_ff(&self.rom_data, address as usize)
        } else if address <= 0x7FFF {
            let addr = (self.rom_bank << 14usize) | ((address as usize) & 0x3FFF);
            get_or_ff(&self.rom_data, addr)
        } else {
            0xFF
        }
    }

    fn write_rom(&mut self, address: u16, value: u8)
        ensures
            Mbc3::rom_written(old(self), final(self), address, value),
    {
        if address <= 0x1FFF {
            self.ram_enabled = (value & 0x0F) == 0x0A;
        } else if address <= 0x3FFF {
            let bank = if value & 0x7F == 0 {
                1
            } else {
                value & 0x7F
            };
            let n = self.rom_data.len() >> 14usize;
            let max_bank = n.saturating_sub(1);
            self.rom_bank = if (bank as usize) < max_bank {
                bank as usize
            } else {
                max_bank
            };
        } else if address <= 0x5FFF {
            if value <= 0x03 || (self.has_timer && 0x08 <= value && value <= 0x0C) {
                self.ram_bank = value as usize;
            }
        } else if address <= 0x7FFF {
            if self.has_timer && self.rtc_latch == 0 && value == 1 {
                self.rtc_latched = !self.rtc_latched;
                if !self.rtc_latched {
                    self.rtc_registers[0] = self.rtc_registers[0].wrapping_add(1);
                }
            }
            self.rtc_latch = value;
        }
    }

    fn read_ram(&self, address: u16) -> (r: u8)
        ensures
            r == self.ram_value(address),
    {
        if !self.ram_enabled {
            return 0xFF;
        }
        if address >= 0xA000 && address <= 0xBFFF {
            if self.has_timer && self.ram_bank >= 0x08 {
                let index = self.ram_bank - 0x08;
                return if index < 5 {
                    self.rtc_registers[index]
                } else {
                    0xFF
                };
            }
            if self.has_ram && self.ram_bank <= 0x03 {
                let addr = (self.ram_bank << 13usize) | ((address as usize) & 0x1FFF);
                return get_or_ff(&self.ram, addr);
            }
        }
        0xFF
    }

    fn write_ram(&mut self, address: u16, value: u8)
        ensures
            Mbc3::ram_written(old(self), final(self), address, value),
    {
        if !self.ram_enabled {
            return;
        }
        if address >= 0xA000 && address <= 0xBFFF {
            if self.has_timer && self.ram_bank >= 0x08 {
                let index = self.ram_bank - 0x08;
                if index < 5 {
                    self.rtc_registers[index] = value;
                }
                return;
            }
            if self.has_ram && self.ram_bank <= 0x03 {
                let addr = (self.ram_bank << 13usize) | ((address as usize) & 0x1FFF);
                if addr < self.ram.len() {
                    self.ram.set(addr, value);
                }
            }
        }
    }

    fn get_battery_ram(&self) -> (r: Option<&[u8]>)
        ensures
            r is None,
    {
        None
    }

    fn set_battery_ram(&mut self, data: &[u8])
        ensures
            Mbc3::battery_written(old(self), final(self), data@),
    {
    }
}

/// A write of `value` to 0x2000..=0x3FFF selects ROM bank `value` modulo 128, 0 read as 1,
/// capped at the last bank that the image holds; a read at 0x4000 + o then gives byte o of
/// that bank.
pub proof fn lemma_rom_bank_select(m: Mbc3, address: u16, value: u8, offset: u16)
    requires
        0x2000 <= address <= 0x3FFF,
        offset < 0x4000,
        m.rom_data@.len() <= usize::MAX,
    ensures
        ({
            let low: int = if value % 128 == 0 { 1 } else { (value % 128) as int };
            let last = if m.rom_data@.len() >= 0x8000 { m.rom_data@.len() / 0x4000 - 1 } else { 0 };
            let bank = if low <= last { low } else { last };
            m.after_write_rom(address, value).rom_value((0x4000 + offset) as u16) == byte_or_ff(
                m.rom_data@,
                bank * 0x4000 + offset,
            )
        }),
{
    lemma_byte_digits();
    lemma_bank_register_bits();
    let len = m.rom_data@.len() as usize;
    assert(len >> 14usize == len / 0x4000);
    let after = m.after_write_rom(address, value);
    assert(after.rom_bank < 128);
    let o = ((0x4000 + offset) as u16) as usize;
    assert((after.rom_bank << 14usize) | (o & 0x3FFFusize) == after.rom_bank * 0x4000 + o % 0x4000);
    assert(o % 0x4000 == offset);
}

/// A write to 0x0000..=0x1FFF enables the RAM exactly when the low four bits of `value` are
/// 0xA, and leaves the ROM and RAM banks as they were; while disabled the RAM reads 0xFF.
pub proof fn lemma_ram_switch(m: Mbc3, address: u16, value: u8, at: u16)
    requires
        address <= 0x1FFF,
    ensures
        m.after_write_rom(address, value).ram_enabled == (value % 16 == 10),
        m.after_write_rom(address, value).rom_bank == m.rom_bank,
        m.after_write_rom(address, value).ram_bank == m.ram_bank,
        value % 16 != 10 ==> m.after_write_rom(address, value).ram_value(at) == 0xFF,
{
    lemma_byte_digits();
}

} // verus!
