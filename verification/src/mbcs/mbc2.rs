use vstd::prelude::*;
use crate::cartridge::{CartridgeHeader, Mbc};
use super::{banked_read, byte_or_ff, copied_prefix, get_or_ff};
use crate::bits::lemma_byte_digits;

verus! {

/// MBC2: up to 256 KiB of ROM and a built-in RAM of 512 half-bytes.
pub struct Mbc2 {
    pub rom_data: Vec<u8>,
    pub header: CartridgeHeader,
    pub ram: [u8; 0x200],
    pub ram_enabled: bool,
    pub rom_bank: usize,
    pub has_ram: bool,
    pub has_battery: bool,
    pub dirty: bool,
}

impl Mbc2 {
    pub open spec fn rom_written(old: &Mbc2, new: &Mbc2, address: u16, value: u8) -> bool {
        &&& *new == old.after_write_rom(address, value)
    }

    pub open spec fn ram_written(old: &Mbc2, new: &Mbc2, address: u16, value: u8) -> bool {
        &&& new.ram@ == (if old.ram_enabled && old.has_ram && 0xA000 <= address <= 0xA1FF { old.ram@.update(address as int % 0x200, value & 0x0F) } else { old.ram@ })
        &&& new.dirty == (old.dirty || (old.ram_enabled && old.has_ram && 0xA000 <= address <= 0xA1FF && old.ram@[address as int % 0x200] != value & 0x0F))
        &&& new.rom_data == old.rom_data
        &&& new.header == old.header
        &&& new.ram_enabled == old.ram_enabled
        &&& new.rom_bank == old.rom_bank
        &&& new.has_ram == old.has_ram
        &&& new.has_battery == old.has_battery
    }

    pub open spec fn battery_written(old: &Mbc2, new: &Mbc2, data: Seq<u8>) -> bool {
        &&& new.ram@ == (if old.has_battery && old.has_ram { copied_prefix(old.ram@, data) } else { old.ram@ })
        &&& new.rom_data == old.rom_data
        &&& new.header == old.header
        &&& new.ram_enabled == old.ram_enabled
        &&& new.rom_bank == old.rom_bank
        &&& new.has_ram == old.has_ram
        &&& new.has_battery == old.has_battery
        &&& new.dirty == old.dirty
    }

    /// The value a ROM read at `address` returns.
    pub open spec fn rom_value(&self, address: u16) -> u8 {
        if address <= 0x3FFF {
            byte_or_ff(self.rom_data@, address as int)
        } else if address <= 0x7FFF {
            byte_or_ff(self.rom_data@, self.rom_bank * 0x4000 + (address - 0x4000))
        } else {
            0xFF
        }
    }

    /// The value a RAM read at `address` returns: the stored half-byte with the upper four
    /// bits set.
    pub open spec fn ram_value(&self, address: u16) -> u8 {
        if !self.ram_enabled || !self.has_ram {
            0xFF
        } else if 0xA000 <= address <= 0xA1FF {
            0xF0 | (self.ram@[address as int % 0x200] & 0x0F)
        } else {
            0xFF
        }
    }

    /// The controller after a write to the register area: bit 8 of the address chooses between
    /// RAM enable and ROM bank number.
    pub open spec fn after_write_rom(&self, address: u16, value: u8) -> Self {
        if address <= 0x3FFF {
            if address & 0x0100 == 0 {
                Mbc2 { ram_enabled: value & 0x0F == 0x0A, ..*self }
            } else {
                Mbc2 { rom_bank: if value & 0x0F == 0 { 1 } else { (value & 0x0F) as usize }, ..*self }
            }
        } else {
            *self
        }
    }

    /// The controller that `new` builds from these arguments.
    pub open spec fn started(&self, rom_data: Vec<u8>, header: CartridgeHeader, has_battery: bool, has_ram: bool, saved: Option<Vec<u8>>) -> bool {
        &&& (self.rom_data@ == rom_data@)
        &&& (self.header == header)
        &&& (self.ram@ == (if has_ram && has_battery && saved is Some && saved->0@.len() == 0x200 {
                saved->0@
            } else {
                Seq::new(0x200, |i: int| 0xFFu8)
            }))
        &&& (!self.ram_enabled)
        &&& (self.rom_bank == 1)
        &&& (self.has_ram == has_ram)
        &&& (self.has_battery == has_battery)
        &&& (!self.dirty)
    }

    /// A fresh controller: bank 1, RAM disabled and filled with 0xFF unless a battery cartridge
    /// with RAM has a save of exactly 512 bytes.
    pub fn new(
        rom_data: Vec<u8>,
        header: CartridgeHeader,
        has_battery: bool,
        has_ram: bool,
        saved: Option<Vec<u8>>,
    ) -> (r: Self)
        ensures
            r.started(rom_data, header, has_battery, has_ram, saved),
    {
        let mut ram = [0xFFu8; 0x200];
        assert(ram@ =~= Seq::new(0x200, |i: int| 0xFFu8));
        if has_ram && has_battery {
            if let Some(data) = &saved {
                if data.len() == 0x200 {
                    let mut i: usize = 0;
                    while i < 0x200
                        invariant
                            0 <= i <= 0x200,
                            data@.len() == 0x200,
                            ram@.len() == 0x200,
                            forall|k: int| 0 <= k < i ==> ram@[k] == data@[k],
                        decreases 0x200 - i,
                    {
                        ram[i] = data[i];
                        i = i + 1;
                    }
                    assert(ram@ =~= data@);
                }
            }
        }
        Self {
            rom_data,
            header,
            ram,
            ram_enabled: false,
            rom_bank: 1,
            has_ram,
            has_battery,
            dirty: false,
        }
    }

    /// Whether the RAM must be written to the save file when the cartridge is dropped.
    pub fn needs_save(&self) -> (r: bool)
        ensures
            r == (self.has_battery && self.dirty),
    {
        self.has_battery && self.dirty
    }
}

impl Mbc for Mbc2 {
    fn read_rom(&self, address: u16) -> (r: u8)
        ensures
            r == self.rom_value(address),
    {
        if address <= 0x3FFF {
            get_or_ff(&self.rom_data, address as usize)
        } else if address <= 0x7FFF {
            let bank = self.rom_bank;
            banked_read(&self.rom_data, bank, 0x4000, address as usize - 0x4000)
        } else {
            0xFF
        }
    }

    fn write_rom(&mut self, address: u16, value: u8)
        ensures
            Mbc2::rom_written(old(self), final(self), address, value),
    {
        if address <= 0x3FFF {
            let is_ram_enable = (address & 0x0100) == 0;
            if is_ram_enable {
                self.ram_enabled = (value & 0x0F) == 0x0A;
            } else {
                let mut bank = value & 0x0F;
                if bank == 0 {
                    bank = 1;
                }
                self.rom_bank = bank as usize;
            }
        }
    }

    fn read_ram(&self, address: u16) -> (r: u8)
        ensures
            r == self.ram_value(address),
    {
        if !self.ram_enabled || !self.has_ram {
            return 0xFF;
        }
        if 0xA000 <= address && address <= 0xA1FF {
            let ram_addr = address as usize & 0x1FF;
            assert(address as usize & 0x1FF == address as int % 0x200) by (bit_vector);
            0xF0 | (self.ram[ram_addr] & 0x0F)
        } else {
            0xFF
        }
    }

    fn write_ram(&mut self, address: u16, value: u8)
        ensures
            Mbc2::ram_written(old(self), final(self), address, value),
    {
        if !self.ram_enabled || !self.has_ram {
            return;
        }
        if 0xA000 <= address && address <= 0xA1FF {
            let ram_addr = address as usize & 0x1FF;
            assert(address as usize & 0x1FF == address as int % 0x200) by (bit_vector);
            let value = value & 0x0F;
            if self.ram[ram_addr] != value {
                self.ram[ram_addr] = value;
                self.dirty = true;
            } else {
                assert(old(self).ram@.update(address as int % 0x200, value) =~= old(self).ram@);
            }
        }
    }

    fn get_battery_ram(&self) -> (r: Option<&[u8]>)
        ensures
            r is Some <==> (self.has_battery && self.has_ram),
            r matches Some(ram) ==> ram@ == self.ram@,
    {
        if self.has_battery && self.has_ram {
            Some(self.ram.as_slice())
        } else {
            None
        }
    }

    fn set_battery_ram(&mut self, data: &[u8])
        ensures
            Mbc2::battery_written(old(self), final(self), data@),
    {
        if self.has_battery && self.has_ram {
            let len = if data.len() < 0x200 { data.len() } else { 0x200 };
            let mut i: usize = 0;
            while i < len
                invariant
                    0 <= i <= len,
                    len == if data@.len() < 0x200 { data@.len() } else { 0x200 },
                    self.ram@.len() == 0x200,
                    old(self).ram@.len() == 0x200,
                    forall|k: int| 0 <= k < i ==> self.ram@[k] == data@[k],
                    forall|k: int| i <= k < 0x200 ==> self.ram@[k] == old(self).ram@[k],
                    self.rom_data == old(self).rom_data,
                    self.header == old(self).header,
                    self.ram_enabled == old(self).ram_enabled,
                    self.rom_bank == old(self).rom_bank,
                    self.has_ram == old(self).has_ram,
                    self.has_battery == old(self).has_battery,
                    self.dirty == old(self).dirty,
                decreases len - i,
            {
                self.ram[i] = data[i];
                i = i + 1;
            }
            assert(self.ram@ =~= copied_prefix(old(self).ram@, data@));
        }
    }
}

/// In 0x0000..=0x3FFF bit 8 of the address picks the register. With it set, the low four
/// bits of `value` (0 read as 1) select the ROM bank, and a read at 0x4000 + o then gives
/// byte o of that bank; the RAM switch stays. With it clear, the RAM is enabled exactly when
/// the low four bits of `value` are 0xA, and the bank stays.
pub proof fn lemma_rom_register_select(m: Mbc2, address: u16, value: u8, offset: u16)
    requires
        address <= 0x3FFF,
        offset < 0x4000,
    ensures
        address & 0x0100 != 0 ==> ({
            let bank = if value % 16 == 0 { 1 } else { value % 16 };
            &&& m.after_write_rom(address, value).rom_value((0x4000 + offset) as u16) == byte_or_ff(
                m.rom_data@,
                bank * 0x4000 + offset,
            )
            &&& m.after_write_rom(address, value).ram_enabled == m.ram_enabled
        }),
        address & 0x0100 == 0 ==> m.after_write_rom(address, value).ram_enabled == (value % 16 == 10)
            && m.after_write_rom(address, value).rom_bank == m.rom_bank,
{
    lemma_byte_digits();
}

} // verus!
