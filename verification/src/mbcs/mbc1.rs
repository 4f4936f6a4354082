use vstd::prelude::*;
use crate::cartridge::{CartridgeHeader, Mbc};
use crate::rng::fill_random;
use super::{byte_or_ff, copied_prefix, copy_prefix, get_or_ff};

verus! {

/// MBC1: up to 2 MiB of ROM in 16 KiB banks and up to 32 KiB of RAM in 8 KiB banks.
pub struct Mbc1 {
    pub header: CartridgeHeader,
    pub rom_data: Vec<u8>,
    pub external_ram: Vec<u8>,
    pub ram_enabled: bool,
    pub banking_mode: bool,
    pub current_rom_bank: usize,
    pub current_ram_bank: usize,
    pub has_battery: bool,
    pub dirty: bool,
}

/// Number of 16 KiB banks in a ROM image of the given length (at least one).
pub open spec fn rom_bank_count_spec(len: nat) -> nat {
    if len / 0x4000 >= 1 {
        len / 0x4000
    } else {
        1
    }
}

/// Number of 8 KiB banks in a RAM of the given length (none for an empty RAM).
pub open spec fn ram_bank_count_spec(len: nat) -> nat {
    if len == 0 {
        0
    } else if len / 0x2000 >= 1 {
        len / 0x2000
    } else {
        1
    }
}

/// Bank `bank` (below the bank count) starts inside a buffer of `len` bytes, so its offset
/// fits a `usize`; and the bank offset combined with an in-bank offset by `|` is their sum.
pub proof fn lemma_bank_offset(bank: usize, len: nat, size: usize, offset: usize)
    requires
        size == 0x4000 || size == 0x2000,
        bank < (if len / (size as nat) >= 1 { len / (size as nat) } else { 1 }),
        len <= usize::MAX,
    ensures
        bank * size <= usize::MAX,
        size == 0x4000 ==> ((bank * size) as usize) | (offset & 0x3FFF) == bank * size + offset % size,
        size == 0x2000 ==> ((bank * size) as usize) | (offset & 0x1FFF) == bank * size + offset % size,
{
    assert(bank * size <= usize::MAX) by (nonlinear_arith)
        requires
            size > 0,
            bank < (if len / (size as nat) >= 1 { len / (size as nat) } else { 1 }),
            len <= usize::MAX,
            size <= 0x4000,
    {
        if len / (size as nat) >= 1 {
            assert(bank + 1 <= len / (size as nat));
            assert((bank + 1) * size <= (len / (size as nat)) * size);
        }
    }
    let m = (bank * size) as usize;
    assert(m % size == 0) by (nonlinear_arith)
        requires
            m == bank * size,
            size > 0;
    if size == 0x4000 {
        assert(m % 0x4000 == 0 ==> (m | (offset & 0x3FFF)) == m + offset % 0x4000) by (bit_vector);
    } else {
        assert(m % 0x2000 == 0 ==> (m | (offset & 0x1FFF)) == m + offset % 0x2000) by (bit_vector);
    }
}

impl Mbc1 {
    pub open spec fn rom_written(old: &Mbc1, new: &Mbc1, address: u16, value: u8) -> bool {
        &&& *new == old.after_write_rom(address, value)
    }

    pub open spec fn ram_written(old: &Mbc1, new: &Mbc1, address: u16, value: u8) -> bool {
        &&& new.external_ram@ == (if !old.ram_enabled || old.external_ram@.len() == 0 || old.ram_index(address) >= old.external_ram@.len() { old.external_ram@ } else { old.external_ram@.update(old.ram_index(address), value) })
        &&& new.dirty == (old.dirty || (old.ram_enabled && 0 <= old.ram_index(address) < old.external_ram@.len() && old.external_ram@[old.ram_index(address)] != value))
        &&& new.rom_data == old.rom_data
        &&& new.header == old.header
        &&& new.ram_enabled == old.ram_enabled
        &&& new.banking_mode == old.banking_mode
        &&& new.current_rom_bank == old.current_rom_bank
        &&& new.current_ram_bank == old.current_ram_bank
        &&& new.has_battery == old.has_battery
    }

    pub open spec fn battery_written(old: &Mbc1, new: &Mbc1, data: Seq<u8>) -> bool {
        &&& new.external_ram@ == (if old.has_battery && old.external_ram@.len() > 0 { copied_prefix(old.external_ram@, data) } else { old.external_ram@ })
        &&& new.rom_data == old.rom_data
        &&& new.header == old.header
        &&& new.ram_enabled == old.ram_enabled
        &&& new.banking_mode == old.banking_mode
        &&& new.current_rom_bank == old.current_rom_bank
        &&& new.current_ram_bank == old.current_ram_bank
        &&& new.has_battery == old.has_battery
        &&& new.dirty == old.dirty
    }

    /// Bank mapped at 0x0000..=0x3FFF: bank 0, or in mode 1 the upper bank bits.
    pub open spec fn lower_bank(&self) -> nat {
        if self.banking_mode {
            ((self.current_rom_bank & 0x60) as nat) % rom_bank_count_spec(self.rom_data@.len())
        } else {
            0
        }
    }

    /// Bank mapped at 0x4000..=0x7FFF.
    pub open spec fn upper_bank(&self) -> nat {
        (self.current_rom_bank as nat) % rom_bank_count_spec(self.rom_data@.len())
    }

    /// RAM bank mapped at 0xA000..=0xBFFF: selectable only in mode 1.
    pub open spec fn ram_bank_spec(&self) -> nat {
        if !self.banking_mode || self.external_ram@.len() == 0 {
            0
        } else {
            (self.current_ram_bank as nat) % ram_bank_count_spec(self.external_ram@.len())
        }
    }

    /// Index into the external RAM that an access to `address` reaches.
    pub open spec fn ram_index(&self, address: u16) -> int {
        self.ram_bank_spec() * 0x2000 + (address as int) % 0x2000
    }

    /// The value a ROM read at `address` returns.
    pub open spec fn rom_value(&self, address: u16) -> u8 {
        let bank = if address < 0x4000 { self.lower_bank() } else { self.upper_bank() };
        byte_or_ff(self.rom_data@, bank * 0x4000 + (address as int) % 0x4000)
    }

    /// The value a RAM read at `address` returns.
    pub open spec fn ram_value(&self, address: u16) -> u8 {
        if !self.ram_enabled || self.external_ram@.len() == 0 {
            0xFF
        } else {
            byte_or_ff(self.external_ram@, self.ram_index(address))
        }
    }

    /// The controller after a write of `value` to the register area at `address`.
    pub open spec fn after_write_rom(&self, address: u16, value: u8) -> Self {
        if address <= 0x1FFF {
            Mbc1 { ram_enabled: value == 0x0A, ..*self }
        } else if address <= 0x3FFF {
            let r: usize = if (value as usize) & 0x1F == 0 { 1 } else { (value as usize) & 0x1F };
            Mbc1 { current_rom_bank: (self.current_rom_bank & 0x60) | r, ..*self }
        } else if address <= 0x5FFF {
            if !self.banking_mode {
                Mbc1 {
                    current_rom_bank: self.current_rom_bank & 0x1F | (((value as usize) & 0x03) << 5usize),
                    ..*self
                }
            } else {
                Mbc1 { current_ram_bank: (value as usize) & 0x03, ..*self }
            }
        } else if address <= 0x7FFF {
            Mbc1 { banking_mode: value & 0x01 == 0x01, ..*self }
        } else {
            *self
        }
    }

    /// The RAM a cartridge with this header starts with: the saved bytes (resized to the RAM
    /// size) for a battery cartridge with a save, otherwise `ram_size` bytes.
    pub open spec fn initial_ram_len(header: CartridgeHeader, has_ram: bool) -> nat {
        if has_ram && header.ram_size > 0 {
            header.ram_size as nat
        } else {
            0
        }
    }

    /// The controller that `new` builds from these arguments.
    pub open spec fn started(&self, rom_data: Vec<u8>, header: CartridgeHeader, has_ram: bool, has_battery: bool, saved: Option<Vec<u8>>) -> bool {
        &&& (self.rom_data@ == rom_data@)
        &&& (self.header == header)
        &&& (self.external_ram@.len() == Self::initial_ram_len(header, has_ram))
        &&& (has_ram && header.ram_size > 0 && has_battery && saved is Some ==> ({
                let s = saved->0@;
                &&& self.external_ram@.subrange(0, if s.len() < header.ram_size { s.len() as int } else { header.ram_size as int })
                    == s.subrange(0, if s.len() < header.ram_size { s.len() as int } else { header.ram_size as int })
                &&& forall|k: int| s.len() <= k < header.ram_size ==> self.external_ram@[k] == 0
            }))
        &&& (!self.ram_enabled)
        &&& (!self.banking_mode)
        &&& (self.current_rom_bank == 1)
        &&& (self.current_ram_bank == 0)
        &&& (self.has_battery == has_battery)
        &&& (!self.dirty)
    }

    /// A fresh controller: bank 1 selected, RAM disabled, mode 0. A battery cartridge with a
    /// save starts from the saved bytes (resized to the header's RAM size); otherwise RAM of the
    /// header's size holds random bytes.
    pub fn new(
        rom_data: Vec<u8>,
        header: CartridgeHeader,
        has_ram: bool,
        has_battery: bool,
        saved: Option<Vec<u8>>,
    ) -> (r: Self)
        ensures
            r.started(rom_data, header, has_ram, has_battery, saved),
    {
        let mut external_ram: Vec<u8>;
        if has_ram && header.ram_size > 0 {
            let size = header.ram_size as usize;
            if has_battery && saved.is_some() {
                external_ram = match saved {
                    Some(data) => data,
                    None => Vec::new(),
                };
                let ghost s = external_ram@;
                external_ram.resize(size, 0);
                proof {
                    if s.len() < size {
                        assert forall|k: int| s.len() <= k < size implies external_ram@[k] == 0 by {
                            assert(vstd::pervasive::cloned::<u8>(0u8, external_ram@[k]));
                        }
                    }
                }
            } else {
                external_ram = vec![0; size];
                fill_random(&mut external_ram);
            }
        } else {
            external_ram = Vec::new();
        }

        let ghost ram = external_ram@;
        proof {
            if has_ram && header.ram_size > 0 && has_battery && saved is Some {
                let s = saved->0@;
                let n: int = if s.len() < header.ram_size { s.len() as int } else { header.ram_size as int };
                assert(ram.subrange(0, n) =~= s.subrange(0, n));
            }
        }
        Self {
            header,
            rom_data,
            external_ram,
            ram_enabled: false,
            banking_mode: false,
            current_rom_bank: 1,
            current_ram_bank: 0,
            has_battery,
            dirty: false,
        }
    }

    fn rom_bank_count(&self) -> (r: usize)
        ensures
            r == rom_bank_count_spec(self.rom_data@.len()),
    {
        let n = self.rom_data.len() / 0x4000;
        if n >= 1 {
            n
        } else {
            1
        }
    }

    fn ram_bank_count(&self) -> (r: usize)
        ensures
            r == ram_bank_count_spec(self.external_ram@.len()),
    {
        if self.external_ram.len() == 0 {
            0
        } else {
            let n = self.external_ram.len() / 0x2000;
            if n >= 1 {
                n
            } else {
                1
            }
        }
    }

    fn lower_rom_bank(&self) -> (r: usize)
        ensures
            r == self.lower_bank(),
    {
        if self.banking_mode {
            (self.current_rom_bank & 0x60) % self.rom_bank_count()
        } else {
            0
        }
    }

    fn upper_rom_bank(&self) -> (r: usize)
        ensures
            r == self.upper_bank(),
    {
        self.current_rom_bank % self.rom_bank_count()
    }

    fn ram_bank(&self) -> (r: usize)
        ensures
            r == self.ram_bank_spec(),
    {
        if !self.banking_mode || self.external_ram.len() == 0 {
            0
        } else {
            self.current_ram_bank % self.ram_bank_count()
        }
    }

    /// Whether the RAM must be written to the save file when the cartridge is dropped.
    pub fn needs_save(&self) -> (r: bool)
        ensures
            r == (self.has_battery && self.dirty && self.external_ram@.len() > 0),
    {
        self.has_battery && self.dirty && self.external_ram.len() > 0
    }
}

impl Mbc for Mbc1 {
    fn read_rom(&self, address: u16) -> (r: u8)
        ensures
            r == self.rom_value(address),
    {
        let bank = if address < 0x4000 {
            self.lower_rom_bank()
        } else {
            self.upper_rom_bank()
        };
        let len = self.rom_data.len();
        proof {
            lemma_bank_offset(bank, len as nat, 0x4000, address as usize);
        }
        let addr = (bank * 0x4000) | ((address as usize) & 0x3FFF);
        get_or_ff(&self.rom_data, addr)
    }

    fn read_ram(&self, address: u16) -> (r: u8)
        ensures
            r == self.ram_value(address),
    {
        if !self.ram_enabled || self.external_ram.len() == 0 {
            return 0xFF;
        }
        let bank = self.ram_bank();
        let len = self.external_ram.len();
        proof {
            lemma_bank_offset(bank, len as nat, 0x2000, address as usize);
        }
        let addr = (bank * 0x2000) | ((address as usize) & 0x1FFF);
        get_or_ff(&self.external_ram, addr)
    }

    fn write_rom(&mut self, address: u16, value: u8)
        ensures
            Mbc1::rom_written(old(self), final(self), address, value),
    {
        if address <= 0x1FFF {
            self.ram_enabled = value == 0x0A;
        } else if address <= 0x3FFF {
            let r = if (value as usize) & 0x1F == 0 {
                1
            } else {
                (value as usize) & 0x1F
            };
            self.current_rom_bank = (self.current_rom_bank & 0x60) | r;
        } else if address <= 0x5FFF {
            if !self.banking_mode {
                self.current_rom_bank = self.current_rom_bank & 0x1F | (((value as usize) & 0x03) << 5usize);
            } else {
                self.current_ram_bank = (value as usize) & 0x03;
            }
        } else if address <= 0x7FFF {
            self.banking_mode = (value & 0x01) == 0x01;
        }
    }

    fn write_ram(&mut self, address: u16, value: u8)
        ensures
            Mbc1::ram_written(old(self), final(self), address, value),
    {
        if !self.ram_enabled || self.external_ram.len() == 0 {
            return;
        }
        let bank = self.ram_bank();
        let len = self.external_ram.len();
        proof {
            lemma_bank_offset(bank, len as nat, 0x2000, address as usize);
        }
        let addr = (bank * 0x2000) | ((address as usize) & 0x1FFF);
        if addr < self.external_ram.len() {
            if self.external_ram[addr] != value {
                self.external_ram.set(addr, value);
                self.dirty = true;
            } else {
                assert(old(self).external_ram@.update(addr as int, value) =~= old(self).external_ram@);
            }
        }
    }

    fn get_battery_ram(&self) -> (r: Option<&[u8]>)
        ensures
            r is Some <==> (self.has_battery && self.external_ram@.len() > 0),
            r matches Some(ram) ==> ram@ == self.external_ram@,
    {
        if self.has_battery && self.external_ram.len() > 0 {
            Some(self.external_ram.as_slice())
        } else {
            None
        }
    }

    fn set_battery_ram(&mut self, data: &[u8])
        ensures
            Mbc1::battery_written(old(self), final(self), data@),
    {
        if self.has_battery && self.external_ram.len() > 0 {
            copy_prefix(&mut self.external_ram, data);
        }
    }
}

/// With RAM enabled, a RAM write that lands inside the RAM is read back; a disabled RAM reads
/// 0xFF, and writing 0x0A to 0x0000..=0x1FFF enables it while any other value disables it.
pub proof fn lemma_ram_write_then_read(before: Mbc1, after: Mbc1, address: u16, value: u8, enable: u8)
    requires
        Mbc1::ram_written(&before, &after, address, value),
        before.ram_enabled,
        0 <= before.ram_index(address) < before.external_ram@.len(),
    ensures
        after.ram_value(address) == value,
        before.after_write_rom(0x0000, enable).ram_enabled == (enable == 0x0A),
        enable != 0x0A ==> before.after_write_rom(0x0000, enable).ram_value(address) == 0xFF,
{
}

/// A write to 0x2000..=0x3FFF selects the bank mapped at 0x4000..=0x7FFF: its five low bits
/// (0 read as 1) under the two upper bank bits already set, modulo the number of banks; a read
/// at 0x4000 + o then gives byte o of that bank.
pub proof fn lemma_rom_bank_select(m: Mbc1, address: u16, value: u8, offset: u16)
    requires
        0x2000 <= address <= 0x3FFF,
        offset < 0x4000,
    ensures
        ({
            let low = if value % 32 == 0 { 1 } else { value % 32 };
            let bank = ((m.current_rom_bank / 32) % 4 * 32 + low) % (rom_bank_count_spec(m.rom_data@.len()) as int);
            m.after_write_rom(address, value).rom_value((0x4000 + offset) as u16) == byte_or_ff(
                m.rom_data@,
                bank * 0x4000 + offset,
            )
        }),
{
    let cur = m.current_rom_bank;
    let v = value as usize;
    assert(v < 256 ==> v & 0x1F == v % 32 && (v & 0x1F == 0 ==> (cur & 0x60) | 1 == (cur / 32) % 4 * 32 + 1) && (v & 0x1F
        != 0 ==> (cur & 0x60) | (v & 0x1F) == (cur / 32) % 4 * 32 + v % 32)) by (bit_vector);
    assert(((0x4000 + offset) as u16) % 0x4000 == offset);
}

} // verus!
