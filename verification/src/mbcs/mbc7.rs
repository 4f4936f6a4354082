use vstd::prelude::*;
use crate::cartridge::{CartridgeHeader, Mbc};
use super::{banked_read, byte_or_ff, get_or_ff};

verus! {

/// EEPROM command codes (upper nibble of the 8-bit command).
pub const EEPROM_EWDS: u16 = 0x00;
pub const EEPROM_WRAL: u16 = 0x10;
pub const EEPROM_ERAL: u16 = 0x20;
pub const EEPROM_EWEN: u16 = 0x30;
pub const EEPROM_WRITE: u16 = 0x40;
pub const EEPROM_READ: u16 = 0x80;
pub const EEPROM_ERASE: u16 = 0xC0;

#[derive(PartialEq, Eq, Structural, Clone, Copy, Debug)]
pub enum EepromState {
    Ready,
    Command,
    Address,
    Data,
    Write,
}

/// MBC7: ROM banking, a serial 256-byte EEPROM and an accelerometer.
pub struct Mbc7 {
    pub rom_data: Vec<u8>,
    pub header: CartridgeHeader,
    pub ram: Vec<u8>,
    pub rom_bank: usize,
    pub ram_enabled: bool,
    pub eeprom_write_enabled: bool,
    pub eeprom_cs: bool,
    pub eeprom_sk: bool,
    pub eeprom_di: bool,
    pub eeprom_do: bool,
    pub eeprom_state: EepromState,
    pub eeprom_command: u16,
    pub eeprom_address: u16,
    pub eeprom_data: u16,
    pub eeprom_bit_counter: u8,
    pub accel_x: i16,
    pub accel_y: i16,
    pub accel_enabled: bool,
    /// Set when disabling the RAM asks for the EEPROM to be written to the save file.
    pub flush_requested: bool,
}

impl Mbc7 {
    pub open spec fn rom_written(old: &Mbc7, new: &Mbc7, address: u16, value: u8) -> bool {
        &&& *new == (if 0x2000 <= address <= 0x3FFF { Mbc7 { rom_bank: if value == 0 { 1 } else { value as usize }, ..*old } } else if 0x4000 <= address <= 0x5FFF { Mbc7 { ram_enabled: value & 0x0F == 0x0A, flush_requested: old.flush_requested || (old.ram_enabled && value & 0x0F != 0x0A), ..*old } } else { *old })
    }

    pub open spec fn ram_written(old: &Mbc7, new: &Mbc7, address: u16, value: u8) -> bool {
        &&& old.ram_enabled && address == 0xA080 ==> new.ram@ == old.ram_after_eeprom(value) && *new == (Mbc7 { ram: new.ram, ..old.after_eeprom(value) })
        &&& !(old.ram_enabled && address == 0xA080) ==> *new == *old
    }

    pub open spec fn battery_written(old: &Mbc7, new: &Mbc7, data: Seq<u8>) -> bool {
        &&& *new == *old
    }

    pub open spec fn rom_value(&self, address: u16) -> u8 {
        if address <= 0x3FFF {
            byte_or_ff(self.rom_data@, address as int)
        } else if address <= 0x7FFF {
            byte_or_ff(self.rom_data@, self.rom_bank * 0x4000 + (address - 0x4000))
        } else {
            0xFF
        }
    }

    pub open spec fn ram_value(&self, address: u16) -> u8 {
        if !self.ram_enabled {
            0xFF
        } else if address == 0xA000 {
            ((self.accel_x >> 8u16) & 0xFF) as u8
        } else if address == 0xA001 {
            (self.accel_x & 0xFF) as u8
        } else if address == 0xA002 {
            ((self.accel_y >> 8u16) & 0xFF) as u8
        } else if address == 0xA003 {
            (self.accel_y & 0xFF) as u8
        } else if address == 0xA080 {
            if self.eeprom_do { 1 } else { 0 }
        } else {
            0xFF
        }
    }

    /// The EEPROM state after a command byte has been shifted in completely.
    pub open spec fn after_command(&self) -> Self {
        let op = self.eeprom_command & 0xF0;
        if op == EEPROM_EWDS {
            Mbc7 { eeprom_write_enabled: false, eeprom_state: EepromState::Ready, ..*self }
        } else if op == EEPROM_EWEN {
            Mbc7 { eeprom_write_enabled: true, eeprom_state: EepromState::Ready, ..*self }
        } else if op == EEPROM_READ || op == EEPROM_WRITE || op == EEPROM_ERASE {
            Mbc7 { eeprom_address: 0, eeprom_state: EepromState::Address, eeprom_bit_counter: 0, ..*self }
        } else if op == EEPROM_WRAL || op == EEPROM_ERAL {
            Mbc7 { eeprom_state: EepromState::Data, eeprom_bit_counter: 0, ..*self }
        } else {
            Mbc7 { eeprom_state: EepromState::Ready, ..*self }
        }
    }

    /// Whether a write of `value` to the EEPROM port is a clock rising edge with chip select.
    pub open spec fn is_clock_edge(&self, value: u8) -> bool {
        !self.eeprom_sk && (value & 0b0100) != 0 && (value & 0b1000) != 0
    }

    /// The registers after one data bit has been clocked in (RAM contents aside).
    pub open spec fn after_clock(&self, bit: u16) -> Self {
        match self.eeprom_state {
            EepromState::Ready => Mbc7 {
                eeprom_command: 0,
                eeprom_bit_counter: 0,
                eeprom_state: EepromState::Command,
                ..*self
            },
            EepromState::Command => {
                let t = Mbc7 {
                    eeprom_command: ((self.eeprom_command << 1u16) | bit) as u16,
                    eeprom_bit_counter: ((self.eeprom_bit_counter + 1) % 256) as u8,
                    ..*self
                };
                if t.eeprom_bit_counter == 8 { t.after_command() } else { t }
            },
            EepromState::Address => {
                let t = Mbc7 {
                    eeprom_address: ((self.eeprom_address << 1u16) | bit) as u16,
                    eeprom_bit_counter: ((self.eeprom_bit_counter + 1) % 256) as u8,
                    ..*self
                };
                if t.eeprom_bit_counter == 8 {
                    if (t.eeprom_command & 0xF0) == EEPROM_READ {
                        Mbc7 {
                            eeprom_data: byte_or_ff(t.ram@, t.eeprom_address as int) as u16,
                            eeprom_state: EepromState::Data,
                            eeprom_bit_counter: 0,
                            ..t
                        }
                    } else {
                        Mbc7 { eeprom_state: EepromState::Write, eeprom_bit_counter: 0, ..t }
                    }
                } else {
                    t
                }
            },
            EepromState::Data => {
                let t = Mbc7 {
                    eeprom_data: ((self.eeprom_data << 1u16) | bit) as u16,
                    eeprom_bit_counter: ((self.eeprom_bit_counter + 1) % 256) as u8,
                    ..*self
                };
                if t.eeprom_bit_counter == 8 { Mbc7 { eeprom_state: EepromState::Ready, ..t } } else { t }
            },
            EepromState::Write => Mbc7 { eeprom_state: EepromState::Ready, ..*self },
        }
    }

    /// The EEPROM contents after one data bit has been clocked in: a completed data byte or a
    /// write command stores only while writes are enabled.
    pub open spec fn ram_after_clock(&self, bit: u16) -> Seq<u8> {
        let ram = self.ram@;
        let addr = self.eeprom_address as int;
        if !self.eeprom_write_enabled {
            ram
        } else {
            match self.eeprom_state {
                EepromState::Data => {
                    let data = ((self.eeprom_data << 1u16) | bit) as u16;
                    if (self.eeprom_bit_counter + 1) % 256 == 8 && addr < ram.len() {
                        ram.update(addr, data as u8)
                    } else {
                        ram
                    }
                },
                EepromState::Write => {
                    let op = self.eeprom_command & 0xF0;
                    if op == EEPROM_WRITE {
                        if addr < ram.len() { ram.update(addr, self.eeprom_data as u8) } else { ram }
                    } else if op == EEPROM_WRAL {
                        Seq::new(ram.len(), |i: int| self.eeprom_data as u8)
                    } else if op == EEPROM_ERAL {
                        Seq::new(ram.len(), |i: int| 0xFFu8)
                    } else {
                        ram
                    }
                },
                _ => ram,
            }
        }
    }

    /// The port pins after a write of `value`: bit 3 chip select, bit 2 clock, bit 1 data in.
    pub open spec fn with_pins(&self, value: u8) -> Self {
        Mbc7 {
            eeprom_cs: (value & 0b1000) != 0,
            eeprom_sk: (value & 0b0100) != 0,
            eeprom_di: (value & 0b0010) != 0,
            ..*self
        }
    }

    /// The registers after a write of `value` to the EEPROM port (RAM contents aside).
    pub open spec fn after_eeprom(&self, value: u8) -> Self {
        let bit: u16 = if (value & 0b0010) != 0 { 1 } else { 0 };
        if self.is_clock_edge(value) {
            self.with_pins(value).after_clock(bit)
        } else {
            self.with_pins(value)
        }
    }

    /// The EEPROM contents after a write of `value` to the EEPROM port.
    pub open spec fn ram_after_eeprom(&self, value: u8) -> Seq<u8> {
        let bit: u16 = if (value & 0b0010) != 0 { 1 } else { 0 };
        if self.is_clock_edge(value) {
            self.with_pins(value).ram_after_clock(bit)
        } else {
            self.ram@
        }
    }

    /// The controller that `new` builds from these arguments.
    pub open spec fn started(&self, rom_data: Vec<u8>, header: CartridgeHeader, saved: Option<Vec<u8>>) -> bool {
        &&& (self.rom_data@ == rom_data@)
        &&& (self.header == header)
        &&& (self.ram@ == (if saved is Some && saved->0@.len() == 256 {
                saved->0@
            } else {
                Seq::new(256, |i: int| 0u8)
            }))
        &&& (self.rom_bank == 1)
        &&& (!self.ram_enabled)
        &&& (!self.eeprom_write_enabled)
        &&& (!self.eeprom_cs)
        &&& (!self.eeprom_sk)
        &&& (!self.eeprom_di)
        &&& (!self.eeprom_do)
        &&& (self.eeprom_state == EepromState::Ready)
        &&& (self.eeprom_command == 0)
        &&& (self.eeprom_address == 0)
        &&& (self.eeprom_data == 0)
        &&& (self.eeprom_bit_counter == 0)
        &&& (self.accel_x == -0x8000)
        &&& (self.accel_y == -0x8000)
        &&& (!self.accel_enabled)
        &&& (!self.flush_requested)
    }

    /// A fresh controller: bank 1, RAM disabled, 256 bytes of zeroed EEPROM (or the save where
    /// it has exactly that size), EEPROM ready, accelerometer centred at 0x8000.
    pub fn new(rom_data: Vec<u8>, header: CartridgeHeader, saved: Option<Vec<u8>>) -> (r: Self)
        ensures
            r.started(rom_data, header, saved),
    {
        let mut ram: Vec<u8> = vec![0; 256];
        assert(ram@ =~= Seq::new(256, |i: int| 0u8));
        if let Some(data) = saved {
            if data.len() == 256 {
                ram = data;
            }
        }
        Self {
            rom_data,
            header,
            ram,
            rom_bank: 1,
            ram_enabled: false,
            eeprom_write_enabled: false,
            eeprom_cs: false,
            eeprom_sk: false,
            eeprom_di: false,
            eeprom_do: false,
            eeprom_state: EepromState::Ready,
            eeprom_command: 0,
            eeprom_address: 0,
            eeprom_data: 0,
            eeprom_bit_counter: 0,
            accel_x: -0x8000,
            accel_y: -0x8000,
            accel_enabled: false,
            flush_requested: false,
        }
    }

    fn process_eeprom_command(&mut self)
        ensures
            *final(self) == old(self).after_command(),
    {
        let op = self.eeprom_command & 0xF0;
        if op == EEPROM_EWDS {
            self.eeprom_write_enabled = false;
            self.eeprom_state = EepromState::Ready;
        } else if op == EEPROM_EWEN {
            self.eeprom_write_enabled = true;
            self.eeprom_state = EepromState::Ready;
        } else if op == EEPROM_READ || op == EEPROM_WRITE || op == EEPROM_ERASE {
            self.eeprom_address = 0;
            self.eeprom_state = EepromState::Address;
            self.eeprom_bit_counter = 0;
        } else if op == EEPROM_WRAL || op == EEPROM_ERAL {
            self.eeprom_state = EepromState::Data;
            self.eeprom_bit_counter = 0;
        } else {
            self.eeprom_state = EepromState::Ready;
        }
    }

    /// Drives the EEPROM's serial port: bit 3 chip select, bit 2 clock, bit 1 data in. On a
    /// rising clock edge with chip select the state machine takes one bit.
    fn handle_eeprom(&mut self, value: u8)
        ensures
            final(self).ram@ == old(self).ram_after_eeprom(value),
            *final(self) == (Mbc7 { ram: final(self).ram, ..old(self).after_eeprom(value) }),
    {
        let old_sk = self.eeprom_sk;
        self.eeprom_cs = (value & 0b1000) != 0;
        self.eeprom_sk = (value & 0b0100) != 0;
        self.eeprom_di = (value & 0b0010) != 0;
        let bit: u16 = if self.eeprom_di { 1 } else { 0 };
        if !old_sk && self.eeprom_sk && self.eeprom_cs {
            self.clock_bit(bit);
        }
    }

    /// Takes one bit on a rising clock edge.
    #[verifier::rlimit(60)]
    fn clock_bit(&mut self, bit: u16)
        ensures
            final(self).ram@ == old(self).ram_after_clock(bit),
            *final(self) == (Mbc7 { ram: final(self).ram, ..old(self).after_clock(bit) }),
    {
        match self.eeprom_state {
            EepromState::Ready => {
                self.eeprom_command = 0;
                self.eeprom_bit_counter = 0;
                self.eeprom_state = EepromState::Command;
            },
            EepromState::Command => self.command_bit(bit),
            EepromState::Address => self.address_bit(bit),
            EepromState::Data => self.data_bit(bit),
            EepromState::Write => self.finish_write(),
        }
    }

    fn command_bit(&mut self, bit: u16)
        requires
            old(self).eeprom_state == EepromState::Command,
        ensures
            final(self).ram == old(self).ram,
            *final(self) == old(self).after_clock(bit),
    {
        self.eeprom_command = (self.eeprom_command << 1u16) | bit;
        self.eeprom_bit_counter = self.eeprom_bit_counter.wrapping_add(1);
        if self.eeprom_bit_counter == 8 {
            self.process_eeprom_command();
        }
    }

    fn address_bit(&mut self, bit: u16)
        requires
            old(self).eeprom_state == EepromState::Address,
        ensures
            final(self).ram == old(self).ram,
            *final(self) == old(self).after_clock(bit),
    {
        self.eeprom_address = (self.eeprom_address << 1u16) | bit;
        self.eeprom_bit_counter = self.eeprom_bit_counter.wrapping_add(1);
        if self.eeprom_bit_counter == 8 {
            if (self.eeprom_command & 0xF0) == EEPROM_READ {
                self.eeprom_data = get_or_ff(&self.ram, self.eeprom_address as usize) as u16;
                self.eeprom_state = EepromState::Data;
                self.eeprom_bit_counter = 0;
            } else {
                self.eeprom_state = EepromState::Write;
                self.eeprom_bit_counter = 0;
            }
        }
    }

    fn data_bit(&mut self, bit: u16)
        requires
            old(self).eeprom_state == EepromState::Data,
        ensures
            final(self).ram@ == old(self).ram_after_clock(bit),
            *final(self) == (Mbc7 { ram: final(self).ram, ..old(self).after_clock(bit) }),
    {
        self.eeprom_data = (self.eeprom_data << 1u16) | bit;
        self.eeprom_bit_counter = self.eeprom_bit_counter.wrapping_add(1);
        if self.eeprom_bit_counter == 8 {
            if self.eeprom_write_enabled {
                let addr = self.eeprom_address as usize;
                if addr < self.ram.len() {
                    self.ram.set(addr, self.eeprom_data as u8);
                }
            }
            self.eeprom_state = EepromState::Ready;
        }
    }

    /// Carries out a pending WRITE, WRAL or ERAL (while writes are enabled) and returns to Ready.
    fn finish_write(&mut self)
        requires
            old(self).eeprom_state == EepromState::Write,
        ensures
            final(self).ram@ == old(self).ram_after_clock(0),
            *final(self) == (Mbc7 { ram: final(self).ram, eeprom_state: EepromState::Ready, ..*old(self) }),
    {
        if self.eeprom_write_enabled {
            let op = self.eeprom_command & 0xF0;
            if op == EEPROM_WRITE {
                let addr = self.eeprom_address as usize;
                if addr < self.ram.len() {
                    self.ram.set(addr, self.eeprom_data as u8);
                }
            } else if op == EEPROM_WRAL {
                let fill = self.eeprom_data as u8;
                self.fill_ram(fill);
            } else if op == EEPROM_ERAL {
                self.fill_ram(0xFF);
            }
        }
        self.eeprom_state = EepromState::Ready;
    }

    fn fill_ram(&mut self, fill: u8)
        ensures
            final(self).ram@ == Seq::new(old(self).ram@.len(), |i: int| fill),
            *final(self) == (Mbc7 { ram: final(self).ram, ..*old(self) }),
    {
        let n = self.ram.len();
        let mut addr: usize = 0;
        while addr < n
            invariant
                0 <= addr <= n,
                n == old(self).ram@.len(),
                self.ram@.len() == n,
                forall|k: int| 0 <= k < addr ==> self.ram@[k] == fill,
                *self == (Mbc7 { ram: self.ram, ..*old(self) }),
            decreases n - addr,
        {
            self.ram.set(addr, fill);
            addr = addr + 1;
        }
        assert(self.ram@ =~= Seq::new(old(self).ram@.len(), |i: int| fill));
    }
}

impl Mbc for Mbc7 {
    fn read_rom(&self, address: u16) -> (r: u8)
        ensures
            r == self.rom_value(address),
    {
        if address <= 0x3FFF {
            get_or_ff(&self.rom_data, address as usize)
        } else if address <= 0x7FFF {
            banked_read(&self.rom_data, self.rom_bank, 0x4000, address as usize - 0x4000)
        } else {
            0xFF
        }
    }

    fn write_rom(&mut self, address: u16, value: u8)
        ensures
            Mbc7::rom_written(old(self), final(self), address, value),
    {
        if 0x2000 <= address && address <= 0x3FFF {
            self.rom_bank = value as usize;
            if self.rom_bank == 0 {
                self.rom_bank = 1;
            }
        } else if 0x4000 <= address && address <= 0x5FFF {
            let was_enabled = self.ram_enabled;
            self.ram_enabled = (value & 0x0F) == 0x0A;
            if was_enabled && !self.ram_enabled {
                self.flush_requested = true;
            }
        }
    }

    fn read_ram(&self, address: u16) -> (r: u8)
        ensures
            r == self.ram_value(address),
    {
        if !self.ram_enabled {
            return 0xFF;
        }
        if address == 0xA000 {
            ((self.accel_x >> 8u16) & 0xFF) as u8
        } else if address == 0xA001 {
            (self.accel_x & 0xFF) as u8
        } else if address == 0xA002 {
            ((self.accel_y >> 8u16) & 0xFF) as u8
        } else if address == 0xA003 {
            (self.accel_y & 0xFF) as u8
        } else if address == 0xA080 {
            if self.eeprom_do {
                1
            } else {
                0
            }
        } else {
            0xFF
        }
    }

    fn write_ram(&mut self, address: u16, value: u8)
        ensures
            Mbc7::ram_written(old(self), final(self), address, value),
    {
        if !self.ram_enabled {
            return;
        }
        if address == 0xA080 {
            self.handle_eeprom(value);
        }
    }

    fn get_battery_ram(&self) -> (r: Option<&[u8]>)
        ensures
            r is None,
    {
        None
    }

    fn set_battery_ram(&mut self, data: &[u8])
        ensures
            Mbc7::battery_written(old(self), final(self), data@),
    {
    }
}

/// While EEPROM writes are disabled, no write to the EEPROM port changes its contents.
pub proof fn lemma_eeprom_write_protect(m: Mbc7, value: u8)
    requires
        !m.eeprom_write_enabled,
    ensures
        m.ram_after_eeprom(value) == m.ram@,
{
}

} // verus!
