use vstd::prelude::*;
use crate::cartridge::{GbMode, Mbc};
use crate::cpu::{opcode_size, opcode_size_spec, Cpu};
use crate::hdma::Hdma;
use crate::interrupts::{get_interrupt_source, go_interrupt, interrupt_source_spec, Interrupt};
use crate::joypad::{joyp_value, Joypad, JoypadButton};
use crate::mbcs::CartridgeMbc;
use crate::memory::Memory;
use crate::ppu::Ppu;
use crate::rng::fill_random;
use crate::serial::Serial;
use crate::sound::{RawSample, Sound, CLOCK_RATE};
use crate::timer::{drain_count, frequency_spec, tima_steps, Timer};

verus! {

/// The hardware model being emulated.
#[derive(PartialEq, Eq, Structural, Clone, Copy, Debug)]
pub enum GbTypes {
    Dmg,
    Mgb,
    Cgb,
    Sgb,
}

/// Which model a ROM is run on: picked from the cartridge, or forced.
#[derive(PartialEq, Eq, Structural, Clone, Copy, Debug, Default)]
pub enum ModelSelection {
    #[default]
    Auto,
    Dmg,
    Cgb,
}

impl ModelSelection {
    pub open spec fn label(self) -> &'static str {
        match self {
            ModelSelection::Auto => "Auto",
            ModelSelection::Dmg => "DMG",
            ModelSelection::Cgb => "CGB",
        }
    }

    pub fn as_str(self) -> (r: &'static str)
        ensures
            r == self.label(),
    {
        match self {
            ModelSelection::Auto => "Auto",
            ModelSelection::Dmg => "DMG",
            ModelSelection::Cgb => "CGB",
        }
    }
}

/// The CGB CPU speed.
#[derive(PartialEq, Eq, Structural, Clone, Copy, Debug)]
pub enum SpeedMode {
    Normal,
    Double,
}

/// A CPU write to memory, as the debugger lists it.
#[derive(Clone, Copy, Debug)]
pub struct MemoryWriteEvent {
    pub address: u16,
    pub value: u8,
}

/// An OAM entry as the debugger lists it.
#[derive(Clone, Copy, Debug)]
pub struct OamSprite {
    pub index: usize,
    pub y: u8,
    pub x: u8,
    pub tile_number: u8,
    pub attributes: u8,
}

/// The whole machine: CPU, PPU, APU, timer, joypad, serial port, cartridge and RAM.
pub struct Gb {
    pub cpu: Cpu,
    pub ppu: Ppu,
    pub serial: Serial,
    pub joypad: Joypad,
    pub sound: Sound,
    pub timer: Timer,
    pub mbc: CartridgeMbc,
    pub gb_speed: u8,
    pub gb_type: GbTypes,
    pub gb_mode: GbMode,
    pub rp: u8,
    pub wram: Vec<u8>,
    pub hram: Vec<u8>,
    pub ram_bank: usize,
    pub svbk: u8,
    pub ie_flag: u8,
    pub if_flag: u8,
    pub boot_rom_enabled: u8,
    pub prepare_speed_switch: bool,
    pub speed_mode: SpeedMode,
    pub serial_stdout_enabled: bool,
    pub debug_write_log: Vec<MemoryWriteEvent>,
    pub audio_samples: Vec<RawSample>,
}

/// The CPU registers (A, F, B, C, D, E, H, L) after the boot ROM of each model.
pub open spec fn register_values_spec(gb_mode: GbMode, gb_type: GbTypes) -> [u8; 8] {
    if gb_mode == GbMode::DmgMode || gb_mode == GbMode::NonCgbMode {
        match gb_type {
            GbTypes::Dmg => [0x01, 0xB0, 0x00, 0x13, 0x00, 0xD8, 0x01, 0x4D],
            GbTypes::Mgb => [0x01, 0xB0, 0x00, 0x13, 0x00, 0xD8, 0x01, 0x4D],
            GbTypes::Cgb => [0x11, 0xB0, 0x43, 0x00, 0x00, 0x08, 0x99, 0x1A],
            GbTypes::Sgb => [0x01, 0x00, 0x00, 0x14, 0x00, 0x00, 0xC0, 0x60],
        }
    } else {
        [0x11, 0x80, 0x00, 0x00, 0x00, 0x08, 0x00, 0x7C]
    }
}

pub fn get_register_values(gb_mode: &GbMode, gb_type: &GbTypes) -> (r: [u8; 8])
    ensures
        r == register_values_spec(*gb_mode, *gb_type),
{
    if *gb_mode == GbMode::DmgMode || *gb_mode == GbMode::NonCgbMode {
        match gb_type {
            GbTypes::Dmg => [0x01, 0xB0, 0x00, 0x13, 0x00, 0xD8, 0x01, 0x4D],
            GbTypes::Mgb => [0x01, 0xB0, 0x00, 0x13, 0x00, 0xD8, 0x01, 0x4D],
            GbTypes::Cgb => [0x11, 0xB0, 0x43, 0x00, 0x00, 0x08, 0x99, 0x1A],
            GbTypes::Sgb => [0x01, 0x00, 0x00, 0x14, 0x00, 0x00, 0xC0, 0x60],
        }
    } else {
        [0x11, 0x80, 0x00, 0x00, 0x00, 0x08, 0x00, 0x7C]
    }
}

/// DIV after the boot ROM: the high byte of the internal divider each model leaves.
pub open spec fn div_value_spec(gb_type: GbTypes, gb_mode: GbMode) -> u8 {
    let divider: u16 = if gb_mode == GbMode::CgbMode {
        0x1EA0
    } else {
        match gb_type {
            GbTypes::Dmg | GbTypes::Mgb => 0xABCC,
            GbTypes::Sgb => 0x0000,
            GbTypes::Cgb => 0x267C,
        }
    };
    (divider / 256) as u8
}

pub fn get_div_values(gb_type: &GbTypes, gb_mode: &GbMode) -> (r: u8)
    ensures
        r == div_value_spec(*gb_type, *gb_mode),
{
    let div_value: u16 = if *gb_mode == GbMode::CgbMode {
        0x1EA0
    } else {
        match gb_type {
            GbTypes::Dmg | GbTypes::Mgb => 0xABCC,
            GbTypes::Sgb => 0x0000,
            GbTypes::Cgb => 0x267C,
        }
    };
    (div_value / 256) as u8
}

/// The debugger's write log after a write: at most 64 writes are kept per step.
pub open spec fn logged(log: Seq<MemoryWriteEvent>, address: u16, value: u8) -> Seq<MemoryWriteEvent> {
    if log.len() < 64 {
        log.push(MemoryWriteEvent { address, value })
    } else {
        log
    }
}

impl Gb {
    /// What every operation keeps: a consistent PPU and APU, 0x7F bytes of HRAM, and WRAM
    /// of 8 KiB with bank 1 on DMG hardware, 32 KiB with a bank in 1..=7 on CGB hardware.
    pub open spec fn wf(&self) -> bool {
        &&& self.ppu.wf()
        &&& self.sound.wf()
        &&& self.hram.len() == 0x7F
        &&& if self.gb_type == GbTypes::Cgb {
            self.wram.len() == 0x8000 && 1 <= self.ram_bank <= 7
        } else {
            self.wram.len() == 0x2000 && self.ram_bank == 1
        }
    }

    /// The machine that `new` builds: every part at its power-on state; only the contents of WRAM and HRAM are left open (they start random).
    pub open spec fn powered_on(&self, mbc: CartridgeMbc, gb_mode: GbMode, gb_type: GbTypes) -> bool {
        &&& (self.wf())
        &&& (self.gb_mode == gb_mode && self.gb_type == gb_type)
        &&& (self.mbc == mbc)
        &&& (self.cpu.started(register_values_spec(gb_mode, gb_type)))
        &&& (self.ppu.started(gb_type == GbTypes::Cgb, gb_mode == GbMode::CgbMode))
        &&& (self.serial.started() && self.joypad.started() && self.sound.started())
        &&& (self.timer.started(div_value_spec(gb_type, gb_mode)))
        &&& (self.wram.len() == (if gb_type == GbTypes::Cgb { 0x8000usize } else { 0x2000usize }))
        &&& (self.rp == (if gb_type == GbTypes::Cgb { 0x3Eu8 } else { 0xFFu8 }))
        &&& (self.ram_bank == 1 && self.svbk == 0 && self.gb_speed == 0)
        &&& (self.ie_flag == 0 && self.if_flag == 0xE1 && self.boot_rom_enabled == 0)
        &&& (!self.prepare_speed_switch && self.speed_mode == SpeedMode::Normal)
        &&& (self.serial_stdout_enabled)
        &&& (self.debug_write_log@.len() == 0 && self.audio_samples@.len() == 0)
    }

    /// A machine at the state the boot ROM leaves: CGB hardware gets 32 KiB of WRAM and two
    /// VRAM banks; WRAM and HRAM start with random contents.
    pub fn new(mbc: CartridgeMbc, gb_mode: GbMode, gb_type: GbTypes) -> (r: Self)
        ensures
            r.powered_on(mbc, gb_mode, gb_type),
    {
        let registers = get_register_values(&gb_mode, &gb_type);
        let div = get_div_values(&gb_type, &gb_mode);
        let cgb_hardware = gb_type == GbTypes::Cgb;
        let mut wram: Vec<u8> = if cgb_hardware {
            vec![0; 0x8000]
        } else {
            vec![0; 0x2000]
        };
        let mut hram: Vec<u8> = vec![0; 0x7F];
        fill_random(&mut wram);
        fill_random(&mut hram);
        Gb {
            cpu: Cpu::new(registers),
            ppu: Ppu::new(cgb_hardware, gb_mode == GbMode::CgbMode),
            serial: Serial::new(),
            joypad: Joypad::new(),
            sound: Sound::new(),
            timer: Timer::new(div),
            mbc,
            gb_speed: 0,
            gb_type,
            gb_mode,
            rp: if cgb_hardware {
                0x3E
            } else {
                0xFF
            },
            wram,
            hram,
            ram_bank: 1,
            svbk: 0,
            ie_flag: 0,
            if_flag: 0xE1,
            boot_rom_enabled: 0,
            prepare_speed_switch: false,
            speed_mode: SpeedMode::Normal,
            serial_stdout_enabled: true,
            debug_write_log: Vec::with_capacity(16),
            audio_samples: Vec::new(),
        }
    }

    /// KEY1 as a CGB reads it: bit 7 the current speed, bit 0 a pending speed switch.
    pub open spec fn key1_spec(&self) -> u8 {
        if self.gb_type != GbTypes::Cgb {
            0xFF
        } else {
            0x7E | (if self.speed_mode == SpeedMode::Double { 0x80u8 } else { 0u8 }) | (if self.prepare_speed_switch {
                1u8
            } else {
                0u8
            })
        }
    }

    fn key1_value(&self) -> (r: u8)
        ensures
            r == self.key1_spec(),
    {
        if self.gb_type != GbTypes::Cgb {
            return 0xFF;
        }
        let current_speed: u8 = match self.speed_mode {
            SpeedMode::Normal => 0,
            SpeedMode::Double => 0x80,
        };
        0x7E | current_speed | (if self.prepare_speed_switch {
            1u8
        } else {
            0u8
        })
    }

    fn record_debug_write(&mut self, address: u16, value: u8)
        ensures
            *final(self) == (Gb { debug_write_log: final(self).debug_write_log, ..*old(self) }),
            final(self).debug_write_log@ == logged(old(self).debug_write_log@, address, value),
    {
        if self.debug_write_log.len() < 64 {
            self.debug_write_log.push(MemoryWriteEvent { address, value });
        }
    }

    /// The WRAM index of `address` in 0xC000..=0xFDFF (echo RAM mirrors 0xC000..=0xDDFF):
    /// bank 0 in the lower 4 KiB, the selected bank in the upper 4 KiB.
    pub open spec fn wram_index(&self, address: u16) -> int {
        if (0xC000 <= address <= 0xCFFF) || (0xE000 <= address <= 0xEFFF) {
            address as int % 0x1000
        } else {
            self.ram_bank * 0x1000 + address as int % 0x1000
        }
    }

    /// What a CPU read of `address` gives.
    pub open spec fn read_spec(&self, address: u16) -> u8 {
        if address <= 0x7FFF {
            self.mbc.rom_value(address)
        } else if address <= 0x9FFF {
            self.ppu.read_spec(address)
        } else if address <= 0xBFFF {
            self.mbc.ram_value(address)
        } else if address <= 0xFDFF {
            self.wram@[self.wram_index(address)]
        } else if address <= 0xFE9F {
            self.ppu.read_spec(address)
        } else if address <= 0xFEFF {
            0x00
        } else if address == 0xFF00 {
            self.joypad.data
        } else if address == 0xFF01 {
            self.serial.sb
        } else if address == 0xFF02 {
            self.serial.sc
        } else if address == 0xFF04 {
            self.timer.div
        } else if address == 0xFF05 {
            self.timer.tima
        } else if address == 0xFF06 {
            self.timer.tma
        } else if address == 0xFF07 {
            self.timer.tac
        } else if address == 0xFF0F {
            self.if_flag & 0x1F
        } else if (0xFF10 <= address <= 0xFF26) || (0xFF30 <= address <= 0xFF3F) {
            self.sound.read_spec(address)
        } else if (0xFF40 <= address <= 0xFF4B) || address == 0xFF4F || (0xFF51 <= address <= 0xFF55) || (0xFF68
            <= address <= 0xFF6B) {
            self.ppu.read_spec(address)
        } else if address == 0xFF4D {
            self.key1_spec()
        } else if address == 0xFF50 {
            self.boot_rom_enabled
        } else if address == 0xFF56 {
            if self.gb_type == GbTypes::Cgb { self.rp } else { 0xFF }
        } else if address == 0xFF70 {
            if self.gb_type == GbTypes::Cgb { 0xF8 | (self.svbk & 0x07) } else { 0xFF }
        } else if 0xFF80 <= address <= 0xFFFE {
            self.hram@[address as int % 0x80]
        } else if address == 0xFFFF {
            self.ie_flag & 0x1F
        } else {
            0xFF
        }
    }

    fn wram_offset(&self, address: u16) -> (r: usize)
        requires
            self.wf(),
            0xC000 <= address <= 0xFDFF,
        ensures
            r == self.wram_index(address),
            r < self.wram.len(),
    {
        if (0xC000 <= address && address <= 0xCFFF) || (0xE000 <= address && address <= 0xEFFF) {
            address as usize % 0x1000
        } else {
            self.ram_bank * 0x1000 + address as usize % 0x1000
        }
    }

    pub fn read_byte(&self, address: u16) -> (r: u8)
        requires
            self.wf(),
        ensures
            r == self.read_spec(address),
    {
        if address <= 0x7FFF {
            self.mbc.read_rom(address)
        } else if address <= 0x9FFF {
            self.ppu.read_byte(address)
        } else if address <= 0xBFFF {
            self.mbc.read_ram(address)
        } else if address <= 0xFDFF {
            self.wram[self.wram_offset(address)]
        } else if address <= 0xFE9F {
            self.ppu.read_byte(address)
        } else if address <= 0xFEFF {
            0x00
        } else if address == 0xFF00 {
            self.joypad.read_byte(address)
        } else if address == 0xFF01 || address == 0xFF02 {
            self.serial.read_byte(address)
        } else if 0xFF04 <= address && address <= 0xFF07 {
            self.timer.read_byte(address)
        } else if address == 0xFF0F {
            self.if_flag & 0x1F
        } else if (0xFF10 <= address && address <= 0xFF26) || (0xFF30 <= address && address <= 0xFF3F) {
            self.sound.read_byte(address)
        } else if (0xFF40 <= address && address <= 0xFF4B) || address == 0xFF4F || (0xFF51 <= address && address
            <= 0xFF55) || (0xFF68 <= address && address <= 0xFF6B) {
            self.ppu.read_byte(address)
        } else if address == 0xFF4D {
            self.key1_value()
        } else if address == 0xFF50 {
            self.boot_rom_enabled
        } else if address == 0xFF56 {
            if self.gb_type == GbTypes::Cgb {
                self.rp
            } else {
                0xFF
            }
        } else if address == 0xFF70 {
            if self.gb_type == GbTypes::Cgb {
                0xF8 | (self.svbk & 0x07)
            } else {
                0xFF
            }
        } else if 0xFF80 <= address && address <= 0xFFFE {
            self.hram[address as usize % 0x80]
        } else if address == 0xFFFF {
            self.ie_flag & 0x1F
        } else {
            0xFF
        }
    }

    /// The little-endian word at `address` (the high byte from `address + 1`, wrapping).
    pub fn read_word(&self, address: u16) -> (r: u16)
        requires
            self.wf(),
        ensures
            r == self.read_spec(address) as u16 + 256 * self.read_spec(address.wrapping_add(1)) as u16,
    {
        let low = self.read_byte(address);
        let high = self.read_byte(address.wrapping_add(1));
        low as u16 + 256 * high as u16
    }
}

impl Gb {
    /// What a read at `address` gives while VRAM holds `vram`.
    #[verifier::opaque]
    pub open spec fn read_with_vram(&self, vram: Seq<u8>, address: u16) -> u8 {
        if 0x8000 <= address <= 0x9FFF {
            if crate::ppu::mode_of_stat(self.ppu.stat) == crate::ppu::PpuMode::Transferring {
                0xFF
            } else {
                vram[self.ppu.vram_index(address)]
            }
        } else {
            self.read_spec(address)
        }
    }

    /// VRAM after the HDMA controller copies the first `n` bytes of a block from `source`
    /// to `destination`, each byte read after the previous one is written.
    pub open spec fn hdma_copy(&self, vram: Seq<u8>, source: u16, destination: u16, n: nat) -> Seq<u8>
        decreases n,
    {
        if n == 0 {
            vram
        } else {
            let prev = self.hdma_copy(vram, source, destination, (n - 1) as nat);
            let from = ((source + n - 1) % 0x10000) as u16;
            let to = ((destination + n - 1) % 0x10000) as u16;
            prev.update(self.ppu.vram_index(to), self.read_with_vram(prev, from))
        }
    }

    /// The machine after the HDMA controller copies one 16-byte block and moves on.
    pub open spec fn hdma_block_done(&self, next: &Gb) -> bool {
        &&& *next == (Gb { ppu: Ppu { vram: next.ppu.vram, hdma: self.ppu.hdma.advanced(), ..self.ppu }, ..*self })
        &&& next.ppu.vram@ == self.hdma_copy(self.ppu.vram@, self.ppu.hdma.source_spec(), self.ppu.hdma.destination_spec(), 16)
    }

    /// CPU cycles (M-cycles) one HDMA block takes: 8, or 16 at double speed.
    pub open spec fn hdma_block_cost(&self) -> usize {
        if self.speed_mode == SpeedMode::Normal { 8 } else { 16 }
    }

    fn hdma_block_mcycles(&self) -> (r: usize)
        ensures
            r == self.hdma_block_cost(),
    {
        match self.speed_mode {
            SpeedMode::Normal => 8,
            SpeedMode::Double => 16,
        }
    }

    /// Copies the byte at `from` to VRAM at `to`, for a machine that so far differs from
    /// `start` only in VRAM contents.
    fn copy_hdma_byte(&mut self, start: Ghost<Gb>, from: u16, to: u16)
        requires
            old(self).wf(),
            *old(self) == (Gb { ppu: Ppu { vram: old(self).ppu.vram, ..start@.ppu }, ..start@ }),
            old(self).ppu.vram@.len() == start@.ppu.vram@.len(),
        ensures
            final(self).wf(),
            *final(self) == (Gb { ppu: Ppu { vram: final(self).ppu.vram, ..start@.ppu }, ..start@ }),
            final(self).ppu.vram@ == old(self).ppu.vram@.update(
                start@.ppu.vram_index(to),
                start@.read_with_vram(old(self).ppu.vram@, from),
            ),
    {
        let value = self.read_byte(from);
        proof {
            lemma_read_with_vram(start@, *self, from);
        }
        self.ppu.write_vram_dma_byte(to, value);
    }

    /// Copies one 16-byte block from the HDMA source to its VRAM destination and moves the
    /// controller on. Says whether it copied (the destination is always inside VRAM).
    #[verifier::rlimit(90)]
    fn transfer_hdma_block(&mut self) -> (r: bool)
        requires
            old(self).wf(),
        ensures
            final(self).wf(),
            r,
            old(self).hdma_block_done(&*final(self)),
    {
        let source = self.ppu.hdma.get_hdma_source();
        let destination = self.ppu.hdma.get_hdma_destination();
        if destination > 0x9FF0 {
            self.ppu.hdma.finish_transfer();
            return false;
        }
        let ghost start = *self;
        let mut offset: u16 = 0;
        while offset < 0x10
            invariant
                offset <= 0x10,
                start.wf(),
                self.wf(),
                source == start.ppu.hdma.source_spec(),
                destination == start.ppu.hdma.destination_spec(),
                *self == (Gb { ppu: Ppu { vram: self.ppu.vram, ..start.ppu }, ..start }),
                self.ppu.vram@.len() == start.ppu.vram@.len(),
                self.ppu.vram@ == start.hdma_copy(start.ppu.vram@, source, destination, offset as nat),
            decreases 0x10 - offset,
        {
            let from = ((source as u32 + offset as u32) % 0x10000) as u16;
            let to = ((destination as u32 + offset as u32) % 0x10000) as u16;
            self.copy_hdma_byte(Ghost(start), from, to);
            offset = offset + 1;
        }
        self.ppu.hdma.advance_block();
        true
    }

    /// The machine after a CPU write of `value` to HDMA register `address` (CGB only):
    /// HDMA1-4 latch, HDMA5 starts a transfer (a general one runs to the end at once, its
    /// blocks charged to the current instruction) or cancels an H-Blank one.
    pub open spec fn hdma_write_result(&self, address: u16, value: u8, next: &Gb) -> bool {
        if self.gb_type != GbTypes::Cgb {
            *next == *self
        } else if address != 0xFF55 || !(Hdma::register_written_is_general(self.ppu.hdma, value)) {
            &&& *next == (Gb { ppu: Ppu { hdma: next.ppu.hdma, ..self.ppu }, ..*self })
            &&& self.ppu.hdma.register_written(address, value, next.ppu.hdma)
        } else {
            &&& *next == (Gb {
                ppu: Ppu { vram: next.ppu.vram, hdma: next.ppu.hdma, ..self.ppu },
                cpu: Cpu { instruction_cycles: next.cpu.instruction_cycles, ..self.cpu },
                ..*self
            })
            &&& !next.ppu.hdma.active && !next.ppu.hdma.hblank_mode
            &&& next.ppu.hdma.remaining_blocks == 0 && next.ppu.hdma.hdma5 == 0xFF
            &&& next.cpu.instruction_cycles == self.cpu.instruction_cycles + ((value & 0x7F) + 1) * self.hdma_block_cost()
        }
    }

    /// Runs a general-purpose transfer to its end; returns the number of blocks copied.
    fn run_general_hdma(&mut self) -> (transferred: usize)
        requires
            old(self).wf(),
            old(self).ppu.hdma.active,
            !old(self).ppu.hdma.hblank_mode,
            1 <= old(self).ppu.hdma.remaining_blocks <= 128,
        ensures
            final(self).wf(),
            transferred == old(self).ppu.hdma.remaining_blocks,
            !final(self).ppu.hdma.active && !final(self).ppu.hdma.hblank_mode,
            final(self).ppu.hdma.remaining_blocks == 0 && final(self).ppu.hdma.hdma5 == 0xFF,
            *final(self) == (Gb { ppu: Ppu { vram: final(self).ppu.vram, hdma: final(self).ppu.hdma, ..old(self).ppu }, ..*old(self) }),
    {
        let blocks: usize = self.ppu.hdma.remaining_blocks as usize;
        let mut transferred_blocks: usize = 0;
        while self.ppu.hdma.is_active()
            invariant
                self.wf(),
                transferred_blocks <= blocks,
                blocks == old(self).ppu.hdma.remaining_blocks,
                self.ppu.hdma.active ==> self.ppu.hdma.remaining_blocks == blocks - transferred_blocks
                    && self.ppu.hdma.remaining_blocks > 0 && !self.ppu.hdma.hblank_mode,
                !self.ppu.hdma.active ==> transferred_blocks == blocks && !self.ppu.hdma.hblank_mode
                    && self.ppu.hdma.remaining_blocks == 0 && self.ppu.hdma.hdma5 == 0xFF,
                *self == (Gb { ppu: Ppu { vram: self.ppu.vram, hdma: self.ppu.hdma, ..old(self).ppu }, ..*old(self) }),
            ensures
                !self.ppu.hdma.active,
            decreases blocks - transferred_blocks,
        {
            if !self.transfer_hdma_block() {
                break;
            }
            transferred_blocks = transferred_blocks + 1;
        }
        transferred_blocks
    }

    #[verifier::rlimit(80)]
    pub fn write_hdma_register(&mut self, address: u16, value: u8)
        requires
            old(self).wf(),
            0xFF51 <= address <= 0xFF55,
            address == 0xFF55 ==> old(self).cpu.instruction_cycles + 2048 <= usize::MAX,
        ensures
            final(self).wf(),
            final(self).cpu == (Cpu { instruction_cycles: final(self).cpu.instruction_cycles, ..old(self).cpu }),
            final(self).cpu.instruction_cycles <= old(self).cpu.instruction_cycles + 2048,
            final(self).cpu == (Cpu { instruction_cycles: final(self).cpu.instruction_cycles, ..old(self).cpu }),
            old(self).hdma_write_result(address, value, &*final(self)),
    {
        if self.gb_type != GbTypes::Cgb {
            return;
        }
        if address != 0xFF55 {
            self.ppu.hdma.write_byte(address, value);
            return;
        }
        match self.ppu.hdma.write_hdma5(value) {
            crate::hdma::HdmaAction::General => {
                proof { crate::bits::lemma_byte_fields(); }
                let transferred_blocks = self.run_general_hdma();
                let cost = self.hdma_block_mcycles();
                assert(transferred_blocks * cost <= 2048) by (nonlinear_arith)
                    requires
                        transferred_blocks <= 128,
                        cost <= 16;
                self.cpu.instruction_cycles = self.cpu.instruction_cycles + transferred_blocks * cost;
            },
            _ => {},
        }
    }

    /// One H-Blank's worth of an H-Blank HDMA transfer: a block is copied unless no such
    /// transfer runs, the CPU is halted or stopped, or LY is past the visible lines.
    pub fn hdma_hblank_step(&mut self)
        requires
            old(self).wf(),
        ensures
            final(self).wf(),
            !(old(self).ppu.hdma.active && old(self).ppu.hdma.hblank_mode) || old(self).cpu.is_halted || old(self).cpu.is_stopped
                || old(self).ppu.ly >= 144 ==> *final(self) == *old(self),
            old(self).ppu.hdma.active && old(self).ppu.hdma.hblank_mode && !old(self).cpu.is_halted && !old(self).cpu.is_stopped
                && old(self).ppu.ly < 144 ==> old(self).hdma_block_done(&*final(self)),
    {
        if !self.ppu.hdma.is_hblank_mode() || self.cpu.is_halted || self.cpu.is_stopped {
            return;
        }
        if self.ppu.get_ly() >= 144 {
            return;
        }
        let _ = self.transfer_hdma_block();
    }
}

/// Reads of a machine that differs only in its VRAM contents are `read_with_vram` of them.
proof fn lemma_read_with_vram(before: Gb, after: Gb, address: u16)
    requires
        after == (Gb { ppu: Ppu { vram: after.ppu.vram, ..before.ppu }, ..before }),
        after.ppu.vram@.len() == before.ppu.vram@.len(),
    ensures
        after.read_spec(address) == before.read_with_vram(after.ppu.vram@, address),
{
    reveal(Gb::read_with_vram);
}

impl Gb {
    /// Whether `address` is a PPU register or memory that the CPU reaches through the bus.
    pub open spec fn is_ppu_address(address: u16) -> bool {
        (0x8000 <= address <= 0x9FFF) || (0xFE00 <= address <= 0xFE9F) || (0xFF40 <= address <= 0xFF4B) || address == 0xFF4F
            || (0xFF68 <= address <= 0xFF6B)
    }

    /// The 160 bytes an OAM DMA started by writing `value` to 0xFF46 copies into OAM: those
    /// the CPU reads from `value * 0x100` on.
    #[verifier::opaque]
    pub open spec fn oam_dma_bytes(&self, value: u8) -> Seq<u8> {
        Seq::new(0xA0, |i: int| self.read_spec((value as int * 0x100 + i) as u16))
    }

    /// OAM DMA: copies the 160 bytes from `value * 0x100` on into OAM.
    fn oam_dma(&mut self, value: u8)
        requires
            old(self).wf(),
        ensures
            final(self).wf(),
            *final(self) == (Gb { ppu: Ppu { oam: final(self).ppu.oam, ..old(self).ppu }, ..*old(self) }),
            final(self).ppu.oam@ == old(self).oam_dma_bytes(value),
    {
        let start: u16 = (value as u16) * 0x100;
        let bytes = self.read_memory_range(start, 0xA0);
        let ghost expected = self.oam_dma_bytes(value);
        reveal(Gb::oam_dma_bytes);
        assert forall|i: int| 0 <= i < 0xA0 implies bytes@[i] == expected[i] by {
            assert((start + i) % 0x10000 == value as int * 0x100 + i);
        }
        let mut i: usize = 0;
        while i < 0xA0
            invariant
                i <= 0xA0,
                bytes@.len() == 0xA0,
                old(self).wf(),
                forall|k: int| 0 <= k < 0xA0 ==> bytes@[k] == expected[k],
                *self == (Gb { ppu: Ppu { oam: self.ppu.oam, ..old(self).ppu }, ..*old(self) }),
                forall|k: int| 0 <= k < i ==> self.ppu.oam@[k] == expected[k],
            decreases 0xA0 - i,
        {
            self.ppu.oam[i] = bytes[i];
            i = i + 1;
        }
        assert(self.ppu.oam@ =~= expected);
    }

    /// The machine after a CPU write of `value` to `address` (`next`). Every write that
    /// reaches a device is logged for the debugger (IF and IE with their masked value).
    #[verifier::opaque]
    pub open spec fn write_result(&self, address: u16, value: u8, next: &Gb) -> bool {
        let log = logged(self.debug_write_log@, address, value);
        if address <= 0x7FFF {
            &&& *next == (Gb { mbc: next.mbc, debug_write_log: next.debug_write_log, ..*self })
            &&& CartridgeMbc::rom_written(&self.mbc, &next.mbc, address, value)
            &&& next.debug_write_log@ == log
        } else if address == 0xFF46 {
            &&& *next == (Gb { ppu: Ppu { oam: next.ppu.oam, ..self.ppu }, debug_write_log: next.debug_write_log, ..*self })
            &&& next.ppu.oam@ == self.oam_dma_bytes(value)
            &&& next.debug_write_log@ == log
        } else if Self::is_ppu_address(address) {
            &&& *next == (Gb { ppu: next.ppu, debug_write_log: next.debug_write_log, ..*self })
            &&& self.ppu.write_result(address, value, &next.ppu)
            &&& next.debug_write_log@ == log
        } else if 0xA000 <= address <= 0xBFFF {
            &&& *next == (Gb { mbc: next.mbc, debug_write_log: next.debug_write_log, ..*self })
            &&& CartridgeMbc::ram_written(&self.mbc, &next.mbc, address, value)
            &&& next.debug_write_log@ == log
        } else if 0xC000 <= address <= 0xFDFF {
            &&& *next == (Gb { wram: next.wram, debug_write_log: next.debug_write_log, ..*self })
            &&& next.wram@ == self.wram@.update(self.wram_index(address), value)
            &&& next.debug_write_log@ == log
        } else if address <= 0xFEFF {
            *next == *self
        } else if address == 0xFF00 {
            &&& *next == (Gb { joypad: next.joypad, debug_write_log: next.debug_write_log, ..*self })
            &&& next.joypad == (Joypad { data: joyp_value(value & 0x30, self.joypad.button_states, self.joypad.dpad_states), ..self.joypad })
            &&& next.debug_write_log@ == log
        } else if address == 0xFF01 || address == 0xFF02 {
            &&& *next == (Gb { serial: next.serial, debug_write_log: next.debug_write_log, ..*self })
            &&& next.serial.sb == (if address == 0xFF01 { value } else { self.serial.sb })
            &&& next.serial.sc == (if address == 0xFF01 { self.serial.sc } else if value == 0x81 { 0 } else { value })
            &&& next.serial.serial_data@ == (if address == 0xFF02 && value == 0x81 {
                self.serial.serial_data@.push(self.serial.sb)
            } else {
                self.serial.serial_data@
            })
            &&& next.debug_write_log@ == log
        } else if 0xFF04 <= address <= 0xFF07 {
            &&& *next == (Gb {
                timer: if address == 0xFF04 {
                    Timer { div: 0, ..self.timer }
                } else if address == 0xFF05 {
                    Timer { tima: value, ..self.timer }
                } else if address == 0xFF06 {
                    Timer { tma: value, ..self.timer }
                } else {
                    Timer { enabled: value & 0x04 == 0x04, tac: value, frequency: frequency_spec(value), ..self.timer }
                },
                debug_write_log: next.debug_write_log,
                ..*self
            })
            &&& next.debug_write_log@ == log
        } else if address == 0xFF0F {
            &&& *next == (Gb { if_flag: value & 0x1F, debug_write_log: next.debug_write_log, ..*self })
            &&& next.debug_write_log@ == logged(self.debug_write_log@, address, value & 0x1F)
        } else if (0xFF10 <= address <= 0xFF27) || (0xFF30 <= address <= 0xFF3F) {
            &&& *next == (Gb { sound: next.sound, debug_write_log: next.debug_write_log, ..*self })
            &&& self.sound.write_result(address, value, &next.sound)
            &&& next.debug_write_log@ == log
        } else if address == 0xFF4D {
            &&& *next == (Gb {
                gb_speed: if self.gb_type == GbTypes::Cgb { value & 1 } else { self.gb_speed },
                prepare_speed_switch: if self.gb_type == GbTypes::Cgb { value & 1 == 1 } else { self.prepare_speed_switch },
                debug_write_log: next.debug_write_log,
                ..*self
            })
            &&& next.debug_write_log@ == log
        } else if address == 0xFF50 {
            &&& *next == (Gb { boot_rom_enabled: value, debug_write_log: next.debug_write_log, ..*self })
            &&& next.debug_write_log@ == log
        } else if 0xFF51 <= address <= 0xFF55 {
            &&& self.hdma_write_result(address, value, &Gb { debug_write_log: self.debug_write_log, ..*next })
            &&& next.debug_write_log@ == log
        } else if address == 0xFF56 {
            &&& *next == (Gb {
                rp: if self.gb_type == GbTypes::Cgb { 0x3C | (value & 0x03) } else { self.rp },
                debug_write_log: next.debug_write_log,
                ..*self
            })
            &&& next.debug_write_log@ == log
        } else if address == 0xFF70 {
            &&& *next == (Gb {
                svbk: if self.gb_type == GbTypes::Cgb { value & 0x07 } else { self.svbk },
                ram_bank: if self.gb_type != GbTypes::Cgb {
                    self.ram_bank
                } else if value & 0x07 == 0 {
                    1
                } else {
                    (value & 0x07) as usize
                },
                debug_write_log: next.debug_write_log,
                ..*self
            })
            &&& next.debug_write_log@ == log
        } else if 0xFF80 <= address <= 0xFFFE {
            &&& *next == (Gb { hram: next.hram, debug_write_log: next.debug_write_log, ..*self })
            &&& next.hram@ == self.hram@.update(address as int % 0x80, value)
            &&& next.debug_write_log@ == log
        } else if address == 0xFFFF {
            &&& *next == (Gb { ie_flag: value & 0x1F, debug_write_log: next.debug_write_log, ..*self })
            &&& next.debug_write_log@ == logged(self.debug_write_log@, address, value & 0x1F)
        } else {
            *next == *self
        }
    }

    fn write_devices(&mut self, address: u16, value: u8)
        requires
            old(self).wf(),
            0xFF00 <= address <= 0xFF07,
            address != 0xFF03,
        ensures
            final(self).cpu == old(self).cpu,
            final(self).wf(),
            old(self).write_result(address, value, &*final(self)),
    {
        reveal(Gb::write_result);
        if address == 0xFF00 {
            self.joypad.write_byte(address, value);
        } else if address == 0xFF01 || address == 0xFF02 {
            self.serial.write_byte(address, value);
        } else {
            self.timer.write_byte(address, value);
        }
        self.record_debug_write(address, value);
    }

    fn write_video(&mut self, address: u16, value: u8)
        requires
            old(self).wf(),
            Self::is_ppu_address(address),
        ensures
            final(self).cpu == old(self).cpu,
            final(self).wf(),
            old(self).write_result(address, value, &*final(self)),
    {
        reveal(Gb::write_result);
        if address == 0xFF46 {
            self.oam_dma(value);
        } else {
            self.ppu.write_byte(address, value);
        }
        self.record_debug_write(address, value);
    }

    fn write_system_register(&mut self, address: u16, value: u8)
        requires
            old(self).wf(),
            address == 0xFF0F || address == 0xFF4D || address == 0xFF50 || address == 0xFF56 || address == 0xFF70 || address
                == 0xFFFF,
        ensures
            final(self).cpu == old(self).cpu,
            final(self).wf(),
            old(self).write_result(address, value, &*final(self)),
    {
        reveal(Gb::write_result);
        if address == 0xFF0F {
            self.if_flag = value & 0x1F;
            self.record_debug_write(address, value & 0x1F);
        } else if address == 0xFFFF {
            self.ie_flag = value & 0x1F;
            self.record_debug_write(address, value & 0x1F);
        } else {
            if address == 0xFF4D {
                if self.gb_type == GbTypes::Cgb {
                    self.gb_speed = value & 1;
                    self.prepare_speed_switch = value & 1 == 1;
                }
            } else if address == 0xFF50 {
                self.boot_rom_enabled = value;
            } else if address == 0xFF56 {
                if self.gb_type == GbTypes::Cgb {
                    self.rp = 0x3C | (value & 0x03);
                }
            } else {
                if self.gb_type == GbTypes::Cgb {
                    proof { crate::bits::lemma_byte_fields(); }
                    self.svbk = value & 0x07;
                    self.ram_bank = if self.svbk == 0 {
                        1
                    } else {
                        self.svbk as usize
                    };
                }
            }
            self.record_debug_write(address, value);
        }
    }

    /// A CPU write to the memory map.
    #[verifier::spinoff_prover]
    #[verifier::rlimit(80)]
    pub fn write_byte(&mut self, address: u16, value: u8)
        requires
            old(self).wf(),
            address == 0xFF55 ==> old(self).cpu.instruction_cycles + 2048 <= usize::MAX,
        ensures
            final(self).wf(),
            final(self).cpu.instruction_cycles <= old(self).cpu.instruction_cycles + 2048,
            final(self).cpu == (Cpu { instruction_cycles: final(self).cpu.instruction_cycles, ..old(self).cpu }),
            old(self).write_result(address, value, &*final(self)),
    {
        reveal(Gb::write_result);
        if address <= 0x7FFF {
            self.mbc.write_rom(address, value);
            self.record_debug_write(address, value);
        } else if (0x8000 <= address && address <= 0x9FFF) || (0xFE00 <= address && address <= 0xFE9F) || (0xFF40 <= address
            && address <= 0xFF4B) || address == 0xFF4F || (0xFF68 <= address && address <= 0xFF6B) {
            self.write_video(address, value);
        } else if 0xA000 <= address && address <= 0xBFFF {
            self.mbc.write_ram(address, value);
            self.record_debug_write(address, value);
        } else if 0xC000 <= address && address <= 0xFDFF {
            let index = self.wram_offset(address);
            self.wram.set(index, value);
            self.record_debug_write(address, value);
        } else if address <= 0xFEFF {
        } else if 0xFF00 <= address && address <= 0xFF07 && address != 0xFF03 {
            self.write_devices(address, value);
        } else if (0xFF10 <= address && address <= 0xFF27) || (0xFF30 <= address && address <= 0xFF3F) {
            self.sound.write_byte(address, value);
            self.record_debug_write(address, value);
        } else if 0xFF51 <= address && address <= 0xFF55 {
            self.write_hdma_register(address, value);
            self.record_debug_write(address, value);
        } else if address == 0xFF0F || address == 0xFF4D || address == 0xFF50 || address == 0xFF56 || address == 0xFF70
            || address == 0xFFFF {
            self.write_system_register(address, value);
        } else if 0xFF80 <= address && address <= 0xFFFE {
            self.hram.set(address as usize % 0x80, value);
            self.record_debug_write(address, value);
        }
    }

    /// Writes `value` little-endian: the low byte at `address`, the high byte after it.
    pub fn write_word(&mut self, address: u16, value: u16)
        requires
            old(self).wf(),
            old(self).cpu.instruction_cycles + 4096 <= usize::MAX,
        ensures
            final(self).wf(),
            final(self).cpu == (Cpu { instruction_cycles: final(self).cpu.instruction_cycles, ..old(self).cpu }),
            exists|middle: Gb|
                #[trigger] old(self).write_result(address, (value % 256) as u8, &middle) && middle.write_result(
                    address.wrapping_add(1),
                    (value / 256) as u8,
                    &*final(self),
                ),
    {
        self.write_byte(address, (value % 256) as u8);
        let ghost middle = *self;
        self.write_byte(address.wrapping_add(1), (value / 256) as u8);
    }
}

impl Gb {
    /// Raises the interrupt's bit in IF.
    pub fn request_interrupt(&mut self, interrupt: Interrupt)
        ensures
            *final(self) == (Gb { if_flag: old(self).if_flag | interrupt.bit_spec(), ..*old(self) }),
    {
        self.if_flag = self.if_flag | interrupt.bit();
    }

    /// The CPU after the interrupt check that precedes each instruction, up to the stack
    /// write: a pending EI/DI toggle takes effect; otherwise a pending enabled interrupt wakes
    /// a halted or stopped CPU and, with IME set, is dispatched (IME cleared, SP lowered by 2).
    pub open spec fn dispatches(&self) -> bool {
        !self.cpu.ime_toggle && !self.cpu.d_ime_toggle && self.cpu.interrupt_master && self.ie_flag & self.if_flag & 0x1F != 0
    }

    /// The machine `next` after dispatching the highest-priority pending interrupt: IME
    /// cleared, PC pushed (low byte first, at SP - 2), PC at the source's vector, the
    /// source's IF bit cleared, five cycles charged.
    #[verifier::opaque]
    pub open spec fn served(&self, next: &Gb) -> bool {
        let pending = self.ie_flag & self.if_flag & 0x1F;
        let source = interrupt_source_spec(pending);
        let sp = ((self.cpu.sp as int - 2 + 0x10000) % 0x10000) as u16;
        let pushed = Gb { cpu: Cpu { interrupt_master: false, sp, ..self.cpu }, ..*self };
        exists|middle: Gb, written: Gb|
            #[trigger] pushed.write_result(sp, (self.cpu.pc % 256) as u8, &middle) && #[trigger] middle.write_result(
                ((sp as int + 1) % 0x10000) as u16,
                (self.cpu.pc / 256) as u8,
                &written,
            ) && *next == (Gb {
                cpu: Cpu { pending_cycles: (written.cpu.pending_cycles + 5) as usize, pc: source.vector_spec(), ..written.cpu },
                if_flag: written.if_flag & !source.bit_spec(),
                ..written
            })
    }

    /// The machine after the interrupt check, when it dispatches nothing.
    pub open spec fn interrupt_checked(&self) -> Gb {
        let pending = self.ie_flag & self.if_flag & 0x1F;
        if self.cpu.ime_toggle {
            Gb { cpu: Cpu { ime_toggle: false, interrupt_master: true, ..self.cpu }, ..*self }
        } else if self.cpu.d_ime_toggle {
            Gb { cpu: Cpu { d_ime_toggle: false, interrupt_master: false, ..self.cpu }, ..*self }
        } else if pending != 0 {
            Gb { cpu: Cpu { is_halted: false, is_stopped: false, ..self.cpu }, ..*self }
        } else {
            *self
        }
    }

    /// Serves a pending interrupt: the highest-priority source among IE & IF (the lowest
    /// bit) is latched, PC is pushed, the CPU jumps to the source's vector and its IF bit is
    /// cleared; five cycles are charged. EI and DI take effect one check late.
    #[verifier::rlimit(80)]
    pub fn handle_interrupt(&mut self)
        requires
            old(self).wf(),
            old(self).cpu.instruction_cycles + 4096 <= usize::MAX,
            old(self).cpu.pending_cycles + 5 <= usize::MAX,
        ensures
            final(self).wf(),
            !old(self).dispatches() ==> *final(self) == old(self).interrupt_checked(),
            old(self).dispatches() ==> old(self).interrupt_checked().served(&*final(self)),
    {
        if self.cpu.ime_toggle {
            self.cpu.ime_toggle = false;
            self.cpu.interrupt_master = true;
            return;
        }
        if self.cpu.d_ime_toggle {
            self.cpu.d_ime_toggle = false;
            self.cpu.interrupt_master = false;
            return;
        }
        let ie = self.ie_flag;
        let iflag = self.if_flag;
        let pending = ie & iflag & 0x1F;
        assert(pending & 0x1F == pending) by (bit_vector)
            requires pending == ie & iflag & 0x1F;
        if pending != 0 {
            if self.cpu.is_halted {
                self.cpu.is_halted = false;
            }
            if self.cpu.is_stopped {
                self.cpu.is_stopped = false;
            }
        }
        if !self.cpu.interrupt_master || pending == 0 {
            return;
        }
        assert(*self == old(self).interrupt_checked());
        self.dispatch_interrupt(pending);
    }

    /// Pushes PC, jumps to the vector of the highest-priority pending source and clears its
    /// IF bit.
    fn dispatch_interrupt(&mut self, pending: u8)
        requires
            old(self).wf(),
            pending == old(self).ie_flag & old(self).if_flag & 0x1F,
            pending != 0,
            old(self).cpu.instruction_cycles + 4096 <= usize::MAX,
            old(self).cpu.pending_cycles + 5 <= usize::MAX,
        ensures
            final(self).wf(),
            old(self).served(&*final(self)),
    {
        reveal(Gb::served);
        let ie = self.ie_flag;
        let iflag = self.if_flag;
        assert(pending & 0x1F != 0) by (bit_vector)
            requires pending != 0, pending == ie & iflag & 0x1F;
        let interrupt_source = get_interrupt_source(pending);
        self.cpu.interrupt_master = false;
        self.cpu.sp = self.cpu.sp.wrapping_sub(2);
        let pc = self.cpu.pc;
        let sp = self.cpu.sp;
        let ghost pushed = *self;
        self.write_word(sp, pc);
        let ghost written = *self;
        self.cpu.pending_cycles = self.cpu.pending_cycles + 5;
        let address = go_interrupt(&interrupt_source);
        self.cpu.pc = address;
        self.if_flag = self.if_flag & !interrupt_source.bit();
        proof {
            let middle = choose|middle: Gb|
                #[trigger] pushed.write_result(sp, (pc % 256) as u8, &middle) && middle.write_result(
                    sp.wrapping_add(1),
                    (pc / 256) as u8,
                    &written,
                );
            assert(pushed.write_result(sp, (pc % 256) as u8, &middle) && middle.write_result(
                ((sp as int + 1) % 0x10000) as u16,
                (pc / 256) as u8,
                &written,
            ));
        }
    }

    /// Runs the timer for `cycles` clock cycles, requesting the timer interrupt when TIMA
    /// overflows.
    pub fn timer_tick(&mut self, cycles: u32)
        requires
            old(self).timer.can_advance(cycles),
        ensures
            *final(self) == (Gb { timer: final(self).timer, if_flag: final(self).if_flag, ..*old(self) }),
            final(self).if_flag == (if old(self).timer.enabled && tima_steps(
                old(self).timer.tima,
                old(self).timer.tma,
                drain_count((old(self).timer.ticks + cycles) as nat, old(self).timer.frequency as nat, cycles as nat),
            ).1 {
                old(self).if_flag | 0x04
            } else {
                old(self).if_flag
            }),
            final(self).timer.cycles == (old(self).timer.cycles + cycles) % 256,
            final(self).timer.div == ((old(self).timer.div + (old(self).timer.cycles + cycles) / 256) % 256) as u8,
            old(self).timer.advanced_to(&final(self).timer, cycles),
            final(self).if_flag == timer_raised(old(self).if_flag, old(self).timer, cycles),
    {
        if self.timer.advance(cycles) {
            self.request_interrupt(Interrupt::Timer);
        }
    }

    /// Runs an enabled LCD for `ticks` dots (nothing while LCDC bit 7 is clear), raising the
    /// V-Blank and LCD STAT interrupts it requests.
    pub fn ppu_tick(&mut self, ticks: u32)
        requires
            old(self).wf(),
        ensures
            final(self).wf(),
            old(self).ppu.lcdc & 0x80 == 0 ==> *final(self) == *old(self),
            *final(self) == (Gb { ppu: final(self).ppu, if_flag: final(self).if_flag, ..*old(self) }),
            final(self).ppu.same_registers(&old(self).ppu),
            final(self).if_flag & 0xFC == old(self).if_flag & 0xFC,
            final(self).if_flag & old(self).if_flag == old(self).if_flag,
            old(self).ppu.lcdc & 0x80 != 0 ==> exists|v: bool, s: bool|
                #[trigger] old(self).ppu.dots_run(&final(self).ppu, ticks as nat, v, s) && final(self).if_flag
                    == if_raised(old(self).if_flag, v, s),
    {
        let o = self.if_flag;
        proof {
            lemma_if_raised(o, false, false, false, false);
        }
        if self.ppu.lcdc & 0x80 == 0 {
            return;
        }
        let mut i: u32 = 0;
        let ghost mut v: bool = false;
        let ghost mut s: bool = false;
        proof {
            crate::ppu::lemma_dots_run_none(self.ppu);
        }
        while i < ticks
            invariant
                o == old(self).if_flag,
                self.wf(),
                self.ppu.lcdc & 0x80 != 0,
                *self == (Gb { ppu: self.ppu, if_flag: self.if_flag, ..*old(self) }),
                self.ppu.same_registers(&old(self).ppu),
                i <= ticks,
                old(self).ppu.dots_run(&self.ppu, i as nat, v, s),
                self.if_flag == if_raised(o, v, s),
            decreases ticks - i,
        {
            let ghost mid = self.ppu;
            let (vblank, lcd_stat) = self.ppu.tick_dot();
            proof {
                lemma_if_raised(o, v, s, vblank, lcd_stat);
                assert(mid.dot_step(&self.ppu, (vblank, lcd_stat)));
                crate::ppu::lemma_dots_run_step(old(self).ppu, mid, self.ppu, i as nat, v, s, (vblank, lcd_stat));
                v = v || vblank;
                s = s || lcd_stat;
            }
            if vblank {
                self.request_interrupt(Interrupt::Vblank);
            }
            if lcd_stat {
                self.request_interrupt(Interrupt::LcdStat);
            }
            i = i + 1;
        }
        proof {
            lemma_if_raised(o, v, s, false, false);
            assert(old(self).ppu.dots_run(&self.ppu, ticks as nat, v, s));
        }
    }
}

/// IF after the timer runs for `cycles` clocks: bit 2 added where TIMA overflows.
pub open spec fn timer_raised(flags: u8, timer: Timer, cycles: u32) -> u8 {
    if timer.overflows(cycles) {
        flags | 0x04
    } else {
        flags
    }
}

/// IF after the PPU's requests: bit 0 added where V-Blank was requested, bit 1 where LCD
/// STAT was.
pub open spec fn if_raised(flags: u8, vblank: bool, lcd_stat: bool) -> u8 {
    flags | (if vblank { 1u8 } else { 0u8 }) | (if lcd_stat { 2u8 } else { 0u8 })
}

/// Raising the requests of one more dot adds them to those raised before; raising keeps the
/// upper bits and every bit already set.
proof fn lemma_if_raised(o: u8, v: bool, s: bool, a: bool, b: bool)
    by (bit_vector)
    ensures
        (if b { (if a { if_raised(o, v, s) | 1 } else { if_raised(o, v, s) }) | 2 } else { if a {
            if_raised(o, v, s) | 1
        } else {
            if_raised(o, v, s)
        } }) == if_raised(o, v || a, s || b),
        if_raised(o, v, s) & 0xFC == o & 0xFC,
        if_raised(o, v, s) & o == o,
        if_raised(o, false, false) == o,
{
}

impl Gb {
    /// Charges the cycles the CPU has accumulated to the other components: the PPU and APU
    /// run at normal speed even when the CPU runs at double speed; the timer runs with the
    /// CPU. The samples the APU takes are queued for output.
    /// The clocks the pending CPU cycles stand for (four per machine cycle).
    pub open spec fn cpu_cycles(&self) -> u32 {
        (self.cpu.pending_cycles * 4) as u32
    }

    /// The clocks the PPU and APU run for them: all of them at normal speed, half at double
    /// speed.
    pub open spec fn ppu_cycles(&self) -> u32 {
        if self.speed_mode == SpeedMode::Normal {
            self.cpu_cycles()
        } else {
            (self.cpu_cycles() / 2) as u32
        }
    }

    #[verifier::spinoff_prover]
    #[verifier::rlimit(40)]
    pub fn components_tick(&mut self)
        requires
            old(self).wf(),
            old(self).cpu.pending_cycles * 4 <= u32::MAX,
            old(self).timer.can_advance((old(self).cpu.pending_cycles * 4) as u32),
        ensures
            final(self).wf(),
            final(self).cpu == (Cpu { pending_cycles: 0, ..old(self).cpu }),
            final(self).ppu.same_registers(&old(self).ppu),
            old(self).ppu.lcdc & 0x80 == 0 ==> final(self).ppu == old(self).ppu && final(self).if_flag == timer_raised(
                old(self).if_flag,
                old(self).timer,
                old(self).cpu_cycles(),
            ),
            old(self).ppu.lcdc & 0x80 != 0 ==> exists|v: bool, s: bool|
                #[trigger] old(self).ppu.dots_run(&final(self).ppu, old(self).ppu_cycles() as nat, v, s) && final(self).if_flag
                    == timer_raised(if_raised(old(self).if_flag, v, s), old(self).timer, old(self).cpu_cycles()),
            old(self).timer.advanced_to(&final(self).timer, old(self).cpu_cycles()),
            old(self).sound.enabled ==> final(self).sound == old(self).sound.after_cycles(old(self).ppu_cycles() as nat)
                && final(self).audio_samples@ == old(self).audio_samples@ + old(self).sound.samples_over(old(self).ppu_cycles() as nat),
            !old(self).sound.enabled ==> final(self).sound == old(self).sound && final(self).audio_samples@
                == old(self).audio_samples@,
            *final(self) == (Gb {
                cpu: final(self).cpu,
                ppu: final(self).ppu,
                timer: final(self).timer,
                sound: final(self).sound,
                audio_samples: final(self).audio_samples,
                if_flag: final(self).if_flag,
                ..*old(self)
            }),
    {
        let cpu_cycles = (self.cpu.pending_cycles * 4) as u32;
        let ppu_cycles = match self.speed_mode {
            SpeedMode::Normal => cpu_cycles,
            SpeedMode::Double => cpu_cycles / 2,
        };
        let ghost g0 = *self;
        self.ppu_tick(ppu_cycles);
        let ghost g1 = *self;
        self.timer_tick(cpu_cycles);
        let samples = self.sound.tick(ppu_cycles);
        let ghost queued = self.audio_samples@;
        let ghost before = *self;
        let mut i: usize = 0;
        while i < samples.len()
            invariant
                i <= samples@.len(),
                self.audio_samples@ == queued + samples@.subrange(0, i as int),
                *self == (Gb { audio_samples: self.audio_samples, ..before }),
                before.wf(),
            decreases samples@.len() - i,
        {
            self.audio_samples.push(samples[i]);
            i = i + 1;
            assert(self.audio_samples@ =~= queued + samples@.subrange(0, i as int));
        }
        assert(samples@.subrange(0, samples@.len() as int) =~= samples@);
        self.cpu.pending_cycles = 0;
        proof {
            if g0.ppu.lcdc & 0x80 != 0 {
                let (v, s) = choose|v: bool, s: bool|
                    #[trigger] g0.ppu.dots_run(&g1.ppu, ppu_cycles as nat, v, s) && g1.if_flag == if_raised(
                        g0.if_flag,
                        v,
                        s,
                    );
                assert(g0.ppu.dots_run(&self.ppu, ppu_cycles as nat, v, s));
                assert(self.if_flag == timer_raised(if_raised(g0.if_flag, v, s), g0.timer, cpu_cycles));
                assert(ppu_cycles == g0.ppu_cycles());
            }
        }
    }

    /// Hands over the samples the APU has taken since the last call.
    pub fn take_audio_samples(&mut self) -> (r: Vec<RawSample>)
        ensures
            r@ == old(self).audio_samples@,
            *final(self) == (Gb { audio_samples: final(self).audio_samples, ..*old(self) }),
            final(self).audio_samples@.len() == 0,
    {
        let mut taken: Vec<RawSample> = Vec::new();
        core::mem::swap(&mut taken, &mut self.audio_samples);
        taken
    }

    pub fn current_pc(&self) -> (r: u16)
        ensures
            r == self.cpu.pc,
    {
        self.cpu.pc
    }

    /// The length of the instruction at PC (at least 1).
    pub fn current_opcode_size(&self) -> (r: u16)
        requires
            self.wf(),
        ensures
            r == opcode_size_spec(self.read_spec(self.cpu.pc)),
            1 <= r <= 3,
    {
        let size = opcode_size(self.read_byte(self.cpu.pc));
        if size < 1 {
            1
        } else {
            size
        }
    }

    pub fn frame_ready(&self) -> (r: bool)
        ensures
            r == self.ppu.frame_ready,
    {
        self.ppu.frame_ready
    }

    /// `len` bytes as the CPU reads them from `start` on (the address wraps at 0xFFFF).
    pub fn read_memory_range(&self, start: u16, len: usize) -> (r: Vec<u8>)
        requires
            self.wf(),
        ensures
            r@ == Seq::new(len as nat, |i: int| self.read_spec(((start + i) % 0x10000) as u16)),
    {
        let mut out: Vec<u8> = Vec::new();
        let mut offset: usize = 0;
        while offset < len
            invariant
                offset <= len,
                self.wf(),
                out@ == Seq::new(offset as nat, |i: int| self.read_spec(((start + i) % 0x10000) as u16)),
            decreases len - offset,
        {
            let address = ((start as usize + offset % 0x10000) % 0x10000) as u16;
            out.push(self.read_byte(address));
            offset = offset + 1;
            assert(out@ =~= Seq::new(offset as nat, |i: int| self.read_spec(((start + i) % 0x10000) as u16)));
        }
        out
    }

    /// How many 8 KiB VRAM banks there are.
    pub fn vram_bank_count(&self) -> (r: usize)
        ensures
            r == self.ppu.vram@.len() / 0x2000,
    {
        self.ppu.vram.len() / 0x2000
    }

    /// The first VRAM bank that exists at or below `bank`.
    pub open spec fn clamp_bank(&self, bank: usize) -> int {
        let count = if self.ppu.vram@.len() / 0x2000 > 1 { self.ppu.vram@.len() / 0x2000 } else { 1 };
        if bank < count - 1 { bank as int } else { count - 1 }
    }

    /// The tile data (0x8000..0x97FF) of VRAM bank `bank` (clamped to the last bank).
    pub fn vram_tile_data(&self, bank: usize) -> (r: &[u8])
        requires
            self.wf(),
        ensures
            r@ == self.ppu.vram@.subrange(self.clamp_bank(bank) * 0x2000, self.clamp_bank(bank) * 0x2000 + 0x1800),
    {
        let count = self.vram_bank_count();
        let bank_count = if count > 1 {
            count
        } else {
            1
        };
        let bank = if bank < bank_count - 1 {
            bank
        } else {
            bank_count - 1
        };
        let start = bank * 0x2000;
        vstd::slice::slice_subrange(self.ppu.vram.as_slice(), start, start + 0x1800)
    }

    /// Tile map `map_index` (0: 0x9800, 1: 0x9C00; only bit 0 counts) of VRAM bank `bank`.
    pub fn vram_map_data(&self, bank: usize, map_index: usize) -> (r: &[u8])
        requires
            self.wf(),
        ensures
            ({
                let start = self.clamp_bank(bank) * 0x2000 + if map_index % 2 == 0 { 0x1800int } else { 0x1C00int };
                r@ == self.ppu.vram@.subrange(start, start + 0x400)
            }),
    {
        let count = self.vram_bank_count();
        let bank_count = if count > 1 {
            count
        } else {
            1
        };
        let bank = if bank < bank_count - 1 {
            bank
        } else {
            bank_count - 1
        };
        let map_offset: usize = if map_index % 2 == 0 {
            0x1800
        } else {
            0x1C00
        };
        let start = bank * 0x2000 + map_offset;
        vstd::slice::slice_subrange(self.ppu.vram.as_slice(), start, start + 0x400)
    }

    /// The sprite height LCDC selects: 16 with bit 2 set, else 8.
    pub fn sprite_height(&self) -> (r: u8)
        requires
            self.wf(),
        ensures
            r == (if self.read_spec(0xFF40) & 0x04 != 0 { 16u8 } else { 8u8 }),
    {
        if self.read_byte(0xFF40) & 0x04 != 0 {
            16
        } else {
            8
        }
    }

    /// The 40 OAM entries.
    pub fn oam_sprites(&self) -> (r: Vec<OamSprite>)
        ensures
            r@.len() == 40,
            forall|i: int|
                0 <= i < 40 ==> #[trigger] r@[i] == (OamSprite {
                    index: i as usize,
                    y: self.ppu.oam@[4 * i],
                    x: self.ppu.oam@[4 * i + 1],
                    tile_number: self.ppu.oam@[4 * i + 2],
                    attributes: self.ppu.oam@[4 * i + 3],
                }),
    {
        let mut out: Vec<OamSprite> = Vec::new();
        let mut index: usize = 0;
        while index < 40
            invariant
                index <= 40,
                out@.len() == index,
                forall|i: int|
                    0 <= i < index ==> #[trigger] out@[i] == (OamSprite {
                        index: i as usize,
                        y: self.ppu.oam@[4 * i],
                        x: self.ppu.oam@[4 * i + 1],
                        tile_number: self.ppu.oam@[4 * i + 2],
                        attributes: self.ppu.oam@[4 * i + 3],
                    }),
            decreases 40 - index,
        {
            out.push(
                OamSprite {
                    index,
                    y: self.ppu.oam[4 * index],
                    x: self.ppu.oam[4 * index + 1],
                    tile_number: self.ppu.oam[4 * index + 2],
                    attributes: self.ppu.oam[4 * index + 3],
                },
            );
            index = index + 1;
        }
        out
    }

    /// The writes of the current step, oldest first.
    pub fn last_memory_writes(&self) -> (r: &[MemoryWriteEvent])
        ensures
            r@ == self.debug_write_log@,
    {
        self.debug_write_log.as_slice()
    }

    /// Takes what the serial port has sent since the last call, as text (see
    /// `Serial::get_serial_message`).
    pub fn take_serial_output(&mut self) -> (r: Option<String>)
        ensures
            *final(self) == (Gb { serial: final(self).serial, ..*old(self) }),
            final(self).serial.sb == old(self).serial.sb && final(self).serial.sc == old(self).serial.sc,
            final(self).serial.serial_data@.len() == 0,
            r is None <==> old(self).serial.serial_data@.len() == 0,
            r matches Some(s) ==> s@ == crate::serial::escape_bytes(old(self).serial.serial_data@),
    {
        self.serial.get_serial_message()
    }

    pub fn set_sample_rate(&mut self, rate: u32)
        requires
            old(self).wf(),
            rate <= CLOCK_RATE,
        ensures
            final(self).wf(),
            *final(self) == (Gb { sound: Sound { sample_rate: rate, ..old(self).sound }, ..*old(self) }),
    {
        self.sound.set_sample_rate(rate);
    }

    pub fn set_serial_stdout_enabled(&mut self, enabled: bool)
        ensures
            *final(self) == (Gb { serial_stdout_enabled: enabled, ..*old(self) }),
    {
        self.serial_stdout_enabled = enabled;
    }

    pub fn press_button(&mut self, button: JoypadButton)
        ensures
            *final(self) == (Gb { joypad: final(self).joypad, ..*old(self) }),
            button.is_action() ==> final(self).joypad.button_states == old(self).joypad.button_states & !button.mask()
                && final(self).joypad.dpad_states == old(self).joypad.dpad_states,
            !button.is_action() ==> final(self).joypad.dpad_states == old(self).joypad.dpad_states & !button.mask()
                && final(self).joypad.button_states == old(self).joypad.button_states,
            final(self).joypad.data == joyp_value(
                old(self).joypad.data & 0x30,
                final(self).joypad.button_states,
                final(self).joypad.dpad_states,
            ),
    {
        self.joypad.press(button);
    }

    pub fn release_button(&mut self, button: JoypadButton)
        ensures
            *final(self) == (Gb { joypad: final(self).joypad, ..*old(self) }),
            button.is_action() ==> final(self).joypad.button_states == old(self).joypad.button_states | button.mask()
                && final(self).joypad.dpad_states == old(self).joypad.dpad_states,
            !button.is_action() ==> final(self).joypad.dpad_states == old(self).joypad.dpad_states | button.mask()
                && final(self).joypad.button_states == old(self).joypad.button_states,
            final(self).joypad.data == joyp_value(
                old(self).joypad.data & 0x30,
                final(self).joypad.button_states,
                final(self).joypad.dpad_states,
            ),
    {
        self.joypad.release(button);
    }

    /// The cartridge's battery-backed RAM, if it has any.
    pub fn get_battery_ram(&self) -> (r: Option<&[u8]>)
        ensures
            r is Some <==> self.mbc.battery_ram_view() is Some,
            r matches Some(ram) ==> ram@ == self.mbc.battery_ram_view()->0,
    {
        self.mbc.get_battery_ram()
    }

    /// Whether the cartridge's RAM is to be written to its save file (see
    /// `CartridgeMbc::needs_save`).
    pub fn needs_save(&self) -> (r: bool)
        ensures
            r == self.mbc.needs_save_spec(),
    {
        self.mbc.needs_save()
    }

    /// Loads saved battery RAM into the cartridge.
    pub fn set_battery_ram(&mut self, data: &[u8])
        ensures
            *final(self) == (Gb { mbc: final(self).mbc, ..*old(self) }),
            CartridgeMbc::battery_written(&old(self).mbc, &final(self).mbc, data@),
    {
        self.mbc.set_battery_ram(data);
    }
}


/// Whether two addresses name the same cell of work RAM or high RAM (the echo area names the
/// work RAM it mirrors).
pub open spec fn same_ram_cell(g: Gb, a: u16, b: u16) -> bool {
    if 0xC000 <= a <= 0xFDFF && 0xC000 <= b <= 0xFDFF {
        g.wram_index(a) == g.wram_index(b)
    } else {
        a == b
    }
}

/// A CPU write to work RAM or high RAM is read back at that address and at every address that
/// names the same cell, and leaves every other RAM cell as it was.
pub proof fn lemma_ram_write_then_read(before: Gb, after: Gb, address: u16, value: u8, other: u16)
    requires
        before.wf(),
        before.write_result(address, value, &after),
        0xC000 <= address <= 0xFDFF || 0xFF80 <= address <= 0xFFFE,
        0xC000 <= other <= 0xFDFF || 0xFF80 <= other <= 0xFFFE,
    ensures
        after.read_spec(address) == value,
        same_ram_cell(before, address, other) ==> after.read_spec(other) == value,
        !same_ram_cell(before, address, other) ==> after.read_spec(other) == before.read_spec(other),
{
    reveal(Gb::write_result);
}

/// The echo area E000-FDFF reads the work RAM 0x2000 below it.
pub proof fn lemma_echo_mirrors_work_ram(g: Gb, address: u16)
    requires
        0xE000 <= address <= 0xFDFF,
    ensures
        g.read_spec(address) == g.read_spec((address - 0x2000) as u16),
{
}

} // verus!
