use vstd::prelude::*;

verus! {

/// Panels of the debugger window.
#[derive(Clone, Copy, Debug, PartialEq, Eq, Structural)]
pub enum DebuggerTab {
    Cpu,
    Ppu,
    Apu,
    Breakpoints,
    Disassembly,
    Memory,
    MemoryMap,
    Writes,
    Vram,
    BgMap,
    Oam,
}

impl DebuggerTab {
    /// Every panel, in menu order.
    pub fn all() -> (r: Vec<Self>)
        ensures
            r@ == seq![
                DebuggerTab::Cpu,
                DebuggerTab::Ppu,
                DebuggerTab::Apu,
                DebuggerTab::Breakpoints,
                DebuggerTab::Disassembly,
                DebuggerTab::Memory,
                DebuggerTab::MemoryMap,
                DebuggerTab::Writes,
                DebuggerTab::Vram,
                DebuggerTab::BgMap,
                DebuggerTab::Oam,
            ],
    {
        let r = vec![
            Self::Cpu,
            Self::Ppu,
            Self::Apu,
            Self::Breakpoints,
            Self::Disassembly,
            Self::Memory,
            Self::MemoryMap,
            Self::Writes,
            Self::Vram,
            Self::BgMap,
            Self::Oam,
        ];
        assert(r@ =~= seq![
            DebuggerTab::Cpu,
            DebuggerTab::Ppu,
            DebuggerTab::Apu,
            DebuggerTab::Breakpoints,
            DebuggerTab::Disassembly,
            DebuggerTab::Memory,
            DebuggerTab::MemoryMap,
            DebuggerTab::Writes,
            DebuggerTab::Vram,
            DebuggerTab::BgMap,
            DebuggerTab::Oam,
        ]);
        r
    }

    pub open spec fn label_spec(self) -> &'static str {
        match self {
            DebuggerTab::Cpu => "CPU",
            DebuggerTab::Ppu => "PPU",
            DebuggerTab::Apu => "APU",
            DebuggerTab::Breakpoints => "Breakpoints",
            DebuggerTab::Disassembly => "Disassembly",
            DebuggerTab::Memory => "Memory",
            DebuggerTab::MemoryMap => "Memory Map",
            DebuggerTab::Writes => "Writes",
            DebuggerTab::Vram => "VRAM",
            DebuggerTab::BgMap => "BG Map",
            DebuggerTab::Oam => "OAM",
        }
    }

    pub fn label(self) -> (r: &'static str)
        ensures
            r == self.label_spec(),
    {
        match self {
            Self::Cpu => "CPU",
            Self::Ppu => "PPU",
            Self::Apu => "APU",
            Self::Breakpoints => "Breakpoints",
            Self::Disassembly => "Disassembly",
            Self::Memory => "Memory",
            Self::MemoryMap => "Memory Map",
            Self::Writes => "Writes",
            Self::Vram => "VRAM",
            Self::BgMap => "BG Map",
            Self::Oam => "OAM",
        }
    }
}

/// The kinds of single-step the debugger offers.
#[derive(Clone, Copy, Debug, PartialEq, Eq, Structural)]
pub enum DebuggerStepKind {
    Over,
    Into,
    Out,
}

impl DebuggerStepKind {
    pub fn all() -> (r: Vec<Self>)
        ensures
            r@ == seq![DebuggerStepKind::Over, DebuggerStepKind::Into, DebuggerStepKind::Out],
    {
        let r = vec![Self::Over, Self::Into, Self::Out];
        assert(r@ =~= seq![DebuggerStepKind::Over, DebuggerStepKind::Into, DebuggerStepKind::Out]);
        r
    }

    pub open spec fn label_spec(self) -> &'static str {
        match self {
            DebuggerStepKind::Over => "⏩ Step",
            DebuggerStepKind::Into => "↪ Step In",
            DebuggerStepKind::Out => "↩ Step Out",
        }
    }

    pub fn label(self) -> (r: &'static str)
        ensures
            r == self.label_spec(),
    {
        match self {
            Self::Over => "⏩ Step",
            Self::Into => "↪ Step In",
            Self::Out => "↩ Step Out",
        }
    }
}

/// Regions of the address space as the memory map panel names them.
#[derive(Clone, Copy, Debug, PartialEq, Eq, Structural)]
pub enum MemoryRegion {
    Rom0,
    RomX,
    Vram,
    ExtRam,
    Wram0,
    WramX,
    Echo,
    Oam,
    Unusable,
    Io,
    Hram,
    InterruptEnable,
}

/// The region an address belongs to.
pub open spec fn region_spec(address: u16) -> MemoryRegion {
    if address <= 0x3FFF {
        MemoryRegion::Rom0
    } else if address <= 0x7FFF {
        MemoryRegion::RomX
    } else if address <= 0x9FFF {
        MemoryRegion::Vram
    } else if address <= 0xBFFF {
        MemoryRegion::ExtRam
    } else if address <= 0xCFFF {
        MemoryRegion::Wram0
    } else if address <= 0xDFFF {
        MemoryRegion::WramX
    } else if address <= 0xFDFF {
        MemoryRegion::Echo
    } else if address <= 0xFE9F {
        MemoryRegion::Oam
    } else if address <= 0xFEFF {
        MemoryRegion::Unusable
    } else if address <= 0xFF7F {
        MemoryRegion::Io
    } else if address <= 0xFFFE {
        MemoryRegion::Hram
    } else {
        MemoryRegion::InterruptEnable
    }
}

impl MemoryRegion {
    /// Every region with its first and last address, in address order.
    pub fn all() -> (r: Vec<(Self, u16, u16)>)
        ensures
            r@ == seq![
                (MemoryRegion::Rom0, 0x0000u16, 0x3FFFu16),
                (MemoryRegion::RomX, 0x4000u16, 0x7FFFu16),
                (MemoryRegion::Vram, 0x8000u16, 0x9FFFu16),
                (MemoryRegion::ExtRam, 0xA000u16, 0xBFFFu16),
                (MemoryRegion::Wram0, 0xC000u16, 0xCFFFu16),
                (MemoryRegion::WramX, 0xD000u16, 0xDFFFu16),
                (MemoryRegion::Echo, 0xE000u16, 0xFDFFu16),
                (MemoryRegion::Oam, 0xFE00u16, 0xFE9Fu16),
                (MemoryRegion::Unusable, 0xFEA0u16, 0xFEFFu16),
                (MemoryRegion::Io, 0xFF00u16, 0xFF7Fu16),
                (MemoryRegion::Hram, 0xFF80u16, 0xFFFEu16),
                (MemoryRegion::InterruptEnable, 0xFFFFu16, 0xFFFFu16),
            ],
    {
        let r = vec![
            (Self::Rom0, 0x0000u16, 0x3FFFu16),
            (Self::RomX, 0x4000u16, 0x7FFFu16),
            (Self::Vram, 0x8000u16, 0x9FFFu16),
            (Self::ExtRam, 0xA000u16, 0xBFFFu16),
            (Self::Wram0, 0xC000u16, 0xCFFFu16),
            (Self::WramX, 0xD000u16, 0xDFFFu16),
            (Self::Echo, 0xE000u16, 0xFDFFu16),
            (Self::Oam, 0xFE00u16, 0xFE9Fu16),
            (Self::Unusable, 0xFEA0u16, 0xFEFFu16),
            (Self::Io, 0xFF00u16, 0xFF7Fu16),
            (Self::Hram, 0xFF80u16, 0xFFFEu16),
            (Self::InterruptEnable, 0xFFFFu16, 0xFFFFu16),
        ];
        assert(r@ =~= seq![
            (MemoryRegion::Rom0, 0x0000u16, 0x3FFFu16),
            (MemoryRegion::RomX, 0x4000u16, 0x7FFFu16),
            (MemoryRegion::Vram, 0x8000u16, 0x9FFFu16),
            (MemoryRegion::ExtRam, 0xA000u16, 0xBFFFu16),
            (MemoryRegion::Wram0, 0xC000u16, 0xCFFFu16),
            (MemoryRegion::WramX, 0xD000u16, 0xDFFFu16),
            (MemoryRegion::Echo, 0xE000u16, 0xFDFFu16),
            (MemoryRegion::Oam, 0xFE00u16, 0xFE9Fu16),
            (MemoryRegion::Unusable, 0xFEA0u16, 0xFEFFu16),
            (MemoryRegion::Io, 0xFF00u16, 0xFF7Fu16),
            (MemoryRegion::Hram, 0xFF80u16, 0xFFFEu16),
            (MemoryRegion::InterruptEnable, 0xFFFFu16, 0xFFFFu16),
        ]);
        r
    }

    pub open spec fn label_spec(self) -> &'static str {
        match self {
            MemoryRegion::Rom0 => "ROM0",
            MemoryRegion::RomX => "ROMX",
            MemoryRegion::Vram => "VRAM",
            MemoryRegion::ExtRam => "SRAM",
            MemoryRegion::Wram0 => "WRAM0",
            MemoryRegion::WramX => "WRAMX",
            MemoryRegion::Echo => "ECHO",
            MemoryRegion::Oam => "OAM",
            MemoryRegion::Unusable => "UNUSABLE",
            MemoryRegion::Io => "IO",
            MemoryRegion::Hram => "HRAM",
            MemoryRegion::InterruptEnable => "IE",
        }
    }

    pub fn label(self) -> (r: &'static str)
        ensures
            r == self.label_spec(),
    {
        match self {
            Self::Rom0 => "ROM0",
            Self::RomX => "ROMX",
            Self::Vram => "VRAM",
            Self::ExtRam => "SRAM",
            Self::Wram0 => "WRAM0",
            Self::WramX => "WRAMX",
            Self::Echo => "ECHO",
            Self::Oam => "OAM",
            Self::Unusable => "UNUSABLE",
            Self::Io => "IO",
            Self::Hram => "HRAM",
            Self::InterruptEnable => "IE",
        }
    }

    /// The region that contains `address`.
    pub fn for_address(address: u16) -> (r: Self)
        ensures
            r == region_spec(address),
    {
        if address <= 0x3FFF {
            Self::Rom0
        } else if address <= 0x7FFF {
            Self::RomX
        } else if address <= 0x9FFF {
            Self::Vram
        } else if address <= 0xBFFF {
            Self::ExtRam
        } else if address <= 0xCFFF {
            Self::Wram0
        } else if address <= 0xDFFF {
            Self::WramX
        } else if address <= 0xFDFF {
            Self::Echo
        } else if address <= 0xFE9F {
            Self::Oam
        } else if address <= 0xFEFF {
            Self::Unusable
        } else if address <= 0xFF7F {
            Self::Io
        } else if address <= 0xFFFE {
            Self::Hram
        } else {
            Self::InterruptEnable
        }
    }
}

/// Every address lies in exactly the region of the table in `MemoryRegion::all` whose range
/// contains it (`for_address` agrees with `all`).
pub proof fn lemma_region_table_agrees(address: u16)
    ensures
        ({
            let table = seq![
                (MemoryRegion::Rom0, 0x0000u16, 0x3FFFu16),
                (MemoryRegion::RomX, 0x4000u16, 0x7FFFu16),
                (MemoryRegion::Vram, 0x8000u16, 0x9FFFu16),
                (MemoryRegion::ExtRam, 0xA000u16, 0xBFFFu16),
                (MemoryRegion::Wram0, 0xC000u16, 0xCFFFu16),
                (MemoryRegion::WramX, 0xD000u16, 0xDFFFu16),
                (MemoryRegion::Echo, 0xE000u16, 0xFDFFu16),
                (MemoryRegion::Oam, 0xFE00u16, 0xFE9Fu16),
                (MemoryRegion::Unusable, 0xFEA0u16, 0xFEFFu16),
                (MemoryRegion::Io, 0xFF00u16, 0xFF7Fu16),
                (MemoryRegion::Hram, 0xFF80u16, 0xFFFEu16),
                (MemoryRegion::InterruptEnable, 0xFFFFu16, 0xFFFFu16),
            ];
            forall|i: int| 0 <= i < table.len() ==> (table[i].1 <= address <= table[i].2 <==> region_spec(address) == table[i].0)
        }),
{
}

/// A single-step the debugger is waiting to complete.
#[derive(Clone, Copy, Debug, PartialEq, Eq, Structural)]
pub enum PendingStep {
    Into,
    Over { target_pc: u16, initial_sp: u16 },
    Out { target_pc: u16, target_sp: u16 },
}

impl PendingStep {
    pub open spec fn label_spec(self) -> &'static str {
        match self {
            PendingStep::Into => "Step In",
            PendingStep::Over { .. } => "Step",
            PendingStep::Out { .. } => "Step Out",
        }
    }

    pub fn label(self) -> (r: &'static str)
        ensures
            r == self.label_spec(),
    {
        match self {
            Self::Into => "Step In",
            Self::Over { .. } => "Step",
            Self::Out { .. } => "Step Out",
        }
    }
}

/// Calls and restarts: the instructions that "step over" runs to completion.
pub open spec fn step_over_spec(opcode: u8) -> bool {
    opcode == 0xC4 || opcode == 0xCC || opcode == 0xCD || opcode == 0xD4 || opcode == 0xDC || opcode == 0xC7 || opcode
        == 0xCF || opcode == 0xD7 || opcode == 0xDF || opcode == 0xE7 || opcode == 0xEF || opcode == 0xF7 || opcode == 0xFF
}

pub fn is_step_over_opcode(opcode: u8) -> (r: bool)
    ensures
        r == step_over_spec(opcode),
{
    opcode == 0xC4 || opcode == 0xCC || opcode == 0xCD || opcode == 0xD4 || opcode == 0xDC || opcode == 0xC7 || opcode
        == 0xCF || opcode == 0xD7 || opcode == 0xDF || opcode == 0xE7 || opcode == 0xEF || opcode == 0xF7 || opcode == 0xFF
}

} // verus!
