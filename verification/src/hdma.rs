use vstd::prelude::*;
use crate::memory::Memory;

verus! {

/// What a write to HDMA5 started.
#[derive(PartialEq, Eq, Structural, Clone, Copy, Debug)]
pub enum HdmaAction {
    NoAction,
    General,
    HBlank,
    Cancelled,
}

/// The CGB VRAM DMA controller (registers HDMA1..HDMA5).
pub struct Hdma {
    pub hdma1: u8,
    pub hdma2: u8,
    pub hdma3: u8,
    pub hdma4: u8,
    pub hdma5: u8,
    pub active: bool,
    pub hblank_mode: bool,
    pub remaining_blocks: u8,
}

/// The 16-bit value of a high/low register pair.
pub open spec fn word(high: u8, low: u8) -> u16 {
    ((high as u16) << 8u16) | (low as u16)
}

impl Hdma {
    /// Source address: HDMA1:HDMA2 with the low four bits cleared.
    pub open spec fn source_spec(&self) -> u16 {
        word(self.hdma1, self.hdma2) & 0xFFF0
    }

    /// Destination address: HDMA3:HDMA4 masked into VRAM, 16-byte aligned.
    pub open spec fn destination_spec(&self) -> u16 {
        0x8000 | (word(self.hdma3, self.hdma4) & 0x1FF0)
    }

    /// The value HDMA5 reads back.
    pub open spec fn status_spec(&self) -> u8 {
        let left: u8 = if self.remaining_blocks > 0 { (self.remaining_blocks - 1) as u8 } else { 0 };
        if self.active {
            left & 0x7F
        } else if self.remaining_blocks == 0 {
            0xFF
        } else {
            0x80 | (left & 0x7F)
        }
    }

    /// An H-Blank transfer is a running one: H-Blank mode is only ever set while a transfer
    /// is active.
    pub open spec fn hblank_consistent(&self) -> bool {
        self.hblank_mode ==> self.active
    }

    /// Idle controller with all registers reading 0xFF.
    pub fn new() -> (r: Self)
        ensures
            r.hblank_consistent(),
            r.hdma1 == 0xFF && r.hdma2 == 0xFF && r.hdma3 == 0xFF && r.hdma4 == 0xFF && r.hdma5 == 0xFF,
            !r.active,
            !r.hblank_mode,
            r.remaining_blocks == 0,
    {
        Self {
            hdma1: 0xFF,
            hdma2: 0xFF,
            hdma3: 0xFF,
            hdma4: 0xFF,
            hdma5: 0xFF,
            active: false,
            hblank_mode: false,
            remaining_blocks: 0,
        }
    }

    pub fn get_hdma_source(&self) -> (r: u16)
        ensures
            r == self.source_spec(),
            r % 16 == 0,
    {
        let w = ((self.hdma1 as u16) << 8u16) | (self.hdma2 as u16);
        assert((w & 0xFFF0) % 16 == 0) by (bit_vector);
        w & 0xFFF0
    }

    pub fn get_hdma_destination(&self) -> (r: u16)
        ensures
            r == self.destination_spec(),
            0x8000 <= r <= 0x9FF0,
            r % 16 == 0,
    {
        let w = ((self.hdma3 as u16) << 8u16) | (self.hdma4 as u16);
        let r = 0x8000 | (w & 0x1FF0);
        assert(0x8000 <= 0x8000 | (w & 0x1FF0) <= 0x9FF0 && (0x8000 | (w & 0x1FF0)) % 16 == 0) by (bit_vector);
        r
    }

    pub fn is_active(&self) -> (r: bool)
        ensures
            r == self.active,
    {
        self.active
    }

    pub fn is_hblank_mode(&self) -> (r: bool)
        ensures
            r == (self.active && self.hblank_mode),
    {
        self.active && self.hblank_mode
    }

    /// Writes HDMA5. A write with bit 7 clear during an H-Blank transfer cancels it; any other
    /// write starts a transfer of `(value & 0x7F) + 1` blocks of 16 bytes, in H-Blank mode when
    /// bit 7 is set.
    pub fn write_hdma5(&mut self, value: u8) -> (r: HdmaAction)
        ensures
            old(self).active && old(self).hblank_mode && value & 0x80 == 0 ==> ({
                &&& r == HdmaAction::Cancelled
                &&& *final(self) == (Hdma {
                    active: false,
                    hblank_mode: false,
                    hdma5: 0x80 | (if old(self).remaining_blocks > 0 { (old(self).remaining_blocks - 1) as u8 } else { 0 }),
                    ..*old(self)
                })
            }),
            !(old(self).active && old(self).hblank_mode && value & 0x80 == 0) ==> ({
                &&& r == (if value & 0x80 != 0 { HdmaAction::HBlank } else { HdmaAction::General })
                &&& *final(self) == (Hdma {
                    active: true,
                    hblank_mode: value & 0x80 != 0,
                    remaining_blocks: ((value & 0x7F) + 1) as u8,
                    hdma5: value,
                    ..*old(self)
                })
            }),
    {
        if self.active && self.hblank_mode && value & 0x80 == 0 {
            self.active = false;
            self.hblank_mode = false;
            self.hdma5 = 0x80 | self.remaining_blocks.saturating_sub(1);
            return HdmaAction::Cancelled;
        }

        self.active = true;
        self.hblank_mode = value & 0x80 != 0;
        proof { crate::bits::lemma_byte_fields(); }
        self.remaining_blocks = (value & 0x7F).wrapping_add(1);
        self.hdma5 = value;

        if self.hblank_mode {
            HdmaAction::HBlank
        } else {
            HdmaAction::General
        }
    }

    /// Stops the transfer: idle, no blocks left, HDMA5 reads 0xFF.
    pub fn finish_transfer(&mut self)
        ensures
            *final(self) == (Hdma { active: false, hblank_mode: false, remaining_blocks: 0, hdma5: 0xFF, ..*old(self) }),
    {
        self.active = false;
        self.hblank_mode = false;
        self.remaining_blocks = 0;
        self.hdma5 = 0xFF;
    }

    /// After one 16-byte block: source and destination move on by 16 (the destination wraps
    /// inside VRAM), one block fewer is left, and the transfer ends when none is.
    pub open spec fn advanced(self) -> Hdma {
        let source = ((self.source_spec() as int + 0x10) % 0x10000) as u16;
        let destination = ((self.destination_spec() as int + 0x10) % 0x10000) as u16;
        let left: u8 = if self.remaining_blocks > 0 { (self.remaining_blocks - 1) as u8 } else { 0 };
        let moved = Hdma {
            hdma1: (source >> 8u16) as u8,
            hdma2: (source & 0xF0) as u8,
            hdma3: ((destination >> 8u16) as u8) & 0x1F,
            hdma4: (destination & 0xF0) as u8,
            remaining_blocks: left,
            ..self
        };
        if left == 0 {
            Hdma { active: false, hblank_mode: false, remaining_blocks: 0, hdma5: 0xFF, ..moved }
        } else {
            moved
        }
    }

    pub fn advance_block(&mut self)
        ensures
            *final(self) == old(self).advanced(),
    {
        let source = self.get_hdma_source().wrapping_add(0x10);
        let destination = self.get_hdma_destination().wrapping_add(0x10);

        self.hdma1 = (source >> 8u16) as u8;
        self.hdma2 = (source & 0xF0) as u8;
        self.hdma3 = ((destination >> 8u16) as u8) & 0x1F;
        self.hdma4 = (destination & 0xF0) as u8;

        self.remaining_blocks = self.remaining_blocks.saturating_sub(1);
        if self.remaining_blocks == 0 {
            self.finish_transfer();
        }
    }

    fn status(&self) -> (r: u8)
        ensures
            r == self.status_spec(),
    {
        if self.active {
            self.remaining_blocks.saturating_sub(1) & 0x7F
        } else if self.remaining_blocks == 0 {
            0xFF
        } else {
            0x80 | (self.remaining_blocks.saturating_sub(1) & 0x7F)
        }
    }
}

impl Hdma {
    /// Whether an HDMA5 write of `value` starts a general-purpose transfer.
    pub open spec fn register_written_is_general(h: Hdma, value: u8) -> bool {
        value & 0x80 == 0 && !(h.active && h.hblank_mode)
    }

    /// The controller after a write of `value` to `address`: HDMA1-4 latch the address bytes
    /// (masked as the hardware masks them), HDMA5 starts or cancels a transfer.
    pub open spec fn register_written(&self, address: u16, value: u8, next: Hdma) -> bool {
        if address == 0xFF51 {
            next == Hdma { hdma1: value, ..*self }
        } else if address == 0xFF52 {
            next == Hdma { hdma2: value & 0xF0, ..*self }
        } else if address == 0xFF53 {
            next == Hdma { hdma3: value & 0x1F, ..*self }
        } else if address == 0xFF54 {
            next == Hdma { hdma4: value & 0xF0, ..*self }
        } else if self.active && self.hblank_mode && value & 0x80 == 0 {
            next == Hdma {
                active: false,
                hblank_mode: false,
                hdma5: 0x80 | (if self.remaining_blocks > 0 { (self.remaining_blocks - 1) as u8 } else { 0 }),
                ..*self
            }
        } else {
            next == Hdma {
                active: true,
                hblank_mode: value & 0x80 != 0,
                remaining_blocks: ((value & 0x7F) + 1) as u8,
                hdma5: value,
                ..*self
            }
        }
    }
}

impl Memory for Hdma {
    open spec fn readable(&self, address: u16) -> bool {
        true
    }

    open spec fn writable(&self, address: u16) -> bool {
        0xFF51 <= address <= 0xFF55
    }

    /// HDMA5 reads the transfer status; the other registers are write-only.
    fn read_byte(&self, address: u16) -> (r: u8)
        ensures
            r == (if address == 0xFF55 { self.status_spec() } else { 0xFF }),
    {
        if address == 0xFF55 {
            self.status()
        } else {
            0xFF
        }
    }

    fn write_byte(&mut self, address: u16, value: u8)
        ensures
            old(self).register_written(address, value, *final(self)),
    {
        if address == 0xFF51 {
            self.hdma1 = value;
        } else if address == 0xFF52 {
            self.hdma2 = value & 0xF0;
        } else if address == 0xFF53 {
            self.hdma3 = value & 0x1F;
        } else if address == 0xFF54 {
            self.hdma4 = value & 0xF0;
        } else {
            let _ = self.write_hdma5(value);
        }
    }
}

/// Starting a transfer of `(value & 0x7F) + 1` blocks makes HDMA5 read back `value & 0x7F`
/// while it runs (`write_hdma5` then `status`), and a finished transfer reads 0xFF.
pub proof fn lemma_hdma_status_after_start(h: Hdma, value: u8)
    ensures
        (Hdma { active: true, hblank_mode: value & 0x80 != 0, remaining_blocks: ((value & 0x7F) + 1) as u8, hdma5: value, ..h }).status_spec()
            == value & 0x7F,
        (Hdma { active: false, hblank_mode: false, remaining_blocks: 0, hdma5: 0xFF, ..h }).status_spec() == 0xFF,
{
    assert((value & 0x7F) < 0x80 && (value & 0x7F) & 0x7F == value & 0x7F) by (bit_vector);
}

/// Over any history of the controller, H-Blank mode implies an active transfer: `new` starts
/// idle (see its contract), and a register write (HDMA5 included, as `write_hdma5` does it),
/// a block step and the end of a transfer each keep the property. H-Blank mode is set exactly
/// by an HDMA5 write with bit 7 set that does not cancel, and cleared by a cancel or the end.
pub proof fn lemma_hblank_implies_active(h: Hdma, address: u16, value: u8, next: Hdma)
    requires
        h.hblank_consistent(),
        h.register_written(address, value, next),
    ensures
        next.hblank_consistent(),
        h.advanced().hblank_consistent(),
        (Hdma { active: false, hblank_mode: false, remaining_blocks: 0, hdma5: 0xFF, ..h }).hblank_consistent(),
        address == 0xFF55 && !(h.active && h.hblank_mode && value & 0x80 == 0) ==> next.hblank_mode == (value & 0x80 != 0)
            && next.active,
        address == 0xFF55 && h.active && h.hblank_mode && value & 0x80 == 0 ==> !next.hblank_mode && !next.active,
{
}

} // verus!
