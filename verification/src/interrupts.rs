use vstd::prelude::*;

verus! {

/// Interrupt sources, in priority order.
#[derive(PartialEq, Eq, Structural, Clone, Copy, Debug)]
pub enum Interrupt {
    Vblank,
    LcdStat,
    Timer,
    Serial,
    Joypad,
    Invalid,
}

impl Interrupt {
    /// The interrupt's bit in IE and IF (the flag value the interrupt stands for).
    pub open spec fn bit_spec(self) -> u8 {
        match self {
            Interrupt::Vblank => 0x01,
            Interrupt::LcdStat => 0x02,
            Interrupt::Timer => 0x04,
            Interrupt::Serial => 0x08,
            Interrupt::Joypad => 0x10,
            Interrupt::Invalid => 0x11,
        }
    }

    pub fn bit(self) -> (r: u8)
        ensures
            r == self.bit_spec(),
    {
        match self {
            Interrupt::Vblank => 0x01,
            Interrupt::LcdStat => 0x02,
            Interrupt::Timer => 0x04,
            Interrupt::Serial => 0x08,
            Interrupt::Joypad => 0x10,
            Interrupt::Invalid => 0x11,
        }
    }

    /// Address of the interrupt's handler.
    pub open spec fn vector_spec(self) -> u16 {
        match self {
            Interrupt::Vblank => 0x40,
            Interrupt::LcdStat => 0x48,
            Interrupt::Timer => 0x50,
            Interrupt::Serial => 0x58,
            Interrupt::Joypad => 0x60,
            Interrupt::Invalid => 0,
        }
    }
}

/// The source served first among the pending bits: the lowest set bit of the lower five.
pub open spec fn interrupt_source_spec(pending: u8) -> Interrupt {
    if pending & 0x01 != 0 {
        Interrupt::Vblank
    } else if pending & 0x02 != 0 {
        Interrupt::LcdStat
    } else if pending & 0x04 != 0 {
        Interrupt::Timer
    } else if pending & 0x08 != 0 {
        Interrupt::Serial
    } else if pending & 0x10 != 0 {
        Interrupt::Joypad
    } else {
        Interrupt::Invalid
    }
}

/// The highest-priority source among the pending interrupt bits.
pub fn get_interrupt_source(pending: u8) -> (r: Interrupt)
    ensures
        r == interrupt_source_spec(pending),
        pending & 0x1F != 0 <==> r != Interrupt::Invalid,
{
    assert(pending & 0x1F != 0 <==> (pending & 0x01 != 0 || pending & 0x02 != 0 || pending & 0x04 != 0
        || pending & 0x08 != 0 || pending & 0x10 != 0)) by (bit_vector);
    if pending & 0x01 != 0 {
        Interrupt::Vblank
    } else if pending & 0x02 != 0 {
        Interrupt::LcdStat
    } else if pending & 0x04 != 0 {
        Interrupt::Timer
    } else if pending & 0x08 != 0 {
        Interrupt::Serial
    } else if pending & 0x10 != 0 {
        Interrupt::Joypad
    } else {
        Interrupt::Invalid
    }
}

/// Handler address of a valid interrupt source.
pub fn go_interrupt(interrupt: &Interrupt) -> (r: u16)
    requires
        *interrupt != Interrupt::Invalid,
    ensures
        r == interrupt.vector_spec(),
{
    match interrupt {
        Interrupt::Vblank => 0x40,
        Interrupt::LcdStat => 0x48,
        Interrupt::Timer => 0x50,
        Interrupt::Serial => 0x58,
        Interrupt::Joypad => 0x60,
        Interrupt::Invalid => vstd::pervasive::unreached(),
    }
}

/// The value of bit `k` (0 to 4) of the interrupt flags.
pub open spec fn flag_bit(k: int) -> int {
    if k == 0 {
        1
    } else if k == 1 {
        2
    } else if k == 2 {
        4
    } else if k == 3 {
        8
    } else {
        16
    }
}

/// Serving the pending interrupts `pending` (IE & IF) jumps to 0x40 + 8k, where bit k is the
/// lowest pending one of the five: V-Blank 0x40, LCD STAT 0x48, timer 0x50, serial 0x58,
/// joypad 0x60; that source's flag bit is the one acknowledged.
pub proof fn lemma_vector_of_lowest_pending(pending: u8)
    requires
        pending & 0x1F != 0,
    ensures
        exists|k: int|
            0 <= k < 5 && #[trigger] flag_bit(k) == interrupt_source_spec(pending).bit_spec()
                && interrupt_source_spec(pending).vector_spec() == 0x40 + 8 * k && (pending as int / flag_bit(k)) % 2 == 1
                && (pending as int) % flag_bit(k) == 0,
{
    let p = pending;
    crate::bits::lemma_byte_digits();
    if p & 0x01 != 0 {
        assert(flag_bit(0) == 1);
    } else if p & 0x02 != 0 {
        assert(flag_bit(1) == 2);
    } else if p & 0x04 != 0 {
        assert(flag_bit(2) == 4);
    } else if p & 0x08 != 0 {
        assert(flag_bit(3) == 8);
    } else {
        assert(flag_bit(4) == 16);
    }
}

} // verus!
