use vstd::prelude::*;

verus! {

/// The value of a register pair whose high byte is `high` and low byte is `low`.
pub open spec fn pair_value(high: u8, low: u8) -> u16 {
    ((high as u16) << 8) | (low as u16)
}

/// High byte of a 16-bit value.
pub open spec fn high_byte(value: u16) -> u8 {
    (value >> 8) as u8
}

/// Low byte of a 16-bit value.
pub open spec fn low_byte(value: u16) -> u8 {
    (value & 0xFF) as u8
}

/// The F register keeps only its upper nibble.
pub open spec fn flag_nibble(value: u8) -> u8 {
    value & 0xF0
}

/// Number of bytes an instruction with the given opcode occupies.
pub open spec fn opcode_size_spec(opcode: u8) -> u16 {
    match opcode {
        0x01 | 0x08 | 0x11 | 0x21 | 0x31 | 0xC2 | 0xC3 | 0xC4 | 0xCA | 0xCC | 0xCD | 0xD2 | 0xD4
        | 0xDA | 0xDC | 0xEA | 0xFA => 3,
        0x06 | 0x0E | 0x10 | 0x16 | 0x18 | 0x1E | 0x20 | 0x26 | 0x28 | 0x2E | 0x30 | 0x36 | 0x38
        | 0x3E | 0xC6 | 0xCB | 0xCE | 0xD6 | 0xDE | 0xE0 | 0xE6 | 0xE8 | 0xEE | 0xF0 | 0xF6 | 0xF8
        | 0xFE => 2,
        _ => 1,
    }
}

/// Number of bytes an instruction with the given opcode occupies (opcode and operands).
pub fn opcode_size(opcode: u8) -> (r: u16)
    ensures
        r == opcode_size_spec(opcode),
        1 <= r <= 3,
{
    match opcode {
        0x01 | 0x08 | 0x11 | 0x21 | 0x31 | 0xC2 | 0xC3 | 0xC4 | 0xCA | 0xCC | 0xCD | 0xD2 | 0xD4
        | 0xDA | 0xDC | 0xEA | 0xFA => 3,
        0x06 | 0x0E | 0x10 | 0x16 | 0x18 | 0x1E | 0x20 | 0x26 | 0x28 | 0x2E | 0x30 | 0x36 | 0x38
        | 0x3E | 0xC6 | 0xCB | 0xCE | 0xD6 | 0xDE | 0xE0 | 0xE6 | 0xE8 | 0xEE | 0xF0 | 0xF6 | 0xF8
        | 0xFE => 2,
        _ => 1,
    }
}

/// Splits the F register value into its (carry, half carry, negative, zero) flags.
fn get_initial_flag_states(value: u8) -> (r: (bool, bool, bool, bool))
    ensures
        r.0 == (value & 0x10 == 0x10),
        r.1 == (value & 0x20 == 0x20),
        r.2 == (value & 0x40 == 0x40),
        r.3 == (value & 0x80 == 0x80),
{
    let carry = value & 0x10 == 0x10;
    let half_carry = value & 0x20 == 0x20;
    let negative = value & 0x40 == 0x40;
    let zero = value & 0x80 == 0x80;
    (carry, half_carry, negative, zero)
}

/// Register file and control state of the LR35902 CPU.
pub struct Cpu {
    pub registers: [u8; 8],
    pub sp: u16,
    pub pc: u16,
    pub carry: bool,
    pub half_carry: bool,
    pub negative: bool,
    pub zero: bool,
    pub current_instruction: u8,
    pub instruction_cycles: usize,
    pub pending_cycles: usize,
    pub interrupt_master: bool,
    pub is_halted: bool,
    pub ime_toggle: bool,
    pub d_ime_toggle: bool,
    pub is_stopped: bool,
    pub ticks: u32,
}

impl Cpu {
    /// The flag booleans agree with bits 4..7 of the F register.
    pub open spec fn flags_consistent(&self) -> bool {
        &&& self.carry == (self.registers[1] & 0x10 == 0x10)
        &&& self.half_carry == (self.registers[1] & 0x20 == 0x20)
        &&& self.negative == (self.registers[1] & 0x40 == 0x40)
        &&& self.zero == (self.registers[1] & 0x80 == 0x80)
    }

    /// Everything but the register file and the flag booleans is the same in both states.
    pub open spec fn same_control(&self, other: &Cpu) -> bool {
        &&& self.sp == other.sp
        &&& self.pc == other.pc
        &&& self.current_instruction == other.current_instruction
        &&& self.instruction_cycles == other.instruction_cycles
        &&& self.pending_cycles == other.pending_cycles
        &&& self.interrupt_master == other.interrupt_master
        &&& self.is_halted == other.is_halted
        &&& self.ime_toggle == other.ime_toggle
        &&& self.d_ime_toggle == other.d_ime_toggle
        &&& self.is_stopped == other.is_stopped
        &&& self.ticks == other.ticks
    }

    /// `new` is `old` after `value` was written to the F register: only the upper nibble is
    /// kept, the four flag booleans are taken from `value`, and nothing else changes.
    pub open spec fn f_written(old: &Cpu, new: &Cpu, value: u8) -> bool {
        &&& new.registers@ == old.registers@.update(1, flag_nibble(value))
        &&& new.carry == (value & 0x10 == 0x10)
        &&& new.half_carry == (value & 0x20 == 0x20)
        &&& new.negative == (value & 0x40 == 0x40)
        &&& new.zero == (value & 0x80 == 0x80)
        &&& new.same_control(old)
    }

    /// The CPU that `new` builds: the power-on state with the given register file.
    pub open spec fn started(&self, registers: [u8; 8]) -> bool {
        &&& (self.registers == registers)
        &&& (self.flags_consistent())
        &&& (self.sp == 0xFFFE)
        &&& (self.pc == 0x0100)
        &&& (self.current_instruction == 0)
        &&& (self.instruction_cycles == 0)
        &&& (self.pending_cycles == 0)
        &&& (self.interrupt_master)
        &&& (!self.is_halted)
        &&& (!self.ime_toggle)
        &&& (!self.d_ime_toggle)
        &&& (!self.is_stopped)
        &&& (self.ticks == 0)
    }

    /// Power-on state: the given register file, SP at 0xFFFE, PC at 0x0100, interrupts enabled.
    pub fn new(registers: [u8; 8]) -> (r: Self)
        ensures
            r.started(registers),
    {
        let (f_carry, f_half_carry, f_negative, f_zero) = get_initial_flag_states(registers[1]);
        Self {
            registers,
            carry: f_carry,
            half_carry: f_half_carry,
            negative: f_negative,
            zero: f_zero,
            sp: 0xFFFE,
            pc: 0x0100,
            current_instruction: 0,
            instruction_cycles: 0,
            pending_cycles: 0,
            interrupt_master: true,
            is_halted: false,
            ime_toggle: false,
            d_ime_toggle: false,
            is_stopped: false,
            ticks: 0,
        }
    }

    /// Moves PC past the current instruction (wrapping at 0x10000).
    pub fn advance_pc(&mut self)
        ensures
            final(self).pc == (old(self).pc as int + opcode_size_spec(old(self).current_instruction)) % 0x10000,
            final(self).registers == old(self).registers,
            final(self).carry == old(self).carry,
            final(self).half_carry == old(self).half_carry,
            final(self).negative == old(self).negative,
            final(self).zero == old(self).zero,
            final(self).sp == old(self).sp,
            final(self).current_instruction == old(self).current_instruction,
            final(self).instruction_cycles == old(self).instruction_cycles,
            final(self).pending_cycles == old(self).pending_cycles,
            final(self).interrupt_master == old(self).interrupt_master,
            final(self).is_halted == old(self).is_halted,
            final(self).ime_toggle == old(self).ime_toggle,
            final(self).d_ime_toggle == old(self).d_ime_toggle,
            final(self).is_stopped == old(self).is_stopped,
            final(self).ticks == old(self).ticks,
    {
        let adv = opcode_size(self.current_instruction);
        self.pc = self.pc.wrapping_add(adv);
    }

    pub fn a(&self) -> (r: u8)
        ensures
            r == self.registers[0],
    {
        self.registers[0]
    }

    /// The F register; its lower nibble always reads as zero.
    pub fn f(&self) -> (r: u8)
        ensures
            r == self.registers[1] & 0xF0,
            r == flag_nibble(self.registers[1]),
    {
        self.registers[1] & 0xF0
    }

    pub fn b(&self) -> (r: u8)
        ensures
            r == self.registers[2],
    {
        self.registers[2]
    }

    pub fn c(&self) -> (r: u8)
        ensures
            r == self.registers[3],
    {
        self.registers[3]
    }

    pub fn d(&self) -> (r: u8)
        ensures
            r == self.registers[4],
    {
        self.registers[4]
    }

    pub fn e(&self) -> (r: u8)
        ensures
            r == self.registers[5],
    {
        self.registers[5]
    }

    pub fn h(&self) -> (r: u8)
        ensures
            r == self.registers[6],
    {
        self.registers[6]
    }

    pub fn l(&self) -> (r: u8)
        ensures
            r == self.registers[7],
    {
        self.registers[7]
    }

    pub fn af(&self) -> (r: u16)
        ensures
            r == pair_value(self.registers[0], flag_nibble(self.registers[1])),
    {
        let hi = self.a();
        let lo = self.f();
        ((hi as u16) << 8) | (lo as u16)
    }

    pub fn bc(&self) -> (r: u16)
        ensures
            r == pair_value(self.registers[2], self.registers[3]),
    {
        let hi = self.b();
        let lo = self.c();
        ((hi as u16) << 8) | (lo as u16)
    }

    pub fn de(&self) -> (r: u16)
        ensures
            r == pair_value(self.registers[4], self.registers[5]),
    {
        let hi = self.d();
        let lo = self.e();
        ((hi as u16) << 8) | (lo as u16)
    }

    pub fn hl(&self) -> (r: u16)
        ensures
            r == pair_value(self.registers[6], self.registers[7]),
    {
        let hi = self.h();
        let lo = self.l();
        ((hi as u16) << 8) | (lo as u16)
    }

    pub fn set_a(&mut self, value: u8)
        ensures
            final(self).registers@ == old(self).registers@.update(0, value),
            final(self).carry == old(self).carry,
            final(self).half_carry == old(self).half_carry,
            final(self).negative == old(self).negative,
            final(self).zero == old(self).zero,
            final(self).same_control(old(self)),
            old(self).flags_consistent() ==> final(self).flags_consistent(),
    {
        self.registers[0] = value;
    }

    /// Writes F: keeps the upper nibble and derives the four flags from it.
    pub fn set_f(&mut self, value: u8)
        ensures
            Cpu::f_written(old(self), final(self), value),
            final(self).flags_consistent(),
    {
        assert({
            let m = value & 0xF0;
            &&& (m & 0x10 == 0x10) == (value & 0x10 == 0x10)
            &&& (m & 0x20 == 0x20) == (value & 0x20 == 0x20)
            &&& (m & 0x40 == 0x40) == (value & 0x40 == 0x40)
            &&& (m & 0x80 == 0x80) == (value & 0x80 == 0x80)
        }) by (bit_vector);
        self.registers[1] = value & 0xF0;
        self.carry = (value & 0x10) == 0x10;
        self.half_carry = (value & 0x20) == 0x20;
        self.negative = (value & 0x40) == 0x40;
        self.zero = (value & 0x80) == 0x80;
    }

    pub fn set_b(&mut self, value: u8)
        ensures
            final(self).registers@ == old(self).registers@.update(2, value),
            final(self).carry == old(self).carry,
            final(self).half_carry == old(self).half_carry,
            final(self).negative == old(self).negative,
            final(self).zero == old(self).zero,
            final(self).same_control(old(self)),
            old(self).flags_consistent() ==> final(self).flags_consistent(),
    {
        self.registers[2] = value;
    }

    pub fn set_c(&mut self, value: u8)
        ensures
            final(self).registers@ == old(self).registers@.update(3, value),
            final(self).carry == old(self).carry,
            final(self).half_carry == old(self).half_carry,
            final(self).negative == old(self).negative,
            final(self).zero == old(self).zero,
            final(self).same_control(old(self)),
            old(self).flags_consistent() ==> final(self).flags_consistent(),
    {
        self.registers[3] = value;
    }

    pub fn set_d(&mut self, value: u8)
        ensures
            final(self).registers@ == old(self).registers@.update(4, value),
            final(self).carry == old(self).carry,
            final(self).half_carry == old(self).half_carry,
            final(self).negative == old(self).negative,
            final(self).zero == old(self).zero,
            final(self).same_control(old(self)),
            old(self).flags_consistent() ==> final(self).flags_consistent(),
    {
        self.registers[4] = value;
    }

    pub fn set_e(&mut self, value: u8)
        ensures
            final(self).registers@ == old(self).registers@.update(5, value),
            final(self).carry == old(self).carry,
            final(self).half_carry == old(self).half_carry,
            final(self).negative == old(self).negative,
            final(self).zero == old(self).zero,
            final(self).same_control(old(self)),
            old(self).flags_consistent() ==> final(self).flags_consistent(),
    {
        self.registers[5] = value;
    }

    pub fn set_h(&mut self, value: u8)
        ensures
            final(self).registers@ == old(self).registers@.update(6, value),
            final(self).carry == old(self).carry,
            final(self).half_carry == old(self).half_carry,
            final(self).negative == old(self).negative,
            final(self).zero == old(self).zero,
            final(self).same_control(old(self)),
            old(self).flags_consistent() ==> final(self).flags_consistent(),
    {
        self.registers[6] = value;
    }

    pub fn set_l(&mut self, value: u8)
        ensures
            final(self).registers@ == old(self).registers@.update(7, value),
            final(self).carry == old(self).carry,
            final(self).half_carry == old(self).half_carry,
            final(self).negative == old(self).negative,
            final(self).zero == old(self).zero,
            final(self).same_control(old(self)),
            old(self).flags_consistent() ==> final(self).flags_consistent(),
    {
        self.registers[7] = value;
    }

    /// Writes AF: A takes the high byte, F the upper nibble of the low byte.
    pub fn set_af(&mut self, value: u16)
        ensures
            final(self).registers@ == old(self).registers@.update(0, high_byte(value)).update(
                1,
                flag_nibble(low_byte(value)),
            ),
            final(self).carry == (value & 0x10 == 0x10),
            final(self).half_carry == (value & 0x20 == 0x20),
            final(self).negative == (value & 0x40 == 0x40),
            final(self).zero == (value & 0x80 == 0x80),
            final(self).flags_consistent(),
            final(self).same_control(old(self)),
    {
        assert({
            &&& (value & 0xF0) as u8 == ((value & 0xFF) as u8) & 0xF0
            &&& ((value & 0xF0) as u8) & 0xF0 == (value & 0xF0) as u8
            &&& (((value & 0xF0) as u8) & 0x10 == 0x10) == (value & 0x10 == 0x10)
            &&& (((value & 0xF0) as u8) & 0x20 == 0x20) == (value & 0x20 == 0x20)
            &&& (((value & 0xF0) as u8) & 0x40 == 0x40) == (value & 0x40 == 0x40)
            &&& (((value & 0xF0) as u8) & 0x80 == 0x80) == (value & 0x80 == 0x80)
        }) by (bit_vector);
        self.set_a((value >> 8) as u8);
        self.set_f((value & 0xF0) as u8);
    }

    pub fn set_bc(&mut self, value: u16)
        ensures
            final(self).registers@ == old(self).registers@.update(2, high_byte(value)).update(
                3,
                low_byte(value),
            ),
            final(self).carry == old(self).carry,
            final(self).half_carry == old(self).half_carry,
            final(self).negative == old(self).negative,
            final(self).zero == old(self).zero,
            final(self).same_control(old(self)),
            old(self).flags_consistent() ==> final(self).flags_consistent(),
    {
        self.set_b((value >> 8) as u8);
        self.set_c((value & 0xFF) as u8);
    }

    pub fn set_de(&mut self, value: u16)
        ensures
            final(self).registers@ == old(self).registers@.update(4, high_byte(value)).update(
                5,
                low_byte(value),
            ),
            final(self).carry == old(self).carry,
            final(self).half_carry == old(self).half_carry,
            final(self).negative == old(self).negative,
            final(self).zero == old(self).zero,
            final(self).same_control(old(self)),
            old(self).flags_consistent() ==> final(self).flags_consistent(),
    {
        self.set_d((value >> 8) as u8);
        self.set_e((value & 0xFF) as u8);
    }

    pub fn set_hl(&mut self, value: u16)
        ensures
            final(self).registers@ == old(self).registers@.update(6, high_byte(value)).update(
                7,
                low_byte(value),
            ),
            final(self).carry == old(self).carry,
            final(self).half_carry == old(self).half_carry,
            final(self).negative == old(self).negative,
            final(self).zero == old(self).zero,
            final(self).same_control(old(self)),
            old(self).flags_consistent() ==> final(self).flags_consistent(),
    {
        self.set_h((value >> 8) as u8);
        self.set_l((value & 0xFF) as u8);
    }

    /// The carry flag as 0 or 1.
    pub fn get_carry(&self) -> (r: u8)
        ensures
            r == (if self.carry { 1u8 } else { 0u8 }),
    {
        if self.carry {
            1
        } else {
            0
        }
    }

    /// Sets or clears bit 4 (carry) of F; the four flag booleans are then re-derived from F.
    pub fn set_carry(&mut self, value: bool)
        ensures
            Cpu::f_written(
                old(self),
                final(self),
                if value { (old(self).registers[1] & 0xF0) | 0x10 } else { (old(self).registers[1] & 0xF0) & 0xE0 },
            ),
            final(self).flags_consistent(),
    {
        let nv = if value {
            self.f() | 0x10
        } else {
            self.f() & 0xE0
        };
        self.set_f(nv);
    }

    /// Sets or clears bit 5 (half carry) of F; the four flag booleans are then re-derived from F.
    pub fn set_half_carry(&mut self, value: bool)
        ensures
            Cpu::f_written(
                old(self),
                final(self),
                if value { (old(self).registers[1] & 0xF0) | 0x20 } else { (old(self).registers[1] & 0xF0) & 0xD0 },
            ),
            final(self).flags_consistent(),
    {
        let nv = if value {
            self.f() | 0x20
        } else {
            self.f() & 0xD0
        };
        self.set_f(nv);
    }

    /// Sets or clears bit 6 (negative) of F; the four flag booleans are then re-derived from F.
    pub fn set_negative(&mut self, value: bool)
        ensures
            Cpu::f_written(
                old(self),
                final(self),
                if value { (old(self).registers[1] & 0xF0) | 0x40 } else { (old(self).registers[1] & 0xF0) & 0xB0 },
            ),
            final(self).flags_consistent(),
    {
        let nv = if value {
            self.f() | 0x40
        } else {
            self.f() & 0xB0
        };
        self.set_f(nv);
    }

    /// Sets or clears bit 7 (zero) of F; the four flag booleans are then re-derived from F.
    pub fn set_zero(&mut self, value: bool)
        ensures
            Cpu::f_written(
                old(self),
                final(self),
                if value { (old(self).registers[1] & 0xF0) | 0x80 } else { (old(self).registers[1] & 0xF0) & 0x70 },
            ),
            final(self).flags_consistent(),
    {
        let nv = if value {
            self.f() | 0x80
        } else {
            self.f() & 0x70
        };
        self.set_f(nv);
    }
}

/// Writing a 16-bit register pair and reading it back gives the value written
/// (`set_bc`/`bc`, `set_de`/`de`, `set_hl`/`hl`).
pub proof fn lemma_pair_round_trip(value: u16)
    ensures
        pair_value(high_byte(value), low_byte(value)) == value,
{
    assert(((((value >> 8) as u8) as u16) << 8) | (((value & 0xFF) as u8) as u16) == value)
        by (bit_vector);
}

/// Writing AF and reading it back gives the value written with its low nibble cleared.
pub proof fn lemma_af_round_trip(value: u16)
    ensures
        pair_value(high_byte(value), flag_nibble(flag_nibble(low_byte(value)))) == value & 0xFFF0,
{
    assert(((((value >> 8) as u8) as u16) << 8) | (((((value & 0xFF) as u8) & 0xF0) & 0xF0) as u16)
        == value & 0xFFF0) by (bit_vector);
}

/// Each flag setter sets exactly its own flag to the value given and leaves the other three
/// as they were in F: `set_carry`, `set_half_carry`, `set_negative`, `set_zero`.
pub proof fn lemma_flag_setters(f: u8, value: bool)
    ensures
        ({
            let c = if value { (f & 0xF0) | 0x10 } else { (f & 0xF0) & 0xE0 };
            &&& (c & 0x10 == 0x10) == value
            &&& (c & 0x20 == 0x20) == (f & 0x20 == 0x20)
            &&& (c & 0x40 == 0x40) == (f & 0x40 == 0x40)
            &&& (c & 0x80 == 0x80) == (f & 0x80 == 0x80)
        }),
        ({
            let h = if value { (f & 0xF0) | 0x20 } else { (f & 0xF0) & 0xD0 };
            &&& (h & 0x20 == 0x20) == value
            &&& (h & 0x10 == 0x10) == (f & 0x10 == 0x10)
            &&& (h & 0x40 == 0x40) == (f & 0x40 == 0x40)
            &&& (h & 0x80 == 0x80) == (f & 0x80 == 0x80)
        }),
        ({
            let n = if value { (f & 0xF0) | 0x40 } else { (f & 0xF0) & 0xB0 };
            &&& (n & 0x40 == 0x40) == value
            &&& (n & 0x10 == 0x10) == (f & 0x10 == 0x10)
            &&& (n & 0x20 == 0x20) == (f & 0x20 == 0x20)
            &&& (n & 0x80 == 0x80) == (f & 0x80 == 0x80)
        }),
        ({
            let z = if value { (f & 0xF0) | 0x80 } else { (f & 0xF0) & 0x70 };
            &&& (z & 0x80 == 0x80) == value
            &&& (z & 0x10 == 0x10) == (f & 0x10 == 0x10)
            &&& (z & 0x20 == 0x20) == (f & 0x20 == 0x20)
            &&& (z & 0x40 == 0x40) == (f & 0x40 == 0x40)
        }),
{
    if value {
        assert({
            &&& (((f & 0xF0) | 0x10) & 0x10 == 0x10)
            &&& ((((f & 0xF0) | 0x10) & 0x20 == 0x20) == (f & 0x20 == 0x20))
            &&& ((((f & 0xF0) | 0x10) & 0x40 == 0x40) == (f & 0x40 == 0x40))
            &&& ((((f & 0xF0) | 0x10) & 0x80 == 0x80) == (f & 0x80 == 0x80))
            &&& (((f & 0xF0) | 0x20) & 0x20 == 0x20)
            &&& ((((f & 0xF0) | 0x20) & 0x10 == 0x10) == (f & 0x10 == 0x10))
            &&& ((((f & 0xF0) | 0x20) & 0x40 == 0x40) == (f & 0x40 == 0x40))
            &&& ((((f & 0xF0) | 0x20) & 0x80 == 0x80) == (f & 0x80 == 0x80))
            &&& (((f & 0xF0) | 0x40) & 0x40 == 0x40)
            &&& ((((f & 0xF0) | 0x40) & 0x10 == 0x10) == (f & 0x10 == 0x10))
            &&& ((((f & 0xF0) | 0x40) & 0x20 == 0x20) == (f & 0x20 == 0x20))
            &&& ((((f & 0xF0) | 0x40) & 0x80 == 0x80) == (f & 0x80 == 0x80))
            &&& (((f & 0xF0) | 0x80) & 0x80 == 0x80)
            &&& ((((f & 0xF0) | 0x80) & 0x10 == 0x10) == (f & 0x10 == 0x10))
            &&& ((((f & 0xF0) | 0x80) & 0x20 == 0x20) == (f & 0x20 == 0x20))
            &&& ((((f & 0xF0) | 0x80) & 0x40 == 0x40) == (f & 0x40 == 0x40))
        }) by (bit_vector);
    } else {
        assert({
            &&& (((f & 0xF0) & 0xE0) & 0x10 != 0x10)
            &&& ((((f & 0xF0) & 0xE0) & 0x20 == 0x20) == (f & 0x20 == 0x20))
            &&& ((((f & 0xF0) & 0xE0) & 0x40 == 0x40) == (f & 0x40 == 0x40))
            &&& ((((f & 0xF0) & 0xE0) & 0x80 == 0x80) == (f & 0x80 == 0x80))
            &&& (((f & 0xF0) & 0xD0) & 0x20 != 0x20)
            &&& ((((f & 0xF0) & 0xD0) & 0x10 == 0x10) == (f & 0x10 == 0x10))
            &&& ((((f & 0xF0) & 0xD0) & 0x40 == 0x40) == (f & 0x40 == 0x40))
            &&& ((((f & 0xF0) & 0xD0) & 0x80 == 0x80) == (f & 0x80 == 0x80))
            &&& (((f & 0xF0) & 0xB0) & 0x40 != 0x40)
            &&& ((((f & 0xF0) & 0xB0) & 0x10 == 0x10) == (f & 0x10 == 0x10))
            &&& ((((f & 0xF0) & 0xB0) & 0x20 == 0x20) == (f & 0x20 == 0x20))
            &&& ((((f & 0xF0) & 0xB0) & 0x80 == 0x80) == (f & 0x80 == 0x80))
            &&& (((f & 0xF0) & 0x70) & 0x80 != 0x80)
            &&& ((((f & 0xF0) & 0x70) & 0x10 == 0x10) == (f & 0x10 == 0x10))
            &&& ((((f & 0xF0) & 0x70) & 0x20 == 0x20) == (f & 0x20 == 0x20))
            &&& ((((f & 0xF0) & 0x70) & 0x40 == 0x40) == (f & 0x40 == 0x40))
        }) by (bit_vector);
    }
}

/// Instruction lengths follow the rows and columns of the opcode table: every register load
/// and ALU operation on registers (0x40..=0xBF) is one byte; the loads of an 8-bit immediate
/// (0x06 + 8r), the ALU operations on an immediate (0xC6 + 8k), the relative jumps
/// (0x18 + 8k) and the 0xCB prefix take one operand byte; the loads of a 16-bit immediate
/// (0x01 + 16k) and the conditional jumps and calls (0xC2 + 8k, 0xC4 + 8k) take two.
pub proof fn lemma_opcode_size_rows(opcode: u8, r: u8, k: u8)
    ensures
        0x40 <= opcode <= 0xBF ==> opcode_size_spec(opcode) == 1,
        r < 8 ==> opcode_size_spec((0x06 + 8 * r) as u8) == 2 && opcode_size_spec((0xC6 + 8 * r) as u8) == 2,
        k < 5 ==> opcode_size_spec((0x18 + 8 * k) as u8) == 2,
        opcode_size_spec(0xCB) == 2,
        k < 4 ==> opcode_size_spec((0x01 + 16 * k) as u8) == 3 && opcode_size_spec((0xC2 + 8 * k) as u8) == 3
            && opcode_size_spec((0xC4 + 8 * k) as u8) == 3,
{
}

} // verus!
