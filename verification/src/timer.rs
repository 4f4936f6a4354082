use vstd::prelude::*;
use crate::memory::Memory;
use crate::bits::lemma_byte_digits;

verus! {

/// DIV, TIMA, TMA, TAC and the cycle counters that drive them.
pub struct Timer {
    pub div: u8,
    pub tima: u8,
    pub tma: u8,
    pub tac: u8,
    pub frequency: u32,
    pub enabled: bool,
    pub ticks: u32,
    pub cycles: u32,
}

/// Cycles per TIMA increment for the clock select bits of TAC.
pub open spec fn frequency_spec(tac: u8) -> u32 {
    let sel = tac & 3;
    if sel == 1 {
        16
    } else if sel == 2 {
        64
    } else if sel == 3 {
        256
    } else {
        1024
    }
}

fn get_frequency_values(tac: u8) -> (r: u32)
    ensures
        r == frequency_spec(tac),
{
    let sel = tac & 3;
    if sel == 1 {
        16
    } else if sel == 2 {
        64
    } else if sel == 3 {
        256
    } else {
        1024
    }
}

/// Whether the TIMA loop, which takes `step` cycles off `ticks` for every increment while
/// `ticks >= frequency`, ends without taking off more than is there.
pub open spec fn drains_safely(ticks: nat, frequency: nat, step: nat) -> bool
    decreases ticks,
{
    if ticks < frequency {
        true
    } else if step == 0 || ticks < step {
        false
    } else {
        drains_safely((ticks - step) as nat, frequency, step)
    }
}

/// How many TIMA increments that loop makes.
pub open spec fn drain_count(ticks: nat, frequency: nat, step: nat) -> nat
    decreases ticks,
{
    if ticks < frequency || step == 0 || ticks < step {
        0
    } else {
        1 + drain_count((ticks - step) as nat, frequency, step)
    }
}

/// What is left of `ticks` after that loop.
pub open spec fn drain_rest(ticks: nat, frequency: nat, step: nat) -> nat
    decreases ticks,
{
    if ticks < frequency || step == 0 || ticks < step {
        ticks
    } else {
        drain_rest((ticks - step) as nat, frequency, step)
    }
}

/// TIMA after `n` increments starting from `tima` (reloaded from TMA on overflow), and
/// whether any of them overflowed.
pub open spec fn tima_steps(tima: u8, tma: u8, n: nat) -> (u8, bool)
    decreases n,
{
    if n == 0 {
        (tima, false)
    } else {
        let (t, overflowed) = tima_steps(tima, tma, (n - 1) as nat);
        let next = ((t + 1) % 256) as u8;
        if next == 0 {
            (tma, true)
        } else {
            (next, overflowed)
        }
    }
}

impl Timer {
    /// The timer that `new` builds: the given DIV, TAC 0xF8, counting stopped.
    pub open spec fn started(&self, div: u8) -> bool {
        &&& (self.div == div)
        &&& (self.tima == 0)
        &&& (self.tma == 0)
        &&& (self.tac == 0xF8)
        &&& (self.frequency == 1024)
        &&& (!self.enabled)
        &&& (self.ticks == 0)
        &&& (self.cycles == 0)
    }

    /// A timer with the given DIV, TAC at 0xF8 and counting stopped.
    pub fn new(div: u8) -> (r: Self)
        ensures
            r.started(div),
    {
        let tac: u8 = 0xF8;
        let frequency = get_frequency_values(tac);
        assert(0xF8u8 & 3 == 0) by (bit_vector);
        Self { div, tima: 0, tma: 0, tac, frequency, enabled: false, ticks: 0, cycles: 0 }
    }

    /// Whether running for `cycles` clocks makes TIMA overflow (and so requests the timer
    /// interrupt).
    pub open spec fn overflows(&self, cycles: u32) -> bool {
        self.enabled && tima_steps(
            self.tima,
            self.tma,
            drain_count((self.ticks + cycles) as nat, self.frequency as nat, cycles as nat),
        ).1
    }

    /// The timer `next` after running this one for `cycles` clocks (see `advance`).
    pub open spec fn advanced_to(&self, next: &Timer, cycles: u32) -> bool {
        &&& next.cycles == (self.cycles + cycles) % 256
        &&& next.div == ((self.div + (self.cycles + cycles) / 256) % 256) as u8
        &&& !self.enabled ==> next.ticks == self.ticks && next.tima == self.tima
        &&& self.enabled ==> ({
            let t0 = (self.ticks + cycles) as nat;
            let n = drain_count(t0, self.frequency as nat, cycles as nat);
            &&& next.ticks == drain_rest(t0, self.frequency as nat, cycles as nat)
            &&& next.tima == tima_steps(self.tima, self.tma, n).0
        })
        &&& next.tma == self.tma && next.tac == self.tac
        &&& next.frequency == self.frequency && next.enabled == self.enabled
    }

    /// Whether `advance(cycles)` can run: its counters do not overflow and the TIMA loop ends.
    pub open spec fn can_advance(&self, cycles: u32) -> bool {
        &&& self.cycles + cycles <= u32::MAX
        &&& self.enabled ==> self.ticks + cycles <= u32::MAX
        &&& self.enabled ==> drains_safely((self.ticks + cycles) as nat, self.frequency as nat, cycles as nat)
    }

    /// Runs the timer for `cycles` clock cycles: DIV counts every 256 cycles; while enabled,
    /// TIMA counts once for each time `cycles` can be taken off the tick counter while it is
    /// at least the frequency, reloading from TMA on overflow. Returns whether TIMA overflowed.
    pub fn advance(&mut self, cycles: u32) -> (r: bool)
        requires
            old(self).can_advance(cycles),
        ensures
            final(self).cycles == (old(self).cycles + cycles) % 256,
            final(self).div == ((old(self).div + (old(self).cycles + cycles) / 256) % 256) as u8,
            !old(self).enabled ==> final(self).ticks == old(self).ticks && final(self).tima == old(self).tima && !r,
            old(self).enabled ==> ({
                let t0 = (old(self).ticks + cycles) as nat;
                let n = drain_count(t0, old(self).frequency as nat, cycles as nat);
                &&& final(self).ticks == drain_rest(t0, old(self).frequency as nat, cycles as nat)
                &&& final(self).tima == tima_steps(old(self).tima, old(self).tma, n).0
                &&& r == tima_steps(old(self).tima, old(self).tma, n).1
            }),
            final(self).tma == old(self).tma,
            final(self).tac == old(self).tac,
            final(self).frequency == old(self).frequency,
            final(self).enabled == old(self).enabled,
    {
        self.cycles = self.cycles + cycles;
        let ghost c0 = self.cycles;
        let ghost d0 = self.div;
        let ghost mut laps: nat = 0;
        while self.cycles >= 256
            invariant
                self.cycles + laps * 256 == c0,
                self.div == ((d0 + laps) % 256) as u8,
                c0 == old(self).cycles + cycles,
                d0 == old(self).div,
                old(self).can_advance(cycles),
                self.ticks == old(self).ticks,
                self.tima == old(self).tima,
                self.tma == old(self).tma,
                self.tac == old(self).tac,
                self.frequency == old(self).frequency,
                self.enabled == old(self).enabled,
            decreases self.cycles,
        {
            self.cycles = self.cycles - 256;
            self.div = self.div.wrapping_add(1);
            proof {
                laps = laps + 1;
            }
        }
        proof {
            assert(laps == c0 / 256 && self.cycles == c0 % 256) by (nonlinear_arith)
                requires
                    self.cycles + laps * 256 == c0,
                    self.cycles < 256;
        }

        let mut overflowed = false;
        if self.enabled {
            self.ticks = self.ticks + cycles;
            let ghost t0 = self.ticks as nat;
            let ghost f = self.frequency as nat;
            let ghost mut n: nat = 0;
            while self.ticks >= self.frequency
                invariant
                    drains_safely(self.ticks as nat, f, cycles as nat),
                    f == self.frequency,
                    drain_count(t0, f, cycles as nat) == n + drain_count(self.ticks as nat, f, cycles as nat),
                    drain_rest(t0, f, cycles as nat) == drain_rest(self.ticks as nat, f, cycles as nat),
                    (self.tima, overflowed) == tima_steps(old(self).tima, self.tma, n),
                    self.tma == old(self).tma,
                    self.tac == old(self).tac,
                    self.enabled == old(self).enabled,
                    self.cycles == (old(self).cycles + cycles) % 256,
                    self.div == ((old(self).div + (old(self).cycles + cycles) / 256) % 256) as u8,
                decreases self.ticks,
            {
                self.ticks = self.ticks - cycles;
                self.tima = self.tima.wrapping_add(1);
                proof {
                    n = n + 1;
                }
                if self.tima == 0 {
                    self.tima = self.tma;
                    overflowed = true;
                }
            }
        }
        overflowed
    }
}

impl Memory for Timer {
    open spec fn readable(&self, address: u16) -> bool {
        0xFF04 <= address <= 0xFF07
    }

    open spec fn writable(&self, address: u16) -> bool {
        0xFF04 <= address <= 0xFF07
    }

    fn read_byte(&self, address: u16) -> (r: u8)
        ensures
            r == (if address == 0xFF04 {
                self.div
            } else if address == 0xFF05 {
                self.tima
            } else if address == 0xFF06 {
                self.tma
            } else {
                self.tac
            }),
    {
        if address == 0xFF04 {
            self.div
        } else if address == 0xFF05 {
            self.tima
        } else if address == 0xFF06 {
            self.tma
        } else {
            self.tac
        }
    }

    /// Any write to DIV clears it; TAC also sets the enable bit and the frequency.
    fn write_byte(&mut self, address: u16, value: u8)
        ensures
            *final(self) == if address == 0xFF04 {
                Timer { div: 0, ..*old(self) }
            } else if address == 0xFF05 {
                Timer { tima: value, ..*old(self) }
            } else if address == 0xFF06 {
                Timer { tma: value, ..*old(self) }
            } else {
                Timer { enabled: value & 0x04 == 0x04, tac: value, frequency: frequency_spec(value), ..*old(self) }
            },
    {
        if address == 0xFF04 {
            self.div = 0;
        } else if address == 0xFF05 {
            self.tima = value;
        } else if address == 0xFF06 {
            self.tma = value;
        } else {
            self.enabled = value & 0x04 == 0x04;
            self.tac = value;
            self.frequency = get_frequency_values(self.tac);
        }
    }
}

/// DIV counts the cycles run, however they are split: running the timer for `a` cycles and
/// then for `b` leaves DIV and its sub-count where running it for `a + b` cycles at once does.
pub proof fn lemma_div_split(t0: Timer, t1: Timer, t2: Timer, a: u32, b: u32)
    requires
        t0.cycles < 256,
        t1.cycles == (t0.cycles + a) % 256,
        t1.div == ((t0.div + (t0.cycles + a) / 256) % 256) as u8,
        t2.cycles == (t1.cycles + b) % 256,
        t2.div == ((t1.div + (t1.cycles + b) / 256) % 256) as u8,
    ensures
        t2.cycles == (t0.cycles + a + b) % 256,
        t2.div == ((t0.div + (t0.cycles + a + b) / 256) % 256) as u8,
{
    let x: int = t0.cycles + a;
    let q1: int = x / 256;
    let y: int = t1.cycles + b;
    let q2: int = y / 256;
    let r2: int = y % 256;
    vstd::arithmetic::div_mod::lemma_fundamental_div_mod(x, 256);
    vstd::arithmetic::div_mod::lemma_fundamental_div_mod(y, 256);
    assert(x + b == (q1 + q2) * 256 + r2) by (nonlinear_arith)
        requires
            x == 256 * q1 + t1.cycles,
            y == 256 * q2 + r2,
            y == t1.cycles + b;
    vstd::arithmetic::div_mod::lemma_fundamental_div_mod_converse(x + b, 256, q1 + q2, r2);
    vstd::arithmetic::div_mod::lemma_add_mod_noop_right(q2, t0.div + q1, 256);
}

/// Four to the power `e`.
pub open spec fn pow4(e: nat) -> nat
    decreases e,
{
    if e == 0 {
        1
    } else {
        4 * pow4((e - 1) as nat)
    }
}

/// The clock select bits of TAC step the TIMA period by factors of four: select 1 counts
/// every 16 cycles, 2 every 64, 3 every 256 and 0 every 1024, so select s counts every
/// 16 * 4^((s + 3) mod 4) cycles.
pub proof fn lemma_frequency_steps(tac: u8)
    ensures
        frequency_spec(tac) == 16 * pow4(((tac % 4 + 3) % 4) as nat),
{
    lemma_byte_digits();
    reveal_with_fuel(pow4, 4);
}

/// TIMA counts up by one per increment until it passes 0xFF: from `tima`, fewer than
/// 256 - tima increments leave it at tima + n with no overflow; exactly 256 - tima of them
/// overflow and leave it at TMA; any more have overflowed.
pub proof fn lemma_tima_count(tima: u8, tma: u8, n: nat)
    ensures
        n < 256 - tima ==> tima_steps(tima, tma, n) == ((tima + n) as u8, false),
        n == 256 - tima ==> tima_steps(tima, tma, n) == (tma, true),
        n >= 256 - tima ==> tima_steps(tima, tma, n).1,
    decreases n,
{
    if n > 0 {
        lemma_tima_count(tima, tma, (n - 1) as nat);
    }
}

} // verus!
