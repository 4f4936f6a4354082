use vstd::prelude::*;
use crate::memory::Memory;
use crate::bits::lemma_byte_fields;

verus! {

/// Which of its eight steps a square wave of duty setting `duty` (0..4) outputs high.
pub open spec fn duty_high(duty: int, pos: int) -> bool {
    if duty == 0 {
        pos == 7
    } else if duty == 1 {
        pos == 0 || pos == 7
    } else if duty == 2 {
        pos == 0 || pos >= 5
    } else {
        1 <= pos <= 6
    }
}

fn duty_cycle_high(duty: usize, pos: usize) -> (r: bool)
    requires
        duty < 4,
        pos < 8,
    ensures
        r == duty_high(duty as int, pos as int),
{
    let duty_cycles: [[u8; 8]; 4] = [
        [0, 0, 0, 0, 0, 0, 0, 1],
        [1, 0, 0, 0, 0, 0, 0, 1],
        [1, 0, 0, 0, 0, 1, 1, 1],
        [0, 1, 1, 1, 1, 1, 1, 0],
    ];
    duty_cycles[duty][pos] == 1
}

/// The number of ticks between envelope or sweep steps: the period, with 0 counting as 8.
pub open spec fn reload_period(period: u8) -> u8 {
    if period == 0 { 8 } else { period }
}

/// The volume envelope of channels 1, 2 and 4.
#[derive(Clone, Copy)]
pub struct VolumeEnvelope {
    pub period: u8,
    pub direction: i8,
    pub initial_volume: u8,
    pub volume: u8,
    pub timer: u8,
    pub enabled: bool,
}

impl VolumeEnvelope {
    pub open spec fn wf(&self) -> bool {
        &&& self.volume <= 15
        &&& self.initial_volume <= 15
        &&& -1 <= self.direction <= 1
        &&& self.period <= 7
    }

    /// One envelope tick: with a non-zero period, every `period` ticks the volume moves one
    /// step up or down; a step past 0 or 15 stops the envelope instead.
    pub open spec fn stepped(self) -> Self {
        if self.period == 0 {
            self
        } else {
            let timer: u8 = if self.timer > 0 { (self.timer - 1) as u8 } else { 0 };
            if timer == 0 {
                let volume = self.volume + self.direction;
                if 0 <= volume <= 15 {
                    VolumeEnvelope { timer: reload_period(self.period), volume: volume as u8, ..self }
                } else {
                    VolumeEnvelope { timer: reload_period(self.period), enabled: false, ..self }
                }
            } else {
                VolumeEnvelope { timer, ..self }
            }
        }
    }

    /// NRx2: initial volume in bits 4-7, direction (up when set) in bit 3, period in bits 0-2.
    pub open spec fn written(self, val: u8) -> Self {
        VolumeEnvelope {
            initial_volume: val >> 4,
            direction: if val & 0x08 != 0 { 1i8 } else { -1i8 },
            period: val & 0x07,
            volume: val >> 4,
            ..self
        }
    }

    pub open spec fn read_spec(&self) -> u8 {
        (self.initial_volume << 4) | (if self.direction == 1 { 0x08u8 } else { 0u8 }) | self.period
    }

    pub open spec fn triggered(self) -> Self {
        VolumeEnvelope { timer: reload_period(self.period), volume: self.initial_volume, enabled: true, ..self }
    }

    pub fn new() -> (r: Self)
        ensures
            r == (VolumeEnvelope { period: 0, direction: 0, initial_volume: 0, volume: 0, timer: 0, enabled: false }),
            r.wf(),
    {
        VolumeEnvelope { period: 0, direction: 0, initial_volume: 0, volume: 0, timer: 0, enabled: false }
    }

    pub fn step(&mut self)
        requires
            old(self).wf(),
        ensures
            *final(self) == old(self).stepped(),
            final(self).wf(),
    {
        if self.period == 0 {
            return;
        }
        if self.timer > 0 {
            self.timer = self.timer - 1;
        }
        if self.timer == 0 {
            self.timer = if self.period == 0 {
                8
            } else {
                self.period
            };
            let new_volume = self.volume as i8 + self.direction;
            if new_volume >= 0 && new_volume <= 15 {
                self.volume = new_volume as u8;
            } else {
                self.enabled = false;
            }
        }
    }

    pub fn write(&mut self, val: u8)
        ensures
            *final(self) == old(self).written(val),
            final(self).wf() || !old(self).wf(),
    {
        proof {
            lemma_byte_fields();
        }
        self.initial_volume = val >> 4;
        self.direction = if (val & 0x08) != 0 {
            1
        } else {
            -1
        };
        self.period = val & 0x07;
        self.volume = self.initial_volume;
    }

    pub fn read(&self) -> (r: u8)
        ensures
            r == self.read_spec(),
    {
        (self.initial_volume << 4) | (if self.direction == 1 {
            0x08
        } else {
            0
        }) | self.period
    }

    pub fn trigger(&mut self)
        requires
            old(self).wf(),
        ensures
            *final(self) == old(self).triggered(),
            final(self).wf(),
    {
        self.timer = if self.period == 0 {
            8
        } else {
            self.period
        };
        self.volume = self.initial_volume;
        self.enabled = true;
    }
}

/// The frequency sweep of channel 1.
#[derive(Clone, Copy)]
pub struct Sweep {
    pub enabled: bool,
    pub period: u8,
    pub direction: i8,
    pub shift: u8,
    pub timer: u8,
    pub frequency: u16,
    pub has_calculated: bool,
}

impl Sweep {
    pub open spec fn wf(&self) -> bool {
        self.period <= 7 && self.shift <= 7
    }

    /// The next frequency: the shadow frequency plus (or, sweeping down, minus) itself
    /// shifted right by `shift`, in 16-bit wrap-around arithmetic.
    pub open spec fn next_frequency(&self) -> u16 {
        let offset = self.frequency >> self.shift;
        if self.direction == 1 {
            ((self.frequency + offset) % 0x10000) as u16
        } else {
            ((self.frequency - offset + 0x10000) % 0x10000) as u16
        }
    }

    /// The sweep after computing the next frequency: an overflow past 2047 disables it.
    pub open spec fn after_calculation(self) -> Self {
        Sweep {
            has_calculated: true,
            enabled: if self.next_frequency() > 2047 { false } else { self.enabled },
            ..self
        }
    }

    /// NR10: period in bits 4-6, direction (down when set) in bit 3, shift in bits 0-2.
    pub open spec fn written(self, val: u8) -> Self {
        Sweep { period: (val >> 4) & 0x07, direction: if val & 0x08 != 0 { -1i8 } else { 1i8 }, shift: val & 0x07, ..self }
    }

    pub open spec fn read_spec(&self) -> u8 {
        (self.period << 4) | (if self.direction == -1 { 0x08u8 } else { 0u8 }) | self.shift | 0x80
    }

    /// Triggering loads the shadow frequency and restarts the timer; with a non-zero shift
    /// the next frequency is computed at once.
    pub open spec fn triggered(self, freq: u16) -> Self {
        let s = Sweep {
            frequency: freq,
            timer: reload_period(self.period),
            enabled: self.period > 0 || self.shift > 0,
            has_calculated: false,
            ..self
        };
        if self.shift > 0 { s.after_calculation() } else { s }
    }

    pub open spec fn trigger_overflows(self, freq: u16) -> bool {
        self.shift > 0 && (Sweep {
            frequency: freq,
            timer: reload_period(self.period),
            enabled: self.period > 0 || self.shift > 0,
            has_calculated: false,
            ..self
        }).next_frequency() > 2047
    }

    /// One sweep tick: (the new sweep, the frequency handed to the channel, whether the
    /// channel is disabled by an overflow).
    pub open spec fn stepped(self) -> (Sweep, Option<u16>, bool) {
        if !self.enabled {
            (self, None, false)
        } else {
            let timer: u8 = if self.timer > 0 { (self.timer - 1) as u8 } else { 0 };
            if timer != 0 {
                (Sweep { timer, ..self }, None, false)
            } else {
                let s = Sweep { timer: reload_period(self.period), ..self };
                if self.period == 0 {
                    (s, None, false)
                } else {
                    let new_freq = s.next_frequency();
                    let s1 = s.after_calculation();
                    if new_freq > 2047 {
                        (s1, None, true)
                    } else if self.shift > 0 {
                        let s2 = Sweep { frequency: new_freq, ..s1 };
                        (s2.after_calculation(), Some(new_freq), s2.next_frequency() > 2047)
                    } else {
                        (s1, None, false)
                    }
                }
            }
        }
    }

    pub fn new() -> (r: Self)
        ensures
            r == (Sweep { enabled: false, period: 0, direction: 0, shift: 0, timer: 0, frequency: 0, has_calculated: false }),
            r.wf(),
    {
        Sweep { enabled: false, period: 0, direction: 0, shift: 0, timer: 0, frequency: 0, has_calculated: false }
    }

    pub fn write(&mut self, val: u8)
        ensures
            *final(self) == old(self).written(val),
            final(self).wf(),
    {
        proof {
            lemma_byte_fields();
        }
        self.period = (val >> 4) & 0x07;
        self.direction = if (val & 0x08) != 0 {
            -1
        } else {
            1
        };
        self.shift = val & 0x07;
    }

    pub fn read(&self) -> (r: u8)
        ensures
            r == self.read_spec(),
    {
        (self.period << 4) | (if self.direction == -1 {
            0x08
        } else {
            0
        }) | self.shift | 0x80
    }

    fn calculate_new_freq(&mut self) -> (r: u16)
        requires
            old(self).wf(),
        ensures
            r == old(self).next_frequency(),
            *final(self) == old(self).after_calculation(),
    {
        self.has_calculated = true;
        let offset = self.frequency >> self.shift;
        let new_freq = if self.direction == 1 {
            self.frequency.wrapping_add(offset)
        } else {
            self.frequency.wrapping_sub(offset)
        };
        if new_freq > 2047 {
            self.enabled = false;
        }
        new_freq
    }

    pub fn trigger(&mut self, freq: u16) -> (overflow: bool)
        requires
            old(self).wf(),
        ensures
            *final(self) == old(self).triggered(freq),
            overflow == old(self).trigger_overflows(freq),
            final(self).wf(),
    {
        self.frequency = freq;
        self.timer = if self.period == 0 {
            8
        } else {
            self.period
        };
        self.enabled = self.period > 0 || self.shift > 0;
        self.has_calculated = false;
        let mut overflow = false;
        if self.shift > 0 {
            overflow = self.calculate_new_freq() > 2047;
        }
        overflow
    }

    pub fn step(&mut self) -> (r: (Option<u16>, bool))
        requires
            old(self).wf(),
        ensures
            (*final(self), r.0, r.1) == old(self).stepped(),
            final(self).wf(),
    {
        if !self.enabled {
            return (None, false);
        }
        let mut new_freq_ret = None;
        let mut overflow = false;
        if self.timer > 0 {
            self.timer = self.timer - 1;
        }
        if self.timer == 0 {
            self.timer = if self.period == 0 {
                8
            } else {
                self.period
            };
            if self.period > 0 {
                let new_freq = self.calculate_new_freq();
                if new_freq > 2047 {
                    overflow = true;
                } else if self.shift > 0 {
                    self.frequency = new_freq;
                    new_freq_ret = Some(self.frequency);
                    if self.calculate_new_freq() > 2047 {
                        overflow = true;
                    }
                }
            }
        }
        (new_freq_ret, overflow)
    }
}

/// One 1/256-second length tick: an enabled length counter counts down and silences the
/// channel when it reaches zero.
pub open spec fn length_stepped(length_enabled: bool, length_timer: u16, enabled: bool) -> (u16, bool) {
    if length_enabled && length_timer > 0 {
        let t = (length_timer - 1) as u16;
        (t, if t == 0 { false } else { enabled })
    } else {
        (length_timer, enabled)
    }
}

/// Channels 1 and 2: a square wave with a volume envelope (and, on channel 1, a sweep).
#[derive(Clone, Copy)]
pub struct SquareChannel {
    pub enabled: bool,
    pub dac_enabled: bool,
    pub sweep: Option<Sweep>,
    pub envelope: VolumeEnvelope,
    pub length_timer: u16,
    pub length_enabled: bool,
    pub frequency: u16,
    pub freq_timer: u16,
    pub duty: usize,
    pub duty_pos: usize,
}

impl SquareChannel {
    pub open spec fn wf(&self) -> bool {
        &&& self.frequency < 2048
        &&& self.duty < 4
        &&& self.duty_pos < 8
        &&& self.envelope.wf()
        &&& (self.sweep is Some ==> self.sweep->0.wf())
    }

    pub open spec fn length_ticked(self) -> Self {
        let (t, e) = length_stepped(self.length_enabled, self.length_timer, self.enabled);
        SquareChannel { length_timer: t, enabled: e, ..self }
    }

    /// Triggering (NRx4 bit 7): the channel plays if its DAC is on, an expired length counter
    /// restarts at 64, the envelope restarts, and the sweep restarts from the current
    /// frequency, silencing the channel when its first step overflows.
    pub open spec fn triggered(self) -> Self {
        let ch = SquareChannel {
            enabled: if self.dac_enabled { true } else { self.enabled },
            length_timer: if self.length_timer == 0 { 64 } else { self.length_timer },
            freq_timer: ((2048 - self.frequency) * 4) as u16,
            envelope: self.envelope.triggered(),
            ..self
        };
        match self.sweep {
            Some(sw) => SquareChannel {
                sweep: Some(sw.triggered(self.frequency)),
                enabled: if sw.trigger_overflows(self.frequency) { false } else { ch.enabled },
                ..ch
            },
            None => ch,
        }
    }

    /// One clock: the frequency timer counts down and, at zero, reloads with
    /// `(2048 - frequency) * 4` and moves to the next duty step.
    pub open spec fn ticked(self) -> Self {
        let t: u16 = if self.freq_timer > 0 { (self.freq_timer - 1) as u16 } else { 0 };
        if t == 0 {
            SquareChannel { freq_timer: ((2048 - self.frequency) * 4) as u16, duty_pos: ((self.duty_pos + 1) % 8) as usize, ..self }
        } else {
            SquareChannel { freq_timer: t, ..self }
        }
    }

    /// The channel's output level: the envelope volume on a high duty step while it plays.
    pub open spec fn sample_spec(&self) -> u8 {
        if !self.enabled || !self.dac_enabled {
            0
        } else if duty_high(self.duty as int, self.duty_pos as int) {
            self.envelope.volume
        } else {
            0
        }
    }

    pub fn new(has_sweep: bool) -> (r: Self)
        ensures
            r.wf(),
            r == (SquareChannel {
                enabled: false,
                dac_enabled: false,
                sweep: if has_sweep {
                    Some(Sweep { enabled: false, period: 0, direction: 0, shift: 0, timer: 0, frequency: 0, has_calculated: false })
                } else {
                    None
                },
                envelope: VolumeEnvelope { period: 0, direction: 0, initial_volume: 0, volume: 0, timer: 0, enabled: false },
                length_timer: 0,
                length_enabled: false,
                frequency: 0,
                freq_timer: 0,
                duty: 0,
                duty_pos: 0,
            }),
    {
        SquareChannel {
            enabled: false,
            dac_enabled: false,
            sweep: if has_sweep {
                Some(Sweep::new())
            } else {
                None
            },
            envelope: VolumeEnvelope::new(),
            length_timer: 0,
            length_enabled: false,
            frequency: 0,
            freq_timer: 0,
            duty: 0,
            duty_pos: 0,
        }
    }

    pub fn step_length(&mut self)
        ensures
            *final(self) == old(self).length_ticked(),
    {
        if self.length_enabled && self.length_timer > 0 {
            self.length_timer = self.length_timer - 1;
            if self.length_timer == 0 {
                self.enabled = false;
            }
        }
    }

    pub fn trigger(&mut self)
        requires
            old(self).wf(),
        ensures
            *final(self) == old(self).triggered(),
            final(self).wf(),
    {
        if self.dac_enabled {
            self.enabled = true;
        }
        if self.length_timer == 0 {
            self.length_timer = 64;
        }
        self.freq_timer = (2048 - self.frequency) * 4;
        self.envelope.trigger();
        match self.sweep {
            Some(sweep) => {
                let mut sweep = sweep;
                let overflow = sweep.trigger(self.frequency);
                self.sweep = Some(sweep);
                if overflow {
                    self.enabled = false;
                }
            },
            None => {},
        }
    }

    pub fn tick(&mut self)
        requires
            old(self).wf(),
        ensures
            *final(self) == old(self).ticked(),
            final(self).wf(),
    {
        if self.freq_timer > 0 {
            self.freq_timer = self.freq_timer - 1;
        }
        if self.freq_timer == 0 {
            self.freq_timer = (2048 - self.frequency) * 4;
            self.duty_pos = (self.duty_pos + 1) % 8;
        }
    }

    pub fn sample(&self) -> (r: u8)
        requires
            self.wf(),
        ensures
            r == self.sample_spec(),
    {
        if !self.enabled || !self.dac_enabled {
            return 0;
        }
        if duty_cycle_high(self.duty, self.duty_pos) {
            self.envelope.volume
        } else {
            0
        }
    }
}

/// Channel 3: plays the 32 4-bit samples of wave RAM.
#[derive(Clone, Copy)]
pub struct WaveChannel {
    pub enabled: bool,
    pub dac_enabled: bool,
    pub length_timer: u16,
    pub length_enabled: bool,
    pub frequency: u16,
    pub freq_timer: u16,
    pub volume_shift: u8,
    pub wave_ram: [u8; 16],
    pub wave_pos: usize,
    pub sample_buf: u8,
}

impl WaveChannel {
    pub open spec fn wf(&self) -> bool {
        self.frequency < 2048 && self.wave_pos < 32 && self.volume_shift <= 3
    }

    pub open spec fn length_ticked(self) -> Self {
        let (t, e) = length_stepped(self.length_enabled, self.length_timer, self.enabled);
        WaveChannel { length_timer: t, enabled: e, ..self }
    }

    /// Triggering: the channel plays if its DAC is on, an expired length counter restarts at
    /// 256, and playback restarts at the first sample.
    pub open spec fn triggered(self) -> Self {
        WaveChannel {
            enabled: if self.dac_enabled { true } else { self.enabled },
            length_timer: if self.length_timer == 0 { 256 } else { self.length_timer },
            freq_timer: ((2048 - self.frequency) * 2) as u16,
            wave_pos: 0,
            ..self
        }
    }

    /// One clock: at the end of each `(2048 - frequency) * 2` clocks the next sample (high
    /// nibble first) is loaded.
    pub open spec fn ticked(self) -> Self {
        let t: u16 = if self.freq_timer > 0 { (self.freq_timer - 1) as u16 } else { 0 };
        if t == 0 {
            let pos = ((self.wave_pos + 1) % 32) as usize;
            let byte = self.wave_ram@[pos as int / 2];
            WaveChannel {
                freq_timer: ((2048 - self.frequency) * 2) as u16,
                wave_pos: pos,
                sample_buf: if pos % 2 == 0 { byte >> 4 } else { byte & 0x0F },
                ..self
            }
        } else {
            WaveChannel { freq_timer: t, ..self }
        }
    }

    /// The output level: the current sample shifted right by `volume_shift - 1` (muted at 0).
    pub open spec fn sample_spec(&self) -> u8 {
        if !self.enabled || !self.dac_enabled || self.volume_shift == 0 {
            0
        } else {
            self.sample_buf >> ((self.volume_shift - 1) as u8)
        }
    }

    pub fn new() -> (r: Self)
        ensures
            r.wf(),
            r == (WaveChannel {
                enabled: false,
                dac_enabled: false,
                length_timer: 0,
                length_enabled: false,
                frequency: 0,
                freq_timer: 0,
                volume_shift: 0,
                wave_ram: r.wave_ram,
                wave_pos: 0,
                sample_buf: 0,
            }),
            r.wave_ram@ == Seq::new(16, |i: int| 0u8),
    {
        let r = WaveChannel {
            enabled: false,
            dac_enabled: false,
            length_timer: 0,
            length_enabled: false,
            frequency: 0,
            freq_timer: 0,
            volume_shift: 0,
            wave_ram: [0; 16],
            wave_pos: 0,
            sample_buf: 0,
        };
        assert(r.wave_ram@ =~= Seq::new(16, |i: int| 0u8));
        r
    }

    pub fn step_length(&mut self)
        ensures
            *final(self) == old(self).length_ticked(),
    {
        if self.length_enabled && self.length_timer > 0 {
            self.length_timer = self.length_timer - 1;
            if self.length_timer == 0 {
                self.enabled = false;
            }
        }
    }

    pub fn trigger(&mut self)
        requires
            old(self).wf(),
        ensures
            *final(self) == old(self).triggered(),
            final(self).wf(),
    {
        if self.dac_enabled {
            self.enabled = true;
        }
        if self.length_timer == 0 {
            self.length_timer = 256;
        }
        self.freq_timer = (2048 - self.frequency) * 2;
        self.wave_pos = 0;
    }

    pub fn tick(&mut self)
        requires
            old(self).wf(),
        ensures
            *final(self) == old(self).ticked(),
            final(self).wf(),
    {
        if self.freq_timer > 0 {
            self.freq_timer = self.freq_timer - 1;
        }
        if self.freq_timer == 0 {
            self.freq_timer = (2048 - self.frequency) * 2;
            self.wave_pos = (self.wave_pos + 1) % 32;
            let byte = self.wave_ram[self.wave_pos / 2];
            self.sample_buf = if self.wave_pos % 2 == 0 {
                byte >> 4
            } else {
                byte & 0x0F
            };
        }
    }

    pub fn sample(&self) -> (r: u8)
        requires
            self.wf(),
        ensures
            r == self.sample_spec(),
    {
        if !self.enabled || !self.dac_enabled || self.volume_shift == 0 {
            return 0;
        }
        self.sample_buf >> (self.volume_shift - 1)
    }
}

/// Channel 4: noise from a 15-bit (or 7-bit) linear-feedback shift register.
#[derive(Clone, Copy)]
pub struct NoiseChannel {
    pub enabled: bool,
    pub dac_enabled: bool,
    pub envelope: VolumeEnvelope,
    pub length_timer: u16,
    pub length_enabled: bool,
    pub freq_timer: u16,
    pub lfsr: u16,
    pub shift: u8,
    pub width_mode: bool,
    pub divisor_code: u8,
}

impl NoiseChannel {
    pub open spec fn wf(&self) -> bool {
        self.divisor_code < 8 && self.shift < 16 && self.envelope.wf()
    }

    /// The clock divisor: 8 for code 0, else 16 times the code.
    pub open spec fn divisor_spec(&self) -> u16 {
        if self.divisor_code == 0 { 8 } else { (self.divisor_code * 16) as u16 }
    }

    /// The reload value of the frequency timer (16-bit, high bits shifted out are lost).
    pub open spec fn period_spec(&self) -> u16 {
        self.divisor_spec() << self.shift
    }

    pub open spec fn length_ticked(self) -> Self {
        let (t, e) = length_stepped(self.length_enabled, self.length_timer, self.enabled);
        NoiseChannel { length_timer: t, enabled: e, ..self }
    }

    pub open spec fn triggered(self) -> Self {
        NoiseChannel {
            enabled: if self.dac_enabled { true } else { self.enabled },
            length_timer: if self.length_timer == 0 { 64 } else { self.length_timer },
            lfsr: 0x7FFF,
            freq_timer: self.period_spec(),
            envelope: self.envelope.triggered(),
            ..self
        }
    }

    /// The shift register after one step: bits 0 and 1 are XORed into bit 14 (and into
    /// bit 6 in 7-bit mode) as the register shifts right.
    pub open spec fn lfsr_stepped(lfsr: u16, width_mode: bool) -> u16 {
        let xor_bit = (lfsr & 1) ^ ((lfsr >> 1) & 1);
        let shifted = (lfsr >> 1) | (xor_bit << 14);
        if width_mode { (shifted & 0xFFBF) | (xor_bit << 6) } else { shifted }
    }

    pub open spec fn ticked(self) -> Self {
        let t: u16 = if self.freq_timer > 0 { (self.freq_timer - 1) as u16 } else { 0 };
        if t == 0 {
            NoiseChannel { freq_timer: self.period_spec(), lfsr: Self::lfsr_stepped(self.lfsr, self.width_mode), ..self }
        } else {
            NoiseChannel { freq_timer: t, ..self }
        }
    }

    /// The output level: the envelope volume while bit 0 of the register is clear.
    pub open spec fn sample_spec(&self) -> u8 {
        if !self.enabled || !self.dac_enabled {
            0
        } else if self.lfsr & 1 == 0 {
            self.envelope.volume
        } else {
            0
        }
    }

    pub fn new() -> (r: Self)
        ensures
            r.wf(),
            r == (NoiseChannel {
                enabled: false,
                dac_enabled: false,
                envelope: VolumeEnvelope { period: 0, direction: 0, initial_volume: 0, volume: 0, timer: 0, enabled: false },
                length_timer: 0,
                length_enabled: false,
                freq_timer: 0,
                lfsr: 0x7FFF,
                shift: 0,
                width_mode: false,
                divisor_code: 0,
            }),
    {
        NoiseChannel {
            enabled: false,
            dac_enabled: false,
            envelope: VolumeEnvelope::new(),
            length_timer: 0,
            length_enabled: false,
            freq_timer: 0,
            lfsr: 0x7FFF,
            shift: 0,
            width_mode: false,
            divisor_code: 0,
        }
    }

    pub fn step_length(&mut self)
        ensures
            *final(self) == old(self).length_ticked(),
    {
        if self.length_enabled && self.length_timer > 0 {
            self.length_timer = self.length_timer - 1;
            if self.length_timer == 0 {
                self.enabled = false;
            }
        }
    }

    fn divisor(&self) -> (r: u16)
        requires
            self.divisor_code < 8,
        ensures
            r == self.divisor_spec(),
    {
        if self.divisor_code == 0 {
            8
        } else {
            (self.divisor_code as u16) * 16
        }
    }

    pub fn trigger(&mut self)
        requires
            old(self).wf(),
        ensures
            *final(self) == old(self).triggered(),
            final(self).wf(),
    {
        if self.dac_enabled {
            self.enabled = true;
        }
        if self.length_timer == 0 {
            self.length_timer = 64;
        }
        self.lfsr = 0x7FFF;
        self.freq_timer = self.divisor() << self.shift;
        self.envelope.trigger();
    }

    pub fn tick(&mut self)
        requires
            old(self).wf(),
        ensures
            *final(self) == old(self).ticked(),
            final(self).wf(),
    {
        if self.freq_timer > 0 {
            self.freq_timer = self.freq_timer - 1;
        }
        if self.freq_timer == 0 {
            self.freq_timer = self.divisor() << self.shift;
            let xor_bit = (self.lfsr & 1) ^ ((self.lfsr >> 1) & 1);
            self.lfsr = (self.lfsr >> 1) | (xor_bit << 14);
            if self.width_mode {
                self.lfsr = (self.lfsr & 0xFFBF) | (xor_bit << 6);
            }
        }
    }

    pub fn sample(&self) -> (r: u8)
        ensures
            r == self.sample_spec(),
    {
        if !self.enabled || !self.dac_enabled {
            return 0;
        }
        if (self.lfsr & 1) == 0 {
            self.envelope.volume
        } else {
            0
        }
    }
}

/// The four channels' output levels at one sample point, with the panning and master volume
/// in force then: what mixing a stereo sample needs.
#[derive(Clone, Copy)]
pub struct RawSample {
    pub channels: [u8; 4],
    pub pan_left: [bool; 4],
    pub pan_right: [bool; 4],
    pub vol_left: u8,
    pub vol_right: u8,
}

/// The audio processing unit: four channels, the frame sequencer, and the sample clock.
pub struct Sound {
    pub enabled: bool,
    pub vin_left: bool,
    pub vin_right: bool,
    pub vol_left: u8,
    pub vol_right: u8,
    pub pan_left: [bool; 4],
    pub pan_right: [bool; 4],
    pub ch1: SquareChannel,
    pub ch2: SquareChannel,
    pub ch3: WaveChannel,
    pub ch4: NoiseChannel,
    pub frame_seq_timer: u16,
    pub frame_seq_step: u8,
    pub sample_accumulator: u32,
    pub sample_rate: u32,
}

/// The APU's clock rate: one sample is taken every `CLOCK_RATE / sample_rate` clocks.
pub const CLOCK_RATE: u32 = 4194304;

impl Sound {
    pub open spec fn wf(&self) -> bool {
        &&& self.ch1.wf() && self.ch1.sweep is Some
        &&& self.ch2.wf()
        &&& self.ch3.wf()
        &&& self.ch4.wf()
        &&& 1 <= self.frame_seq_timer <= 8192
        &&& self.frame_seq_step < 8
        &&& self.vol_left <= 7 && self.vol_right <= 7
        &&& self.sample_rate <= CLOCK_RATE
        &&& self.sample_accumulator < CLOCK_RATE
    }

    /// The length counters of all four channels ticked.
    pub open spec fn lengths_ticked(self) -> Self {
        Sound {
            ch1: self.ch1.length_ticked(),
            ch2: self.ch2.length_ticked(),
            ch3: self.ch3.length_ticked(),
            ch4: self.ch4.length_ticked(),
            ..self
        }
    }

    /// Channel 1's sweep ticked: a new frequency is taken over, an overflow silences it.
    pub open spec fn sweep_ticked(self) -> Self {
        match self.ch1.sweep {
            Some(sw) => {
                let (nsw, new_freq, overflow) = sw.stepped();
                Sound {
                    ch1: SquareChannel {
                        sweep: Some(nsw),
                        frequency: match new_freq {
                            Some(f) => f,
                            None => self.ch1.frequency,
                        },
                        enabled: if overflow { false } else { self.ch1.enabled },
                        ..self.ch1
                    },
                    ..self
                }
            },
            None => self,
        }
    }

    /// The envelopes of channels 1, 2 and 4 ticked.
    pub open spec fn envelopes_ticked(self) -> Self {
        Sound {
            ch1: SquareChannel { envelope: self.ch1.envelope.stepped(), ..self.ch1 },
            ch2: SquareChannel { envelope: self.ch2.envelope.stepped(), ..self.ch2 },
            ch4: NoiseChannel { envelope: self.ch4.envelope.stepped(), ..self.ch4 },
            ..self
        }
    }

    /// One frame-sequencer step (every 8192 clocks, 512 Hz): length counters on even steps,
    /// channel 1's sweep on steps 2 and 6, the envelopes on step 7.
    pub open spec fn frame_stepped(self) -> Self {
        let step = self.frame_seq_step;
        let s1 = if step % 2 == 0 { self.lengths_ticked() } else { self };
        let s2 = if step == 2 || step == 6 { s1.sweep_ticked() } else { s1 };
        let s3 = if step == 7 { s2.envelopes_ticked() } else { s2 };
        Sound { frame_seq_step: ((step + 1) % 8) as u8, ..s3 }
    }

    /// One clock of a running APU: the channels' timers, the frame sequencer, the sample clock.
    pub open spec fn cycled(self) -> Self {
        let s1 = Sound { ch1: self.ch1.ticked(), ch2: self.ch2.ticked(), ch3: self.ch3.ticked(), ch4: self.ch4.ticked(), ..self };
        let timer = (self.frame_seq_timer - 1) as u16;
        let s2 = if timer == 0 { Sound { frame_seq_timer: 8192, ..s1 }.frame_stepped() } else { Sound { frame_seq_timer: timer, ..s1 } };
        let acc = self.sample_accumulator + self.sample_rate;
        Sound { sample_accumulator: (if acc >= CLOCK_RATE { acc - CLOCK_RATE } else { acc }) as u32, ..s2 }
    }

    /// The channels' levels and the mix settings now.
    pub open spec fn raw_sample(&self) -> RawSample {
        RawSample {
            channels: [self.ch1.sample_spec(), self.ch2.sample_spec(), self.ch3.sample_spec(), self.ch4.sample_spec()],
            pan_left: self.pan_left,
            pan_right: self.pan_right,
            vol_left: self.vol_left,
            vol_right: self.vol_right,
        }
    }

    /// The sample that one clock produces: one whenever the sample clock passes a multiple
    /// of the clock rate, taken after the clock.
    pub open spec fn sample_of_cycle(self) -> Option<RawSample> {
        if self.sample_accumulator + self.sample_rate >= CLOCK_RATE {
            Some(self.cycled().raw_sample())
        } else {
            None
        }
    }

    pub open spec fn after_cycles(self, n: nat) -> Self
        decreases n,
    {
        if n == 0 { self } else { self.after_cycles((n - 1) as nat).cycled() }
    }

    pub open spec fn samples_over(self, n: nat) -> Seq<RawSample>
        decreases n,
    {
        if n == 0 {
            Seq::empty()
        } else {
            let before = self.after_cycles((n - 1) as nat);
            self.samples_over((n - 1) as nat) + match before.sample_of_cycle() {
                Some(sample) => seq![sample],
                None => Seq::empty(),
            }
        }
    }

    /// The APU that `new` builds: powered off, master volume 7, all panning on.
    pub open spec fn started(&self) -> bool {
        &&& (self.wf())
        &&& (!self.enabled && !self.vin_left && !self.vin_right)
        &&& (self.vol_left == 7 && self.vol_right == 7)
        &&& (self.pan_left@ == seq![true, true, true, true] && self.pan_right@ == seq![true, true, true, true])
        &&& (self.ch1 == SquareChannel::new_spec(true))
        &&& (self.ch2 == SquareChannel::new_spec(false))
        &&& (self.ch3 == (WaveChannel { wave_ram: self.ch3.wave_ram, ..self.ch3 }) && self.ch3.wave_ram@ == Seq::new(16, |i: int| 0u8))
        &&& (!self.ch3.enabled && self.ch3.volume_shift == 0 && self.ch3.frequency == 0 && self.ch3.wave_pos == 0)
        &&& (self.ch4.lfsr == 0x7FFF && !self.ch4.enabled)
        &&& (self.frame_seq_timer == 8192 && self.frame_seq_step == 0)
        &&& (self.sample_accumulator == 0 && self.sample_rate == 44100)
    }

    /// A powered-off APU with all panning on, master volume 7 and a 44100 Hz sample clock.
    pub fn new() -> (r: Self)
        ensures
            r.started(),
    {
        let r = Sound {
            enabled: false,
            vin_left: false,
            vin_right: false,
            vol_left: 7,
            vol_right: 7,
            pan_left: [true; 4],
            pan_right: [true; 4],
            ch1: SquareChannel::new(true),
            ch2: SquareChannel::new(false),
            ch3: WaveChannel::new(),
            ch4: NoiseChannel::new(),
            frame_seq_timer: 8192,
            frame_seq_step: 0,
            sample_accumulator: 0,
            sample_rate: 44100,
        };
        assert(r.pan_left@ =~= seq![true, true, true, true]);
        assert(r.pan_right@ =~= seq![true, true, true, true]);
        r
    }

    /// Sets the output sample rate (at most the clock rate: one sample per clock).
    pub fn set_sample_rate(&mut self, rate: u32)
        requires
            rate <= CLOCK_RATE,
        ensures
            *final(self) == (Sound { sample_rate: rate, ..*old(self) }),
            old(self).wf() ==> final(self).wf(),
    {
        self.sample_rate = rate;
    }

    fn step_lengths(&mut self)
        requires
            old(self).wf(),
        ensures
            *final(self) == old(self).lengths_ticked(),
            final(self).wf(),
    {
        self.ch1.step_length();
        self.ch2.step_length();
        self.ch3.step_length();
        self.ch4.step_length();
    }

    fn step_sweep(&mut self)
        requires
            old(self).wf(),
        ensures
            *final(self) == old(self).sweep_ticked(),
            final(self).wf(),
    {
        match self.ch1.sweep {
            Some(sweep) => {
                let mut sweep = sweep;
                let (new_freq_opt, overflow) = sweep.step();
                self.ch1.sweep = Some(sweep);
                match new_freq_opt {
                    Some(new_freq) => {
                        self.ch1.frequency = new_freq;
                    },
                    None => {},
                }
                if overflow {
                    self.ch1.enabled = false;
                }
            },
            None => {},
        }
    }

    fn step_envelopes(&mut self)
        requires
            old(self).wf(),
        ensures
            *final(self) == old(self).envelopes_ticked(),
            final(self).wf(),
    {
        self.ch1.envelope.step();
        self.ch2.envelope.step();
        self.ch4.envelope.step();
    }

    fn step_frame_sequencer(&mut self)
        requires
            old(self).wf(),
        ensures
            *final(self) == old(self).frame_stepped(),
            final(self).wf(),
    {
        if self.frame_seq_step % 2 == 0 {
            self.step_lengths();
        }
        if self.frame_seq_step == 2 || self.frame_seq_step == 6 {
            self.step_sweep();
        }
        if self.frame_seq_step == 7 {
            self.step_envelopes();
        }
        self.frame_seq_step = (self.frame_seq_step + 1) % 8;
    }

    fn sample_now(&self) -> (r: RawSample)
        requires
            self.wf(),
        ensures
            r == self.raw_sample(),
    {
        RawSample {
            channels: [self.ch1.sample(), self.ch2.sample(), self.ch3.sample(), self.ch4.sample()],
            pan_left: self.pan_left,
            pan_right: self.pan_right,
            vol_left: self.vol_left,
            vol_right: self.vol_right,
        }
    }

    /// One clock of a running APU, and the sample taken at its end, if any.
    pub fn cycle(&mut self) -> (r: Option<RawSample>)
        requires
            old(self).wf(),
        ensures
            *final(self) == old(self).cycled(),
            r == old(self).sample_of_cycle(),
            final(self).wf(),
    {
        self.ch1.tick();
        self.ch2.tick();
        self.ch3.tick();
        self.ch4.tick();
        self.frame_seq_timer = self.frame_seq_timer - 1;
        if self.frame_seq_timer == 0 {
            self.frame_seq_timer = 8192;
            self.step_frame_sequencer();
        }
        self.sample_accumulator = self.sample_accumulator + self.sample_rate;
        if self.sample_accumulator >= CLOCK_RATE {
            self.sample_accumulator = self.sample_accumulator - CLOCK_RATE;
            Some(self.sample_now())
        } else {
            None
        }
    }

    /// Runs `cycles` clocks (nothing while the APU is off) and returns the samples taken.
    pub fn tick(&mut self, cycles: u32) -> (r: Vec<RawSample>)
        requires
            old(self).wf(),
        ensures
            final(self).wf(),
            !old(self).enabled ==> *final(self) == *old(self) && r@.len() == 0,
            old(self).enabled ==> *final(self) == old(self).after_cycles(cycles as nat) && r@ == old(self).samples_over(
                cycles as nat,
            ),
    {
        let mut samples: Vec<RawSample> = Vec::new();
        if !self.enabled {
            return samples;
        }
        let mut i: u32 = 0;
        while i < cycles
            invariant
                i <= cycles,
                self.wf(),
                *self == old(self).after_cycles(i as nat),
                samples@ == old(self).samples_over(i as nat),
            decreases cycles - i,
        {
            match self.cycle() {
                Some(sample) => samples.push(sample),
                None => {},
            }
            i = i + 1;
        }
        samples
    }
}

impl SquareChannel {
    pub open spec fn new_spec(has_sweep: bool) -> SquareChannel {
        SquareChannel {
            enabled: false,
            dac_enabled: false,
            sweep: if has_sweep {
                Some(Sweep { enabled: false, period: 0, direction: 0, shift: 0, timer: 0, frequency: 0, has_calculated: false })
            } else {
                None
            },
            envelope: VolumeEnvelope { period: 0, direction: 0, initial_volume: 0, volume: 0, timer: 0, enabled: false },
            length_timer: 0,
            length_enabled: false,
            frequency: 0,
            freq_timer: 0,
            duty: 0,
            duty_pos: 0,
        }
    }
}

impl SquareChannel {
    /// A write to the channel's register `reg` (0 = NRx0 sweep, 1 = NRx1 duty and length,
    /// 2 = NRx2 envelope, 3 = NRx3 frequency low, 4 = NRx4 frequency high, length enable and
    /// trigger).
    pub open spec fn reg_written(self, reg: int, value: u8) -> Self {
        if reg == 0 {
            match self.sweep {
                Some(sw) => SquareChannel { sweep: Some(sw.written(value)), ..self },
                None => self,
            }
        } else if reg == 1 {
            SquareChannel { duty: (value >> 6) as usize, length_timer: (64 - (value & 0x3F)) as u16, ..self }
        } else if reg == 2 {
            let dac = value & 0xF8 != 0;
            SquareChannel { envelope: self.envelope.written(value), dac_enabled: dac, enabled: if dac { self.enabled } else { false }, ..self }
        } else if reg == 3 {
            SquareChannel { frequency: (self.frequency & 0xFF00) | (value as u16), ..self }
        } else {
            let ch = SquareChannel {
                frequency: (self.frequency & 0x00FF) | (((value & 0x07) as u16) << 8),
                length_enabled: value & 0x40 != 0,
                ..self
            };
            if value & 0x80 != 0 { ch.triggered() } else { ch }
        }
    }

    fn write_reg(&mut self, reg: u8, value: u8)
        requires
            old(self).wf(),
            reg <= 4,
        ensures
            *final(self) == old(self).reg_written(reg as int, value),
            final(self).wf(),
    {
        if reg == 0 {
            match self.sweep {
                Some(sweep) => {
                    let mut sweep = sweep;
                    sweep.write(value);
                    self.sweep = Some(sweep);
                },
                None => {},
            }
        } else if reg == 1 {
            proof {
                lemma_byte_fields();
            }
            self.duty = (value >> 6) as usize;
            self.length_timer = 64 - (value & 0x3F) as u16;
        } else if reg == 2 {
            self.envelope.write(value);
            self.dac_enabled = (value & 0xF8) != 0;
            if !self.dac_enabled {
                self.enabled = false;
            }
        } else if reg == 3 {
            proof {
                lemma_byte_fields();
            }
            self.frequency = (self.frequency & 0xFF00) | value as u16;
        } else {
            proof {
                lemma_byte_fields();
            }
            self.frequency = (self.frequency & 0x00FF) | (((value & 0x07) as u16) << 8);
            self.length_enabled = (value & 0x40) != 0;
            if value & 0x80 != 0 {
                self.trigger();
            }
        }
    }
}

impl WaveChannel {
    /// A write to register `reg` (0 = NR30 DAC, 1 = NR31 length, 2 = NR32 output level,
    /// 3 = NR33 frequency low, 4 = NR34 frequency high, length enable and trigger).
    pub open spec fn reg_written(self, reg: int, value: u8) -> Self {
        if reg == 0 {
            let dac = value & 0x80 != 0;
            WaveChannel { dac_enabled: dac, enabled: if dac { self.enabled } else { false }, ..self }
        } else if reg == 1 {
            WaveChannel { length_timer: (256 - value) as u16, ..self }
        } else if reg == 2 {
            WaveChannel { volume_shift: (value >> 5) & 0x03, ..self }
        } else if reg == 3 {
            WaveChannel { frequency: (self.frequency & 0xFF00) | (value as u16), ..self }
        } else {
            let ch = WaveChannel {
                frequency: (self.frequency & 0x00FF) | (((value & 0x07) as u16) << 8),
                length_enabled: value & 0x40 != 0,
                ..self
            };
            if value & 0x80 != 0 { ch.triggered() } else { ch }
        }
    }

    fn write_reg(&mut self, reg: u8, value: u8)
        requires
            old(self).wf(),
            reg <= 4,
        ensures
            *final(self) == old(self).reg_written(reg as int, value),
            final(self).wf(),
    {
        if reg == 0 {
            self.dac_enabled = (value & 0x80) != 0;
            if !self.dac_enabled {
                self.enabled = false;
            }
        } else if reg == 1 {
            self.length_timer = 256 - value as u16;
        } else if reg == 2 {
            proof {
                lemma_byte_fields();
            }
            self.volume_shift = (value >> 5) & 0x03;
        } else if reg == 3 {
            proof {
                lemma_byte_fields();
            }
            self.frequency = (self.frequency & 0xFF00) | value as u16;
        } else {
            proof {
                lemma_byte_fields();
            }
            self.frequency = (self.frequency & 0x00FF) | (((value & 0x07) as u16) << 8);
            self.length_enabled = (value & 0x40) != 0;
            if value & 0x80 != 0 {
                self.trigger();
            }
        }
    }
}

impl NoiseChannel {
    /// A write to register `reg` (1 = NR41 length, 2 = NR42 envelope, 3 = NR43 clock shift,
    /// width and divisor, 4 = NR44 length enable and trigger).
    pub open spec fn reg_written(self, reg: int, value: u8) -> Self {
        if reg == 1 {
            NoiseChannel { length_timer: (64 - (value & 0x3F)) as u16, ..self }
        } else if reg == 2 {
            let dac = value & 0xF8 != 0;
            NoiseChannel { envelope: self.envelope.written(value), dac_enabled: dac, enabled: if dac { self.enabled } else { false }, ..self }
        } else if reg == 3 {
            NoiseChannel { shift: value >> 4, width_mode: value & 0x08 != 0, divisor_code: value & 0x07, ..self }
        } else {
            let ch = NoiseChannel { length_enabled: value & 0x40 != 0, ..self };
            if value & 0x80 != 0 { ch.triggered() } else { ch }
        }
    }

    fn write_reg(&mut self, reg: u8, value: u8)
        requires
            old(self).wf(),
            1 <= reg <= 4,
        ensures
            *final(self) == old(self).reg_written(reg as int, value),
            final(self).wf(),
    {
        if reg == 1 {
            proof {
                lemma_byte_fields();
            }
            self.length_timer = 64 - (value & 0x3F) as u16;
        } else if reg == 2 {
            self.envelope.write(value);
            self.dac_enabled = (value & 0xF8) != 0;
            if !self.dac_enabled {
                self.enabled = false;
            }
        } else if reg == 3 {
            proof {
                lemma_byte_fields();
            }
            self.shift = value >> 4;
            self.width_mode = (value & 0x08) != 0;
            self.divisor_code = value & 0x07;
        } else {
            self.length_enabled = (value & 0x40) != 0;
            if value & 0x80 != 0 {
                self.trigger();
            }
        }
    }
}

/// NR51 as the panning switches give it: bits 0-3 right, bits 4-7 left, channel 1 lowest.
pub open spec fn panning_byte(left: [bool; 4], right: [bool; 4]) -> u8 {
    (if right@[0] { 0x01u8 } else { 0u8 }) | (if right@[1] { 0x02u8 } else { 0u8 }) | (if right@[2] { 0x04u8 } else { 0u8 })
        | (if right@[3] { 0x08u8 } else { 0u8 }) | (if left@[0] { 0x10u8 } else { 0u8 }) | (if left@[1] { 0x20u8 } else { 0u8 })
        | (if left@[2] { 0x40u8 } else { 0u8 }) | (if left@[3] { 0x80u8 } else { 0u8 })
}

impl Sound {
    /// What a CPU read of `address` gives; write-only bits read as 1.
    pub open spec fn read_spec(&self, address: u16) -> u8 {
        if address == 0xFF10 {
            self.ch1.sweep->0.read_spec()
        } else if address == 0xFF11 {
            ((self.ch1.duty as u8) << 6) | 0x3F
        } else if address == 0xFF12 {
            self.ch1.envelope.read_spec()
        } else if address == 0xFF14 {
            (if self.ch1.length_enabled { 0x40u8 } else { 0u8 }) | 0xBF
        } else if address == 0xFF16 {
            ((self.ch2.duty as u8) << 6) | 0x3F
        } else if address == 0xFF17 {
            self.ch2.envelope.read_spec()
        } else if address == 0xFF19 {
            (if self.ch2.length_enabled { 0x40u8 } else { 0u8 }) | 0xBF
        } else if address == 0xFF1A {
            (if self.ch3.dac_enabled { 0x80u8 } else { 0u8 }) | 0x7F
        } else if address == 0xFF1C {
            (self.ch3.volume_shift << 5) | 0x9F
        } else if address == 0xFF1E {
            (if self.ch3.length_enabled { 0x40u8 } else { 0u8 }) | 0xBF
        } else if address == 0xFF21 {
            self.ch4.envelope.read_spec()
        } else if address == 0xFF22 {
            (self.ch4.shift << 4) | (if self.ch4.width_mode { 0x08u8 } else { 0u8 }) | self.ch4.divisor_code
        } else if address == 0xFF23 {
            (if self.ch4.length_enabled { 0x40u8 } else { 0u8 }) | 0xBF
        } else if address == 0xFF24 {
            (if self.vin_left { 0x80u8 } else { 0u8 }) | (self.vol_left << 4) | (if self.vin_right { 0x08u8 } else { 0u8 }) | self.vol_right
        } else if address == 0xFF25 {
            panning_byte(self.pan_left, self.pan_right)
        } else if address == 0xFF26 {
            (if self.enabled { 0x80u8 } else { 0u8 }) | (if self.ch4.enabled { 0x08u8 } else { 0u8 }) | (if self.ch3.enabled {
                0x04u8
            } else {
                0u8
            }) | (if self.ch2.enabled { 0x02u8 } else { 0u8 }) | (if self.ch1.enabled { 0x01u8 } else { 0u8 }) | 0x70
        } else if 0xFF30 <= address <= 0xFF3F {
            if self.ch3.enabled { 0xFF } else { self.ch3.wave_ram@[address - 0xFF30] }
        } else {
            0xFF
        }
    }

    /// Whether a write to `address` is refused: while the APU is off only NR52 and wave RAM
    /// take writes.
    pub open spec fn write_refused(&self, address: u16) -> bool {
        !self.enabled && address != 0xFF26 && !(0xFF30 <= address <= 0xFF3F)
    }

    /// The APU after a write of `value` to `address`, for every address but NR51 and wave
    /// RAM (whose arrays the two write clauses state directly). Turning the APU off (NR52
    /// bit 7 clear) writes 0x00 to every register from NR10 to NR51, in address order, and
    /// silences the channels; turning it on restarts the frame sequencer at step 0.
    pub open spec fn written(self, address: u16, value: u8) -> Self {
        if self.write_refused(address) {
            self
        } else if 0xFF10 <= address <= 0xFF14 {
            Sound { ch1: self.ch1.reg_written(address - 0xFF10, value), ..self }
        } else if 0xFF16 <= address <= 0xFF19 {
            Sound { ch2: self.ch2.reg_written(address - 0xFF15, value), ..self }
        } else if 0xFF1A <= address <= 0xFF1E {
            Sound { ch3: self.ch3.reg_written(address - 0xFF1A, value), ..self }
        } else if 0xFF20 <= address <= 0xFF23 {
            Sound { ch4: self.ch4.reg_written(address - 0xFF1F, value), ..self }
        } else if address == 0xFF24 {
            Sound {
                vin_left: value & 0x80 != 0,
                vol_left: (value >> 4) & 0x07,
                vin_right: value & 0x08 != 0,
                vol_right: value & 0x07,
                ..self
            }
        } else if address == 0xFF26 {
            if value & 0x80 == 0 {
                Sound {
                    enabled: false,
                    ch1: SquareChannel {
                        enabled: false,
                        ..self.ch1.reg_written(0, 0).reg_written(1, 0).reg_written(2, 0).reg_written(3, 0).reg_written(4, 0)
                    },
                    ch2: SquareChannel {
                        enabled: false,
                        ..self.ch2.reg_written(1, 0).reg_written(2, 0).reg_written(3, 0).reg_written(4, 0)
                    },
                    ch3: WaveChannel {
                        enabled: false,
                        ..self.ch3.reg_written(0, 0).reg_written(1, 0).reg_written(2, 0).reg_written(3, 0).reg_written(4, 0)
                    },
                    ch4: NoiseChannel {
                        enabled: false,
                        ..self.ch4.reg_written(1, 0).reg_written(2, 0).reg_written(3, 0).reg_written(4, 0)
                    },
                    vin_left: false,
                    vol_left: 0,
                    vin_right: false,
                    vol_right: 0,
                    pan_left: [false, false, false, false],
                    pan_right: [false, false, false, false],
                    ..self
                }
            } else if !self.enabled {
                Sound { enabled: true, frame_seq_step: 0, ..self }
            } else {
                self
            }
        } else {
            self
        }
    }

    fn panning(&self) -> (r: u8)
        ensures
            r == panning_byte(self.pan_left, self.pan_right),
    {
        (if self.pan_right[0] { 0x01u8 } else { 0u8 }) | (if self.pan_right[1] { 0x02u8 } else { 0u8 }) | (if self.pan_right[2] {
            0x04u8
        } else {
            0u8
        }) | (if self.pan_right[3] { 0x08u8 } else { 0u8 }) | (if self.pan_left[0] { 0x10u8 } else { 0u8 }) | (if self.pan_left[1] {
            0x20u8
        } else {
            0u8
        }) | (if self.pan_left[2] { 0x40u8 } else { 0u8 }) | (if self.pan_left[3] { 0x80u8 } else { 0u8 })
    }
}

impl Sound {
    fn write_channel_register(&mut self, address: u16, value: u8)
        requires
            old(self).wf(),
            old(self).enabled,
            0xFF10 <= address <= 0xFF23,
        ensures
            *final(self) == old(self).written(address, value),
            final(self).wf(),
    {
        if address <= 0xFF14 {
            self.ch1.write_reg((address - 0xFF10) as u8, value);
        } else if 0xFF16 <= address && address <= 0xFF19 {
            self.ch2.write_reg((address - 0xFF15) as u8, value);
        } else if 0xFF1A <= address && address <= 0xFF1E {
            self.ch3.write_reg((address - 0xFF1A) as u8, value);
        } else if 0xFF20 <= address {
            self.ch4.write_reg((address - 0xFF1F) as u8, value);
        }
    }

    fn write_control_register(&mut self, address: u16, value: u8)
        requires
            old(self).wf(),
            address == 0xFF24 || address == 0xFF26,
            !old(self).write_refused(address),
        ensures
            *final(self) == old(self).written(address, value),
            final(self).wf(),
    {
        if address == 0xFF24 {
            proof {
                lemma_byte_fields();
            }
            self.vin_left = (value & 0x80) != 0;
            self.vol_left = (value >> 4) & 0x07;
            self.vin_right = (value & 0x08) != 0;
            self.vol_right = value & 0x07;
        } else {
            let was_enabled = self.enabled;
            self.enabled = (value & 0x80) != 0;
            if !self.enabled {
                self.ch1.write_reg(0, 0);
                self.ch1.write_reg(1, 0);
                self.ch1.write_reg(2, 0);
                self.ch1.write_reg(3, 0);
                self.ch1.write_reg(4, 0);
                self.ch2.write_reg(1, 0);
                self.ch2.write_reg(2, 0);
                self.ch2.write_reg(3, 0);
                self.ch2.write_reg(4, 0);
                self.ch3.write_reg(0, 0);
                self.ch3.write_reg(1, 0);
                self.ch3.write_reg(2, 0);
                self.ch3.write_reg(3, 0);
                self.ch3.write_reg(4, 0);
                self.ch4.write_reg(1, 0);
                self.ch4.write_reg(2, 0);
                self.ch4.write_reg(3, 0);
                self.ch4.write_reg(4, 0);
                self.vin_left = false;
                self.vol_left = 0;
                self.vin_right = false;
                self.vol_right = 0;
                self.pan_left = [false, false, false, false];
                self.pan_right = [false, false, false, false];
                self.ch1.enabled = false;
                self.ch2.enabled = false;
                self.ch3.enabled = false;
                self.ch4.enabled = false;
            } else if !was_enabled {
                self.frame_seq_step = 0;
            }
        }
    }
}

impl Sound {
    /// What a CPU write of `value` to `address` leaves: `next`.
    pub open spec fn write_result(&self, address: u16, value: u8, next: &Sound) -> bool {
        if address == 0xFF25 {
            if self.write_refused(address) {
                *next == *self
            } else {
                &&& *next == (Sound { pan_left: next.pan_left, pan_right: next.pan_right, ..*self })
                &&& next.pan_right@ == seq![value & 0x01 != 0, value & 0x02 != 0, value & 0x04 != 0, value & 0x08 != 0]
                &&& next.pan_left@ == seq![value & 0x10 != 0, value & 0x20 != 0, value & 0x40 != 0, value & 0x80 != 0]
            }
        } else if 0xFF30 <= address <= 0xFF3F {
            if self.ch3.enabled {
                *next == *self
            } else {
                &&& *next == (Sound { ch3: WaveChannel { wave_ram: next.ch3.wave_ram, ..self.ch3 }, ..*self })
                &&& next.ch3.wave_ram@ == self.ch3.wave_ram@.update(address - 0xFF30, value)
            }
        } else {
            *next == self.written(address, value)
        }
    }

}

impl Memory for Sound {
    open spec fn readable(&self, address: u16) -> bool {
        self.wf()
    }

    open spec fn writable(&self, address: u16) -> bool {
        self.wf()
    }

    fn read_byte(&self, address: u16) -> (r: u8)
        ensures
            r == self.read_spec(address),
    {
        if address == 0xFF10 {
            match self.ch1.sweep {
                Some(sweep) => sweep.read(),
                None => 0xFF,
            }
        } else if address == 0xFF11 {
            ((self.ch1.duty as u8) << 6) | 0x3F
        } else if address == 0xFF12 {
            self.ch1.envelope.read()
        } else if address == 0xFF14 {
            (if self.ch1.length_enabled { 0x40 } else { 0 }) | 0xBF
        } else if address == 0xFF16 {
            ((self.ch2.duty as u8) << 6) | 0x3F
        } else if address == 0xFF17 {
            self.ch2.envelope.read()
        } else if address == 0xFF19 {
            (if self.ch2.length_enabled { 0x40 } else { 0 }) | 0xBF
        } else if address == 0xFF1A {
            (if self.ch3.dac_enabled { 0x80 } else { 0 }) | 0x7F
        } else if address == 0xFF1C {
            (self.ch3.volume_shift << 5) | 0x9F
        } else if address == 0xFF1E {
            (if self.ch3.length_enabled { 0x40 } else { 0 }) | 0xBF
        } else if address == 0xFF21 {
            self.ch4.envelope.read()
        } else if address == 0xFF22 {
            (self.ch4.shift << 4) | (if self.ch4.width_mode { 0x08 } else { 0 }) | self.ch4.divisor_code
        } else if address == 0xFF23 {
            (if self.ch4.length_enabled { 0x40 } else { 0 }) | 0xBF
        } else if address == 0xFF24 {
            (if self.vin_left { 0x80 } else { 0 }) | (self.vol_left << 4) | (if self.vin_right { 0x08 } else { 0 }) | self.vol_right
        } else if address == 0xFF25 {
            self.panning()
        } else if address == 0xFF26 {
            (if self.enabled { 0x80u8 } else { 0u8 }) | (if self.ch4.enabled { 0x08u8 } else { 0u8 }) | (if self.ch3.enabled {
                0x04u8
            } else {
                0u8
            }) | (if self.ch2.enabled { 0x02u8 } else { 0u8 }) | (if self.ch1.enabled { 0x01u8 } else { 0u8 }) | 0x70
        } else if 0xFF30 <= address && address <= 0xFF3F {
            if self.ch3.enabled {
                0xFF
            } else {
                self.ch3.wave_ram[(address - 0xFF30) as usize]
            }
        } else {
            0xFF
        }
    }

    fn write_byte(&mut self, address: u16, value: u8)
        ensures
            final(self).wf(),
            old(self).write_result(address, value, &*final(self)),
    {
        if !self.enabled && address != 0xFF26 && !(0xFF30 <= address && address <= 0xFF3F) {
            return;
        }
        if 0xFF10 <= address && address <= 0xFF23 {
            self.write_channel_register(address, value);
        } else if address == 0xFF24 || address == 0xFF26 {
            self.write_control_register(address, value);
        } else if address == 0xFF25 {
            self.pan_right[0] = (value & 0x01) != 0;
            self.pan_right[1] = (value & 0x02) != 0;
            self.pan_right[2] = (value & 0x04) != 0;
            self.pan_right[3] = (value & 0x08) != 0;
            self.pan_left[0] = (value & 0x10) != 0;
            self.pan_left[1] = (value & 0x20) != 0;
            self.pan_left[2] = (value & 0x40) != 0;
            self.pan_left[3] = (value & 0x80) != 0;
            assert(self.pan_right@ =~= seq![value & 0x01 != 0, value & 0x02 != 0, value & 0x04 != 0, value & 0x08 != 0]);
            assert(self.pan_left@ =~= seq![value & 0x10 != 0, value & 0x20 != 0, value & 0x40 != 0, value & 0x80 != 0]);
        } else if 0xFF30 <= address && address <= 0xFF3F {
            if !self.ch3.enabled {
                self.ch3.wave_ram[(address - 0xFF30) as usize] = value;
            }
        }
    }
}

/// The sample clock: over `n` clocks of a running APU, the accumulator advances by
/// `n * sample_rate` modulo the clock rate, and one sample is taken per clock-rate crossed.
pub proof fn lemma_sample_clock(s: Sound, n: nat)
    requires
        s.wf(),
    ensures
        s.after_cycles(n).sample_rate == s.sample_rate,
        s.after_cycles(n).sample_accumulator == (s.sample_accumulator + n * s.sample_rate) % (CLOCK_RATE as int),
        s.samples_over(n).len() == (s.sample_accumulator + n * s.sample_rate) / (CLOCK_RATE as int),
    decreases n,
{
    if n > 0 {
        let m = (n - 1) as nat;
        lemma_sample_clock(s, m);
        let before = s.after_cycles(m);
        let x = s.sample_accumulator + m * s.sample_rate;
        let r = s.sample_rate as int;
        let c = CLOCK_RATE as int;
        assert(x + r == s.sample_accumulator + n * s.sample_rate) by (nonlinear_arith)
            requires
                x == s.sample_accumulator + m * s.sample_rate,
                n == m + 1,
                r == s.sample_rate;
        assert(x % c + r >= c ==> (x + r) % c == x % c + r - c && (x + r) / c == x / c + 1) by (nonlinear_arith)
            requires
                0 <= r <= c,
                c > 0,
                x >= 0;
        assert(x % c + r < c ==> (x + r) % c == x % c + r && (x + r) / c == x / c) by (nonlinear_arith)
            requires
                0 <= r <= c,
                c > 0,
                x >= 0;
    }
}

/// The registers read back what was written to them, with their unused bits set: NR10
/// (bit 7), NR11 (the duty bits only), NR12, NR50.
pub proof fn lemma_register_read_back(s: Sound, value: u8)
    requires
        s.wf(),
        s.enabled,
    ensures
        s.written(0xFF10, value).read_spec(0xFF10) == value | 0x80,
        s.written(0xFF11, value).read_spec(0xFF11) == (value & 0xC0) | 0x3F,
        s.written(0xFF12, value).read_spec(0xFF12) == value,
        s.written(0xFF24, value).read_spec(0xFF24) == value,
{
    assert((((value >> 4) & 0x07) << 4) | (if value & 0x08 != 0 { 0x08u8 } else { 0u8 }) | (value & 0x07) | 0x80 == value | 0x80
        && (((value >> 6) as u8) << 6) | 0x3F == (value & 0xC0) | 0x3F
        && ((value >> 4) << 4) | (if value & 0x08 != 0 { 0x08u8 } else { 0u8 }) | (value & 0x07) == value
        && (if value & 0x80 != 0 { 0x80u8 } else { 0u8 }) | (((value >> 4) & 0x07) << 4) | (if value & 0x08 != 0 { 0x08u8 } else {
        0u8
    }) | (value & 0x07) == value && (value >> 6) < 4) by (bit_vector);
}

/// Turning the APU off (NR52 bit 7 clear) silences every channel and clears the registers:
/// NR52 then reads 0x70, and NR50, NR51 and the volume registers NR12, NR22, NR42 read 0.
pub proof fn lemma_power_off_silences(s: Sound, value: u8)
    requires
        value & 0x80 == 0,
    ensures
        s.written(0xFF26, value).read_spec(0xFF26) == 0x70,
        !s.written(0xFF26, value).enabled,
        s.written(0xFF26, value).read_spec(0xFF24) == 0,
        s.written(0xFF26, value).read_spec(0xFF25) == 0,
        s.written(0xFF26, value).read_spec(0xFF12) == 0,
        s.written(0xFF26, value).read_spec(0xFF17) == 0,
        s.written(0xFF26, value).read_spec(0xFF21) == 0,
{
    assert(0u8 | 0u8 | 0u8 | 0u8 | 0u8 | 0x70u8 == 0x70u8 && 0u8 | (0u8 << 4u8) | 0u8 | 0u8 == 0u8
        && 0u8 | 0u8 | 0u8 | 0u8 | 0u8 | 0u8 | 0u8 | 0u8 == 0u8 && 0u8 >> 4u8 == 0u8 && 0u8 & 0x07u8 == 0u8
        && 0u8 & 0xF8u8 == 0u8 && 0u8 & 0x80u8 == 0u8 && 0u8 & 0x40u8 == 0u8 && 0u8 & 0x08u8 == 0u8 && (0u8 << 4u8) | 0u8 | 0u8 == 0u8) by (bit_vector);
    let t = s.written(0xFF26, value);
    assert(t.pan_left@[0] == false && t.pan_left@[1] == false && t.pan_left@[2] == false && t.pan_left@[3] == false);
    assert(t.pan_right@[0] == false && t.pan_right@[1] == false && t.pan_right@[2] == false && t.pan_right@[3] == false);
}

} // verus!
