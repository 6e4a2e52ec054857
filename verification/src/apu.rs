//! The audio processor: two pulse channels, a triangle, a noise channel
//! and the DMC, clocked by a 4- or 5-step frame sequencer.
//!
//! The core keeps the channel state machines (length counters, envelopes,
//! sweeps, the linear counter, the noise shift register) exact in integer
//! arithmetic and exposes the channels' current volume levels; the
//! non-linear analogue mixing and resampling towards a host audio device
//! are the audio collaborator's business, outside the core.

use vstd::prelude::*;

verus! {

/// An envelope generator shared by the pulse and noise channels.
#[derive(Clone, Copy, Debug, PartialEq, Eq, Structural)]
pub struct Envelope {
    /// Restart on the next quarter clock.
    pub start: bool,
    /// Divider counting quarter clocks.
    pub divider: u8,
    /// Current decay level, 0..16.
    pub decay: u8,
    /// Volume / divider reload value (register low nibble), 0..16.
    pub volume: u8,
    /// Constant-volume mode.
    pub constant: bool,
    /// Loop the decay (also halts the length counter).
    pub loop_flag: bool,
}

impl Envelope {
    pub open spec fn wf(self) -> bool {
        self.decay < 16 && self.volume < 16
    }

    /// The envelope after one quarter-frame clock.
    pub open spec fn spec_quarter(self) -> Envelope {
        if self.start {
            Envelope { start: false, decay: 15, divider: self.volume, ..self }
        } else if self.divider == 0 {
            let d = if self.decay > 0 {
                (self.decay - 1) as u8
            } else if self.loop_flag {
                15u8
            } else {
                0u8
            };
            Envelope { divider: self.volume, decay: d, ..self }
        } else {
            Envelope { divider: (self.divider - 1) as u8, ..self }
        }
    }

    /// The level the channel's DAC sees from this envelope.
    pub open spec fn spec_output(self) -> u8 {
        if self.constant {
            self.volume
        } else {
            self.decay
        }
    }

    fn quarter(&mut self)
        requires
            old(self).wf(),
        ensures
            final(self).wf(),
            *final(self) == old(self).spec_quarter(),
    {
        if self.start {
            self.start = false;
            self.decay = 15;
            self.divider = self.volume;
        } else if self.divider == 0 {
            self.divider = self.volume;
            if self.decay > 0 {
                self.decay = self.decay - 1;
            } else if self.loop_flag {
                self.decay = 15;
            }
        } else {
            self.divider = self.divider - 1;
        }
    }
}

/// One pulse channel: duty, envelope, sweep and length counter.
#[derive(Clone, Copy, Debug, PartialEq, Eq, Structural)]
pub struct Pulse {
    pub enabled: bool,
    /// Duty pattern select, 0..4.
    pub duty: u8,
    pub length: u8,
    pub env: Envelope,
    /// Timer period, 11 bits.
    pub period: u16,
    pub sweep_enable: bool,
    /// Sweep divider reload value, 0..8.
    pub sweep_period: u8,
    pub sweep_negate: bool,
    /// Sweep shift count, 0..8.
    pub sweep_shift: u8,
    pub sweep_divider: u8,
    pub sweep_reload: bool,
    /// Pulse 1 negates with one's complement, pulse 2 with two's.
    pub ones_complement: bool,
}

impl Pulse {
    pub open spec fn wf(self) -> bool {
        &&& self.env.wf()
        &&& self.duty < 4
        &&& self.period < 0x800
        &&& self.sweep_shift < 8
    }

    /// The period the sweep is aiming at.
    pub open spec fn spec_sweep_target(self) -> int {
        let change = self.period as int / crate::ppu::pow2_int(self.sweep_shift as int);
        if self.sweep_negate {
            if self.ones_complement {
                self.period as int - change - 1
            } else {
                self.period as int - change
            }
        } else {
            self.period as int + change
        }
    }

    /// The channel after one half-frame clock of its sweep unit.
    pub open spec fn spec_sweep_half(self) -> Pulse {
        let target = self.spec_sweep_target();
        let adjusted = if self.sweep_divider == 0 && self.sweep_enable && self.sweep_shift > 0
            && self.length > 0 && self.period >= 8 && 0 <= target < 0x800 {
            Pulse { period: target as u16, ..self }
        } else {
            self
        };
        if self.sweep_divider == 0 || self.sweep_reload {
            Pulse { sweep_divider: adjusted.sweep_period, sweep_reload: false, ..adjusted }
        } else {
            Pulse { sweep_divider: (adjusted.sweep_divider - 1) as u8, ..adjusted }
        }
    }

    fn sweep_half(&mut self)
        requires
            old(self).wf(),
        ensures
            final(self).wf(),
            *final(self) == old(self).spec_sweep_half(),
    {
        let change: u16 = self.period / pow2_u16(self.sweep_shift);
        if self.sweep_divider == 0 && self.sweep_enable && self.sweep_shift > 0 && self.length > 0
            && self.period >= 8 {
            if self.sweep_negate {
                let sub: u16 = if self.ones_complement {
                    change + 1
                } else {
                    change
                };
                if self.period >= sub {
                    self.period = self.period - sub;
                }
            } else {
                if self.period + change < 0x800 {
                    self.period = self.period + change;
                }
            }
        }
        if self.sweep_divider == 0 || self.sweep_reload {
            self.sweep_divider = self.sweep_period;
            self.sweep_reload = false;
        } else {
            self.sweep_divider = self.sweep_divider - 1;
        }
    }

    /// The level this channel contributes: the envelope output while the
    /// length counter runs and the period is audible, else silence.
    pub open spec fn spec_level(self) -> u8 {
        if self.enabled && self.length > 0 && self.period >= 8 {
            self.env.spec_output()
        } else {
            0u8
        }
    }
}

/// The triangle channel: linear counter plus length counter.
#[derive(Clone, Copy, Debug, PartialEq, Eq, Structural)]
pub struct Triangle {
    pub enabled: bool,
    pub length: u8,
    /// Control flag: halts the length counter and keeps reloading the
    /// linear counter.
    pub control: bool,
    /// Linear counter reload value, 0..128.
    pub reload_value: u8,
    pub linear: u8,
    pub linear_reload: bool,
    /// Timer period, 11 bits.
    pub period: u16,
}

impl Triangle {
    pub open spec fn wf(self) -> bool {
        self.reload_value < 128 && self.period < 0x800
    }

    /// The linear counter after one quarter-frame clock.
    pub open spec fn spec_quarter(self) -> Triangle {
        let lin = if self.linear_reload {
            self.reload_value
        } else if self.linear > 0 {
            (self.linear - 1) as u8
        } else {
            0u8
        };
        Triangle {
            linear: lin,
            linear_reload: if self.control {
                self.linear_reload
            } else {
                false
            },
            ..self
        }
    }

    fn quarter(&mut self)
        requires
            old(self).wf(),
        ensures
            final(self).wf(),
            *final(self) == old(self).spec_quarter(),
    {
        if self.linear_reload {
            self.linear = self.reload_value;
        } else if self.linear > 0 {
            self.linear = self.linear - 1;
        }
        if !self.control {
            self.linear_reload = false;
        }
    }
}

/// The noise channel: envelope, length counter and the 15-bit linear
/// feedback shift register.
#[derive(Clone, Copy, Debug, PartialEq, Eq, Structural)]
pub struct Noise {
    pub enabled: bool,
    pub length: u8,
    pub env: Envelope,
    /// Short-sequence mode bit.
    pub mode: bool,
    /// Timer period table index, 0..16.
    pub period_index: u8,
    /// The shift register; 15 bits, never zero.
    pub lfsr: u16,
}

impl Noise {
    pub open spec fn wf(self) -> bool {
        &&& self.env.wf()
        &&& self.period_index < 16
        &&& 0 < self.lfsr < 0x8000
    }

    /// The shift register after one timer clock: feedback is bit 0 xor
    /// bit 6 (short mode) or bit 1, shifted in at the top.
    pub open spec fn spec_lfsr_next(self) -> u16 {
        let b0 = self.lfsr as int % 2;
        let other = if self.mode {
            (self.lfsr as int / 64) % 2
        } else {
            (self.lfsr as int / 2) % 2
        };
        let feedback: int = if b0 == other {
            0
        } else {
            1
        };
        (self.lfsr as int / 2 + feedback * 0x4000) as u16
    }

    /// Clocks the shift register once.
    pub fn clock_lfsr(&mut self)
        requires
            old(self).wf(),
        ensures
            final(self).wf(),
            *final(self) == (Noise { lfsr: old(self).spec_lfsr_next(), ..*old(self) }),
    {
        let b0: u16 = self.lfsr % 2;
        let other: u16 = if self.mode {
            (self.lfsr / 64) % 2
        } else {
            (self.lfsr / 2) % 2
        };
        let feedback: u16 = if b0 == other {
            0
        } else {
            1
        };
        self.lfsr = self.lfsr / 2 + feedback * 0x4000;
        proof {
            assert(self.lfsr != 0) by {
                if feedback == 0 {
                    assert(old(self).lfsr / 2 > 0 || old(self).lfsr % 2 == 1);
                }
            }
        }
    }

    /// The level this channel contributes.
    pub open spec fn spec_level(self) -> u8 {
        if self.enabled && self.length > 0 && self.lfsr % 2 == 0 {
            self.env.spec_output()
        } else {
            0u8
        }
    }
}

/// The delta-modulation channel, kept at the register level: the core
/// does not fetch sample bytes (that DMA and its CPU stall are not
/// modelled).
#[derive(Clone, Copy, Debug, PartialEq, Eq, Structural)]
pub struct Dmc {
    pub enabled: bool,
    pub irq_enable: bool,
    pub loop_flag: bool,
    /// Rate table index, 0..16.
    pub rate: u8,
    /// Current 7-bit DAC level.
    pub output: u8,
    /// Sample address register.
    pub addr: u8,
    /// Sample length register.
    pub len: u8,
}

impl Dmc {
    pub open spec fn wf(self) -> bool {
        self.rate < 16 && self.output < 128
    }
}

/// Where the 4-step sequence clocks fall, in CPU cycles.
pub const SEQ_STEP_1: u32 = 7457;
pub const SEQ_STEP_2: u32 = 14913;
pub const SEQ_STEP_3: u32 = 22371;
pub const SEQ_STEP_4: u32 = 29829;
/// The fifth step of the 5-step sequence.
pub const SEQ_STEP_5: u32 = 37281;

/// The audio processor.
pub struct Apu {
    pub pulse1: Pulse,
    pub pulse2: Pulse,
    pub triangle: Triangle,
    pub noise: Noise,
    pub dmc: Dmc,
    /// $4017 bit 7: 5-step sequence.
    pub mode5: bool,
    /// $4017 bit 6: frame IRQ inhibited.
    pub irq_inhibit: bool,
    /// The frame IRQ flag.
    pub frame_irq: bool,
    /// CPU cycles into the current sequence.
    pub frame_counter: u32,
    /// CPU cycle count already accounted for.
    pub last_cpu_cy: u64,
}

impl Apu {
    pub open spec fn wf(self) -> bool {
        &&& self.pulse1.wf()
        &&& self.pulse2.wf()
        &&& self.triangle.wf()
        &&& self.noise.wf()
        &&& self.dmc.wf()
        &&& self.frame_counter <= SEQ_STEP_5
    }

    /// A fresh APU in its power-on state: channels silent, 4-step mode.
    pub fn new() -> (r: Apu)
        ensures
            r.wf(),
            !r.mode5 && !r.irq_inhibit && !r.frame_irq,
            r.frame_counter == 0 && r.last_cpu_cy == 0,
            r.pulse1.length == 0 && r.pulse2.length == 0 && r.triangle.length == 0
                && r.noise.length == 0,
            r.noise.lfsr == 1,
    {
        let env = Envelope {
            start: false,
            divider: 0,
            decay: 0,
            volume: 0,
            constant: false,
            loop_flag: false,
        };
        let pulse = Pulse {
            enabled: false,
            duty: 0,
            length: 0,
            env,
            period: 0,
            sweep_enable: false,
            sweep_period: 0,
            sweep_negate: false,
            sweep_shift: 0,
            sweep_divider: 0,
            sweep_reload: false,
            ones_complement: true,
        };
        Apu {
            pulse1: pulse,
            pulse2: Pulse { ones_complement: false, ..pulse },
            triangle: Triangle {
                enabled: false,
                length: 0,
                control: false,
                reload_value: 0,
                linear: 0,
                linear_reload: false,
                period: 0,
            },
            noise: Noise {
                enabled: false,
                length: 0,
                env,
                mode: false,
                period_index: 0,
                lfsr: 1,
            },
            dmc: Dmc {
                enabled: false,
                irq_enable: false,
                loop_flag: false,
                rate: 0,
                output: 0,
                addr: 0,
                len: 0,
            },
            mode5: false,
            irq_inhibit: false,
            frame_irq: false,
            frame_counter: 0,
            last_cpu_cy: 0,
        }
    }

    /// Clocks every quarter-frame unit: the three envelopes and the
    /// triangle's linear counter.
    fn quarter_clock(&mut self)
        requires
            old(self).wf(),
        ensures
            final(self).wf(),
            final(self).pulse1.env == old(self).pulse1.env.spec_quarter(),
            final(self).pulse2.env == old(self).pulse2.env.spec_quarter(),
            final(self).noise.env == old(self).noise.env.spec_quarter(),
            final(self).triangle == old(self).triangle.spec_quarter(),
            spec_seq_state_eq(*final(self), *old(self)),
    {
        self.pulse1.env.quarter();
        self.pulse2.env.quarter();
        self.noise.env.quarter();
        self.triangle.quarter();
    }

    /// Clocks every half-frame unit: the four length counters and the two
    /// sweeps.  A length counter steps down when it runs and its halt
    /// flag (the envelope loop flag, or the triangle's control flag) is
    /// clear.
    fn half_clock(&mut self)
        requires
            old(self).wf(),
        ensures
            final(self).wf(),
            spec_seq_state_eq(*final(self), *old(self)),
    {
        if !self.pulse1.env.loop_flag && self.pulse1.length > 0 {
            self.pulse1.length = self.pulse1.length - 1;
        }
        if !self.pulse2.env.loop_flag && self.pulse2.length > 0 {
            self.pulse2.length = self.pulse2.length - 1;
        }
        if !self.triangle.control && self.triangle.length > 0 {
            self.triangle.length = self.triangle.length - 1;
        }
        if !self.noise.env.loop_flag && self.noise.length > 0 {
            self.noise.length = self.noise.length - 1;
        }
        self.pulse1.sweep_half();
        self.pulse2.sweep_half();
    }

    /// Advances the frame sequencer to the CPU's cycle count, one CPU
    /// cycle at a time, firing the quarter and half clocks at their
    /// documented positions; in 4-step mode the last step raises the
    /// frame IRQ unless inhibited.  Returns whether the frame IRQ flag
    /// stands after the advance.
    pub fn step(&mut self, cpu_cy: u64) -> (r: bool)
        requires
            old(self).wf(),
            cpu_cy >= old(self).last_cpu_cy,
            cpu_cy - old(self).last_cpu_cy <= 2000,
        ensures
            final(self).wf(),
            final(self).last_cpu_cy == cpu_cy,
            r == final(self).frame_irq,
            final(self).frame_irq ==> !final(self).irq_inhibit,
            old(self).frame_irq && !old(self).irq_inhibit ==> final(self).frame_irq,
            final(self).mode5 == old(self).mode5,
            final(self).irq_inhibit == old(self).irq_inhibit,
            old(self).frame_counter + (cpu_cy - old(self).last_cpu_cy) < SEQ_STEP_1
                ==> *final(self) == (Apu {
                frame_counter: (old(self).frame_counter + (cpu_cy - old(self).last_cpu_cy)) as u32,
                last_cpu_cy: cpu_cy,
                frame_irq: old(self).frame_irq && !old(self).irq_inhibit,
                ..*old(self)
            }),
    {
        let delta: u64 = cpu_cy - self.last_cpu_cy;
        self.last_cpu_cy = cpu_cy;
        let mut i: u64 = 0;
        if self.frame_irq && self.irq_inhibit {
            self.frame_irq = false;
        }
        while i < delta
            invariant
                self.wf(),
                self.last_cpu_cy == cpu_cy,
                self.frame_irq ==> !self.irq_inhibit,
                old(self).frame_irq && !old(self).irq_inhibit ==> self.frame_irq,
                self.irq_inhibit == old(self).irq_inhibit,
                self.mode5 == old(self).mode5,
                i <= delta,
                delta == cpu_cy - old(self).last_cpu_cy,
                old(self).frame_counter + delta < SEQ_STEP_1 ==> *self == (Apu {
                    frame_counter: (old(self).frame_counter + i) as u32,
                    last_cpu_cy: cpu_cy,
                    frame_irq: old(self).frame_irq && !old(self).irq_inhibit,
                    ..*old(self)
                }),
            decreases delta - i,
        {
            self.frame_counter = self.frame_counter + 1;
            if self.frame_counter == SEQ_STEP_1 {
                self.quarter_clock();
            } else if self.frame_counter == SEQ_STEP_2 {
                self.quarter_clock();
                self.half_clock();
            } else if self.frame_counter == SEQ_STEP_3 {
                self.quarter_clock();
            } else if self.frame_counter == SEQ_STEP_4 {
                if !self.mode5 {
                    self.frame_counter = 0;
                    self.quarter_clock();
                    self.half_clock();
                    if !self.irq_inhibit {
                        self.frame_irq = true;
                    }
                }
            } else if self.frame_counter >= SEQ_STEP_5 {
                self.frame_counter = 0;
                if self.mode5 {
                    self.quarter_clock();
                    self.half_clock();
                }
            }
            i = i + 1;
        }
        self.frame_irq
    }

    /// The five channels' current DAC levels, for the host mixer.
    pub fn output_levels(&self) -> (r: (u8, u8, u8, u8, u8))
        requires
            self.wf(),
        ensures
            r.0 == self.pulse1.spec_level(),
            r.1 == self.pulse2.spec_level(),
            r.2 == (if self.triangle.enabled && self.triangle.length > 0 && self.triangle.linear
                > 0 {
                15u8
            } else {
                0u8
            }),
            r.3 == self.noise.spec_level(),
            r.4 == self.dmc.output,
    {
        let p1: u8 = if self.pulse1.enabled && self.pulse1.length > 0 && self.pulse1.period >= 8 {
            if self.pulse1.env.constant {
                self.pulse1.env.volume
            } else {
                self.pulse1.env.decay
            }
        } else {
            0
        };
        let p2: u8 = if self.pulse2.enabled && self.pulse2.length > 0 && self.pulse2.period >= 8 {
            if self.pulse2.env.constant {
                self.pulse2.env.volume
            } else {
                self.pulse2.env.decay
            }
        } else {
            0
        };
        let t: u8 = if self.triangle.enabled && self.triangle.length > 0 && self.triangle.linear
            > 0 {
            15
        } else {
            0
        };
        let n: u8 = if self.noise.enabled && self.noise.length > 0 && self.noise.lfsr % 2 == 0 {
            if self.noise.env.constant {
                self.noise.env.volume
            } else {
                self.noise.env.decay
            }
        } else {
            0
        };
        (p1, p2, t, n, self.dmc.output)
    }

    /// Reads $4015: length-counter activity bits and the frame IRQ flag;
    /// the read clears the flag.
    pub fn read_status(&mut self) -> (r: u8)
        requires
            old(self).wf(),
        ensures
            final(self).wf(),
            r as int == (if old(self).pulse1.length > 0 { 1int } else { 0int })
                + (if old(self).pulse2.length > 0 { 2int } else { 0int })
                + (if old(self).triangle.length > 0 { 4int } else { 0int })
                + (if old(self).noise.length > 0 { 8int } else { 0int })
                + (if old(self).dmc.len > 0 { 16int } else { 0int })
                + (if old(self).frame_irq { 64int } else { 0int }),
            !final(self).frame_irq,
            *final(self) == (Apu { frame_irq: false, ..*old(self) }),
    {
        let r: u8 = (if self.pulse1.length > 0 {
            1
        } else {
            0
        }) + (if self.pulse2.length > 0 {
            2
        } else {
            0
        }) + (if self.triangle.length > 0 {
            4
        } else {
            0
        }) + (if self.noise.length > 0 {
            8
        } else {
            0
        }) + (if self.dmc.len > 0 {
            16
        } else {
            0
        }) + (if self.frame_irq {
            64
        } else {
            0
        });
        self.frame_irq = false;
        r
    }

    /// Writes one of the APU registers ($4000-$4013, $4015, $4017).
    ///
    /// Registers configure the channels; $4015 enables or silences them
    /// (a disabled channel's length counter clears at once); $4017
    /// selects the sequence mode, and inhibiting the IRQ also clears a
    /// pending frame IRQ.  A 5-step select clocks both units at once.
    #[verifier::rlimit(50)]
    pub fn write_reg(&mut self, addr: u16, v: u8)
        requires
            old(self).wf(),
            0x4000 <= addr <= 0x4017,
            addr != 0x4014,
            addr != 0x4016,
        ensures
            final(self).wf(),
            addr == 0x4015 ==> {
                &&& final(self).pulse1.enabled == (v as int % 2 == 1)
                &&& final(self).pulse2.enabled == ((v as int / 2) % 2 == 1)
                &&& final(self).triangle.enabled == ((v as int / 4) % 2 == 1)
                &&& final(self).noise.enabled == ((v as int / 8) % 2 == 1)
                &&& final(self).dmc.enabled == ((v as int / 16) % 2 == 1)
                &&& (v as int % 2 == 0 ==> final(self).pulse1.length == 0)
                &&& ((v as int / 2) % 2 == 0 ==> final(self).pulse2.length == 0)
                &&& ((v as int / 4) % 2 == 0 ==> final(self).triangle.length == 0)
                &&& ((v as int / 8) % 2 == 0 ==> final(self).noise.length == 0)
            },
            addr == 0x4017 ==> {
                &&& final(self).mode5 == (v >= 128)
                &&& final(self).irq_inhibit == ((v as int / 64) % 2 == 1)
                &&& ((v as int / 64) % 2 == 1 ==> !final(self).frame_irq)
                &&& final(self).frame_counter == 0
            },
            addr == 0x4000 ==> {
                &&& final(self).pulse1.duty == v as int / 64
                &&& final(self).pulse1.env.loop_flag == ((v as int / 32) % 2 == 1)
                &&& final(self).pulse1.env.constant == ((v as int / 16) % 2 == 1)
                &&& final(self).pulse1.env.volume == v as int % 16
            },
            addr == 0x4002 ==> final(self).pulse1.period as int == old(self).pulse1.period as int
                - old(self).pulse1.period as int % 256 + v as int,
            addr == 0x4003 ==> {
                &&& final(self).pulse1.period as int == old(self).pulse1.period as int % 256 + (
                v as int % 8) * 256
                &&& (old(self).pulse1.enabled ==> final(self).pulse1.length == spec_length_entry(
                    (v as int / 8) as u8,
                ))
                &&& final(self).pulse1.env.start
            },
            addr == 0x4001 ==> {
                &&& final(self).pulse1.sweep_enable == (v >= 128)
                &&& final(self).pulse1.sweep_period == (v as int / 16) % 8
                &&& final(self).pulse1.sweep_negate == ((v as int / 8) % 2 == 1)
                &&& final(self).pulse1.sweep_shift == v as int % 8
                &&& final(self).pulse1.sweep_reload
            },
            addr == 0x4004 ==> {
                &&& final(self).pulse2.duty == v as int / 64
                &&& final(self).pulse2.env.loop_flag == ((v as int / 32) % 2 == 1)
                &&& final(self).pulse2.env.constant == ((v as int / 16) % 2 == 1)
                &&& final(self).pulse2.env.volume == v as int % 16
            },
            addr == 0x4005 ==> {
                &&& final(self).pulse2.sweep_enable == (v >= 128)
                &&& final(self).pulse2.sweep_period == (v as int / 16) % 8
                &&& final(self).pulse2.sweep_negate == ((v as int / 8) % 2 == 1)
                &&& final(self).pulse2.sweep_shift == v as int % 8
                &&& final(self).pulse2.sweep_reload
            },
            addr == 0x4006 ==> final(self).pulse2.period as int == old(self).pulse2.period as int
                - old(self).pulse2.period as int % 256 + v as int,
            addr == 0x4007 ==> {
                &&& final(self).pulse2.period as int == old(self).pulse2.period as int % 256 + (
                v as int % 8) * 256
                &&& (old(self).pulse2.enabled ==> final(self).pulse2.length == spec_length_entry(
                    (v as int / 8) as u8,
                ))
                &&& final(self).pulse2.env.start
            },
            addr == 0x4008 ==> {
                &&& final(self).triangle.control == (v >= 128)
                &&& final(self).triangle.reload_value == v as int % 128
            },
            addr == 0x400A ==> final(self).triangle.period as int == old(
                self,
            ).triangle.period as int - old(self).triangle.period as int % 256 + v as int,
            addr == 0x400B ==> {
                &&& final(self).triangle.period as int == old(self).triangle.period as int % 256
                    + (v as int % 8) * 256
                &&& (old(self).triangle.enabled ==> final(self).triangle.length
                    == spec_length_entry((v as int / 8) as u8))
                &&& final(self).triangle.linear_reload
            },
            addr == 0x400C ==> {
                &&& final(self).noise.env.loop_flag == ((v as int / 32) % 2 == 1)
                &&& final(self).noise.env.constant == ((v as int / 16) % 2 == 1)
                &&& final(self).noise.env.volume == v as int % 16
            },
            addr == 0x400E ==> {
                &&& final(self).noise.mode == (v >= 128)
                &&& final(self).noise.period_index == v as int % 16
            },
            addr == 0x400F ==> {
                &&& (old(self).noise.enabled ==> final(self).noise.length == spec_length_entry(
                    (v as int / 8) as u8,
                ))
                &&& final(self).noise.env.start
            },
            addr == 0x4010 ==> {
                &&& final(self).dmc.irq_enable == (v >= 128)
                &&& final(self).dmc.loop_flag == ((v as int / 64) % 2 == 1)
                &&& final(self).dmc.rate == v as int % 16
            },
            addr == 0x4011 ==> final(self).dmc.output == v as int % 128,
            addr == 0x4012 ==> final(self).dmc.addr == v,
            addr == 0x4013 ==> final(self).dmc.len == v,
    {
        if addr == 0x4000 {
            self.pulse1.duty = v / 64;
            self.pulse1.env.loop_flag = (v / 32) % 2 == 1;
            self.pulse1.env.constant = (v / 16) % 2 == 1;
            self.pulse1.env.volume = v % 16;
        } else if addr == 0x4001 {
            self.pulse1.sweep_enable = v >= 128;
            self.pulse1.sweep_period = (v / 16) % 8;
            self.pulse1.sweep_negate = (v / 8) % 2 == 1;
            self.pulse1.sweep_shift = v % 8;
            self.pulse1.sweep_reload = true;
        } else if addr == 0x4002 {
            self.pulse1.period = self.pulse1.period - self.pulse1.period % 256 + v as u16;
        } else if addr == 0x4003 {
            self.pulse1.period = self.pulse1.period % 256 + ((v as u16) % 8) * 256;
            if self.pulse1.enabled {
                self.pulse1.length = length_entry(v / 8);
            }
            self.pulse1.env.start = true;
        } else if addr == 0x4004 {
            self.pulse2.duty = v / 64;
            self.pulse2.env.loop_flag = (v / 32) % 2 == 1;
            self.pulse2.env.constant = (v / 16) % 2 == 1;
            self.pulse2.env.volume = v % 16;
        } else if addr == 0x4005 {
            self.pulse2.sweep_enable = v >= 128;
            self.pulse2.sweep_period = (v / 16) % 8;
            self.pulse2.sweep_negate = (v / 8) % 2 == 1;
            self.pulse2.sweep_shift = v % 8;
            self.pulse2.sweep_reload = true;
        } else if addr == 0x4006 {
            self.pulse2.period = self.pulse2.period - self.pulse2.period % 256 + v as u16;
        } else if addr == 0x4007 {
            self.pulse2.period = self.pulse2.period % 256 + ((v as u16) % 8) * 256;
            if self.pulse2.enabled {
                self.pulse2.length = length_entry(v / 8);
            }
            self.pulse2.env.start = true;
        } else if addr == 0x4008 {
            self.triangle.control = v >= 128;
            self.triangle.reload_value = v % 128;
        } else if addr == 0x400A {
            self.triangle.period = self.triangle.period - self.triangle.period % 256 + v as u16;
        } else if addr == 0x400B {
            self.triangle.period = self.triangle.period % 256 + ((v as u16) % 8) * 256;
            if self.triangle.enabled {
                self.triangle.length = length_entry(v / 8);
            }
            self.triangle.linear_reload = true;
        } else if addr == 0x400C {
            self.noise.env.loop_flag = (v / 32) % 2 == 1;
            self.noise.env.constant = (v / 16) % 2 == 1;
            self.noise.env.volume = v % 16;
        } else if addr == 0x400E {
            self.noise.mode = v >= 128;
            self.noise.period_index = v % 16;
        } else if addr == 0x400F {
            if self.noise.enabled {
                self.noise.length = length_entry(v / 8);
            }
            self.noise.env.start = true;
        } else if addr == 0x4010 {
            self.dmc.irq_enable = v >= 128;
            self.dmc.loop_flag = (v / 64) % 2 == 1;
            self.dmc.rate = v % 16;
        } else if addr == 0x4011 {
            self.dmc.output = v % 128;
        } else if addr == 0x4012 {
            self.dmc.addr = v;
        } else if addr == 0x4013 {
            self.dmc.len = v;
        } else if addr == 0x4015 {
            self.pulse1.enabled = v % 2 == 1;
            self.pulse2.enabled = (v / 2) % 2 == 1;
            self.triangle.enabled = (v / 4) % 2 == 1;
            self.noise.enabled = (v / 8) % 2 == 1;
            self.dmc.enabled = (v / 16) % 2 == 1;
            if !self.pulse1.enabled {
                self.pulse1.length = 0;
            }
            if !self.pulse2.enabled {
                self.pulse2.length = 0;
            }
            if !self.triangle.enabled {
                self.triangle.length = 0;
            }
            if !self.noise.enabled {
                self.noise.length = 0;
            }
        } else if addr == 0x4017 {
            self.mode5 = v >= 128;
            self.irq_inhibit = (v / 64) % 2 == 1;
            if self.irq_inhibit {
                self.frame_irq = false;
            }
            self.frame_counter = 0;
            if self.mode5 {
                self.quarter_clock();
                self.half_clock();
            }
        }
    }
}

/// The frame sequencer's own state and the DMC agree between two APU
/// states (the channels may differ).
pub open spec fn spec_seq_state_eq(a: Apu, b: Apu) -> bool {
    &&& a.mode5 == b.mode5
    &&& a.irq_inhibit == b.irq_inhibit
    &&& a.frame_irq == b.frame_irq
    &&& a.frame_counter == b.frame_counter
    &&& a.last_cpu_cy == b.last_cpu_cy
    &&& a.dmc == b.dmc
}

/// The documented 32-entry length-counter load table.
pub open spec fn spec_length_entry(i: u8) -> u8 {
    let t = i as int % 32;
    if t == 0 {
        10u8
    } else if t == 1 {
        254u8
    } else if t == 2 {
        20u8
    } else if t == 3 {
        2u8
    } else if t == 4 {
        40u8
    } else if t == 5 {
        4u8
    } else if t == 6 {
        80u8
    } else if t == 7 {
        6u8
    } else if t == 8 {
        160u8
    } else if t == 9 {
        8u8
    } else if t == 10 {
        60u8
    } else if t == 11 {
        10u8
    } else if t == 12 {
        14u8
    } else if t == 13 {
        12u8
    } else if t == 14 {
        26u8
    } else if t == 15 {
        14u8
    } else if t == 16 {
        12u8
    } else if t == 17 {
        16u8
    } else if t == 18 {
        24u8
    } else if t == 19 {
        18u8
    } else if t == 20 {
        48u8
    } else if t == 21 {
        20u8
    } else if t == 22 {
        96u8
    } else if t == 23 {
        22u8
    } else if t == 24 {
        192u8
    } else if t == 25 {
        24u8
    } else if t == 26 {
        72u8
    } else if t == 27 {
        26u8
    } else if t == 28 {
        16u8
    } else if t == 29 {
        28u8
    } else if t == 30 {
        32u8
    } else {
        30u8
    }
}

/// Looks up the length-counter load table.
pub fn length_entry(i: u8) -> (r: u8)
    ensures
        r == spec_length_entry(i),
{
    let t: u8 = i % 32;
    if t == 0 {
        10
    } else if t == 1 {
        254
    } else if t == 2 {
        20
    } else if t == 3 {
        2
    } else if t == 4 {
        40
    } else if t == 5 {
        4
    } else if t == 6 {
        80
    } else if t == 7 {
        6
    } else if t == 8 {
        160
    } else if t == 9 {
        8
    } else if t == 10 {
        60
    } else if t == 11 {
        10
    } else if t == 12 {
        14
    } else if t == 13 {
        12
    } else if t == 14 {
        26
    } else if t == 15 {
        14
    } else if t == 16 {
        12
    } else if t == 17 {
        16
    } else if t == 18 {
        24
    } else if t == 19 {
        18
    } else if t == 20 {
        48
    } else if t == 21 {
        20
    } else if t == 22 {
        96
    } else if t == 23 {
        22
    } else if t == 24 {
        192
    } else if t == 25 {
        24
    } else if t == 26 {
        72
    } else if t == 27 {
        26
    } else if t == 28 {
        16
    } else if t == 29 {
        28
    } else if t == 30 {
        32
    } else {
        30
    }
}

/// Powers of two on u16 for the sweep shift.
fn pow2_u16(k: u8) -> (r: u16)
    requires
        k < 8,
    ensures
        r as int == crate::ppu::pow2_int(k as int),
        r >= 1,
{
    if k == 0 {
        1
    } else if k == 1 {
        2
    } else if k == 2 {
        4
    } else if k == 3 {
        8
    } else if k == 4 {
        16
    } else if k == 5 {
        32
    } else if k == 6 {
        64
    } else {
        128
    }
}

} // verus!
