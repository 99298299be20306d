//! The two pulse channels of the audio unit and their frame counter: duty
//! sequencing, length counters, envelopes and sweep units, clocked from the
//! CPU clock at half rate. Sample mixing is the embedder's concern; the
//! channels hand out their 0-15 outputs.

use vstd::prelude::*;
use vstd::wrapping::u16_specs;

verus! {

/// One square-wave channel of the audio unit.
pub struct PulseChannel {
    pub enabled: bool,
    pub duty: u8,
    pub length_counter_halt: bool,
    pub constant_volume: bool,
    pub volume: u8,
    pub sweep_enabled: bool,
    pub sweep_period: u8,
    pub sweep_negate: bool,
    pub sweep_shift: u8,
    pub timer: u16,
    pub timer_counter: u16,
    pub length_counter: u8,
    pub sequence_position: u8,
    pub envelope_counter: u8,
    pub envelope_divider: u8,
    pub envelope_volume: u8,
    pub sweep_divider: u8,
    pub sweep_reload: bool,
}

/// The length counter load table, indexed by the five load bits.
pub open spec fn spec_length_table() -> Seq<u8> {
    seq![
        10u8,
        254,
        20,
        2,
        40,
        4,
        80,
        6,
        160,
        8,
        60,
        10,
        14,
        12,
        26,
        14,
        12,
        16,
        24,
        18,
        48,
        20,
        96,
        22,
        192,
        24,
        72,
        26,
        16,
        28,
        32,
        30,
    ]
}

/// The 8-step duty patterns: 12.5%, 25%, 50%, and 25% negated.
pub open spec fn spec_duty_bit(duty: u8, pos: u8) -> u8 {
    let d = duty % 4;
    let p = pos % 8;
    if d == 0 {
        if p == 1 {
            1u8
        } else {
            0u8
        }
    } else if d == 1 {
        if p == 1 || p == 2 {
            1u8
        } else {
            0u8
        }
    } else if d == 2 {
        if 1 <= p && p <= 4 {
            1u8
        } else {
            0u8
        }
    } else {
        if p == 0 || p >= 3 {
            1u8
        } else {
            0u8
        }
    }
}

fn length_table(index: u8) -> (r: u8)
    requires
        index < 32,
    ensures
        r == spec_length_table()[index as int],
{
    match index {
        0 => 10,
        1 => 254,
        2 => 20,
        3 => 2,
        4 => 40,
        5 => 4,
        6 => 80,
        7 => 6,
        8 => 160,
        9 => 8,
        10 => 60,
        11 => 10,
        12 => 14,
        13 => 12,
        14 => 26,
        15 => 14,
        16 => 12,
        17 => 16,
        18 => 24,
        19 => 18,
        20 => 48,
        21 => 20,
        22 => 96,
        23 => 22,
        24 => 192,
        25 => 24,
        26 => 72,
        27 => 26,
        28 => 16,
        29 => 28,
        30 => 32,
        _ => 30,
    }
}

fn duty_bit(duty: u8, pos: u8) -> (r: u8)
    requires
        duty < 4,
        pos < 8,
    ensures
        r == spec_duty_bit(duty, pos),
{
    if duty == 0 {
        if pos == 1 {
            1
        } else {
            0
        }
    } else if duty == 1 {
        if pos == 1 || pos == 2 {
            1
        } else {
            0
        }
    } else if duty == 2 {
        if 1 <= pos && pos <= 4 {
            1
        } else {
            0
        }
    } else {
        if pos == 0 || pos >= 3 {
            1
        } else {
            0
        }
    }
}

impl PulseChannel {
    pub open spec fn wf(self) -> bool {
        self.duty < 4 && self.sequence_position < 8 && self.sweep_shift < 8 && self.timer < 0x800
            && self.volume <= 15 && self.envelope_volume <= 15 && self.envelope_counter <= 15
    }

    /// The sweep unit's target period, as `is_sweep_muted` computes it
    /// (two's-complement negate).
    pub open spec fn spec_sweep_target(self) -> u16 {
        if self.sweep_negate {
            u16_specs::wrapping_sub(self.timer, self.timer >> self.sweep_shift)
        } else {
            u16_specs::wrapping_add(self.timer, self.timer >> self.sweep_shift)
        }
    }

    /// The sweep unit silences the channel when the timer is under 8 or the
    /// target period overflows 0x7FF (never for a shift of zero).
    pub open spec fn spec_sweep_muted(self) -> bool {
        self.sweep_shift != 0 && (self.timer < 8 || self.spec_sweep_target() > 0x7FF)
    }

    /// The channel contributes while enabled with a running length counter,
    /// a timer of at least 8, and an unmuted sweep.
    pub open spec fn spec_active(self) -> bool {
        self.enabled && self.length_counter > 0 && self.timer >= 8 && !self.spec_sweep_muted()
    }

    /// The channel's current 0-15 output: the envelope volume when the duty
    /// pattern is high and the channel is active.
    pub open spec fn spec_output(self) -> u8 {
        if !self.spec_active() {
            0u8
        } else if spec_duty_bit(self.duty, self.sequence_position) == 1 {
            self.envelope_volume
        } else {
            0u8
        }
    }



    /// The freshly constructed channel: everything off and zeroed.
    pub open spec fn spec_new() -> PulseChannel {
        PulseChannel {
            enabled: false,
            duty: 0,
            length_counter_halt: false,
            constant_volume: false,
            volume: 0,
            sweep_enabled: false,
            sweep_period: 0,
            sweep_negate: false,
            sweep_shift: 0,
            timer: 0,
            timer_counter: 0,
            length_counter: 0,
            sequence_position: 0,
            envelope_counter: 0,
            envelope_divider: 0,
            envelope_volume: 0,
            sweep_divider: 0,
            sweep_reload: false,
        }
    }

    /// The channel after one timer clock.
    pub open spec fn spec_after_clock(self) -> PulseChannel {
        if self.timer_counter == 0 {
            PulseChannel {
                timer_counter: self.timer,
                sequence_position: ((self.sequence_position + 1) % 8) as u8,
                ..self
            }
        } else {
            PulseChannel { timer_counter: (self.timer_counter - 1) as u16, ..self }
        }
    }

    /// The channel after one length-counter clock.
    pub open spec fn spec_after_clock_length(self) -> PulseChannel {
        if !self.length_counter_halt && self.length_counter > 0 {
            PulseChannel { length_counter: (self.length_counter - 1) as u8, ..self }
        } else {
            self
        }
    }

    /// The channel after one envelope clock.
    pub open spec fn spec_after_clock_envelope(self) -> PulseChannel {
        let stepped = if self.envelope_divider == 0 {
            PulseChannel {
                envelope_divider: self.volume,
                envelope_counter: if self.envelope_counter > 0 {
                    (self.envelope_counter - 1) as u8
                } else if self.length_counter_halt {
                    15u8
                } else {
                    self.envelope_counter
                },
                ..self
            }
        } else {
            PulseChannel { envelope_divider: (self.envelope_divider - 1) as u8, ..self }
        };
        PulseChannel {
            envelope_volume: if stepped.constant_volume {
                stepped.volume
            } else {
                stepped.envelope_counter
            },
            ..stepped
        }
    }

    /// The channel after one sweep clock.
    pub open spec fn spec_after_clock_sweep(self, is_pulse1: bool) -> PulseChannel {
        let change = self.timer >> self.sweep_shift;
        let target = if self.sweep_negate {
            if is_pulse1 {
                u16_specs::wrapping_sub(u16_specs::wrapping_sub(self.timer, change), 1)
            } else {
                u16_specs::wrapping_sub(self.timer, change)
            }
        } else {
            u16_specs::wrapping_add(self.timer, change)
        };
        let muted = self.timer < 8 || target > 0x7FF;
        let timer1 = if self.sweep_divider == 0 && self.sweep_enabled && self.sweep_shift > 0
            && !muted {
            target
        } else {
            self.timer
        };
        let divider1 = if self.sweep_divider == 0 || self.sweep_reload {
            self.sweep_period
        } else {
            (self.sweep_divider - 1) as u8
        };
        let reload1 = if self.sweep_divider == 0 || self.sweep_reload {
            false
        } else {
            self.sweep_reload
        };
        PulseChannel { timer: timer1, sweep_divider: divider1, sweep_reload: reload1, ..self }
    }

    pub fn new() -> (c: PulseChannel)
        ensures
            c.wf(),
            c == PulseChannel::spec_new(),
    {
        Self {
            enabled: false,
            duty: 0,
            length_counter_halt: false,
            constant_volume: false,
            volume: 0,
            sweep_enabled: false,
            sweep_period: 0,
            sweep_negate: false,
            sweep_shift: 0,
            timer: 0,
            timer_counter: 0,
            length_counter: 0,
            sequence_position: 0,
            envelope_counter: 0,
            envelope_divider: 0,
            envelope_volume: 0,
            sweep_divider: 0,
            sweep_reload: false,
        }
    }

    /// A write to one of the channel's four registers, selected by the two
    /// low address bits.
    pub fn write_register(&mut self, addr: u8, value: u8)
        requires
            old(self).wf(),
        ensures
            final(self).wf(),
            addr == 0 ==> *final(self) == (PulseChannel {
                duty: (value >> 6) & 0x03,
                length_counter_halt: value & 0x20 != 0,
                constant_volume: value & 0x10 != 0,
                volume: value & 0x0F,
                ..*old(self)
            }),
            addr == 1 ==> *final(self) == (PulseChannel {
                sweep_enabled: value & 0x80 != 0,
                sweep_period: (value >> 4) & 0x07,
                sweep_negate: value & 0x08 != 0,
                sweep_shift: value & 0x07,
                sweep_reload: true,
                ..*old(self)
            }),
            addr == 2 ==> *final(self) == (PulseChannel {
                timer: (old(self).timer & 0xFF00) | value as u16,
                ..*old(self)
            }),
            addr == 3 ==> *final(self) == (PulseChannel {
                timer: (old(self).timer & 0x00FF) | (((value & 0x07) as u16) << 8),
                length_counter: if old(self).enabled {
                    spec_length_table()[((value >> 3) & 0x1F) as int]
                } else {
                    old(self).length_counter
                },
                sequence_position: 0u8,
                envelope_counter: 15u8,
                ..*old(self)
            }),
            addr > 3 ==> *final(self) == *old(self),
    {
        match addr {
            0 => {
                self.duty = (value >> 6) & 0x03;
                self.length_counter_halt = (value & 0x20) != 0;
                self.constant_volume = (value & 0x10) != 0;
                self.volume = value & 0x0F;
                proof {
                    assert((value >> 6) & 0x03 < 4 && value & 0x0F < 16) by (bit_vector);
                }
            },
            1 => {
                self.sweep_enabled = (value & 0x80) != 0;
                self.sweep_period = (value >> 4) & 0x07;
                self.sweep_negate = (value & 0x08) != 0;
                self.sweep_shift = value & 0x07;
                self.sweep_reload = true;
                proof {
                    assert((value >> 4) & 0x07 < 8 && value & 0x07 < 8) by (bit_vector);
                }
            },
            2 => {
                self.timer = (self.timer & 0xFF00) | (value as u16);
                proof {
                    let t = old(self).timer;
                    assert(t < 0x800 ==> ((t & 0xFF00) | value as u16) < 0x800) by (bit_vector);
                }
            },
            3 => {
                self.timer = (self.timer & 0x00FF) | (((value & 0x07) as u16) << 8);
                if self.enabled {
                    let length_index = (value >> 3) & 0x1F;
                    proof {
                        assert((value >> 3) & 0x1F < 32) by (bit_vector);
                    }
                    self.length_counter = length_table(length_index);
                }
                self.sequence_position = 0;
                self.envelope_counter = 15;
                proof {
                    let t = old(self).timer;
                    assert(((t & 0x00FF) | (((value & 0x07) as u16) << 8)) < 0x800)
                        by (bit_vector);
                }
            },
            _ => {},
        }
    }

    /// Enabling leaves the counters alone; disabling zeroes the length
    /// counter, which silences the channel.
    pub fn set_enabled(&mut self, enabled: bool)
        ensures
            *final(self) == (PulseChannel {
                enabled,
                length_counter: if enabled {
                    old(self).length_counter
                } else {
                    0u8
                },
                ..*old(self)
            }),
    {
        self.enabled = enabled;
        if !enabled {
            self.length_counter = 0;
        }
    }

    pub fn is_active(&self) -> (r: bool)
        requires
            self.wf(),
        ensures
            r == self.spec_active(),
    {
        self.enabled && self.length_counter > 0 && self.timer >= 8 && !self.is_sweep_muted()
    }

    /// One CPU-half-rate clock of the timer: on expiry reload it and step
    /// the duty sequence.
    pub fn clock(&mut self)
        requires
            old(self).wf(),
        ensures
            final(self).wf(),
            *final(self) == old(self).spec_after_clock(),
    {
        if self.timer_counter == 0 {
            self.timer_counter = self.timer;
            self.sequence_position = (self.sequence_position + 1) % 8;
        } else {
            self.timer_counter -= 1;
        }
    }

    /// A half-frame clock of the length counter: count down unless halted.
    pub fn clock_length_counter(&mut self)
        ensures
            *final(self) == old(self).spec_after_clock_length(),
    {
        if !self.length_counter_halt && self.length_counter > 0 {
            self.length_counter -= 1;
        }
    }

    /// A quarter-frame clock of the envelope divider and decay counter; the
    /// output volume follows either the constant volume or the decay.
    pub fn clock_envelope(&mut self)
        ensures
            *final(self) == old(self).spec_after_clock_envelope(),
    {
        if self.envelope_divider == 0 {
            self.envelope_divider = self.volume;
            if self.envelope_counter > 0 {
                self.envelope_counter -= 1;
            } else if self.length_counter_halt {
                self.envelope_counter = 15;
            }
        } else {
            self.envelope_divider -= 1;
        }
        self.envelope_volume = if self.constant_volume {
            self.volume
        } else {
            self.envelope_counter
        };
    }

    /// A half-frame clock of the sweep unit. Pulse 1 negates by ones'
    /// complement, pulse 2 by two's complement; the period updates only when
    /// the divider is at zero with the sweep enabled, shifting, and unmuted.
    pub fn clock_sweep(&mut self, is_pulse1: bool)
        requires
            old(self).wf(),
        ensures
            final(self).wf(),
            *final(self) == old(self).spec_after_clock_sweep(is_pulse1),
    {
        let change_amount = self.timer >> self.sweep_shift;
        let target_period = if self.sweep_negate {
            if is_pulse1 {
                self.timer.wrapping_sub(change_amount).wrapping_sub(1)
            } else {
                self.timer.wrapping_sub(change_amount)
            }
        } else {
            self.timer.wrapping_add(change_amount)
        };
        let is_muted = self.timer < 8 || target_period > 0x7FF;
        if self.sweep_divider == 0 && self.sweep_enabled && self.sweep_shift > 0 && !is_muted {
            self.timer = target_period;
        }
        if self.sweep_divider == 0 || self.sweep_reload {
            self.sweep_divider = self.sweep_period;
            self.sweep_reload = false;
        } else {
            self.sweep_divider -= 1;
        }
    }

    pub fn is_sweep_muted(&self) -> (r: bool)
        requires
            self.wf(),
        ensures
            r == self.spec_sweep_muted(),
    {
        if self.sweep_shift == 0 {
            return false;
        }
        let change_amount = self.timer >> self.sweep_shift;
        let target_period = if self.sweep_negate {
            self.timer.wrapping_sub(change_amount)
        } else {
            self.timer.wrapping_add(change_amount)
        };
        self.timer < 8 || target_period > 0x7FF
    }

    pub fn output(&self) -> (r: u8)
        requires
            self.wf(),
        ensures
            r == self.spec_output(),
            r <= 15,
    {
        if !self.is_active() {
            return 0;
        }
        if duty_bit(self.duty, self.sequence_position) == 1 {
            self.envelope_volume
        } else {
            0
        }
    }
}


/// The audio unit: the two pulse channels and the frame counter that paces
/// their envelope, length and sweep clocks. Sample mixing and output are the
/// embedder's concern: `clock` reports the channel outputs whenever the
/// 44.1 kHz sample cadence crosses a CPU cycle.
pub struct Apu {
    pub pulse1: PulseChannel,
    pub pulse2: PulseChannel,
    pub frame_counter_mode: bool,
    pub irq_inhibit: bool,
    pub cpu_cycles: u64,
    pub sample_counter: u32,
    pub apu_cycles: u64,
    pub frame_counter_reset: bool,
}

/// The CPU clock rate in Hz, which paces sample generation.
pub const CPU_FREQUENCY: u32 = 1789773;

/// The output sample rate in Hz.
pub const SAMPLE_RATE: u32 = 44100;

impl Apu {
    pub open spec fn wf(self) -> bool {
        self.pulse1.wf() && self.pulse2.wf() && self.sample_counter < CPU_FREQUENCY
    }

    /// Both channels after a quarter-frame clock.
    pub open spec fn spec_after_quarter_frame(self) -> Apu {
        Apu {
            pulse1: self.pulse1.spec_after_clock_envelope(),
            pulse2: self.pulse2.spec_after_clock_envelope(),
            ..self
        }
    }

    /// Both channels after a half-frame clock, which includes the quarter
    /// frame.
    pub open spec fn spec_after_half_frame(self) -> Apu {
        let q = self.spec_after_quarter_frame();
        Apu {
            pulse1: q.pulse1.spec_after_clock_length().spec_after_clock_sweep(true),
            pulse2: q.pulse2.spec_after_clock_length().spec_after_clock_sweep(false),
            ..q
        }
    }

    /// The frame-counter step taken once per pair of CPU cycles: a pending
    /// reset empties the cycle count (and in 5-step mode clocks a half
    /// frame at once); otherwise the cycle count picks quarter- and
    /// half-frame clocks at the documented points.
    pub open spec fn spec_after_frame_counter(self) -> Apu {
        if self.frame_counter_reset {
            let a = Apu { apu_cycles: 0, frame_counter_reset: false, ..self };
            if self.frame_counter_mode {
                a.spec_after_half_frame()
            } else {
                a
            }
        } else if !self.frame_counter_mode {
            if self.apu_cycles == 3728 || self.apu_cycles == 11185 {
                self.spec_after_quarter_frame()
            } else if self.apu_cycles == 7456 {
                self.spec_after_half_frame()
            } else if self.apu_cycles == 14914 {
                Apu { apu_cycles: 0, ..self.spec_after_half_frame() }
            } else {
                self
            }
        } else {
            if self.apu_cycles == 3728 || self.apu_cycles == 7456 || self.apu_cycles == 11185 {
                self.spec_after_quarter_frame()
            } else if self.apu_cycles == 18640 {
                Apu { apu_cycles: 0, ..self.spec_after_half_frame() }
            } else {
                self
            }
        }
    }

    pub fn new() -> (a: Apu)
        ensures
            a.wf(),
            a.cpu_cycles == 0 && a.apu_cycles == 0 && a.sample_counter == 0,
            !a.frame_counter_mode && !a.irq_inhibit && !a.frame_counter_reset,
            a.pulse1 == PulseChannel::spec_new() && a.pulse2 == PulseChannel::spec_new(),
    {
        Self {
            pulse1: PulseChannel::new(),
            pulse2: PulseChannel::new(),
            frame_counter_mode: false,
            irq_inhibit: false,
            cpu_cycles: 0,
            sample_counter: 0,
            apu_cycles: 0,
            frame_counter_reset: false,
        }
    }

    /// A CPU write into the audio register space: channel registers at
    /// 0x4000-0x4007, the channel-enable bits at 0x4015, and the frame
    /// counter at 0x4017. Everything else is ignored.
    pub fn write_register(&mut self, addr: u16, value: u8)
        requires
            old(self).wf(),
        ensures
            final(self).wf(),
            0x4000 <= addr <= 0x4003 ==> *final(self) == (Apu {
                pulse1: spec_pulse_written(old(self).pulse1, (addr % 4) as u8, value),
                ..*old(self)
            }),
            0x4004 <= addr <= 0x4007 ==> *final(self) == (Apu {
                pulse2: spec_pulse_written(old(self).pulse2, (addr % 4) as u8, value),
                ..*old(self)
            }),
            addr == 0x4015 ==> *final(self) == (Apu {
                pulse1: PulseChannel {
                    enabled: value & 0x01 != 0,
                    length_counter: if value & 0x01 != 0 {
                        old(self).pulse1.length_counter
                    } else {
                        0u8
                    },
                    ..old(self).pulse1
                },
                pulse2: PulseChannel {
                    enabled: value & 0x02 != 0,
                    length_counter: if value & 0x02 != 0 {
                        old(self).pulse2.length_counter
                    } else {
                        0u8
                    },
                    ..old(self).pulse2
                },
                ..*old(self)
            }),
            addr == 0x4017 ==> *final(self) == (Apu {
                frame_counter_mode: value & 0x80 != 0,
                irq_inhibit: value & 0x40 != 0,
                frame_counter_reset: true,
                ..*old(self)
            }),
            !(0x4000 <= addr <= 0x4007) && addr != 0x4015 && addr != 0x4017 ==> *final(self)
                == *old(self),
    {
        if 0x4000 <= addr && addr <= 0x4003 {
            self.pulse1.write_register((addr % 4) as u8, value);
        } else if 0x4004 <= addr && addr <= 0x4007 {
            self.pulse2.write_register((addr % 4) as u8, value);
        } else if addr == 0x4015 {
            self.pulse1.set_enabled((value & 0x01) != 0);
            self.pulse2.set_enabled((value & 0x02) != 0);
        } else if addr == 0x4017 {
            self.frame_counter_mode = (value & 0x80) != 0;
            self.irq_inhibit = (value & 0x40) != 0;
            self.frame_counter_reset = true;
        }
    }

    /// A CPU read of the audio register space: only 0x4015 reads back, with
    /// one bit per channel whose length counter is running.
    pub fn read_register(&self, addr: u16) -> (r: u8)
        ensures
            addr == 0x4015 ==> r == (if self.pulse1.length_counter > 0 {
                1u8
            } else {
                0u8
            }) + (if self.pulse2.length_counter > 0 {
                2u8
            } else {
                0u8
            }),
            addr != 0x4015 ==> r == 0,
    {
        if addr == 0x4015 {
            let mut status: u8 = 0;
            if self.pulse1.length_counter > 0 {
                status |= 0x01;
            }
            if self.pulse2.length_counter > 0 {
                status |= 0x02;
            }
            proof {
                let a: u8 = if self.pulse1.length_counter > 0 { 1 } else { 0 };
                assert(a <= 1 ==> (a | 0x02 == a + 2 && 0u8 | 0x01 == 1)) by (bit_vector);
            }
            return status;
        }
        return 0;
    }

    /// One CPU cycle: every second cycle clocks the channel timers and the
    /// frame counter; the 44.1 kHz accumulator says whether this cycle
    /// produced a sample, and if so the two channel outputs are returned
    /// for the embedder to mix.
    pub fn clock(&mut self) -> (sample: Option<(u8, u8)>)
        requires
            old(self).wf(),
            old(self).cpu_cycles < u64::MAX,
            old(self).apu_cycles < u64::MAX,
        ensures
            final(self).wf(),
            ({
                let ticked = if (old(self).cpu_cycles + 1) % 2 == 0 {
                    Apu {
                        pulse1: old(self).pulse1.spec_after_clock(),
                        pulse2: old(self).pulse2.spec_after_clock(),
                        apu_cycles: (old(self).apu_cycles + 1) as u64,
                        cpu_cycles: (old(self).cpu_cycles + 1) as u64,
                        ..*old(self)
                    }.spec_after_frame_counter()
                } else {
                    Apu { cpu_cycles: (old(self).cpu_cycles + 1) as u64, ..*old(self) }
                };
                let acc = old(self).sample_counter + SAMPLE_RATE;
                if acc >= CPU_FREQUENCY {
                    &&& *final(self) == (Apu {
                        sample_counter: (acc - CPU_FREQUENCY) as u32,
                        ..ticked
                    })
                    &&& sample == Some((ticked.pulse1.spec_output(), ticked.pulse2.spec_output()))
                } else {
                    &&& *final(self) == (Apu { sample_counter: acc as u32, ..ticked })
                    &&& sample is None
                }
            }),
    {
        self.cpu_cycles = self.cpu_cycles + 1;
        if self.cpu_cycles % 2 == 0 {
            self.apu_cycles = self.apu_cycles + 1;
            self.pulse1.clock();
            self.pulse2.clock();
            self.clock_frame_counter();
        }
        self.sample_counter = self.sample_counter + SAMPLE_RATE;
        if self.sample_counter >= CPU_FREQUENCY {
            self.sample_counter = self.sample_counter - CPU_FREQUENCY;
            let p1 = self.pulse1.output();
            let p2 = self.pulse2.output();
            return Some((p1, p2));
        }
        return None;
    }

    /// A quarter-frame clock: envelopes only.
    pub fn clock_quarter_frame(&mut self)
        requires
            old(self).wf(),
        ensures
            final(self).wf(),
            *final(self) == old(self).spec_after_quarter_frame(),
    {
        self.pulse1.clock_envelope();
        self.pulse2.clock_envelope();
    }

    /// A half-frame clock: envelopes, length counters and sweeps.
    pub fn clock_half_frame(&mut self)
        requires
            old(self).wf(),
        ensures
            final(self).wf(),
            *final(self) == old(self).spec_after_half_frame(),
    {
        self.clock_quarter_frame();
        self.pulse1.clock_length_counter();
        self.pulse2.clock_length_counter();
        self.pulse1.clock_sweep(true);
        self.pulse2.clock_sweep(false);
    }

    fn clock_frame_counter(&mut self)
        requires
            old(self).wf(),
        ensures
            final(self).wf(),
            *final(self) == old(self).spec_after_frame_counter(),
    {
        if self.frame_counter_reset {
            self.apu_cycles = 0;
            self.frame_counter_reset = false;
            if self.frame_counter_mode {
                self.clock_half_frame();
            }
            return;
        }
        if !self.frame_counter_mode {
            if self.apu_cycles == 3728 {
                self.clock_quarter_frame();
            } else if self.apu_cycles == 7456 {
                self.clock_half_frame();
            } else if self.apu_cycles == 11185 {
                self.clock_quarter_frame();
            } else if self.apu_cycles == 14914 {
                self.clock_half_frame();
                self.apu_cycles = 0;
            }
        } else {
            if self.apu_cycles == 3728 || self.apu_cycles == 7456 || self.apu_cycles == 11185 {
                self.clock_quarter_frame();
            } else if self.apu_cycles == 18640 {
                self.clock_half_frame();
                self.apu_cycles = 0;
            }
        }
    }
}

/// The pulse-channel state that a register write produces; mirrors
/// `PulseChannel::write_register`.
pub open spec fn spec_pulse_written(c: PulseChannel, addr: u8, value: u8) -> PulseChannel {
    if addr == 0 {
        PulseChannel {
            duty: (value >> 6) & 0x03,
            length_counter_halt: value & 0x20 != 0,
            constant_volume: value & 0x10 != 0,
            volume: value & 0x0F,
            ..c
        }
    } else if addr == 1 {
        PulseChannel {
            sweep_enabled: value & 0x80 != 0,
            sweep_period: (value >> 4) & 0x07,
            sweep_negate: value & 0x08 != 0,
            sweep_shift: value & 0x07,
            sweep_reload: true,
            ..c
        }
    } else if addr == 2 {
        PulseChannel { timer: (c.timer & 0xFF00) | value as u16, ..c }
    } else if addr == 3 {
        PulseChannel {
            timer: (c.timer & 0x00FF) | (((value & 0x07) as u16) << 8),
            length_counter: if c.enabled {
                spec_length_table()[((value >> 3) & 0x1F) as int]
            } else {
                c.length_counter
            },
            sequence_position: 0u8,
            envelope_counter: 15u8,
            ..c
        }
    } else {
        c
    }
}

} // verus!
