//! Audio unit: two pulse channels, a triangle, a noise channel, a
//! direct-level delta-modulation output, and the frame sequencer that paces
//! envelope and length-counter updates. Samples are mixed by a linear
//! approximation into unsigned 16-bit amplitudes and decimated from the
//! machine clock to the fixed output rate.

use vstd::prelude::*;

verus! {

/// Output sample rate, in samples per second.
pub const SAMPLE_RATE: u32 = 44100;

/// Dots per second when frames pace at exactly sixty per second
/// (341 * 262 dots per frame).
pub const DOT_RATE: u32 = 89342 * 60;

/// Dot-rate ticks contributed by one CPU cycle (the CPU:PPU ratio is 1:3).
pub const SAMPLE_STEP: u32 = 3 * SAMPLE_RATE;

/// One pulse channel: duty oscillator, envelope, length counter.
#[derive(Clone, PartialEq, Eq, Structural, Debug)]
pub struct PulseChannel {
    pub enabled: bool,
    pub duty: u8,
    pub halt: bool,
    pub constant_volume: bool,
    pub volume: u8,
    pub env_level: u8,
    pub env_divider: u8,
    pub env_start: bool,
    pub timer_period: u16,
    pub timer: u16,
    pub phase: u8,
    pub length: u8,
}

/// The triangle channel: 32-step waveform, linear counter, length counter.
#[derive(Clone, PartialEq, Eq, Structural, Debug)]
pub struct TriangleChannel {
    pub enabled: bool,
    pub control: bool,
    pub linear_reload_value: u8,
    pub linear_reload_flag: bool,
    pub linear: u8,
    pub timer_period: u16,
    pub timer: u16,
    pub phase: u8,
    pub length: u8,
}

/// The noise channel: 15-bit feedback shift register, envelope, length.
#[derive(Clone, PartialEq, Eq, Structural, Debug)]
pub struct NoiseChannel {
    pub enabled: bool,
    pub mode: bool,
    pub halt: bool,
    pub constant_volume: bool,
    pub volume: u8,
    pub env_level: u8,
    pub env_divider: u8,
    pub env_start: bool,
    pub timer_period: u16,
    pub timer: u16,
    pub shift: u16,
    pub length: u8,
}

impl PulseChannel {
    pub open spec fn wf(self) -> bool {
        &&& self.duty < 4
        &&& self.volume < 16
        &&& self.env_level < 16
        &&& self.timer_period < 0x800
        &&& self.phase < 8
    }

    pub fn power_on() -> (r: PulseChannel)
        ensures
            r.wf(),
            !r.enabled && r.length == 0 && r.timer_period == 0 && r.phase == 0,
    {
        PulseChannel {
            enabled: false,
            duty: 0,
            halt: false,
            constant_volume: true,
            volume: 0,
            env_level: 0,
            env_divider: 0,
            env_start: false,
            timer_period: 0,
            timer: 0,
            phase: 0,
            length: 0,
        }
    }

    /// Current amplitude, 0..=15.
    pub fn output(&self) -> (r: u8)
        requires
            self.wf(),
        ensures
            r < 16,
            r == spec_pulse_output(*self),
    {
        if self.enabled && self.length > 0 && self.timer_period >= 8 && duty_high(
            self.duty,
            self.phase,
        ) {
            if self.constant_volume {
                self.volume
            } else {
                self.env_level
            }
        } else {
            0
        }
    }

    /// One tick of the channel timer (clocked every second CPU cycle).
    pub fn tick_timer(&mut self)
        requires
            old(self).wf(),
        ensures
            final(self).wf(),
            old(self).timer == 0 ==> (*final(self) == PulseChannel {
                timer: old(self).timer_period,
                phase: ((old(self).phase + 1) % 8) as u8,
                ..*old(self)
            }),
            old(self).timer > 0 ==> (*final(self) == PulseChannel {
                timer: (old(self).timer - 1) as u16,
                ..*old(self)
            }),
    {
        if self.timer == 0 {
            self.timer = self.timer_period;
            self.phase = (self.phase + 1) % 8;
        } else {
            self.timer = self.timer - 1;
        }
    }

    /// Quarter-frame envelope clock: the start flag reloads the decay level
    /// and divider; otherwise the divider counts down and, on expiry, the
    /// level decays (looping when the halt/loop flag is set).
    pub fn tick_envelope(&mut self)
        requires
            old(self).wf(),
        ensures
            final(self).wf(),
            old(self).env_start ==> (*final(self) == PulseChannel {
                env_start: false,
                env_level: 15u8,
                env_divider: old(self).volume,
                ..*old(self)
            }),
            !old(self).env_start && old(self).env_divider == 0 ==> (*final(self) == PulseChannel {
                env_divider: old(self).volume,
                env_level: if old(self).env_level > 0 {
                    (old(self).env_level - 1) as u8
                } else if old(self).halt {
                    15u8
                } else {
                    0u8
                },
                ..*old(self)
            }),
            !old(self).env_start && old(self).env_divider > 0 ==> (*final(self) == PulseChannel {
                env_divider: (old(self).env_divider - 1) as u8,
                ..*old(self)
            }),
    {
        if self.env_start {
            self.env_start = false;
            self.env_level = 15;
            self.env_divider = self.volume;
        } else if self.env_divider == 0 {
            self.env_divider = self.volume;
            if self.env_level > 0 {
                self.env_level = self.env_level - 1;
            } else if self.halt {
                self.env_level = 15;
            }
        } else {
            self.env_divider = self.env_divider - 1;
        }
    }

    /// Half-frame length-counter clock.
    pub fn tick_length(&mut self)
        requires
            old(self).wf(),
        ensures
            final(self).wf(),
            !old(self).halt && old(self).length > 0 ==> (*final(self) == PulseChannel {
                length: (old(self).length - 1) as u8,
                ..*old(self)
            }),
            old(self).halt || old(self).length == 0 ==> *final(self) == *old(self),
    {
        if !self.halt && self.length > 0 {
            self.length = self.length - 1;
        }
    }
}

impl TriangleChannel {
    pub open spec fn wf(self) -> bool {
        &&& self.linear_reload_value < 128
        &&& self.linear < 128
        &&& self.timer_period < 0x800
        &&& self.phase < 32
    }

    pub fn power_on() -> (r: TriangleChannel)
        ensures
            r.wf(),
            !r.enabled && r.length == 0 && r.timer_period == 0 && r.phase == 0,
    {
        TriangleChannel {
            enabled: false,
            control: false,
            linear_reload_value: 0,
            linear_reload_flag: false,
            linear: 0,
            timer_period: 0,
            timer: 0,
            phase: 0,
            length: 0,
        }
    }

    /// Current amplitude, 0..=15.
    pub fn output(&self) -> (r: u8)
        requires
            self.wf(),
        ensures
            r < 16,
            r == spec_triangle_output(*self),
    {
        if self.enabled && self.length > 0 && self.linear > 0 {
            if self.phase < 16 {
                15 - self.phase
            } else {
                self.phase - 16
            }
        } else {
            0
        }
    }

    /// One tick of the channel timer (clocked every CPU cycle).
    pub fn tick_timer(&mut self)
        requires
            old(self).wf(),
        ensures
            final(self).wf(),
            old(self).timer == 0 ==> (*final(self) == TriangleChannel {
                timer: old(self).timer_period,
                phase: if old(self).length > 0 && old(self).linear > 0 {
                    ((old(self).phase + 1) % 32) as u8
                } else {
                    old(self).phase
                },
                ..*old(self)
            }),
            old(self).timer > 0 ==> (*final(self) == TriangleChannel {
                timer: (old(self).timer - 1) as u16,
                ..*old(self)
            }),
    {
        if self.timer == 0 {
            self.timer = self.timer_period;
            if self.length > 0 && self.linear > 0 {
                self.phase = (self.phase + 1) % 32;
            }
        } else {
            self.timer = self.timer - 1;
        }
    }

    /// Quarter-frame linear-counter clock.
    pub fn tick_linear(&mut self)
        requires
            old(self).wf(),
        ensures
            final(self).wf(),
            final(self).linear == if old(self).linear_reload_flag {
                old(self).linear_reload_value
            } else if old(self).linear > 0 {
                (old(self).linear - 1) as u8
            } else {
                0u8
            },
            final(self).linear_reload_flag == (old(self).linear_reload_flag && old(self).control),
            (*final(self) == TriangleChannel {
                linear: final(self).linear,
                linear_reload_flag: final(self).linear_reload_flag,
                ..*old(self)
            }),
    {
        if self.linear_reload_flag {
            self.linear = self.linear_reload_value;
        } else if self.linear > 0 {
            self.linear = self.linear - 1;
        }
        if !self.control {
            self.linear_reload_flag = false;
        }
    }

    /// Half-frame length-counter clock.
    pub fn tick_length(&mut self)
        requires
            old(self).wf(),
        ensures
            final(self).wf(),
            !old(self).control && old(self).length > 0 ==> (*final(self) == TriangleChannel {
                length: (old(self).length - 1) as u8,
                ..*old(self)
            }),
            old(self).control || old(self).length == 0 ==> *final(self) == *old(self),
    {
        if !self.control && self.length > 0 {
            self.length = self.length - 1;
        }
    }
}

impl NoiseChannel {
    pub open spec fn wf(self) -> bool {
        &&& self.volume < 16
        &&& self.env_level < 16
        &&& self.timer_period <= 4068
        &&& self.shift < 0x8000
    }

    pub fn power_on() -> (r: NoiseChannel)
        ensures
            r.wf(),
            !r.enabled && r.length == 0 && r.shift == 1,
    {
        NoiseChannel {
            enabled: false,
            mode: false,
            halt: false,
            constant_volume: true,
            volume: 0,
            env_level: 0,
            env_divider: 0,
            env_start: false,
            timer_period: 4,
            timer: 0,
            shift: 1,
            length: 0,
        }
    }

    /// Current amplitude, 0..=15.
    pub fn output(&self) -> (r: u8)
        requires
            self.wf(),
        ensures
            r < 16,
            r == spec_noise_output(*self),
    {
        if self.enabled && self.length > 0 && self.shift % 2 == 0 {
            if self.constant_volume {
                self.volume
            } else {
                self.env_level
            }
        } else {
            0
        }
    }

    /// One tick of the channel timer (clocked every second CPU cycle):
    /// reloads the timer and advances the 15-bit feedback shift register, or
    /// counts the timer down.
    pub fn tick_timer(&mut self)
        requires
            old(self).wf(),
        ensures
            final(self).wf(),
            old(self).timer == 0 ==> final(self).timer == old(self).timer_period && final(self).shift == old(self).shift / 2 + ((old(self).shift % 2 + (if old(self).mode {
                (old(self).shift / 64) % 2
            } else {
                (old(self).shift / 2) % 2
            })) % 2) * 0x4000 && (*final(self) == NoiseChannel {
                timer: final(self).timer,
                shift: final(self).shift,
                ..*old(self)
            }),
            old(self).timer > 0 ==> (*final(self) == NoiseChannel {
                timer: (old(self).timer - 1) as u16,
                ..*old(self)
            }),
    {
        if self.timer == 0 {
            self.timer = self.timer_period;
            let tap: u16 = if self.mode {
                (self.shift / 64) % 2
            } else {
                (self.shift / 2) % 2
            };
            let feedback: u16 = (self.shift % 2 + tap) % 2;
            self.shift = self.shift / 2 + feedback * 0x4000;
        } else {
            self.timer = self.timer - 1;
        }
    }

    /// Quarter-frame envelope clock: the start flag reloads the decay level
    /// and divider; otherwise the divider counts down and, on expiry, the
    /// level decays (looping when the halt/loop flag is set).
    pub fn tick_envelope(&mut self)
        requires
            old(self).wf(),
        ensures
            final(self).wf(),
            old(self).env_start ==> (*final(self) == NoiseChannel {
                env_start: false,
                env_level: 15u8,
                env_divider: old(self).volume,
                ..*old(self)
            }),
            !old(self).env_start && old(self).env_divider == 0 ==> (*final(self) == NoiseChannel {
                env_divider: old(self).volume,
                env_level: if old(self).env_level > 0 {
                    (old(self).env_level - 1) as u8
                } else if old(self).halt {
                    15u8
                } else {
                    0u8
                },
                ..*old(self)
            }),
            !old(self).env_start && old(self).env_divider > 0 ==> (*final(self) == NoiseChannel {
                env_divider: (old(self).env_divider - 1) as u8,
                ..*old(self)
            }),
    {
        if self.env_start {
            self.env_start = false;
            self.env_level = 15;
            self.env_divider = self.volume;
        } else if self.env_divider == 0 {
            self.env_divider = self.volume;
            if self.env_level > 0 {
                self.env_level = self.env_level - 1;
            } else if self.halt {
                self.env_level = 15;
            }
        } else {
            self.env_divider = self.env_divider - 1;
        }
    }

    /// Half-frame length-counter clock.
    pub fn tick_length(&mut self)
        requires
            old(self).wf(),
        ensures
            final(self).wf(),
            !old(self).halt && old(self).length > 0 ==> (*final(self) == NoiseChannel {
                length: (old(self).length - 1) as u8,
                ..*old(self)
            }),
            old(self).halt || old(self).length == 0 ==> *final(self) == *old(self),
    {
        if !self.halt && self.length > 0 {
            self.length = self.length - 1;
        }
    }
}

/// The whole audio unit.
#[derive(Clone, Debug)]
pub struct Apu {
    pub pulse1: PulseChannel,
    pub pulse2: PulseChannel,
    pub triangle: TriangleChannel,
    pub noise: NoiseChannel,
    /// Direct-load output level of the delta-modulation channel (0..=127).
    pub dmc_level: u8,
    /// Five-step frame-sequencer mode when true.
    pub five_step: bool,
    pub irq_inhibit: bool,
    pub frame_irq: bool,
    /// CPU cycles into the current frame-sequencer period.
    pub frame_cycle: u16,
    /// Every second CPU cycle clocks the pulse and noise timers.
    pub odd_cycle: bool,
    /// Decimation accumulator, always below `DOT_RATE`.
    pub sample_acc: u32,
    /// Mixed samples accumulated since the last drain.
    pub samples: Vec<u16>,
}

impl Apu {
    pub open spec fn wf(self) -> bool {
        &&& self.pulse1.wf()
        &&& self.pulse2.wf()
        &&& self.triangle.wf()
        &&& self.noise.wf()
        &&& self.dmc_level < 128
        &&& self.frame_cycle < 37282
        &&& self.sample_acc < DOT_RATE
    }

    pub fn power_on() -> (r: Apu)
        ensures
            r.wf(),
            r.samples@.len() == 0,
            r.sample_acc == 0,
            !r.pulse1.enabled && r.pulse1.length == 0,
            !r.pulse2.enabled && r.pulse2.length == 0,
            !r.triangle.enabled && r.triangle.length == 0,
            !r.noise.enabled && r.noise.length == 0,
            r.dmc_level == 0 && r.frame_cycle == 0 && !r.five_step,
            !r.frame_irq && !r.irq_inhibit,
    {
        Apu {
            pulse1: PulseChannel::power_on(),
            pulse2: PulseChannel::power_on(),
            triangle: TriangleChannel::power_on(),
            noise: NoiseChannel::power_on(),
            dmc_level: 0,
            five_step: false,
            irq_inhibit: false,
            frame_irq: false,
            frame_cycle: 0,
            odd_cycle: false,
            sample_acc: 0,
            samples: Vec::new(),
        }
    }

    /// The linear-approximation mix of the five channel levels.
    pub fn mix(&self) -> (r: u16)
        requires
            self.wf(),
        ensures
            r == (spec_pulse_output(self.pulse1) + spec_pulse_output(self.pulse2)) * 400
                + spec_triangle_output(self.triangle) * 450 + spec_noise_output(self.noise) * 270
                + self.dmc_level * 120,
    {
        let p1 = self.pulse1.output() as u16;
        let p2 = self.pulse2.output() as u16;
        let t = self.triangle.output() as u16;
        let n = self.noise.output() as u16;
        let d = self.dmc_level as u16;
        (p1 + p2) * 400 + t * 450 + n * 270 + d * 120
    }

    /// Advances the unit by one CPU cycle: channel timers, the frame
    /// sequencer, and the output decimator, which appends exactly one sample
    /// whenever the accumulator crosses the dot rate.
    pub fn tick(&mut self)
        requires
            old(self).wf(),
        ensures
            final(self).wf(),
            old(self).sample_acc + SAMPLE_STEP >= DOT_RATE ==> final(self).samples@.len() == old(self).samples@.len() + 1 && final(self).sample_acc == old(self).sample_acc + SAMPLE_STEP
                - DOT_RATE,
            old(self).sample_acc + SAMPLE_STEP < DOT_RATE ==> final(self).samples@ == old(self).samples@ && final(self).sample_acc == old(self).sample_acc + SAMPLE_STEP,
            final(self).samples@.len() >= old(self).samples@.len(),
    {
        self.triangle.tick_timer();
        if self.odd_cycle {
            self.pulse1.tick_timer();
            self.pulse2.tick_timer();
            self.noise.tick_timer();
        }
        self.odd_cycle = !self.odd_cycle;
        self.tick_frame_sequencer();
        let acc = self.sample_acc + SAMPLE_STEP;
        if acc >= DOT_RATE {
            self.sample_acc = acc - DOT_RATE;
            let s = self.mix();
            self.samples.push(s);
        } else {
            self.sample_acc = acc;
        }
    }

    /// Quarter- and half-frame events of the sequencer, on the documented
    /// cycle schedule of the four- and five-step modes; the last step of the
    /// four-step mode raises the frame interrupt unless inhibited.
    fn tick_frame_sequencer(&mut self)
        requires
            old(self).wf(),
        ensures
            final(self).wf(),
            final(self).samples == old(self).samples,
            final(self).sample_acc == old(self).sample_acc,
    {
        let c = self.frame_cycle;
        if c == 7457 || c == 14913 || c == 22371 {
            self.clock_quarter();
            if c == 14913 {
                self.clock_half();
            }
        }
        if !self.five_step && c == 29829 {
            self.clock_quarter();
            self.clock_half();
            if !self.irq_inhibit {
                self.frame_irq = true;
            }
        }
        if self.five_step && c == 37281 {
            self.clock_quarter();
            self.clock_half();
        }
        let wrap: u16 = if self.five_step {
            37282
        } else {
            29830
        };
        self.frame_cycle = (self.frame_cycle + 1) % wrap;
    }

    fn clock_quarter(&mut self)
        requires
            old(self).wf(),
        ensures
            final(self).wf(),
            final(self).samples == old(self).samples,
            final(self).sample_acc == old(self).sample_acc,
            final(self).frame_cycle == old(self).frame_cycle,
            final(self).five_step == old(self).five_step,
            final(self).irq_inhibit == old(self).irq_inhibit,
            final(self).frame_irq == old(self).frame_irq,
    {
        self.pulse1.tick_envelope();
        self.pulse2.tick_envelope();
        self.triangle.tick_linear();
        self.noise.tick_envelope();
    }

    fn clock_half(&mut self)
        requires
            old(self).wf(),
        ensures
            final(self).wf(),
            final(self).samples == old(self).samples,
            final(self).sample_acc == old(self).sample_acc,
            final(self).frame_cycle == old(self).frame_cycle,
            final(self).five_step == old(self).five_step,
            final(self).irq_inhibit == old(self).irq_inhibit,
            final(self).frame_irq == old(self).frame_irq,
    {
        self.pulse1.tick_length();
        self.pulse2.tick_length();
        self.triangle.tick_length();
        self.noise.tick_length();
    }

    /// A CPU write to one of the audio registers 0x4000..=0x4017, with the
    /// documented per-register effect: duty/volume setup, timer-period bytes,
    /// length loads gated on the channel enable, the channel-enable mask that
    /// silences a disabled channel, the direct delta-modulation level, and
    /// the frame-sequencer mode write.
    pub fn write_reg(&mut self, address: u16, data: u8)
        requires
            old(self).wf(),
            0x4000 <= address <= 0x4017,
        ensures
            final(self).wf(),
            final(self).samples == old(self).samples,
            final(self).sample_acc == old(self).sample_acc,
            address == 0x4000 ==> (*final(self) == Apu {
                pulse1: PulseChannel {
                    duty: (data / 64) as u8,
                    halt: (data / 32) % 2 == 1,
                    constant_volume: (data / 16) % 2 == 1,
                    volume: (data % 16) as u8,
                    ..old(self).pulse1
                },
                ..*old(self)
            }),
            address == 0x4002 ==> (*final(self) == Apu {
                pulse1: PulseChannel {
                    timer_period: (old(self).pulse1.timer_period / 0x100 * 0x100
                        + data as u16) as u16,
                    ..old(self).pulse1
                },
                ..*old(self)
            }),
            address == 0x4003 ==> final(self).pulse1.timer_period == (data as int % 8) * 0x100
                + old(self).pulse1.timer_period % 0x100 && final(self).pulse1.env_start && final(self).pulse1.phase == 0 && (old(self).pulse1.enabled ==> final(self).pulse1.length >= 2) && (
            !old(self).pulse1.enabled ==> final(self).pulse1.length == old(self).pulse1.length)
                && final(self).pulse2 == old(self).pulse2 && final(self).triangle == old(self).triangle && final(self).noise == old(self).noise,
            address == 0x4004 ==> (*final(self) == Apu {
                pulse2: PulseChannel {
                    duty: (data / 64) as u8,
                    halt: (data / 32) % 2 == 1,
                    constant_volume: (data / 16) % 2 == 1,
                    volume: (data % 16) as u8,
                    ..old(self).pulse2
                },
                ..*old(self)
            }),
            address == 0x4006 ==> (*final(self) == Apu {
                pulse2: PulseChannel {
                    timer_period: (old(self).pulse2.timer_period / 0x100 * 0x100
                        + data as u16) as u16,
                    ..old(self).pulse2
                },
                ..*old(self)
            }),
            address == 0x4007 ==> final(self).pulse2.timer_period == (data as int % 8) * 0x100
                + old(self).pulse2.timer_period % 0x100 && final(self).pulse2.env_start && final(self).pulse2.phase == 0 && (old(self).pulse2.enabled ==> final(self).pulse2.length >= 2)
                && final(self).pulse1 == old(self).pulse1 && final(self).triangle == old(self).triangle && final(self).noise == old(self).noise,
            address == 0x4008 ==> (*final(self) == Apu {
                triangle: TriangleChannel {
                    control: data / 128 == 1,
                    linear_reload_value: (data % 128) as u8,
                    ..old(self).triangle
                },
                ..*old(self)
            }),
            address == 0x400a ==> (*final(self) == Apu {
                triangle: TriangleChannel {
                    timer_period: (old(self).triangle.timer_period / 0x100 * 0x100
                        + data as u16) as u16,
                    ..old(self).triangle
                },
                ..*old(self)
            }),
            address == 0x400b ==> final(self).triangle.timer_period == (data as int % 8) * 0x100
                + old(self).triangle.timer_period % 0x100 && final(self).triangle.linear_reload_flag
                && (old(self).triangle.enabled ==> final(self).triangle.length >= 2) && final(self).pulse1 == old(self).pulse1 && final(self).pulse2 == old(self).pulse2 && final(self).noise == old(self).noise,
            address == 0x400c ==> (*final(self) == Apu {
                noise: NoiseChannel {
                    halt: (data / 32) % 2 == 1,
                    constant_volume: (data / 16) % 2 == 1,
                    volume: (data % 16) as u8,
                    ..old(self).noise
                },
                ..*old(self)
            }),
            address == 0x400e ==> final(self).noise.mode == (data / 128 == 1) && final(self).noise.timer_period <= 4068 && final(self).pulse1 == old(self).pulse1 && final(self).pulse2 == old(self).pulse2 && final(self).triangle == old(self).triangle,
            address == 0x400f ==> final(self).noise.env_start && (old(self).noise.enabled ==> final(self).noise.length >= 2) && final(self).pulse1 == old(self).pulse1 && final(self).pulse2
                == old(self).pulse2 && final(self).triangle == old(self).triangle,
            address == 0x4011 ==> (*final(self) == Apu { dmc_level: (data % 128) as u8, ..*old(self) }),
            address == 0x4015 ==> final(self).pulse1.enabled == (data % 2 == 1) && final(self).pulse2.enabled == ((data / 2) % 2 == 1) && final(self).triangle.enabled == ((data / 4)
                % 2 == 1) && final(self).noise.enabled == ((data / 8) % 2 == 1) && (data % 2 == 0
                ==> final(self).pulse1.length == 0) && ((data / 2) % 2 == 0 ==> final(self).pulse2.length == 0) && ((data / 4) % 2 == 0 ==> final(self).triangle.length == 0) && ((
            data / 8) % 2 == 0 ==> final(self).noise.length == 0),
            address == 0x4017 ==> final(self).five_step == (data / 128 == 1) && final(self).irq_inhibit == ((data / 64) % 2 == 1) && final(self).frame_cycle == 0 && (final(self).irq_inhibit ==> !final(self).frame_irq),
            address == 0x4001 || address == 0x4005 || address == 0x4009 || address == 0x400d
                || address == 0x4010 || address == 0x4012 || address == 0x4013 || address == 0x4014
                || address == 0x4016 ==> *final(self) == *old(self),
    {
        if address == 0x4000 {
            self.pulse1.duty = data / 64;
            self.pulse1.halt = (data / 32) % 2 == 1;
            self.pulse1.constant_volume = (data / 16) % 2 == 1;
            self.pulse1.volume = data % 16;
        } else if address == 0x4002 {
            self.pulse1.timer_period = self.pulse1.timer_period / 0x100 * 0x100 + data as u16;
        } else if address == 0x4003 {
            self.pulse1.timer_period = (data as u16 % 8) * 0x100 + self.pulse1.timer_period % 0x100;
            if self.pulse1.enabled {
                self.pulse1.length = length_value(data / 8);
            }
            self.pulse1.env_start = true;
            self.pulse1.phase = 0;
        } else if address == 0x4004 {
            self.pulse2.duty = data / 64;
            self.pulse2.halt = (data / 32) % 2 == 1;
            self.pulse2.constant_volume = (data / 16) % 2 == 1;
            self.pulse2.volume = data % 16;
        } else if address == 0x4006 {
            self.pulse2.timer_period = self.pulse2.timer_period / 0x100 * 0x100 + data as u16;
        } else if address == 0x4007 {
            self.pulse2.timer_period = (data as u16 % 8) * 0x100 + self.pulse2.timer_period % 0x100;
            if self.pulse2.enabled {
                self.pulse2.length = length_value(data / 8);
            }
            self.pulse2.env_start = true;
            self.pulse2.phase = 0;
        } else if address == 0x4008 {
            self.triangle.control = data / 128 == 1;
            self.triangle.linear_reload_value = data % 128;
        } else if address == 0x400a {
            self.triangle.timer_period = self.triangle.timer_period / 0x100 * 0x100 + data as u16;
        } else if address == 0x400b {
            self.triangle.timer_period = (data as u16 % 8) * 0x100 + self.triangle.timer_period
                % 0x100;
            if self.triangle.enabled {
                self.triangle.length = length_value(data / 8);
            }
            self.triangle.linear_reload_flag = true;
        } else if address == 0x400c {
            self.noise.halt = (data / 32) % 2 == 1;
            self.noise.constant_volume = (data / 16) % 2 == 1;
            self.noise.volume = data % 16;
        } else if address == 0x400e {
            self.noise.mode = data / 128 == 1;
            self.noise.timer_period = noise_period(data % 16);
        } else if address == 0x400f {
            if self.noise.enabled {
                self.noise.length = length_value(data / 8);
            }
            self.noise.env_start = true;
        } else if address == 0x4011 {
            self.dmc_level = data % 128;
        } else if address == 0x4015 {
            self.pulse1.enabled = data % 2 == 1;
            self.pulse2.enabled = (data / 2) % 2 == 1;
            self.triangle.enabled = (data / 4) % 2 == 1;
            self.noise.enabled = (data / 8) % 2 == 1;
            if !self.pulse1.enabled {
                self.pulse1.length = 0;
            }
            if !self.pulse2.enabled {
                self.pulse2.length = 0;
            }
            if !self.triangle.enabled {
                self.triangle.length = 0;
            }
            if !self.noise.enabled {
                self.noise.length = 0;
            }
        } else if address == 0x4017 {
            self.five_step = data / 128 == 1;
            self.irq_inhibit = (data / 64) % 2 == 1;
            if self.irq_inhibit {
                self.frame_irq = false;
            }
            self.frame_cycle = 0;
            if self.five_step {
                self.clock_quarter();
                self.clock_half();
            }
        }
    }

    /// A CPU read of the status register 0x4015: one bit per live length
    /// counter, plus the frame-interrupt flag, which the read clears.
    pub fn read_status(&mut self) -> (r: u8)
        requires
            old(self).wf(),
        ensures
            (*final(self) == Apu { frame_irq: false, ..*old(self) }),
            final(self).wf(),
            r == (if old(self).pulse1.length > 0 {
                1int
            } else {
                0int
            }) + (if old(self).pulse2.length > 0 {
                2int
            } else {
                0int
            }) + (if old(self).triangle.length > 0 {
                4int
            } else {
                0int
            }) + (if old(self).noise.length > 0 {
                8int
            } else {
                0int
            }) + (if old(self).frame_irq {
                64int
            } else {
                0int
            }),
    {
        let mut r: u8 = 0;
        if self.pulse1.length > 0 {
            r = r + 1;
        }
        if self.pulse2.length > 0 {
            r = r + 2;
        }
        if self.triangle.length > 0 {
            r = r + 4;
        }
        if self.noise.length > 0 {
            r = r + 8;
        }
        if self.frame_irq {
            r = r + 64;
        }
        self.frame_irq = false;
        r
    }

    /// Hands out and clears the samples accumulated since the last drain.
    pub fn drain_samples(&mut self) -> (r: Vec<u16>)
        requires
            old(self).wf(),
        ensures
            final(self).wf(),
            r == old(self).samples,
            final(self).samples@.len() == 0,
            final(self).sample_acc == old(self).sample_acc,
            final(self).pulse1 == old(self).pulse1,
            final(self).pulse2 == old(self).pulse2,
            final(self).triangle == old(self).triangle,
            final(self).noise == old(self).noise,
            final(self).frame_cycle == old(self).frame_cycle,
    {
        let mut out: Vec<u16> = Vec::new();
        core::mem::swap(&mut out, &mut self.samples);
        out
    }
}

/// The pulse channel's current amplitude.
pub open spec fn spec_pulse_output(p: PulseChannel) -> u8 {
    if p.enabled && p.length > 0 && p.timer_period >= 8 && spec_duty_high(p.duty, p.phase) {
        if p.constant_volume {
            p.volume
        } else {
            p.env_level
        }
    } else {
        0u8
    }
}

/// The triangle channel's current amplitude.
pub open spec fn spec_triangle_output(t: TriangleChannel) -> u8 {
    if t.enabled && t.length > 0 && t.linear > 0 {
        if t.phase < 16 {
            (15 - t.phase) as u8
        } else {
            (t.phase - 16) as u8
        }
    } else {
        0u8
    }
}

/// The noise channel's current amplitude.
pub open spec fn spec_noise_output(n: NoiseChannel) -> u8 {
    if n.enabled && n.length > 0 && n.shift % 2 == 0 {
        if n.constant_volume {
            n.volume
        } else {
            n.env_level
        }
    } else {
        0u8
    }
}

/// Whether the duty sequence is high at this phase.
pub open spec fn spec_duty_high(duty: u8, phase: u8) -> bool {
    if duty == 0 {
        phase == 1
    } else if duty == 1 {
        phase == 1 || phase == 2
    } else if duty == 2 {
        phase >= 1 && phase <= 4
    } else {
        !(phase == 1 || phase == 2)
    }
}

/// Whether the duty sequence is high at this phase.
pub fn duty_high(duty: u8, phase: u8) -> (r: bool)
    requires
        duty < 4,
        phase < 8,
    ensures
        r == spec_duty_high(duty, phase),
{
    if duty == 0 {
        phase == 1
    } else if duty == 1 {
        phase == 1 || phase == 2
    } else if duty == 2 {
        phase >= 1 && phase <= 4
    } else {
        !(phase == 1 || phase == 2)
    }
}

/// The documented length-counter load table, indexed by the five load bits.
pub fn length_value(idx: u8) -> (r: u8)
    requires
        idx < 32,
    ensures
        2 <= r,
{
    if idx == 0 {
        10
    } else if idx == 1 {
        254
    } else if idx == 2 {
        20
    } else if idx == 3 {
        2
    } else if idx == 4 {
        40
    } else if idx == 5 {
        4
    } else if idx == 6 {
        80
    } else if idx == 7 {
        6
    } else if idx == 8 {
        160
    } else if idx == 9 {
        8
    } else if idx == 10 {
        60
    } else if idx == 11 {
        10
    } else if idx == 12 {
        14
    } else if idx == 13 {
        12
    } else if idx == 14 {
        26
    } else if idx == 15 {
        14
    } else if idx == 16 {
        12
    } else if idx == 17 {
        16
    } else if idx == 18 {
        24
    } else if idx == 19 {
        18
    } else if idx == 20 {
        48
    } else if idx == 21 {
        20
    } else if idx == 22 {
        96
    } else if idx == 23 {
        22
    } else if idx == 24 {
        192
    } else if idx == 25 {
        24
    } else if idx == 26 {
        72
    } else if idx == 27 {
        26
    } else if idx == 28 {
        16
    } else if idx == 29 {
        28
    } else if idx == 30 {
        32
    } else {
        30
    }
}

/// The documented noise-channel period table (NTSC), indexed by the four
/// period bits.
pub fn noise_period(idx: u8) -> (r: u16)
    requires
        idx < 16,
    ensures
        r <= 4068,
{
    if idx == 0 {
        4
    } else if idx == 1 {
        8
    } else if idx == 2 {
        16
    } else if idx == 3 {
        32
    } else if idx == 4 {
        64
    } else if idx == 5 {
        96
    } else if idx == 6 {
        128
    } else if idx == 7 {
        160
    } else if idx == 8 {
        202
    } else if idx == 9 {
        254
    } else if idx == 10 {
        380
    } else if idx == 11 {
        508
    } else if idx == 12 {
        762
    } else if idx == 13 {
        1016
    } else if idx == 14 {
        2034
    } else {
        4068
    }
}

/// Sample pacing: starting inside one decimation period, any run of CPU
/// cycles whose dot count spans one video frame (within the slack of a
/// single instruction) emits the per-frame sample budget `SAMPLE_RATE / 60`,
/// give or take one sample.
pub proof fn lemma_sample_pacing(acc0: int, k: int, emitted: int, acc1: int)
    requires
        0 <= acc0 < DOT_RATE,
        29773 <= k <= 29789,
        acc0 + k * (SAMPLE_STEP as int) == emitted * (DOT_RATE as int) + acc1,
        0 <= acc1 < DOT_RATE,
    ensures
        734 <= emitted <= 736,
{
    let step = SAMPLE_STEP as int;
    let den = DOT_RATE as int;
    assert(step == 132300 && den == 5360520);
    assert(acc0 + k * step >= 29773 * 132300) by (nonlinear_arith)
        requires
            acc0 >= 0,
            k >= 29773,
            step == 132300,
    ;
    assert(acc0 + k * step < 5360520 + 29789 * 132300) by (nonlinear_arith)
        requires
            acc0 < 5360520,
            k <= 29789,
            step == 132300,
    ;
    assert(emitted * den == acc0 + k * step - acc1);
    assert(emitted * den > 29773 * 132300 - 5360520);
    assert(emitted * den < 5360520 + 29789 * 132300);
    assert(emitted >= 734 && emitted <= 736) by (nonlinear_arith)
        requires
            emitted * den > 29773 * 132300 - 5360520,
            emitted * den < 5360520 + 29789 * 132300,
            den == 5360520,
    ;
}

} // verus!
