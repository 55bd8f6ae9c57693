//! The APU: five channels driven once per CPU cycle, a ~240 Hz frame
//! sequencer clocking their support units, and the `$4015`/`$4017`
//! status and frame-counter registers. Mixing the channel outputs into
//! an analogue signal is the host's business; the mixer table indices
//! are exposed instead.

use crate::dmc_channel::DMCChannel;
use crate::noise_channel::NoiseChannel;
use crate::pulse_channel::PulseChannel;
use crate::triangle_channel::TriangleChannel;
use vstd::prelude::*;
use vstd::wrapping::u64_specs;

verus! {

/// The NTSC CPU clock rate in Hz.
pub const CLOCK_RATE: u64 = 1789773;

/// The frame sequencer's period in CPU cycles: the clock rate divided
/// down to roughly 240 Hz.
pub const FRAME_PERIOD: u64 = 7457;

/// The audio processing unit.
pub struct APU {
    pub pulse1: PulseChannel,
    pub pulse2: PulseChannel,
    pub triangle: TriangleChannel,
    pub noise: NoiseChannel,
    pub dmc: DMCChannel,
    pub frame_counter_cycle: u64,
    pub frame_sequence_len: u8,
    pub frame_sequence_step: u8,
    pub bus_latch: u8,
    pub irq_disable: bool,
    pub frame_irq: bool,
}

impl APU {
    /// The register-driven bounds the methods keep.
    pub open spec fn wf(&self) -> bool {
        &&& crate::pulse_channel::spec_pulse_wf(self.pulse1)
        &&& crate::pulse_channel::spec_pulse_wf(self.pulse2)
        &&& self.frame_sequence_len == 4 || self.frame_sequence_len == 5
        &&& self.frame_sequence_step < 8
        &&& crate::noise_channel::spec_noise_wf(self.noise)
        &&& self.dmc.bits_remaining >= 1
        &&& self.dmc.dac_level <= 127
    }

    /// Whether the frame sequencer fires on this cycle.
    pub open spec fn spec_frame_boundary(&self) -> bool {
        self.frame_counter_cycle % FRAME_PERIOD == 0
    }

    /// Whether the sequencer clocks length counters and sweeps on this
    /// cycle: steps 1 and 3 of the 4-step sequence, 0 and 2 of the
    /// 5-step one.
    pub open spec fn spec_clocks_lengths(&self) -> bool {
        self.spec_frame_boundary() && self.frame_sequence_step != 4 && (
        self.frame_sequence_step % 2 == if self.frame_sequence_len == 4 {
            1int
        } else {
            0int
        })
    }

    /// A powered-on APU in 4-step mode with every channel silent.
    pub fn new() -> (r: APU)
        ensures
            r.wf(),
            !r.frame_irq && !r.irq_disable,
            r.frame_counter_cycle == 0,
            r.frame_sequence_len == 4 && r.frame_sequence_step == 0,
            r.pulse1.length_counter.counter == 0,
            r.pulse2.length_counter.counter == 0,
            r.triangle.length_counter.counter == 0,
            r.noise.length_counter.counter == 0,
            r.dmc.bytes_remaining == 0,
            !r.dmc.stall_cpu,
            !r.pulse1.is_pulse2 && r.pulse2.is_pulse2,
    {
        APU {
            pulse1: PulseChannel::new(false),
            pulse2: PulseChannel::new(true),
            triangle: TriangleChannel::new(),
            noise: NoiseChannel::new(),
            dmc: DMCChannel::new(),
            frame_counter_cycle: 0,
            frame_sequence_len: 4,
            frame_sequence_step: 0,
            bus_latch: 0,
            irq_disable: false,
            frame_irq: false,
        }
    }

    /// Take the one-shot CPU-stall flag the DMC raised.
    pub fn check_stall_cpu(&mut self) -> (r: bool)
        ensures
            r == old(self).dmc.stall_cpu,
            *final(self) == (APU { dmc: final(self).dmc, ..*old(self) }),
            final(self).dmc == (DMCChannel { stall_cpu: false, ..old(self).dmc }),
    {
        let stall = self.dmc.stall_cpu;
        self.dmc.stall_cpu = false;
        stall
    }

    /// Whether the APU holds its IRQ line up: the DMC's end-of-sample
    /// IRQ or the frame IRQ.
    pub fn check_irq(&self) -> (r: bool)
        ensures
            r == (self.dmc.irq || self.frame_irq),
    {
        self.dmc.irq || self.frame_irq
    }

    /// Return to the power-on register state.
    pub fn reset(&mut self)
        requires
            old(self).wf(),
        ensures
            final(self).wf(),
            final(self).frame_counter_cycle == 0,
            final(self).frame_sequence_len == 4 && final(self).frame_sequence_step == 0,
            !final(self).frame_irq && !final(self).irq_disable && !final(self).dmc.irq,
            final(self).pulse1.length_counter.counter == 0,
            final(self).pulse2.length_counter.counter == 0,
            final(self).triangle.length_counter.counter == 0,
            final(self).noise.length_counter.counter == 0,
            final(self).dmc.bytes_remaining == 0,
            final(self).dmc.dac_level == old(self).dmc.dac_level % 2,
    {
        self.pulse1.length_counter.update_enabled(0);
        self.pulse2.length_counter.update_enabled(0);
        self.triangle.length_counter.update_enabled(0);
        self.triangle.sequence_step = 0;
        self.noise.length_counter.update_enabled(0);
        self.dmc.update_enabled(0);
        self.dmc.dac_level = self.dmc.dac_level % 2;
        self.frame_counter_cycle = 0;
        self.frame_sequence_len = 4;
        self.frame_sequence_step = 0;
        self.bus_latch = 0;
        self.dmc.irq = false;
        self.irq_disable = false;
        self.frame_irq = false;
    }

    /// One CPU cycle: every channel ticks; on a frame-sequencer
    /// boundary the envelopes and linear counter clock, length
    /// counters and sweeps clock on their steps, the frame IRQ rises
    /// at the end of the 4-step sequence, and the step advances.
    /// Length counters whose halt flag is set never move.
    #[verifier::rlimit(100)]
    #[verifier::spinoff_prover]
    pub fn tick(&mut self)
        requires
            old(self).wf(),
        ensures
            final(self).wf(),
            final(self).frame_counter_cycle == u64_specs::wrapping_add(
                old(self).frame_counter_cycle,
                1,
            ),
            final(self).bus_latch == old(self).bus_latch,
            final(self).irq_disable == old(self).irq_disable,
            final(self).frame_sequence_len == old(self).frame_sequence_len,
            final(self).frame_irq == (old(self).frame_irq || (old(self).spec_frame_boundary()
                && old(self).frame_sequence_step == 3 && old(self).frame_sequence_len == 4 && !old(
                self).irq_disable)),
            old(self).spec_frame_boundary() ==> final(self).frame_sequence_step as int == (old(
                self).frame_sequence_step + 1) % (old(self).frame_sequence_len as int),
            !old(self).spec_frame_boundary() ==> final(self).frame_sequence_step == old(
                self).frame_sequence_step,
            old(self).pulse1.length_counter.halt ==> final(self).pulse1.length_counter.counter
                == old(self).pulse1.length_counter.counter,
            old(self).pulse2.length_counter.halt ==> final(self).pulse2.length_counter.counter
                == old(self).pulse2.length_counter.counter,
            old(self).triangle.length_counter.halt ==> final(self).triangle.length_counter.counter
                == old(self).triangle.length_counter.counter,
            old(self).noise.length_counter.halt ==> final(self).noise.length_counter.counter
                == old(self).noise.length_counter.counter,
            !old(self).spec_clocks_lengths() ==> final(self).pulse1.length_counter.counter == old(
                self).pulse1.length_counter.counter && final(self).pulse2.length_counter.counter
                == old(self).pulse2.length_counter.counter
                && final(self).triangle.length_counter.counter == old(
                self).triangle.length_counter.counter
                && final(self).noise.length_counter.counter == old(
                self).noise.length_counter.counter,
            old(self).spec_clocks_lengths() && !old(self).pulse1.length_counter.halt && old(
                self).pulse1.length_counter.counter > 0 ==> final(
                self).pulse1.length_counter.counter == old(self).pulse1.length_counter.counter - 1,
            old(self).spec_frame_boundary() && old(self).frame_sequence_step != 4 ==> final(
                self).pulse1.envelope == crate::envelope::spec_envelope_tick(
                old(self).pulse1.envelope,
            ) && final(self).noise.envelope == crate::envelope::spec_envelope_tick(
                old(self).noise.envelope,
            ) && final(self).triangle.linear_counter == (if old(self).triangle.linear_reset {
                old(self).triangle.linear_period
            } else if old(self).triangle.linear_counter > 0 {
                (old(self).triangle.linear_counter - 1) as u8
            } else {
                0u8
            }),
            old(self).spec_clocks_lengths() ==> final(self).pulse1.sweep_target_period
                == crate::pulse_channel::spec_sweep_target(old(self).pulse1) && final(
                self).pulse2.sweep_target_period == crate::pulse_channel::spec_sweep_target(
                old(self).pulse2,
            ),
            final(self).dmc == crate::dmc_channel::spec_dmc_tick(old(self).dmc),
            !old(self).spec_frame_boundary() ==> final(self).pulse1
                == crate::pulse_channel::spec_pulse_tick(old(self).pulse1) && final(self).pulse2
                == crate::pulse_channel::spec_pulse_tick(old(self).pulse2) && final(self).triangle
                == crate::triangle_channel::spec_triangle_tick(old(self).triangle) && final(
                self).noise == crate::noise_channel::spec_noise_tick(old(self).noise),
            final(self).pulse1.timer == crate::pulse_channel::spec_pulse_tick(
                old(self).pulse1,
            ).timer && final(self).pulse2.timer == crate::pulse_channel::spec_pulse_tick(
                old(self).pulse2,
            ).timer,
            final(self).triangle.timer == crate::triangle_channel::spec_triangle_tick(
                old(self).triangle,
            ).timer,
            final(self).noise.shift == crate::noise_channel::spec_noise_tick(
                old(self).noise,
            ).shift && final(self).noise.timer == crate::noise_channel::spec_noise_tick(
                old(self).noise,
            ).timer,
    {
        self.pulse1.tick();
        self.pulse2.tick();
        self.triangle.tick();
        self.noise.tick();
        self.dmc.tick();

        if self.frame_counter_cycle % FRAME_PERIOD == 0 {
            self.clock_frame_sequencer();
        }
        self.frame_counter_cycle = self.frame_counter_cycle.wrapping_add(1);
    }

    /// One step of the frame sequencer: envelopes and the linear
    /// counter clock on every step but the 5-step idle one; length
    /// counters and sweeps clock on their steps; the frame IRQ rises
    /// at the end of the 4-step sequence; the step advances.
    #[verifier::rlimit(100)]
    #[verifier::spinoff_prover]
    fn clock_frame_sequencer(&mut self)
        requires
            old(self).wf(),
        ensures
            final(self).wf(),
            final(self).frame_counter_cycle == old(self).frame_counter_cycle,
            final(self).bus_latch == old(self).bus_latch,
            final(self).irq_disable == old(self).irq_disable,
            final(self).frame_sequence_len == old(self).frame_sequence_len,
            final(self).dmc == old(self).dmc,
            final(self).pulse1.timer == old(self).pulse1.timer,
            final(self).pulse2.timer == old(self).pulse2.timer,
            final(self).triangle.timer == old(self).triangle.timer,
            final(self).noise.timer == old(self).noise.timer && final(self).noise.shift == old(
                self).noise.shift,
            final(self).frame_irq == (old(self).frame_irq || (old(self).frame_sequence_step == 3
                && old(self).frame_sequence_len == 4 && !old(self).irq_disable)),
            final(self).frame_sequence_step as int == (old(self).frame_sequence_step + 1) % (old(
                self).frame_sequence_len as int),
            old(self).pulse1.length_counter.halt ==> final(self).pulse1.length_counter.counter
                == old(self).pulse1.length_counter.counter,
            old(self).pulse2.length_counter.halt ==> final(self).pulse2.length_counter.counter
                == old(self).pulse2.length_counter.counter,
            old(self).triangle.length_counter.halt ==> final(self).triangle.length_counter.counter
                == old(self).triangle.length_counter.counter,
            old(self).noise.length_counter.halt ==> final(self).noise.length_counter.counter
                == old(self).noise.length_counter.counter,
            !(old(self).frame_sequence_step != 4 && (old(self).frame_sequence_step % 2 == if old(
                self).frame_sequence_len == 4 {
                1int
            } else {
                0int
            })) ==> final(self).pulse1.length_counter.counter == old(
                self).pulse1.length_counter.counter && final(self).pulse2.length_counter.counter
                == old(self).pulse2.length_counter.counter
                && final(self).triangle.length_counter.counter == old(
                self).triangle.length_counter.counter
                && final(self).noise.length_counter.counter == old(
                self).noise.length_counter.counter,
            (old(self).frame_sequence_step != 4 && (old(self).frame_sequence_step % 2 == if old(
                self).frame_sequence_len == 4 {
                1int
            } else {
                0int
            })) && !old(self).pulse1.length_counter.halt && old(self).pulse1.length_counter.counter
                > 0 ==> final(self).pulse1.length_counter.counter == old(
                self).pulse1.length_counter.counter - 1,
            old(self).frame_sequence_step != 4 ==> final(self).pulse1.envelope
                == crate::envelope::spec_envelope_tick(old(self).pulse1.envelope) && final(
                self).pulse2.envelope == crate::envelope::spec_envelope_tick(
                old(self).pulse2.envelope,
            ) && final(self).noise.envelope == crate::envelope::spec_envelope_tick(
                old(self).noise.envelope,
            ) && final(self).triangle.linear_counter == (if old(self).triangle.linear_reset {
                old(self).triangle.linear_period
            } else if old(self).triangle.linear_counter > 0 {
                (old(self).triangle.linear_counter - 1) as u8
            } else {
                0u8
            }),
            old(self).frame_sequence_step == 4 ==> final(self).pulse1.envelope == old(
                self).pulse1.envelope && final(self).noise.envelope == old(self).noise.envelope
                && final(self).triangle.linear_counter == old(self).triangle.linear_counter,
            (old(self).frame_sequence_step != 4 && (old(self).frame_sequence_step % 2 == if old(
                self).frame_sequence_len == 4 {
                1int
            } else {
                0int
            })) ==> final(self).pulse1.sweep_target_period
                == crate::pulse_channel::spec_sweep_target(old(self).pulse1) && final(
                self).pulse2.sweep_target_period == crate::pulse_channel::spec_sweep_target(
                old(self).pulse2,
            ),
            !(old(self).frame_sequence_step != 4 && (old(self).frame_sequence_step % 2 == if old(
                self).frame_sequence_len == 4 {
                1int
            } else {
                0int
            })) ==> final(self).pulse1.timer_period == old(self).pulse1.timer_period && final(
                self).pulse1.sweep_target_period == old(self).pulse1.sweep_target_period,
    {
        if self.frame_sequence_step != 4 {
            self.pulse1.envelope.tick();
            self.pulse2.envelope.tick();
            self.noise.envelope.tick();
            self.triangle.tick_linear();

            let len_step: u8 = if self.frame_sequence_len == 4 {
                1
            } else {
                0
            };
            if self.frame_sequence_step % 2 == len_step {
                self.pulse1.length_counter.tick();
                self.pulse2.length_counter.tick();
                self.triangle.length_counter.tick();
                self.noise.length_counter.tick();
                self.pulse1.tick_sweep();
                self.pulse2.tick_sweep();
            }

            if self.frame_sequence_step == 3 && self.frame_sequence_len == 4 && !self.irq_disable {
                self.frame_irq = true;
            }
        }
        self.frame_sequence_step = (self.frame_sequence_step + 1) % self.frame_sequence_len;
    }

    /// The mixer table indices for the current channel outputs: the
    /// pulse pair's sum, and the weighted triangle/noise/DMC sum.
    pub fn output_indices(&self) -> (r: (u8, u8))
        requires
            self.wf(),
        ensures
            r.0 == crate::pulse_channel::spec_pulse_output(self.pulse1)
                + crate::pulse_channel::spec_pulse_output(self.pulse2),
            r.1 == 3 * crate::triangle_channel::spec_triangle_output(self.triangle) + 2
                * crate::noise_channel::spec_noise_output(self.noise) + self.dmc.dac_level,
            r.0 <= 30,
            r.1 <= 202,
    {
        let p = self.pulse1.output() + self.pulse2.output();
        let t = 3 * self.triangle.output() + 2 * self.noise.output() + self.dmc.output();
        (p, t)
    }

    /// The `$4015` status byte: IRQ flags and which channels still
    /// have length (or, for the DMC, bytes) remaining.
    pub fn peek(&self, addr: u16) -> (r: u8)
        ensures
            addr != 0x4015 ==> r == 0,
            addr == 0x4015 ==> r == (if self.dmc.irq {
                0x80u8
            } else {
                0u8
            } | if self.frame_irq {
                0x40u8
            } else {
                0u8
            } | if self.dmc.bytes_remaining > 0 {
                0x10u8
            } else {
                0u8
            } | if self.noise.length_counter.counter > 0 {
                0x08u8
            } else {
                0u8
            } | if self.triangle.length_counter.counter > 0 {
                0x04u8
            } else {
                0u8
            } | if self.pulse2.length_counter.counter > 0 {
                0x02u8
            } else {
                0u8
            } | if self.pulse1.length_counter.counter > 0 {
                0x01u8
            } else {
                0u8
            }),
    {
        if addr != 0x4015 {
            return 0;
        }
        let b7: u8 = if self.dmc.irq {
            0x80
        } else {
            0
        };
        let b6: u8 = if self.frame_irq {
            0x40
        } else {
            0
        };
        let b4: u8 = if self.dmc.bytes_remaining > 0 {
            0x10
        } else {
            0
        };
        let b3: u8 = if self.noise.length_counter.counter > 0 {
            0x08
        } else {
            0
        };
        let b2: u8 = if self.triangle.length_counter.counter > 0 {
            0x04
        } else {
            0
        };
        let b1: u8 = if self.pulse2.length_counter.counter > 0 {
            0x02
        } else {
            0
        };
        let b0: u8 = if self.pulse1.length_counter.counter > 0 {
            0x01
        } else {
            0
        };
        b7 | b6 | b4 | b3 | b2 | b1 | b0
    }

    /// Read a register: only `$4015` responds; reading it clears the
    /// frame IRQ (but not the DMC IRQ) and refreshes the bus latch.
    pub fn read(&mut self, addr: u16) -> (r: u8)
        requires
            old(self).wf(),
        ensures
            final(self).wf(),
            r == old(self).peek_spec(addr),
            addr != 0x4015 ==> *final(self) == *old(self),
            addr == 0x4015 ==> *final(self) == (APU {
                frame_irq: false,
                bus_latch: r,
                ..*old(self)
            }),
    {
        if addr != 0x4015 {
            return 0;
        }
        let data = self.peek(addr);
        self.frame_irq = false;
        self.bus_latch = data;
        data
    }

    /// What `peek` returns, as a spec-level value.
    pub open spec fn peek_spec(&self, addr: u16) -> u8 {
        if addr != 0x4015 {
            0
        } else {
            (if self.dmc.irq {
                0x80u8
            } else {
                0u8
            } | if self.frame_irq {
                0x40u8
            } else {
                0u8
            } | if self.dmc.bytes_remaining > 0 {
                0x10u8
            } else {
                0u8
            } | if self.noise.length_counter.counter > 0 {
                0x08u8
            } else {
                0u8
            } | if self.triangle.length_counter.counter > 0 {
                0x04u8
            } else {
                0u8
            } | if self.pulse2.length_counter.counter > 0 {
                0x02u8
            } else {
                0u8
            } | if self.pulse1.length_counter.counter > 0 {
                0x01u8
            } else {
                0u8
            })
        }
    }

    /// Write a register: the four channel register blocks, the `$4015`
    /// channel enables, or the `$4017` frame-counter mode. Writes to
    /// the unused slots of the triangle and noise blocks are dropped.
    pub fn write(&mut self, addr: u16, data: u8)
        requires
            old(self).wf(),
            0x4000 <= addr <= 0x4017,
            addr != 0x4014,
        ensures
            final(self).wf(),
            final(self).bus_latch == data,
            0x4000 <= addr <= 0x4003 ==> *final(self) == (APU {
                pulse1: final(self).pulse1,
                bus_latch: data,
                ..*old(self)
            }),
            0x4004 <= addr <= 0x4007 ==> *final(self) == (APU {
                pulse2: final(self).pulse2,
                bus_latch: data,
                ..*old(self)
            }),
            0x4008 <= addr <= 0x400B ==> *final(self) == (APU {
                triangle: final(self).triangle,
                bus_latch: data,
                ..*old(self)
            }),
            0x400C <= addr <= 0x400F ==> *final(self) == (APU {
                noise: final(self).noise,
                bus_latch: data,
                ..*old(self)
            }),
            0x4010 <= addr <= 0x4013 ==> *final(self) == (APU {
                dmc: final(self).dmc,
                bus_latch: data,
                ..*old(self)
            }),
            addr == 0x4015 ==> final(self).pulse1.length_counter.enabled == ((data & 0x01) == 1)
                && final(self).pulse2.length_counter.enabled == (((data >> 1) & 1) == 1) && final(
                self).triangle.length_counter.enabled == (((data >> 2) & 1) == 1) && final(
                self).noise.length_counter.enabled == (((data >> 3) & 1) == 1) && final(
                self).dmc.enabled == (((data >> 4) & 1) == 1) && !final(self).dmc.irq,
            addr == 0x4015 && (data & 0x01) != 1 ==> final(self).pulse1.length_counter.counter
                == 0,
            addr == 0x4015 && ((data >> 4) & 1) != 1 ==> final(self).dmc.bytes_remaining == 0,
            addr == 0x4017 ==> final(self).frame_sequence_len == if data >> 7 == 1 {
                5u8
            } else {
                4u8
            } && final(self).irq_disable == ((data >> 6) & 1 == 1) && ((data >> 6) & 1 == 1
                ==> !final(self).frame_irq),
            addr == 0x4017 && data >> 7 == 1 ==> final(self).pulse1.envelope
                == crate::envelope::spec_envelope_tick(old(self).pulse1.envelope) && final(
                self).noise.envelope == crate::envelope::spec_envelope_tick(
                old(self).noise.envelope,
            ),
            addr == 0x4017 && data >> 7 == 1 ==> final(self).frame_sequence_step == 1 && (!old(
                self).pulse1.length_counter.halt && old(self).pulse1.length_counter.counter > 0
                ==> final(self).pulse1.length_counter.counter == old(
                self).pulse1.length_counter.counter - 1) && (!old(
                self).triangle.length_counter.halt && old(self).triangle.length_counter.counter > 0
                ==> final(self).triangle.length_counter.counter == old(
                self).triangle.length_counter.counter - 1) && final(self).pulse1.sweep_target_period
                == crate::pulse_channel::spec_sweep_target(old(self).pulse1),
            addr == 0x4017 && data >> 7 != 1 ==> final(self).frame_sequence_step == 0 && final(
                self).pulse1.length_counter.counter == old(self).pulse1.length_counter.counter,
    {
        self.bus_latch = data;
        if addr <= 0x4003 {
            self.pulse1.update_register(addr - 0x4000, data);
        } else if addr <= 0x4007 {
            self.pulse2.update_register(addr - 0x4004, data);
        } else if addr <= 0x400B {
            let off = addr - 0x4008;
            if off != 1 {
                self.triangle.update_register(off, data);
            }
        } else if addr <= 0x400F {
            let off = addr - 0x400C;
            if off != 1 {
                self.noise.update_register(off, data);
            }
        } else if addr <= 0x4013 {
            self.dmc.update_register(addr - 0x4010, data);
        } else if addr == 0x4015 {
            self.dmc.irq = false;
            self.pulse1.length_counter.update_enabled(data & 1);
            self.pulse2.length_counter.update_enabled((data >> 1) & 1);
            self.triangle.length_counter.update_enabled((data >> 2) & 1);
            self.noise.length_counter.update_enabled((data >> 3) & 1);
            self.dmc.update_enabled((data >> 4) & 1);
        } else if addr == 0x4017 {
            if data >> 7 == 1 {
                self.frame_sequence_len = 5;
                self.frame_sequence_step = 1;
                self.pulse1.tick();
                self.pulse2.tick();
                self.triangle.tick();
                self.noise.tick();
                self.pulse1.envelope.tick();
                self.pulse2.envelope.tick();
                self.noise.envelope.tick();
                self.triangle.tick_linear();
                self.pulse1.length_counter.tick();
                self.pulse2.length_counter.tick();
                self.triangle.length_counter.tick();
                self.noise.length_counter.tick();
                self.pulse1.tick_sweep();
                self.pulse2.tick_sweep();
            } else {
                self.frame_sequence_len = 4;
                self.frame_sequence_step = 0;
            }
            self.irq_disable = (data >> 6) & 1 == 1;
            if self.irq_disable {
                self.frame_irq = false;
            }
        }
    }
}

} // verus!
