//! An APU pulse channel: an 8-step duty sequencer clocked by an 11-bit
//! timer, with an envelope, a length counter, and a sweep unit that
//! mutes the channel outside its period range.

use crate::envelope::Envelope;
use crate::length_counter::LengthCounter;
use crate::length_counter::spec_length_value;
use vstd::prelude::*;
use vstd::wrapping::u16_specs;

verus! {

/// One APU pulse channel.
pub struct PulseChannel {
    pub is_pulse2: bool,
    pub even_latch: bool,
    pub timer: u16,
    pub timer_period: u16,
    pub sequence_step: u8,
    pub length_counter: LengthCounter,
    pub envelope: Envelope,
    pub duty_cycle_select: u8,
    pub sweep_enable: bool,
    pub sweep_timer: u8,
    pub sweep_period: u8,
    pub sweep_negate: bool,
    pub sweep_shift: u8,
    pub sweep_target_period: u16,
    pub sweep_reset: bool,
}

/// The duty-table bit for `select` (2 bits) at `step` (3 bits).
pub open spec fn spec_duty_bit(select: u8, step: u8) -> u8 {
    let s = select % 4;
    let t = step % 8;
    if s == 0 {
        if t == 1 {
            1
        } else {
            0
        }
    } else if s == 1 {
        if t == 1 || t == 2 {
            1
        } else {
            0
        }
    } else if s == 2 {
        if 1 <= t <= 4 {
            1
        } else {
            0
        }
    } else {
        if t == 1 || t == 2 {
            0
        } else {
            1
        }
    }
}

/// The register-driven bounds every method keeps: the sweep shift and
/// period are three-bit values.
pub open spec fn spec_pulse_wf(p: PulseChannel) -> bool {
    &&& p.sweep_shift < 8
    &&& p.sweep_period < 8
    &&& crate::envelope::spec_envelope_wf(p.envelope)
}

/// The sweep unit's target period: the current period plus or minus
/// its shifted copy; pulse 1 negates as a ones' complement, pulse 2 as
/// a two's complement.
pub open spec fn spec_sweep_target(p: PulseChannel) -> u16 {
    let change = p.timer_period >> (p.sweep_shift as u32);
    let signed_change = if p.sweep_negate {
        if p.is_pulse2 {
            u16_specs::wrapping_add(!change, 1)
        } else {
            !change
        }
    } else {
        change
    };
    u16_specs::wrapping_add(p.timer_period, signed_change)
}

/// The channel after one CPU cycle: on every second one the timer
/// counts down, and its expiry advances the duty sequencer one step.
pub open spec fn spec_pulse_tick(p: PulseChannel) -> PulseChannel {
    if !p.even_latch {
        PulseChannel { even_latch: true, ..p }
    } else if p.timer > 0 {
        PulseChannel { even_latch: false, timer: (p.timer - 1) as u16, ..p }
    } else {
        PulseChannel {
            even_latch: false,
            timer: p.timer_period,
            sequence_step: ((p.sequence_step + 1) % 8) as u8,
            ..p
        }
    }
}

/// Whether the sweep unit mutes the channel: period under 8 or target
/// over `$7FF`.
pub open spec fn spec_sweep_muting(p: PulseChannel) -> bool {
    p.sweep_target_period > 0x7FF || p.timer_period < 8
}

/// The channel's current sample: silent when the duty bit is low, the
/// sweep mutes, the length counter has expired, or the timer value is
/// under 8; else the envelope volume.
pub open spec fn spec_pulse_output(p: PulseChannel) -> u8 {
    if spec_duty_bit(p.duty_cycle_select, p.sequence_step) == 0 || spec_sweep_muting(p)
        || p.length_counter.counter == 0 || p.timer < 8 {
        0
    } else if p.envelope.constant_volume {
        p.envelope.period
    } else {
        p.envelope.decay_counter
    }
}

impl PulseChannel {
    /// A silent pulse channel; `is_pulse2` selects the negate flavour.
    pub fn new(is_pulse2: bool) -> (r: PulseChannel)
        ensures
            spec_pulse_wf(r),
            r.is_pulse2 == is_pulse2,
            r.even_latch,
            r.timer == 0 && r.timer_period == 0 && r.sequence_step == 0,
            r.length_counter == (LengthCounter { enabled: false, counter: 0, halt: false }),
            r.duty_cycle_select == 0,
            !r.sweep_enable && r.sweep_timer == 0 && r.sweep_period == 0 && !r.sweep_negate
                && r.sweep_shift == 0 && r.sweep_target_period == 0 && !r.sweep_reset,
    {
        PulseChannel {
            is_pulse2,
            even_latch: true,
            timer: 0,
            timer_period: 0,
            sequence_step: 0,
            length_counter: LengthCounter::new(),
            envelope: Envelope::new(),
            duty_cycle_select: 0,
            sweep_enable: false,
            sweep_timer: 0,
            sweep_period: 0,
            sweep_negate: false,
            sweep_shift: 0,
            sweep_target_period: 0,
            sweep_reset: false,
        }
    }

    /// One CPU cycle: on every second one the timer counts down, and
    /// its expiry advances the duty sequencer one step.
    pub fn tick(&mut self)
        ensures
            *final(self) == spec_pulse_tick(*old(self)),
            final(self).even_latch == !old(self).even_latch,
            !old(self).even_latch ==> *final(self) == (PulseChannel {
                even_latch: true,
                ..*old(self)
            }),
            old(self).even_latch && old(self).timer > 0 ==> *final(self) == (PulseChannel {
                even_latch: false,
                timer: (old(self).timer - 1) as u16,
                ..*old(self)
            }),
            old(self).even_latch && old(self).timer == 0 ==> *final(self) == (PulseChannel {
                even_latch: false,
                timer: old(self).timer_period,
                sequence_step: ((old(self).sequence_step + 1) % 8) as u8,
                ..*old(self)
            }),
    {
        if self.even_latch {
            if self.timer > 0 {
                self.timer = self.timer - 1;
            } else {
                self.timer = self.timer_period;
                self.sequence_step = self.sequence_step.wrapping_add(1) % 8;
            }
        }
        self.even_latch = !self.even_latch;
    }

    /// One frame-sequencer sweep clock: recompute the target period;
    /// when the divider expires with the sweep enabled and not muting,
    /// adopt the target; then step or reload the divider.
    pub fn tick_sweep(&mut self)
        requires
            spec_pulse_wf(*old(self)),
        ensures
            spec_pulse_wf(*final(self)),
            final(self).sweep_target_period == spec_sweep_target(*old(self)),
            final(self).timer_period == if old(self).sweep_timer == 0 && old(self).sweep_enable
                && !(spec_sweep_target(*old(self)) > 0x7FF || old(self).timer_period < 8) {
                spec_sweep_target(*old(self))
            } else {
                old(self).timer_period
            },
            final(self).sweep_timer == if old(self).sweep_timer == 0 || old(self).sweep_reset {
                (old(self).sweep_period + 1) as u8
            } else {
                (old(self).sweep_timer - 1) as u8
            },
            !final(self).sweep_reset,
            *final(self) == (PulseChannel {
                sweep_target_period: final(self).sweep_target_period,
                timer_period: final(self).timer_period,
                sweep_timer: final(self).sweep_timer,
                sweep_reset: false,
                ..*old(self)
            }),
    {
        let change = self.timer_period >> (self.sweep_shift as u32);
        let signed_change: u16 = if self.sweep_negate {
            if self.is_pulse2 {
                (!change).wrapping_add(1)
            } else {
                !change
            }
        } else {
            change
        };
        self.sweep_target_period = self.timer_period.wrapping_add(signed_change);

        let muting = self.sweep_target_period > 0x7FF || self.timer_period < 8;
        if self.sweep_timer == 0 && self.sweep_enable && !muting {
            self.timer_period = self.sweep_target_period;
        }

        if self.sweep_timer == 0 || self.sweep_reset {
            self.sweep_timer = self.sweep_period + 1;
            self.sweep_reset = false;
        } else {
            self.sweep_timer = self.sweep_timer - 1;
        }
    }

    /// Write one of the channel's four registers: duty and envelope;
    /// sweep setup; period low byte; period high bits with a length
    /// reload and sequence restart.
    pub fn update_register(&mut self, register_offset: u16, data: u8)
        requires
            register_offset <= 3,
            spec_pulse_wf(*old(self)),
        ensures
            spec_pulse_wf(*final(self)),
            register_offset == 0 ==> *final(self) == (PulseChannel {
                duty_cycle_select: data >> 6,
                length_counter: (LengthCounter {
                    halt: (data >> 5) & 1 == 1,
                    ..old(self).length_counter
                }),
                envelope: (Envelope {
                    loop_flag: (data >> 5) & 1 == 1,
                    constant_volume: (data >> 4) & 1 == 1,
                    period: data & 0x0F,
                    ..old(self).envelope
                }),
                ..*old(self)
            }),
            register_offset == 1 ==> *final(self) == (PulseChannel {
                sweep_reset: true,
                sweep_enable: data >> 7 == 1,
                sweep_period: (data >> 4) & 0x07,
                sweep_negate: (data >> 3) & 1 == 1,
                sweep_shift: data & 0x07,
                ..*old(self)
            }),
            register_offset == 2 ==> *final(self) == (PulseChannel {
                timer_period: (old(self).timer_period & 0xFF00) | data as u16,
                ..*old(self)
            }),
            register_offset == 3 ==> *final(self) == (PulseChannel {
                timer_period: (old(self).timer_period & 0x00FF) | (((data & 0x07) as u16) << 8),
                length_counter: (LengthCounter {
                    counter: if old(self).length_counter.enabled {
                        spec_length_value(data >> 3)
                    } else {
                        old(self).length_counter.counter
                    },
                    ..old(self).length_counter
                }),
                sequence_step: 0,
                envelope: (Envelope { start: true, ..old(self).envelope }),
                ..*old(self)
            }),
    {
        if register_offset == 0 {
            proof {
                assert(data & 0x0F < 16) by (bit_vector);
            }
            self.duty_cycle_select = data >> 6;
            self.length_counter.halt = (data >> 5) & 1 == 1;
            self.envelope.loop_flag = (data >> 5) & 1 == 1;
            self.envelope.constant_volume = (data >> 4) & 1 == 1;
            self.envelope.period = data & 0x0F;
        } else if register_offset == 1 {
            proof {
                assert((data >> 4) & 0x07 < 8 && data & 0x07 < 8) by (bit_vector);
            }
            self.sweep_reset = true;
            self.sweep_enable = data >> 7 == 1;
            self.sweep_period = (data >> 4) & 0x07;
            self.sweep_negate = (data >> 3) & 1 == 1;
            self.sweep_shift = data & 0x07;
        } else if register_offset == 2 {
            self.timer_period = (self.timer_period & 0xFF00) | (data as u16);
        } else {
            self.timer_period = (self.timer_period & 0x00FF) | (((data & 0x07) as u16) << 8);
            if self.length_counter.enabled {
                self.length_counter.load(data >> 3);
            }
            self.sequence_step = 0;
            self.envelope.start = true;
        }
    }

    /// The channel's current sample. In particular the sweep's muting
    /// rule holds: a period under 8 or a target over `$7FF` silences
    /// the channel whatever else is set.
    pub fn output(&self) -> (r: u8)
        ensures
            r == spec_pulse_output(*self),
            self.timer_period < 8 ==> r == 0,
            self.sweep_target_period > 0x7FF ==> r == 0,
    {
        let duty = self.duty_bit();
        if duty == 0 || (self.sweep_target_period > 0x7FF || self.timer_period < 8)
            || self.length_counter.counter == 0 || self.timer < 8 {
            0
        } else {
            self.envelope.get_volume()
        }
    }

    /// The duty-table bit for the current select and step.
    fn duty_bit(&self) -> (r: u8)
        ensures
            r == spec_duty_bit(self.duty_cycle_select, self.sequence_step),
    {
        let s = self.duty_cycle_select % 4;
        let t = self.sequence_step % 8;
        if s == 0 {
            if t == 1 {
                1
            } else {
                0
            }
        } else if s == 1 {
            if t == 1 || t == 2 {
                1
            } else {
                0
            }
        } else if s == 2 {
            if 1 <= t && t <= 4 {
                1
            } else {
                0
            }
        } else {
            if t == 1 || t == 2 {
                0
            } else {
                1
            }
        }
    }
}

} // verus!
