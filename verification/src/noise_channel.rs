//! The APU noise channel: a 15-bit linear-feedback shift register
//! clocked from an NTSC period table, gated by a length counter and
//! scaled by an envelope.

use crate::envelope::Envelope;
use crate::length_counter::LengthCounter;
use crate::length_counter::spec_length_value;
use vstd::prelude::*;

verus! {

/// The NTSC noise period table, indexed by the low 4 register bits.
pub open spec fn spec_noise_period(i: int) -> u16 {
    if i == 0 {
        0x004
    } else if i == 1 {
        0x008
    } else if i == 2 {
        0x010
    } else if i == 3 {
        0x020
    } else if i == 4 {
        0x040
    } else if i == 5 {
        0x060
    } else if i == 6 {
        0x080
    } else if i == 7 {
        0x0A0
    } else if i == 8 {
        0x0CA
    } else if i == 9 {
        0x0FE
    } else if i == 10 {
        0x17C
    } else if i == 11 {
        0x1FC
    } else if i == 12 {
        0x2FA
    } else if i == 13 {
        0x3F8
    } else if i == 14 {
        0x7F2
    } else {
        0xFE4
    }
}

/// The shift register after one clock: feedback is bit 0 xor bit 6
/// (mode set) or bit 0 xor bit 1 (mode clear), shifted in at bit 14.
pub open spec fn spec_lfsr_step(shift: u16, mode: bool) -> u16 {
    let tap = if mode {
        (shift >> 6) & 1
    } else {
        (shift >> 1) & 1
    };
    let feedback = (shift & 1) ^ tap;
    (shift >> 1) | (feedback << 14) as u16
}

/// The channel after one CPU cycle: on every second one the timer
/// counts down, and its expiry clocks the shift register once.
pub open spec fn spec_noise_tick(n: NoiseChannel) -> NoiseChannel {
    if !n.even_latch {
        NoiseChannel { even_latch: true, ..n }
    } else if n.timer > 0 {
        NoiseChannel { even_latch: false, timer: (n.timer - 1) as u16, ..n }
    } else {
        NoiseChannel {
            even_latch: false,
            timer: n.timer_period,
            shift: spec_lfsr_step(n.shift, n.shift_mode),
            ..n
        }
    }
}

/// The bounds the channel keeps: its envelope holds 4-bit values.
pub open spec fn spec_noise_wf(n: NoiseChannel) -> bool {
    crate::envelope::spec_envelope_wf(n.envelope)
}

/// The APU noise channel.
pub struct NoiseChannel {
    pub even_latch: bool,
    pub timer: u16,
    pub timer_period: u16,
    pub length_counter: LengthCounter,
    pub envelope: Envelope,
    pub shift: u16,
    pub shift_mode: bool,
}

/// The channel's current sample: silent when the register's low bit is
/// set or the length counter has expired, else the envelope volume.
pub open spec fn spec_noise_output(n: NoiseChannel) -> u8 {
    if n.shift & 1 == 1 || n.length_counter.counter == 0 {
        0
    } else if n.envelope.constant_volume {
        n.envelope.period
    } else {
        n.envelope.decay_counter
    }
}

impl NoiseChannel {
    /// A silent noise channel with the register seeded at 1.
    pub fn new() -> (r: NoiseChannel)
        ensures
            spec_noise_wf(r),
            r.even_latch,
            r.timer == 0 && r.timer_period == 0,
            r.length_counter == (LengthCounter { enabled: false, counter: 0, halt: false }),
            r.shift == 1,
            !r.shift_mode,
    {
        NoiseChannel {
            even_latch: true,
            timer: 0,
            timer_period: 0,
            length_counter: LengthCounter::new(),
            envelope: Envelope::new(),
            shift: 1,
            shift_mode: false,
        }
    }

    /// One CPU cycle: on every second one the timer counts down, and
    /// its expiry clocks the shift register once.
    pub fn tick(&mut self)
        ensures
            *final(self) == spec_noise_tick(*old(self)),
            final(self).even_latch == !old(self).even_latch,
            !old(self).even_latch ==> *final(self) == (NoiseChannel {
                even_latch: true,
                ..*old(self)
            }),
            old(self).even_latch && old(self).timer > 0 ==> *final(self) == (NoiseChannel {
                even_latch: false,
                timer: (old(self).timer - 1) as u16,
                ..*old(self)
            }),
            old(self).even_latch && old(self).timer == 0 ==> *final(self) == (NoiseChannel {
                even_latch: false,
                timer: old(self).timer_period,
                shift: spec_lfsr_step(old(self).shift, old(self).shift_mode),
                ..*old(self)
            }),
    {
        if self.even_latch {
            if self.timer > 0 {
                self.timer = self.timer - 1;
            } else {
                self.timer = self.timer_period;
                let tap: u16 = if self.shift_mode {
                    (self.shift >> 6) & 1
                } else {
                    (self.shift >> 1) & 1
                };
                let feedback = (self.shift & 1) ^ tap;
                proof {
                    let s = old(self).shift;
                    assert((((s >> 6) & 1) << 14) < 0x8000u16 && (((s >> 1) & 1) << 14) < 0x8000u16
                        && ((((s & 1) ^ ((s >> 6) & 1)) << 14)) < 0x8000u16 && ((((s & 1) ^ ((s
                        >> 1) & 1)) << 14)) < 0x8000u16) by (bit_vector);
                }
                self.shift = (self.shift >> 1) | (feedback << 14);
            }
        }
        self.even_latch = !self.even_latch;
    }

    /// Write one of the channel's registers: envelope setup, period
    /// select and mode, or a length reload with an envelope restart.
    /// The second register slot has no function on this channel.
    pub fn update_register(&mut self, register_offset: u16, data: u8)
        requires
            register_offset == 0 || register_offset == 2 || register_offset == 3,
            spec_noise_wf(*old(self)),
        ensures
            spec_noise_wf(*final(self)),
            register_offset == 0 ==> *final(self) == (NoiseChannel {
                length_counter: (LengthCounter {
                    halt: (data >> 5) & 1 == 1,
                    ..old(self).length_counter
                }),
                envelope: (Envelope {
                    loop_flag: (data >> 5) & 1 == 1,
                    constant_volume: (data >> 4) & 1 == 1,
                    period: data & 0x0F,
                    ..old(self).envelope
                }),
                ..*old(self)
            }),
            register_offset == 2 ==> *final(self) == (NoiseChannel {
                timer_period: spec_noise_period((data & 0x0F) as int),
                shift_mode: (data >> 7) & 1 == 1,
                ..*old(self)
            }),
            register_offset == 3 ==> *final(self) == (NoiseChannel {
                length_counter: (LengthCounter {
                    counter: if old(self).length_counter.enabled {
                        spec_length_value(data >> 3)
                    } else {
                        old(self).length_counter.counter
                    },
                    ..old(self).length_counter
                }),
                envelope: (Envelope { start: true, ..old(self).envelope }),
                ..*old(self)
            }),
    {
        if register_offset == 0 {
            proof {
                assert(data & 0x0F < 16) by (bit_vector);
            }
            self.length_counter.halt = (data >> 5) & 1 == 1;
            self.envelope.loop_flag = (data >> 5) & 1 == 1;
            self.envelope.constant_volume = (data >> 4) & 1 == 1;
            self.envelope.period = data & 0x0F;
        } else if register_offset == 2 {
            let i = data & 0x0F;
            proof {
                assert(data & 0x0F < 16) by (bit_vector);
            }
            self.timer_period = if i == 0 {
                0x004
            } else if i == 1 {
                0x008
            } else if i == 2 {
                0x010
            } else if i == 3 {
                0x020
            } else if i == 4 {
                0x040
            } else if i == 5 {
                0x060
            } else if i == 6 {
                0x080
            } else if i == 7 {
                0x0A0
            } else if i == 8 {
                0x0CA
            } else if i == 9 {
                0x0FE
            } else if i == 10 {
                0x17C
            } else if i == 11 {
                0x1FC
            } else if i == 12 {
                0x2FA
            } else if i == 13 {
                0x3F8
            } else if i == 14 {
                0x7F2
            } else {
                0xFE4
            };
            self.shift_mode = (data >> 7) & 1 == 1;
        } else {
            if self.length_counter.enabled {
                self.length_counter.load(data >> 3);
            }
            self.envelope.start = true;
        }
    }

    /// The channel's current sample.
    pub fn output(&self) -> (r: u8)
        ensures
            r == spec_noise_output(*self),
    {
        if self.shift & 1 == 1 || self.length_counter.counter == 0 {
            0
        } else {
            self.envelope.get_volume()
        }
    }
}

} // verus!
