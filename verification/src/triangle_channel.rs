//! The APU triangle channel: a 32-step sequencer walking the triangle
//! table, gated by both a length counter and a linear counter.

use crate::length_counter::LengthCounter;
use crate::length_counter::spec_length_value;
use vstd::prelude::*;

verus! {

/// The 32-step triangle table: 15 down to 0, then 0 back up to 15.
pub open spec fn spec_triangle_value(step: u8) -> u8 {
    let t = step % 32;
    if t < 16 {
        (15 - t) as u8
    } else {
        (t - 16) as u8
    }
}

/// The APU triangle channel.
pub struct TriangleChannel {
    pub timer: u16,
    pub timer_period: u16,
    pub sequence_step: u8,
    pub length_counter: LengthCounter,
    pub linear_enable: bool,
    pub linear_control: bool,
    pub linear_counter: u8,
    pub linear_period: u8,
    pub linear_reset: bool,
}

/// The channel after one CPU cycle: the timer counts down every
/// cycle, and its expiry advances the 32-step sequencer.
pub open spec fn spec_triangle_tick(t: TriangleChannel) -> TriangleChannel {
    if t.timer > 0 {
        TriangleChannel { timer: (t.timer - 1) as u16, ..t }
    } else {
        TriangleChannel {
            timer: t.timer_period,
            sequence_step: ((t.sequence_step + 1) % 32) as u8,
            ..t
        }
    }
}

/// The channel's current sample: silent when either gate has run out,
/// else the triangle-table value at the current step.
pub open spec fn spec_triangle_output(t: TriangleChannel) -> u8 {
    if t.length_counter.counter == 0 || t.linear_counter == 0 {
        0
    } else {
        spec_triangle_value(t.sequence_step)
    }
}

impl TriangleChannel {
    /// A silent triangle channel.
    pub fn new() -> (r: TriangleChannel)
        ensures
            r.timer == 0 && r.timer_period == 0 && r.sequence_step == 0,
            r.length_counter == (LengthCounter { enabled: false, counter: 0, halt: false }),
            !r.linear_enable && !r.linear_control && r.linear_counter == 0 && r.linear_period == 0
                && !r.linear_reset,
    {
        TriangleChannel {
            timer: 0,
            timer_period: 0,
            sequence_step: 0,
            length_counter: LengthCounter::new(),
            linear_enable: false,
            linear_control: false,
            linear_counter: 0,
            linear_period: 0,
            linear_reset: false,
        }
    }

    /// One CPU cycle: the timer counts down every cycle, and its
    /// expiry advances the 32-step sequencer.
    pub fn tick(&mut self)
        ensures
            *final(self) == spec_triangle_tick(*old(self)),
            old(self).timer > 0 ==> *final(self) == (TriangleChannel {
                timer: (old(self).timer - 1) as u16,
                ..*old(self)
            }),
            old(self).timer == 0 ==> *final(self) == (TriangleChannel {
                timer: old(self).timer_period,
                sequence_step: ((old(self).sequence_step + 1) % 32) as u8,
                ..*old(self)
            }),
    {
        if self.timer > 0 {
            self.timer = self.timer - 1;
        } else {
            self.timer = self.timer_period;
            self.sequence_step = self.sequence_step.wrapping_add(1) % 32;
        }
    }

    /// One frame-sequencer clock of the linear counter: a pending
    /// reset reloads it, else it counts down; the reset flag sticks
    /// while the control bit holds it.
    pub fn tick_linear(&mut self)
        ensures
            final(self).linear_counter == if old(self).linear_reset {
                old(self).linear_period
            } else if old(self).linear_counter > 0 {
                (old(self).linear_counter - 1) as u8
            } else {
                0u8
            },
            final(self).linear_reset == (old(self).linear_reset && old(self).linear_control),
            *final(self) == (TriangleChannel {
                linear_counter: final(self).linear_counter,
                linear_reset: final(self).linear_reset,
                ..*old(self)
            }),
    {
        if self.linear_reset {
            self.linear_counter = self.linear_period;
        } else if self.linear_counter > 0 {
            self.linear_counter = self.linear_counter - 1;
        }
        if !self.linear_control {
            self.linear_reset = false;
        }
    }

    /// Write one of the channel's registers: linear-counter setup, the
    /// period low byte, or the period high bits with a length reload.
    /// The second register slot has no function on this channel.
    pub fn update_register(&mut self, register_offset: u16, data: u8)
        requires
            register_offset == 0 || register_offset == 2 || register_offset == 3,
        ensures
            register_offset == 0 ==> *final(self) == (TriangleChannel {
                length_counter: (LengthCounter {
                    halt: (data >> 7) & 1 == 1,
                    ..old(self).length_counter
                }),
                linear_control: (data >> 7) & 1 == 1,
                linear_period: data & 0x7F,
                ..*old(self)
            }),
            register_offset == 2 ==> *final(self) == (TriangleChannel {
                timer_period: (old(self).timer_period & 0xFF00) | data as u16,
                ..*old(self)
            }),
            register_offset == 3 ==> *final(self) == (TriangleChannel {
                timer_period: (old(self).timer_period & 0x00FF) | (((data & 0x07) as u16) << 8),
                length_counter: (LengthCounter {
                    counter: if old(self).length_counter.enabled {
                        spec_length_value(data >> 3)
                    } else {
                        old(self).length_counter.counter
                    },
                    ..old(self).length_counter
                }),
                linear_reset: true,
                ..*old(self)
            }),
    {
        if register_offset == 0 {
            self.length_counter.halt = (data >> 7) & 1 == 1;
            self.linear_control = (data >> 7) & 1 == 1;
            self.linear_period = data & 0x7F;
        } else if register_offset == 2 {
            self.timer_period = (self.timer_period & 0xFF00) | (data as u16);
        } else {
            self.timer_period = (self.timer_period & 0x00FF) | (((data & 0x07) as u16) << 8);
            if self.length_counter.enabled {
                self.length_counter.load(data >> 3);
            }
            self.linear_reset = true;
        }
    }

    /// The channel's current sample.
    pub fn output(&self) -> (r: u8)
        ensures
            r == spec_triangle_output(*self),
    {
        if self.length_counter.counter == 0 || self.linear_counter == 0 {
            0
        } else {
            let t = self.sequence_step % 32;
            if t < 16 {
                15 - t
            } else {
                t - 16
            }
        }
    }
}

} // verus!
