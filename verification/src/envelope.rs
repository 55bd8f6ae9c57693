//! The APU envelope unit: a divider that steps a 4-bit decay counter,
//! optionally looping, or a constant volume.

use vstd::prelude::*;

verus! {

/// An envelope generator.
#[derive(Clone, Copy, PartialEq, Eq, Structural, Debug)]
pub struct Envelope {
    pub constant_volume: bool,
    pub loop_flag: bool,
    pub start: bool,
    /// Either the constant volume or the divider period.
    pub period: u8,
    pub timer: u8,
    pub decay_counter: u8,
}

/// The bounds the envelope keeps: its period and decay counter are
/// 4-bit values.
pub open spec fn spec_envelope_wf(e: Envelope) -> bool {
    &&& e.period < 16
    &&& e.decay_counter < 16
}

/// The envelope after one frame-sequencer clock: a pending start
/// reloads the decay counter at 15; otherwise the divider counts down
/// and, on expiry, steps the decay counter, reloading it at 15 when
/// looping.
pub open spec fn spec_envelope_tick(e: Envelope) -> Envelope {
    if e.start {
        Envelope { start: false, decay_counter: 15, timer: e.period, ..e }
    } else if e.timer > 0 {
        Envelope { timer: (e.timer - 1) as u8, ..e }
    } else if e.decay_counter > 0 {
        Envelope { timer: e.period, decay_counter: (e.decay_counter - 1) as u8, ..e }
    } else if e.loop_flag {
        Envelope { timer: e.period, decay_counter: 15, ..e }
    } else {
        Envelope { timer: e.period, ..e }
    }
}

impl Envelope {
    /// A silent envelope.
    pub fn new() -> (r: Envelope)
        ensures
            r == (Envelope {
                constant_volume: false,
                loop_flag: false,
                start: false,
                period: 0,
                timer: 0,
                decay_counter: 0,
            }),
    {
        Envelope {
            constant_volume: false,
            loop_flag: false,
            start: false,
            period: 0,
            timer: 0,
            decay_counter: 0,
        }
    }

    /// One frame-sequencer clock, as `spec_envelope_tick` describes.
    pub fn tick(&mut self)
        ensures
            *final(self) == spec_envelope_tick(*old(self)),
    {
        if self.start {
            self.start = false;
            self.decay_counter = 15;
            self.timer = self.period;
        } else {
            if self.timer > 0 {
                self.timer = self.timer - 1;
            } else {
                self.timer = self.period;
                if self.decay_counter > 0 {
                    self.decay_counter = self.decay_counter - 1;
                } else if self.loop_flag {
                    self.decay_counter = 15;
                }
            }
        }
    }

    /// The current volume: the constant one, or the decay counter.
    pub fn get_volume(&self) -> (r: u8)
        ensures
            r == if self.constant_volume {
                self.period
            } else {
                self.decay_counter
            },
    {
        if self.constant_volume {
            self.period
        } else {
            self.decay_counter
        }
    }
}

} // verus!
