//! The APU length counter: gates a channel off when it reaches zero,
//! and freezes while its halt flag is set.

use vstd::prelude::*;

verus! {

/// The note-length table's even-index half: linear lengths and note
/// values in 4/4 at 90 bpm.
pub open spec fn spec_length_lo(i: int) -> u8 {
    if i == 0 {
        0x0A
    } else if i == 1 {
        0x14
    } else if i == 2 {
        0x28
    } else if i == 3 {
        0x50
    } else if i == 4 {
        0xA0
    } else if i == 5 {
        0x3C
    } else if i == 6 {
        0x0E
    } else if i == 7 {
        0x1A
    } else if i == 8 {
        0x0C
    } else if i == 9 {
        0x18
    } else if i == 10 {
        0x30
    } else if i == 11 {
        0x60
    } else if i == 12 {
        0xC0
    } else if i == 13 {
        0x48
    } else if i == 14 {
        0x10
    } else {
        0x20
    }
}

/// The note-length table's odd-index half: note values in 4/4 at
/// 75 bpm.
pub open spec fn spec_length_hi(i: int) -> u8 {
    if i == 0 {
        0xFE
    } else {
        (2 * i) as u8
    }
}

/// The counter value a 5-bit load index selects.
pub open spec fn spec_length_value(idx: u8) -> u8 {
    if (idx >> 4) & 1 == 1 {
        spec_length_hi((idx & 0x0F) as int)
    } else {
        spec_length_lo((idx & 0x0F) as int)
    }
}

/// A length counter.
#[derive(Clone, Copy, PartialEq, Eq, Structural, Debug)]
pub struct LengthCounter {
    pub enabled: bool,
    pub counter: u8,
    pub halt: bool,
}

impl LengthCounter {
    /// A disabled counter at zero.
    pub fn new() -> (r: LengthCounter)
        ensures
            r == (LengthCounter { enabled: false, counter: 0, halt: false }),
    {
        LengthCounter { enabled: false, counter: 0, halt: false }
    }

    /// One frame-sequencer clock: the counter decrements towards zero,
    /// but freezes entirely while the halt flag is set.
    pub fn tick(&mut self)
        ensures
            final(self).enabled == old(self).enabled,
            final(self).halt == old(self).halt,
            old(self).halt ==> final(self).counter == old(self).counter,
            !old(self).halt && old(self).counter > 0 ==> final(self).counter == old(self).counter
                - 1,
            !old(self).halt && old(self).counter == 0 ==> final(self).counter == 0,
    {
        if !self.halt && self.counter > 0 {
            self.counter = self.counter - 1;
        }
    }

    /// Drive the channel-enable bit: disabling zeroes the counter.
    pub fn update_enabled(&mut self, control_bit: u8)
        ensures
            final(self).halt == old(self).halt,
            control_bit == 1 ==> *final(self) == (LengthCounter { enabled: true, ..*old(self) }),
            control_bit != 1 ==> *final(self) == (LengthCounter {
                enabled: false,
                counter: 0,
                ..*old(self)
            }),
    {
        if control_bit == 1 {
            self.enabled = true;
        } else {
            self.enabled = false;
            self.counter = 0;
        }
    }

    /// Load the counter from the 5-bit note-length table index.
    pub fn load(&mut self, length_table_index: u8)
        ensures
            *final(self) == (LengthCounter {
                counter: spec_length_value(length_table_index),
                ..*old(self)
            }),
    {
        let lo = length_table_index & 0x0F;
        proof {
            assert(length_table_index & 0x0F < 16) by (bit_vector);
        }
        if (length_table_index >> 4) & 1 == 1 {
            self.counter = if lo == 0 {
                0xFE
            } else {
                2 * lo
            };
        } else {
            self.counter = if lo == 0 {
                0x0A
            } else if lo == 1 {
                0x14
            } else if lo == 2 {
                0x28
            } else if lo == 3 {
                0x50
            } else if lo == 4 {
                0xA0
            } else if lo == 5 {
                0x3C
            } else if lo == 6 {
                0x0E
            } else if lo == 7 {
                0x1A
            } else if lo == 8 {
                0x0C
            } else if lo == 9 {
                0x18
            } else if lo == 10 {
                0x30
            } else if lo == 11 {
                0x60
            } else if lo == 12 {
                0xC0
            } else if lo == 13 {
                0x48
            } else if lo == 14 {
                0x10
            } else {
                0x20
            };
        }
    }
}

} // verus!
