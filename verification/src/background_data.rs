//! The background pipeline's fetch latches and shift registers.

use vstd::prelude::*;

verus! {

/// The bytes fetched for the next background tile.
#[derive(Clone, Copy, PartialEq, Eq, Structural, Debug)]
pub struct BackgroundLatches {
    pub nt_byte: u8,
    pub attr_byte: u8,
    pub patt_lo: u8,
    pub patt_hi: u8,
}

/// The background shift registers: two 16-bit pattern shifters and two
/// 8-bit attribute shifters refilled from a latch bit pair.
#[derive(Clone, Copy, PartialEq, Eq, Structural, Debug)]
pub struct BackgroundShifts {
    pub attr_shift_0: u8,
    pub attr_shift_1: u8,
    pub attr_latch_0: bool,
    pub attr_latch_1: bool,
    pub patt_shift_0: u16,
    pub patt_shift_1: u16,
}

/// The whole background fetch state.
#[derive(Clone, Copy, PartialEq, Eq, Structural, Debug)]
pub struct BackgroundData {
    pub latch: BackgroundLatches,
    pub shift: BackgroundShifts,
}

impl BackgroundData {
    /// Empty latches and shifters.
    pub fn new() -> (r: BackgroundData)
        ensures
            r == (BackgroundData {
                latch: (BackgroundLatches { nt_byte: 0, attr_byte: 0, patt_lo: 0, patt_hi: 0 }),
                shift: (BackgroundShifts {
                    attr_shift_0: 0,
                    attr_shift_1: 0,
                    attr_latch_0: false,
                    attr_latch_1: false,
                    patt_shift_0: 0,
                    patt_shift_1: 0,
                }),
            }),
    {
        BackgroundData {
            latch: BackgroundLatches { nt_byte: 0, attr_byte: 0, patt_lo: 0, patt_hi: 0 },
            shift: BackgroundShifts {
                attr_shift_0: 0,
                attr_shift_1: 0,
                attr_latch_0: false,
                attr_latch_1: false,
                patt_shift_0: 0,
                patt_shift_1: 0,
            },
        }
    }
}

} // verus!
