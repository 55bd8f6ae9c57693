//! Controller ports `$4016`/`$4017`: a strobe latch and an 8-bit shift
//! register read out one button per read, and an inert port for an
//! unplugged controller.

use vstd::prelude::*;

verus! {

/// A standard NES controller on one of the two ports.
pub struct StandardController {
    pub is_controller_1: bool,
    pub shift_strobe: bool,
    pub state_shift: u8,
}

impl StandardController {
    /// A controller with the strobe down and an empty shift register.
    pub fn new(is_controller_1: bool) -> (r: StandardController)
        ensures
            r.is_controller_1 == is_controller_1,
            !r.shift_strobe,
            r.state_shift == 0,
    {
        StandardController { is_controller_1, shift_strobe: false, state_shift: 0 }
    }

    /// Whether the port address belongs to this controller.
    pub open spec fn owns(&self, addr: u16) -> bool {
        (addr == 0x4016 && self.is_controller_1) || (addr == 0x4017 && !self.is_controller_1)
    }

    /// Whether the strobe is up, so the shift register keeps reloading.
    pub fn get_shift_strobe(&self) -> (r: bool)
        ensures
            r == self.shift_strobe,
    {
        self.shift_strobe
    }

    /// Load the current button state into the shift register.
    pub fn set_state_shift(&mut self, val: u8)
        ensures
            *final(self) == (StandardController { state_shift: val, ..*old(self) }),
    {
        self.state_shift = val;
    }

    /// Read the port: the low bit of the shift register, which then
    /// shifts right once unless the strobe holds it. A read of the
    /// other port returns 0 and changes nothing.
    pub fn read(&mut self, addr: u16) -> (r: u8)
        ensures
            old(self).owns(addr) ==> r == (old(self).state_shift & 1) && *final(self) == (
            StandardController {
                state_shift: if old(self).shift_strobe {
                    old(self).state_shift
                } else {
                    old(self).state_shift >> 1
                },
                ..*old(self)
            }),
            !old(self).owns(addr) ==> r == 0 && *final(self) == *old(self),
    {
        if (addr == 0x4016 && self.is_controller_1) || (addr == 0x4017 && !self.is_controller_1) {
            let out = self.state_shift & 1;
            if !self.shift_strobe {
                self.state_shift = self.state_shift >> 1;
            }
            out
        } else {
            0
        }
    }

    /// Read the port without shifting.
    pub fn peek(&self, addr: u16) -> (r: u8)
        ensures
            self.owns(addr) ==> r == (self.state_shift & 1),
            !self.owns(addr) ==> r == 0,
    {
        if (addr == 0x4016 && self.is_controller_1) || (addr == 0x4017 && !self.is_controller_1) {
            self.state_shift & 1
        } else {
            0
        }
    }

    /// Write the port: bit 0 at `$4016` drives controller 1's strobe.
    /// Other writes change nothing.
    pub fn write(&mut self, addr: u16, data: u8)
        ensures
            addr == 0x4016 && old(self).is_controller_1 ==> *final(self) == (StandardController {
                shift_strobe: (data & 1) == 1,
                ..*old(self)
            }),
            !(addr == 0x4016 && old(self).is_controller_1) ==> *final(self) == *old(self),
    {
        if addr == 0x4016 && self.is_controller_1 {
            self.shift_strobe = (data & 1) == 1;
        }
    }
}

/// An unplugged controller port: reads return 0, writes are dropped.
pub struct NoController {}

impl NoController {
    /// An unplugged port.
    pub fn new() -> (r: NoController) {
        NoController {  }
    }

    /// An unplugged port never strobes.
    pub fn get_shift_strobe(&self) -> (r: bool)
        ensures
            !r,
    {
        false
    }

    /// Reads of an unplugged port return 0.
    pub fn read(&mut self, _addr: u16) -> (r: u8)
        ensures
            r == 0,
            *final(self) == *old(self),
    {
        0
    }

    /// Reads of an unplugged port return 0.
    pub fn peek(&self, _addr: u16) -> (r: u8)
        ensures
            r == 0,
    {
        0
    }

    /// Writes to an unplugged port are dropped.
    pub fn write(&mut self, _addr: u16, _data: u8)
        ensures
            *final(self) == *old(self),
    {
    }
}

} // verus!
