//! The 6502 status register `P`: seven physical flags plus the two
//! synthesized break bits that only exist on values pushed to the stack.

use vstd::prelude::*;

verus! {

/// Carry flag (bit 0).
pub const CARRY: u8 = 0x01;
/// Zero flag (bit 1).
pub const ZERO: u8 = 0x02;
/// Interrupt-disable flag (bit 2).
pub const IRQ_DISABLE: u8 = 0x04;
/// Decimal flag (bit 3); present but inert on the 2A03.
pub const DECIMAL: u8 = 0x08;
/// Break flag low bit (bit 4); synthesized on pushes, never stored.
pub const BREAK_LO: u8 = 0x10;
/// Break flag high bit (bit 5); always reads back as set.
pub const BREAK_HI: u8 = 0x20;
/// Overflow flag (bit 6).
pub const OVERFLOW: u8 = 0x40;
/// Negative flag (bit 7).
pub const NEGATIVE: u8 = 0x80;

/// The status register, kept as its raw 8-bit image.
pub struct StatusRegister {
    pub bits: u8,
}

impl StatusRegister {
    /// Build a status register directly from its 8-bit image.
    pub fn from_bits(bits: u8) -> (r: StatusRegister)
        ensures
            r.bits == bits,
    {
        StatusRegister { bits }
    }

    /// The raw 8-bit image of the register.
    pub fn bits(&self) -> (r: u8)
        ensures
            r == self.bits,
    {
        self.bits
    }

    /// Whether every flag in `flag` is set.
    pub fn contains(&self, flag: u8) -> (r: bool)
        ensures
            r == ((self.bits & flag) == flag),
    {
        (self.bits & flag) == flag
    }

    /// Set every flag in `flag`.
    pub fn insert(&mut self, flag: u8)
        ensures
            final(self).bits == (old(self).bits | flag),
    {
        self.bits = self.bits | flag;
    }

    /// Clear every flag in `flag`.
    pub fn remove(&mut self, flag: u8)
        ensures
            final(self).bits == (old(self).bits & !flag),
    {
        self.bits = self.bits & !flag;
    }

    /// Set or clear every flag in `flag` according to `value`.
    pub fn set(&mut self, flag: u8, value: bool)
        ensures
            final(self).bits == if value {
                (old(self).bits | flag)
            } else {
                (old(self).bits & !flag)
            },
    {
        if value {
            self.insert(flag);
        } else {
            self.remove(flag);
        }
    }

    /// Load the register from a byte popped off the stack: the low break
    /// bit is discarded and the high one is forced on, as PLP and RTI do.
    pub fn set_from_stack(&mut self, val: u8)
        ensures
            final(self).bits == ((val & !BREAK_LO) | BREAK_HI),
    {
        self.bits = (val & !BREAK_LO) | BREAK_HI;
    }
}

} // verus!
