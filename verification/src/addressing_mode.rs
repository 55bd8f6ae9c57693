//! The thirteen addressing modes of the 6502 and the number of operand
//! bytes each one consumes after the opcode byte.

use vstd::prelude::*;

verus! {

/// An addressing mode of the 6502.
#[derive(Clone, Copy, PartialEq, Eq, Structural, Debug)]
pub enum AddressingMode {
    /// Accumulator
    ACC,
    /// Immediate
    IMM,
    /// Absolute
    ABS,
    /// Zero page
    ZER,
    /// Zero page, X-indexed
    ZEX,
    /// Zero page, Y-indexed
    ZEY,
    /// Absolute, X-indexed
    ABX,
    /// Absolute, Y-indexed
    ABY,
    /// Implied
    IMP,
    /// Relative
    REL,
    /// Indirect, X-indexed
    INX,
    /// Indirect, Y-indexed
    INY,
    /// Absolute indirect
    ABI,
}

/// How many operand bytes follow the opcode byte in this mode.
pub open spec fn spec_operand_length(mode: AddressingMode) -> u16 {
    match mode {
        AddressingMode::ACC => 0,
        AddressingMode::IMM => 1,
        AddressingMode::ABS => 2,
        AddressingMode::ZER => 1,
        AddressingMode::ZEX => 1,
        AddressingMode::ZEY => 1,
        AddressingMode::ABX => 2,
        AddressingMode::ABY => 2,
        AddressingMode::IMP => 0,
        AddressingMode::REL => 1,
        AddressingMode::INX => 1,
        AddressingMode::INY => 1,
        AddressingMode::ABI => 2,
    }
}

impl AddressingMode {
    /// How many operand bytes follow the opcode byte in this mode.
    pub fn operand_length(&self) -> (r: u16)
        ensures
            r == spec_operand_length(*self),
            r <= 2,
    {
        match self {
            AddressingMode::ACC => 0,
            AddressingMode::IMM => 1,
            AddressingMode::ABS => 2,
            AddressingMode::ZER => 1,
            AddressingMode::ZEX => 1,
            AddressingMode::ZEY => 1,
            AddressingMode::ABX => 2,
            AddressingMode::ABY => 2,
            AddressingMode::IMP => 0,
            AddressingMode::REL => 1,
            AddressingMode::INX => 1,
            AddressingMode::INY => 1,
            AddressingMode::ABI => 2,
        }
    }
}

} // verus!
