//! The opcode table: every byte decodes to a mnemonic, an addressing
//! mode, and a base cycle cost, covering the official instructions and
//! the undocumented ones that commercial software relies on.

use crate::addressing_mode::AddressingMode;
use vstd::prelude::*;

verus! {

/// An instruction mnemonic. The `Ill` prefix marks undocumented opcodes.
#[derive(Clone, Copy, PartialEq, Eq, Structural, Debug)]
pub enum Mnemonic {
    Adc, And, Asl, Bcc, Bcs, Beq, Bit, Bmi, Bne, Bpl, Brk, Bvc, Bvs,
    Clc, Cld, Cli, Clv, Cmp, Cpx, Cpy, Dec, Dex, Dey, Eor, Inc, Inx,
    Iny, Jmp, Jsr, Lda, Ldx, Ldy, Lsr, Nop, Ora, Pha, Php, Pla, Plp,
    Rol, Ror, Rti, Rts, Sbc, Sec, Sed, Sei, Sta, Stx, Sty, Tax, Tay,
    Tsx, Txa, Txs, Tya,
    /// Halts the CPU; subsequent ticks are no-ops.
    Stp,
    IllNop, IllSlo, IllRla, IllSre, IllRra, IllSax, IllSbc, IllLax,
    IllLas, IllDcp, IllIsb, IllAnc, IllAlr, IllArr, IllAxs,
}

/// One entry of the opcode table.
#[derive(Clone, Copy, PartialEq, Eq, Structural, Debug)]
pub struct Instruction {
    pub mnemonic: Mnemonic,
    pub mode: AddressingMode,
    pub cycles: u32,
}

/// What each opcode byte decodes to.
pub open spec fn spec_decode(opcode: u8) -> Instruction {
    match opcode {
        0x00 => Instruction { mnemonic: Mnemonic::Brk, mode: AddressingMode::IMP, cycles: 7 },
        0x01 => Instruction { mnemonic: Mnemonic::Ora, mode: AddressingMode::INX, cycles: 6 },
        0x02 => Instruction { mnemonic: Mnemonic::Stp, mode: AddressingMode::IMM, cycles: 2 },
        0x03 => Instruction { mnemonic: Mnemonic::IllSlo, mode: AddressingMode::INX, cycles: 8 },
        0x04 => Instruction { mnemonic: Mnemonic::IllNop, mode: AddressingMode::ZER, cycles: 3 },
        0x05 => Instruction { mnemonic: Mnemonic::Ora, mode: AddressingMode::ZER, cycles: 3 },
        0x06 => Instruction { mnemonic: Mnemonic::Asl, mode: AddressingMode::ZER, cycles: 5 },
        0x07 => Instruction { mnemonic: Mnemonic::IllSlo, mode: AddressingMode::ZER, cycles: 5 },
        0x08 => Instruction { mnemonic: Mnemonic::Php, mode: AddressingMode::IMP, cycles: 2 },
        0x09 => Instruction { mnemonic: Mnemonic::Ora, mode: AddressingMode::IMM, cycles: 2 },
        0x0A => Instruction { mnemonic: Mnemonic::Asl, mode: AddressingMode::ACC, cycles: 2 },
        0x0B => Instruction { mnemonic: Mnemonic::IllAnc, mode: AddressingMode::IMM, cycles: 2 },
        0x0C => Instruction { mnemonic: Mnemonic::IllNop, mode: AddressingMode::ABS, cycles: 4 },
        0x0D => Instruction { mnemonic: Mnemonic::Ora, mode: AddressingMode::ABS, cycles: 4 },
        0x0E => Instruction { mnemonic: Mnemonic::Asl, mode: AddressingMode::ABS, cycles: 6 },
        0x0F => Instruction { mnemonic: Mnemonic::IllSlo, mode: AddressingMode::ABS, cycles: 6 },
        0x10 => Instruction { mnemonic: Mnemonic::Bpl, mode: AddressingMode::REL, cycles: 2 },
        0x11 => Instruction { mnemonic: Mnemonic::Ora, mode: AddressingMode::INY, cycles: 5 },
        0x12 => Instruction { mnemonic: Mnemonic::Stp, mode: AddressingMode::ZEX, cycles: 2 },
        0x13 => Instruction { mnemonic: Mnemonic::IllSlo, mode: AddressingMode::INY, cycles: 8 },
        0x14 => Instruction { mnemonic: Mnemonic::IllNop, mode: AddressingMode::ZEX, cycles: 4 },
        0x15 => Instruction { mnemonic: Mnemonic::Ora, mode: AddressingMode::ZEX, cycles: 4 },
        0x16 => Instruction { mnemonic: Mnemonic::Asl, mode: AddressingMode::ZEX, cycles: 6 },
        0x17 => Instruction { mnemonic: Mnemonic::IllSlo, mode: AddressingMode::ZEX, cycles: 6 },
        0x18 => Instruction { mnemonic: Mnemonic::Clc, mode: AddressingMode::IMP, cycles: 2 },
        0x19 => Instruction { mnemonic: Mnemonic::Ora, mode: AddressingMode::ABY, cycles: 4 },
        0x1A => Instruction { mnemonic: Mnemonic::IllNop, mode: AddressingMode::IMP, cycles: 2 },
        0x1B => Instruction { mnemonic: Mnemonic::IllSlo, mode: AddressingMode::ABY, cycles: 7 },
        0x1C => Instruction { mnemonic: Mnemonic::IllNop, mode: AddressingMode::ABX, cycles: 4 },
        0x1D => Instruction { mnemonic: Mnemonic::Ora, mode: AddressingMode::ABX, cycles: 4 },
        0x1E => Instruction { mnemonic: Mnemonic::Asl, mode: AddressingMode::ABX, cycles: 7 },
        0x1F => Instruction { mnemonic: Mnemonic::IllSlo, mode: AddressingMode::ABX, cycles: 7 },
        0x20 => Instruction { mnemonic: Mnemonic::Jsr, mode: AddressingMode::ABS, cycles: 6 },
        0x21 => Instruction { mnemonic: Mnemonic::And, mode: AddressingMode::INX, cycles: 6 },
        0x22 => Instruction { mnemonic: Mnemonic::Stp, mode: AddressingMode::IMM, cycles: 2 },
        0x23 => Instruction { mnemonic: Mnemonic::IllRla, mode: AddressingMode::INX, cycles: 8 },
        0x24 => Instruction { mnemonic: Mnemonic::Bit, mode: AddressingMode::ZER, cycles: 3 },
        0x25 => Instruction { mnemonic: Mnemonic::And, mode: AddressingMode::ZER, cycles: 3 },
        0x26 => Instruction { mnemonic: Mnemonic::Rol, mode: AddressingMode::ZER, cycles: 5 },
        0x27 => Instruction { mnemonic: Mnemonic::IllRla, mode: AddressingMode::ZER, cycles: 5 },
        0x28 => Instruction { mnemonic: Mnemonic::Plp, mode: AddressingMode::IMP, cycles: 2 },
        0x29 => Instruction { mnemonic: Mnemonic::And, mode: AddressingMode::IMM, cycles: 2 },
        0x2A => Instruction { mnemonic: Mnemonic::Rol, mode: AddressingMode::ACC, cycles: 2 },
        0x2B => Instruction { mnemonic: Mnemonic::IllAnc, mode: AddressingMode::IMM, cycles: 2 },
        0x2C => Instruction { mnemonic: Mnemonic::Bit, mode: AddressingMode::ABS, cycles: 4 },
        0x2D => Instruction { mnemonic: Mnemonic::And, mode: AddressingMode::ABS, cycles: 4 },
        0x2E => Instruction { mnemonic: Mnemonic::Rol, mode: AddressingMode::ABS, cycles: 6 },
        0x2F => Instruction { mnemonic: Mnemonic::IllRla, mode: AddressingMode::ABS, cycles: 6 },
        0x30 => Instruction { mnemonic: Mnemonic::Bmi, mode: AddressingMode::REL, cycles: 2 },
        0x31 => Instruction { mnemonic: Mnemonic::And, mode: AddressingMode::INY, cycles: 5 },
        0x32 => Instruction { mnemonic: Mnemonic::Stp, mode: AddressingMode::ZEX, cycles: 2 },
        0x33 => Instruction { mnemonic: Mnemonic::IllRla, mode: AddressingMode::INY, cycles: 8 },
        0x34 => Instruction { mnemonic: Mnemonic::IllNop, mode: AddressingMode::ZEX, cycles: 4 },
        0x35 => Instruction { mnemonic: Mnemonic::And, mode: AddressingMode::ZEX, cycles: 4 },
        0x36 => Instruction { mnemonic: Mnemonic::Rol, mode: AddressingMode::ZEX, cycles: 6 },
        0x37 => Instruction { mnemonic: Mnemonic::IllRla, mode: AddressingMode::ZEX, cycles: 6 },
        0x38 => Instruction { mnemonic: Mnemonic::Sec, mode: AddressingMode::IMP, cycles: 2 },
        0x39 => Instruction { mnemonic: Mnemonic::And, mode: AddressingMode::ABY, cycles: 4 },
        0x3A => Instruction { mnemonic: Mnemonic::IllNop, mode: AddressingMode::IMP, cycles: 2 },
        0x3B => Instruction { mnemonic: Mnemonic::IllRla, mode: AddressingMode::ABY, cycles: 7 },
        0x3C => Instruction { mnemonic: Mnemonic::IllNop, mode: AddressingMode::ABX, cycles: 4 },
        0x3D => Instruction { mnemonic: Mnemonic::And, mode: AddressingMode::ABX, cycles: 4 },
        0x3E => Instruction { mnemonic: Mnemonic::Rol, mode: AddressingMode::ABX, cycles: 7 },
        0x3F => Instruction { mnemonic: Mnemonic::IllRla, mode: AddressingMode::ABX, cycles: 7 },
        0x40 => Instruction { mnemonic: Mnemonic::Rti, mode: AddressingMode::IMP, cycles: 2 },
        0x41 => Instruction { mnemonic: Mnemonic::Eor, mode: AddressingMode::INX, cycles: 6 },
        0x42 => Instruction { mnemonic: Mnemonic::Stp, mode: AddressingMode::IMM, cycles: 2 },
        0x43 => Instruction { mnemonic: Mnemonic::IllSre, mode: AddressingMode::INX, cycles: 8 },
        0x44 => Instruction { mnemonic: Mnemonic::IllNop, mode: AddressingMode::ZER, cycles: 3 },
        0x45 => Instruction { mnemonic: Mnemonic::Eor, mode: AddressingMode::ZER, cycles: 3 },
        0x46 => Instruction { mnemonic: Mnemonic::Lsr, mode: AddressingMode::ZER, cycles: 5 },
        0x47 => Instruction { mnemonic: Mnemonic::IllSre, mode: AddressingMode::ZER, cycles: 5 },
        0x48 => Instruction { mnemonic: Mnemonic::Pha, mode: AddressingMode::IMP, cycles: 2 },
        0x49 => Instruction { mnemonic: Mnemonic::Eor, mode: AddressingMode::IMM, cycles: 2 },
        0x4A => Instruction { mnemonic: Mnemonic::Lsr, mode: AddressingMode::ACC, cycles: 2 },
        0x4B => Instruction { mnemonic: Mnemonic::IllAlr, mode: AddressingMode::IMM, cycles: 2 },
        0x4C => Instruction { mnemonic: Mnemonic::Jmp, mode: AddressingMode::ABS, cycles: 3 },
        0x4D => Instruction { mnemonic: Mnemonic::Eor, mode: AddressingMode::ABS, cycles: 4 },
        0x4E => Instruction { mnemonic: Mnemonic::Lsr, mode: AddressingMode::ABS, cycles: 6 },
        0x4F => Instruction { mnemonic: Mnemonic::IllSre, mode: AddressingMode::ABS, cycles: 6 },
        0x50 => Instruction { mnemonic: Mnemonic::Bvc, mode: AddressingMode::REL, cycles: 2 },
        0x51 => Instruction { mnemonic: Mnemonic::Eor, mode: AddressingMode::INY, cycles: 5 },
        0x52 => Instruction { mnemonic: Mnemonic::Stp, mode: AddressingMode::ZEX, cycles: 2 },
        0x53 => Instruction { mnemonic: Mnemonic::IllSre, mode: AddressingMode::INY, cycles: 8 },
        0x54 => Instruction { mnemonic: Mnemonic::IllNop, mode: AddressingMode::ZEX, cycles: 4 },
        0x55 => Instruction { mnemonic: Mnemonic::Eor, mode: AddressingMode::ZEX, cycles: 4 },
        0x56 => Instruction { mnemonic: Mnemonic::Lsr, mode: AddressingMode::ZEX, cycles: 6 },
        0x57 => Instruction { mnemonic: Mnemonic::IllSre, mode: AddressingMode::ZEX, cycles: 6 },
        0x58 => Instruction { mnemonic: Mnemonic::Cli, mode: AddressingMode::IMP, cycles: 2 },
        0x59 => Instruction { mnemonic: Mnemonic::Eor, mode: AddressingMode::ABY, cycles: 4 },
        0x5A => Instruction { mnemonic: Mnemonic::IllNop, mode: AddressingMode::IMP, cycles: 2 },
        0x5B => Instruction { mnemonic: Mnemonic::IllSre, mode: AddressingMode::ABY, cycles: 7 },
        0x5C => Instruction { mnemonic: Mnemonic::IllNop, mode: AddressingMode::ABX, cycles: 4 },
        0x5D => Instruction { mnemonic: Mnemonic::Eor, mode: AddressingMode::ABX, cycles: 4 },
        0x5E => Instruction { mnemonic: Mnemonic::Lsr, mode: AddressingMode::ABX, cycles: 7 },
        0x5F => Instruction { mnemonic: Mnemonic::IllSre, mode: AddressingMode::ABX, cycles: 7 },
        0x60 => Instruction { mnemonic: Mnemonic::Rts, mode: AddressingMode::IMP, cycles: 2 },
        0x61 => Instruction { mnemonic: Mnemonic::Adc, mode: AddressingMode::INX, cycles: 6 },
        0x62 => Instruction { mnemonic: Mnemonic::Stp, mode: AddressingMode::IMM, cycles: 2 },
        0x63 => Instruction { mnemonic: Mnemonic::IllRra, mode: AddressingMode::INX, cycles: 8 },
        0x64 => Instruction { mnemonic: Mnemonic::IllNop, mode: AddressingMode::ZER, cycles: 3 },
        0x65 => Instruction { mnemonic: Mnemonic::Adc, mode: AddressingMode::ZER, cycles: 3 },
        0x66 => Instruction { mnemonic: Mnemonic::Ror, mode: AddressingMode::ZER, cycles: 5 },
        0x67 => Instruction { mnemonic: Mnemonic::IllRra, mode: AddressingMode::ZER, cycles: 5 },
        0x68 => Instruction { mnemonic: Mnemonic::Pla, mode: AddressingMode::IMP, cycles: 2 },
        0x69 => Instruction { mnemonic: Mnemonic::Adc, mode: AddressingMode::IMM, cycles: 2 },
        0x6A => Instruction { mnemonic: Mnemonic::Ror, mode: AddressingMode::ACC, cycles: 2 },
        0x6B => Instruction { mnemonic: Mnemonic::IllArr, mode: AddressingMode::IMM, cycles: 2 },
        0x6C => Instruction { mnemonic: Mnemonic::Jmp, mode: AddressingMode::ABI, cycles: 5 },
        0x6D => Instruction { mnemonic: Mnemonic::Adc, mode: AddressingMode::ABS, cycles: 4 },
        0x6E => Instruction { mnemonic: Mnemonic::Ror, mode: AddressingMode::ABS, cycles: 6 },
        0x6F => Instruction { mnemonic: Mnemonic::IllRra, mode: AddressingMode::ABS, cycles: 6 },
        0x70 => Instruction { mnemonic: Mnemonic::Bvs, mode: AddressingMode::REL, cycles: 2 },
        0x71 => Instruction { mnemonic: Mnemonic::Adc, mode: AddressingMode::INY, cycles: 5 },
        0x72 => Instruction { mnemonic: Mnemonic::Stp, mode: AddressingMode::ZEX, cycles: 2 },
        0x73 => Instruction { mnemonic: Mnemonic::IllRra, mode: AddressingMode::INY, cycles: 8 },
        0x74 => Instruction { mnemonic: Mnemonic::IllNop, mode: AddressingMode::ZEX, cycles: 4 },
        0x75 => Instruction { mnemonic: Mnemonic::Adc, mode: AddressingMode::ZEX, cycles: 4 },
        0x76 => Instruction { mnemonic: Mnemonic::Ror, mode: AddressingMode::ZEX, cycles: 6 },
        0x77 => Instruction { mnemonic: Mnemonic::IllRra, mode: AddressingMode::ZEX, cycles: 6 },
        0x78 => Instruction { mnemonic: Mnemonic::Sei, mode: AddressingMode::IMP, cycles: 2 },
        0x79 => Instruction { mnemonic: Mnemonic::Adc, mode: AddressingMode::ABY, cycles: 4 },
        0x7A => Instruction { mnemonic: Mnemonic::IllNop, mode: AddressingMode::IMP, cycles: 2 },
        0x7B => Instruction { mnemonic: Mnemonic::IllRra, mode: AddressingMode::ABY, cycles: 7 },
        0x7C => Instruction { mnemonic: Mnemonic::IllNop, mode: AddressingMode::ABX, cycles: 4 },
        0x7D => Instruction { mnemonic: Mnemonic::Adc, mode: AddressingMode::ABX, cycles: 4 },
        0x7E => Instruction { mnemonic: Mnemonic::Ror, mode: AddressingMode::ABX, cycles: 7 },
        0x7F => Instruction { mnemonic: Mnemonic::IllRra, mode: AddressingMode::ABX, cycles: 7 },
        0x80 => Instruction { mnemonic: Mnemonic::IllNop, mode: AddressingMode::IMM, cycles: 2 },
        0x81 => Instruction { mnemonic: Mnemonic::Sta, mode: AddressingMode::INX, cycles: 6 },
        0x82 => Instruction { mnemonic: Mnemonic::IllNop, mode: AddressingMode::IMM, cycles: 2 },
        0x83 => Instruction { mnemonic: Mnemonic::IllSax, mode: AddressingMode::INX, cycles: 6 },
        0x84 => Instruction { mnemonic: Mnemonic::Sty, mode: AddressingMode::ZER, cycles: 3 },
        0x85 => Instruction { mnemonic: Mnemonic::Sta, mode: AddressingMode::ZER, cycles: 3 },
        0x86 => Instruction { mnemonic: Mnemonic::Stx, mode: AddressingMode::ZER, cycles: 3 },
        0x87 => Instruction { mnemonic: Mnemonic::IllSax, mode: AddressingMode::ZER, cycles: 3 },
        0x88 => Instruction { mnemonic: Mnemonic::Dey, mode: AddressingMode::IMP, cycles: 2 },
        0x89 => Instruction { mnemonic: Mnemonic::IllNop, mode: AddressingMode::IMM, cycles: 2 },
        0x8A => Instruction { mnemonic: Mnemonic::Txa, mode: AddressingMode::IMP, cycles: 2 },
        0x8B => Instruction { mnemonic: Mnemonic::IllNop, mode: AddressingMode::IMM, cycles: 2 },
        0x8C => Instruction { mnemonic: Mnemonic::Sty, mode: AddressingMode::ABS, cycles: 4 },
        0x8D => Instruction { mnemonic: Mnemonic::Sta, mode: AddressingMode::ABS, cycles: 4 },
        0x8E => Instruction { mnemonic: Mnemonic::Stx, mode: AddressingMode::ABS, cycles: 4 },
        0x8F => Instruction { mnemonic: Mnemonic::IllSax, mode: AddressingMode::ABS, cycles: 4 },
        0x90 => Instruction { mnemonic: Mnemonic::Bcc, mode: AddressingMode::REL, cycles: 2 },
        0x91 => Instruction { mnemonic: Mnemonic::Sta, mode: AddressingMode::INY, cycles: 6 },
        0x92 => Instruction { mnemonic: Mnemonic::Stp, mode: AddressingMode::IMP, cycles: 2 },
        0x93 => Instruction { mnemonic: Mnemonic::IllNop, mode: AddressingMode::INY, cycles: 6 },
        0x94 => Instruction { mnemonic: Mnemonic::Sty, mode: AddressingMode::ZEX, cycles: 4 },
        0x95 => Instruction { mnemonic: Mnemonic::Sta, mode: AddressingMode::ZEX, cycles: 4 },
        0x96 => Instruction { mnemonic: Mnemonic::Stx, mode: AddressingMode::ZEY, cycles: 4 },
        0x97 => Instruction { mnemonic: Mnemonic::IllSax, mode: AddressingMode::ZEY, cycles: 4 },
        0x98 => Instruction { mnemonic: Mnemonic::Tya, mode: AddressingMode::IMP, cycles: 2 },
        0x99 => Instruction { mnemonic: Mnemonic::Sta, mode: AddressingMode::ABY, cycles: 5 },
        0x9A => Instruction { mnemonic: Mnemonic::Txs, mode: AddressingMode::IMP, cycles: 2 },
        0x9B => Instruction { mnemonic: Mnemonic::IllNop, mode: AddressingMode::ABY, cycles: 5 },
        0x9C => Instruction { mnemonic: Mnemonic::IllNop, mode: AddressingMode::ABX, cycles: 5 },
        0x9D => Instruction { mnemonic: Mnemonic::Sta, mode: AddressingMode::ABX, cycles: 5 },
        0x9E => Instruction { mnemonic: Mnemonic::IllNop, mode: AddressingMode::ABY, cycles: 5 },
        0x9F => Instruction { mnemonic: Mnemonic::IllNop, mode: AddressingMode::ABY, cycles: 5 },
        0xA0 => Instruction { mnemonic: Mnemonic::Ldy, mode: AddressingMode::IMM, cycles: 2 },
        0xA1 => Instruction { mnemonic: Mnemonic::Lda, mode: AddressingMode::INX, cycles: 6 },
        0xA2 => Instruction { mnemonic: Mnemonic::Ldx, mode: AddressingMode::IMM, cycles: 2 },
        0xA3 => Instruction { mnemonic: Mnemonic::IllLax, mode: AddressingMode::INX, cycles: 6 },
        0xA4 => Instruction { mnemonic: Mnemonic::Ldy, mode: AddressingMode::ZER, cycles: 3 },
        0xA5 => Instruction { mnemonic: Mnemonic::Lda, mode: AddressingMode::ZER, cycles: 3 },
        0xA6 => Instruction { mnemonic: Mnemonic::Ldx, mode: AddressingMode::ZER, cycles: 3 },
        0xA7 => Instruction { mnemonic: Mnemonic::IllLax, mode: AddressingMode::ZER, cycles: 3 },
        0xA8 => Instruction { mnemonic: Mnemonic::Tay, mode: AddressingMode::IMP, cycles: 2 },
        0xA9 => Instruction { mnemonic: Mnemonic::Lda, mode: AddressingMode::IMM, cycles: 2 },
        0xAA => Instruction { mnemonic: Mnemonic::Tax, mode: AddressingMode::IMP, cycles: 2 },
        0xAC => Instruction { mnemonic: Mnemonic::Ldy, mode: AddressingMode::ABS, cycles: 4 },
        0xAD => Instruction { mnemonic: Mnemonic::Lda, mode: AddressingMode::ABS, cycles: 4 },
        0xAE => Instruction { mnemonic: Mnemonic::Ldx, mode: AddressingMode::ABS, cycles: 4 },
        0xAF => Instruction { mnemonic: Mnemonic::IllLax, mode: AddressingMode::ABS, cycles: 4 },
        0xB0 => Instruction { mnemonic: Mnemonic::Bcs, mode: AddressingMode::REL, cycles: 2 },
        0xB1 => Instruction { mnemonic: Mnemonic::Lda, mode: AddressingMode::INY, cycles: 5 },
        0xB2 => Instruction { mnemonic: Mnemonic::Stp, mode: AddressingMode::IMP, cycles: 2 },
        0xB3 => Instruction { mnemonic: Mnemonic::IllLax, mode: AddressingMode::INY, cycles: 5 },
        0xB4 => Instruction { mnemonic: Mnemonic::Ldy, mode: AddressingMode::ZEX, cycles: 4 },
        0xB5 => Instruction { mnemonic: Mnemonic::Lda, mode: AddressingMode::ZEX, cycles: 4 },
        0xB6 => Instruction { mnemonic: Mnemonic::Ldx, mode: AddressingMode::ZEY, cycles: 4 },
        0xB7 => Instruction { mnemonic: Mnemonic::IllLax, mode: AddressingMode::ZEY, cycles: 4 },
        0xB8 => Instruction { mnemonic: Mnemonic::Clv, mode: AddressingMode::IMP, cycles: 2 },
        0xB9 => Instruction { mnemonic: Mnemonic::Lda, mode: AddressingMode::ABY, cycles: 4 },
        0xBA => Instruction { mnemonic: Mnemonic::Tsx, mode: AddressingMode::IMP, cycles: 2 },
        0xBB => Instruction { mnemonic: Mnemonic::IllLas, mode: AddressingMode::ABY, cycles: 4 },
        0xBC => Instruction { mnemonic: Mnemonic::Ldy, mode: AddressingMode::ABX, cycles: 4 },
        0xBD => Instruction { mnemonic: Mnemonic::Lda, mode: AddressingMode::ABX, cycles: 4 },
        0xBE => Instruction { mnemonic: Mnemonic::Ldx, mode: AddressingMode::ABY, cycles: 4 },
        0xBF => Instruction { mnemonic: Mnemonic::IllLax, mode: AddressingMode::ABY, cycles: 4 },
        0xC0 => Instruction { mnemonic: Mnemonic::Cpy, mode: AddressingMode::IMM, cycles: 2 },
        0xC1 => Instruction { mnemonic: Mnemonic::Cmp, mode: AddressingMode::INX, cycles: 6 },
        0xC2 => Instruction { mnemonic: Mnemonic::IllNop, mode: AddressingMode::IMM, cycles: 2 },
        0xC3 => Instruction { mnemonic: Mnemonic::IllDcp, mode: AddressingMode::INX, cycles: 8 },
        0xC4 => Instruction { mnemonic: Mnemonic::Cpy, mode: AddressingMode::ZER, cycles: 3 },
        0xC5 => Instruction { mnemonic: Mnemonic::Cmp, mode: AddressingMode::ZER, cycles: 3 },
        0xC6 => Instruction { mnemonic: Mnemonic::Dec, mode: AddressingMode::ZER, cycles: 5 },
        0xC7 => Instruction { mnemonic: Mnemonic::IllDcp, mode: AddressingMode::ZER, cycles: 5 },
        0xC8 => Instruction { mnemonic: Mnemonic::Iny, mode: AddressingMode::IMP, cycles: 2 },
        0xC9 => Instruction { mnemonic: Mnemonic::Cmp, mode: AddressingMode::IMM, cycles: 2 },
        0xCA => Instruction { mnemonic: Mnemonic::Dex, mode: AddressingMode::IMP, cycles: 2 },
        0xCB => Instruction { mnemonic: Mnemonic::IllAxs, mode: AddressingMode::IMM, cycles: 2 },
        0xCC => Instruction { mnemonic: Mnemonic::Cpy, mode: AddressingMode::ABS, cycles: 4 },
        0xCD => Instruction { mnemonic: Mnemonic::Cmp, mode: AddressingMode::ABS, cycles: 4 },
        0xCE => Instruction { mnemonic: Mnemonic::Dec, mode: AddressingMode::ABS, cycles: 6 },
        0xCF => Instruction { mnemonic: Mnemonic::IllDcp, mode: AddressingMode::ABS, cycles: 6 },
        0xD0 => Instruction { mnemonic: Mnemonic::Bne, mode: AddressingMode::REL, cycles: 2 },
        0xD1 => Instruction { mnemonic: Mnemonic::Cmp, mode: AddressingMode::INY, cycles: 5 },
        0xD2 => Instruction { mnemonic: Mnemonic::Stp, mode: AddressingMode::ZEX, cycles: 2 },
        0xD3 => Instruction { mnemonic: Mnemonic::IllDcp, mode: AddressingMode::INY, cycles: 8 },
        0xD4 => Instruction { mnemonic: Mnemonic::IllNop, mode: AddressingMode::ZEX, cycles: 4 },
        0xD5 => Instruction { mnemonic: Mnemonic::Cmp, mode: AddressingMode::ZEX, cycles: 4 },
        0xD6 => Instruction { mnemonic: Mnemonic::Dec, mode: AddressingMode::ZEX, cycles: 6 },
        0xD7 => Instruction { mnemonic: Mnemonic::IllDcp, mode: AddressingMode::ZEX, cycles: 6 },
        0xD8 => Instruction { mnemonic: Mnemonic::Cld, mode: AddressingMode::IMP, cycles: 2 },
        0xD9 => Instruction { mnemonic: Mnemonic::Cmp, mode: AddressingMode::ABY, cycles: 4 },
        0xDA => Instruction { mnemonic: Mnemonic::IllNop, mode: AddressingMode::IMP, cycles: 2 },
        0xDB => Instruction { mnemonic: Mnemonic::IllDcp, mode: AddressingMode::ABY, cycles: 7 },
        0xDC => Instruction { mnemonic: Mnemonic::IllNop, mode: AddressingMode::ABX, cycles: 4 },
        0xDD => Instruction { mnemonic: Mnemonic::Cmp, mode: AddressingMode::ABX, cycles: 4 },
        0xDE => Instruction { mnemonic: Mnemonic::Dec, mode: AddressingMode::ABX, cycles: 7 },
        0xDF => Instruction { mnemonic: Mnemonic::IllDcp, mode: AddressingMode::ABX, cycles: 7 },
        0xE0 => Instruction { mnemonic: Mnemonic::Cpx, mode: AddressingMode::IMM, cycles: 2 },
        0xE1 => Instruction { mnemonic: Mnemonic::Sbc, mode: AddressingMode::INX, cycles: 6 },
        0xE2 => Instruction { mnemonic: Mnemonic::IllNop, mode: AddressingMode::IMM, cycles: 2 },
        0xE3 => Instruction { mnemonic: Mnemonic::IllIsb, mode: AddressingMode::INX, cycles: 8 },
        0xE4 => Instruction { mnemonic: Mnemonic::Cpx, mode: AddressingMode::ZER, cycles: 3 },
        0xE5 => Instruction { mnemonic: Mnemonic::Sbc, mode: AddressingMode::ZER, cycles: 3 },
        0xE6 => Instruction { mnemonic: Mnemonic::Inc, mode: AddressingMode::ZER, cycles: 5 },
        0xE7 => Instruction { mnemonic: Mnemonic::IllIsb, mode: AddressingMode::ZER, cycles: 5 },
        0xE8 => Instruction { mnemonic: Mnemonic::Inx, mode: AddressingMode::IMP, cycles: 2 },
        0xE9 => Instruction { mnemonic: Mnemonic::Sbc, mode: AddressingMode::IMM, cycles: 2 },
        0xEA => Instruction { mnemonic: Mnemonic::Nop, mode: AddressingMode::IMP, cycles: 2 },
        0xEB => Instruction { mnemonic: Mnemonic::IllSbc, mode: AddressingMode::IMM, cycles: 2 },
        0xEC => Instruction { mnemonic: Mnemonic::Cpx, mode: AddressingMode::ABS, cycles: 4 },
        0xED => Instruction { mnemonic: Mnemonic::Sbc, mode: AddressingMode::ABS, cycles: 4 },
        0xEE => Instruction { mnemonic: Mnemonic::Inc, mode: AddressingMode::ABS, cycles: 6 },
        0xEF => Instruction { mnemonic: Mnemonic::IllIsb, mode: AddressingMode::ABS, cycles: 6 },
        0xF0 => Instruction { mnemonic: Mnemonic::Beq, mode: AddressingMode::REL, cycles: 2 },
        0xF1 => Instruction { mnemonic: Mnemonic::Sbc, mode: AddressingMode::INY, cycles: 5 },
        0xF2 => Instruction { mnemonic: Mnemonic::Stp, mode: AddressingMode::ZEX, cycles: 2 },
        0xF3 => Instruction { mnemonic: Mnemonic::IllIsb, mode: AddressingMode::INY, cycles: 8 },
        0xF4 => Instruction { mnemonic: Mnemonic::IllNop, mode: AddressingMode::ZEX, cycles: 4 },
        0xF5 => Instruction { mnemonic: Mnemonic::Sbc, mode: AddressingMode::ZEX, cycles: 4 },
        0xF6 => Instruction { mnemonic: Mnemonic::Inc, mode: AddressingMode::ZEX, cycles: 6 },
        0xF7 => Instruction { mnemonic: Mnemonic::IllIsb, mode: AddressingMode::ZEX, cycles: 6 },
        0xF8 => Instruction { mnemonic: Mnemonic::Sed, mode: AddressingMode::IMP, cycles: 2 },
        0xF9 => Instruction { mnemonic: Mnemonic::Sbc, mode: AddressingMode::ABY, cycles: 4 },
        0xFA => Instruction { mnemonic: Mnemonic::IllNop, mode: AddressingMode::IMP, cycles: 2 },
        0xFB => Instruction { mnemonic: Mnemonic::IllIsb, mode: AddressingMode::ABY, cycles: 7 },
        0xFC => Instruction { mnemonic: Mnemonic::IllNop, mode: AddressingMode::ABX, cycles: 4 },
        0xFD => Instruction { mnemonic: Mnemonic::Sbc, mode: AddressingMode::ABX, cycles: 4 },
        0xFE => Instruction { mnemonic: Mnemonic::Inc, mode: AddressingMode::ABX, cycles: 7 },
        0xFF => Instruction { mnemonic: Mnemonic::IllIsb, mode: AddressingMode::ABX, cycles: 7 },
            _ => Instruction { mnemonic: Mnemonic::IllNop, mode: AddressingMode::IMM, cycles: 2 },
    }
}

impl Instruction {
    /// Decode an opcode byte. Every byte decodes to something: the few
    /// opcodes outside the table behave as immediate-mode no-ops.
    #[verifier::rlimit(40)]
    pub fn decode(opcode: u8) -> (r: Instruction)
        ensures
            r == spec_decode(opcode),
    {
        match opcode {
            0x00 => Instruction { mnemonic: Mnemonic::Brk, mode: AddressingMode::IMP, cycles: 7 },
            0x01 => Instruction { mnemonic: Mnemonic::Ora, mode: AddressingMode::INX, cycles: 6 },
            0x02 => Instruction { mnemonic: Mnemonic::Stp, mode: AddressingMode::IMM, cycles: 2 },
            0x03 => Instruction { mnemonic: Mnemonic::IllSlo, mode: AddressingMode::INX, cycles: 8 },
            0x04 => Instruction { mnemonic: Mnemonic::IllNop, mode: AddressingMode::ZER, cycles: 3 },
            0x05 => Instruction { mnemonic: Mnemonic::Ora, mode: AddressingMode::ZER, cycles: 3 },
            0x06 => Instruction { mnemonic: Mnemonic::Asl, mode: AddressingMode::ZER, cycles: 5 },
            0x07 => Instruction { mnemonic: Mnemonic::IllSlo, mode: AddressingMode::ZER, cycles: 5 },
            0x08 => Instruction { mnemonic: Mnemonic::Php, mode: AddressingMode::IMP, cycles: 2 },
            0x09 => Instruction { mnemonic: Mnemonic::Ora, mode: AddressingMode::IMM, cycles: 2 },
            0x0A => Instruction { mnemonic: Mnemonic::Asl, mode: AddressingMode::ACC, cycles: 2 },
            0x0B => Instruction { mnemonic: Mnemonic::IllAnc, mode: AddressingMode::IMM, cycles: 2 },
            0x0C => Instruction { mnemonic: Mnemonic::IllNop, mode: AddressingMode::ABS, cycles: 4 },
            0x0D => Instruction { mnemonic: Mnemonic::Ora, mode: AddressingMode::ABS, cycles: 4 },
            0x0E => Instruction { mnemonic: Mnemonic::Asl, mode: AddressingMode::ABS, cycles: 6 },
            0x0F => Instruction { mnemonic: Mnemonic::IllSlo, mode: AddressingMode::ABS, cycles: 6 },
            0x10 => Instruction { mnemonic: Mnemonic::Bpl, mode: AddressingMode::REL, cycles: 2 },
            0x11 => Instruction { mnemonic: Mnemonic::Ora, mode: AddressingMode::INY, cycles: 5 },
            0x12 => Instruction { mnemonic: Mnemonic::Stp, mode: AddressingMode::ZEX, cycles: 2 },
            0x13 => Instruction { mnemonic: Mnemonic::IllSlo, mode: AddressingMode::INY, cycles: 8 },
            0x14 => Instruction { mnemonic: Mnemonic::IllNop, mode: AddressingMode::ZEX, cycles: 4 },
            0x15 => Instruction { mnemonic: Mnemonic::Ora, mode: AddressingMode::ZEX, cycles: 4 },
            0x16 => Instruction { mnemonic: Mnemonic::Asl, mode: AddressingMode::ZEX, cycles: 6 },
            0x17 => Instruction { mnemonic: Mnemonic::IllSlo, mode: AddressingMode::ZEX, cycles: 6 },
            0x18 => Instruction { mnemonic: Mnemonic::Clc, mode: AddressingMode::IMP, cycles: 2 },
            0x19 => Instruction { mnemonic: Mnemonic::Ora, mode: AddressingMode::ABY, cycles: 4 },
            0x1A => Instruction { mnemonic: Mnemonic::IllNop, mode: AddressingMode::IMP, cycles: 2 },
            0x1B => Instruction { mnemonic: Mnemonic::IllSlo, mode: AddressingMode::ABY, cycles: 7 },
            0x1C => Instruction { mnemonic: Mnemonic::IllNop, mode: AddressingMode::ABX, cycles: 4 },
            0x1D => Instruction { mnemonic: Mnemonic::Ora, mode: AddressingMode::ABX, cycles: 4 },
            0x1E => Instruction { mnemonic: Mnemonic::Asl, mode: AddressingMode::ABX, cycles: 7 },
            0x1F => Instruction { mnemonic: Mnemonic::IllSlo, mode: AddressingMode::ABX, cycles: 7 },
            0x20 => Instruction { mnemonic: Mnemonic::Jsr, mode: AddressingMode::ABS, cycles: 6 },
            0x21 => Instruction { mnemonic: Mnemonic::And, mode: AddressingMode::INX, cycles: 6 },
            0x22 => Instruction { mnemonic: Mnemonic::Stp, mode: AddressingMode::IMM, cycles: 2 },
            0x23 => Instruction { mnemonic: Mnemonic::IllRla, mode: AddressingMode::INX, cycles: 8 },
            0x24 => Instruction { mnemonic: Mnemonic::Bit, mode: AddressingMode::ZER, cycles: 3 },
            0x25 => Instruction { mnemonic: Mnemonic::And, mode: AddressingMode::ZER, cycles: 3 },
            0x26 => Instruction { mnemonic: Mnemonic::Rol, mode: AddressingMode::ZER, cycles: 5 },
            0x27 => Instruction { mnemonic: Mnemonic::IllRla, mode: AddressingMode::ZER, cycles: 5 },
            0x28 => Instruction { mnemonic: Mnemonic::Plp, mode: AddressingMode::IMP, cycles: 2 },
            0x29 => Instruction { mnemonic: Mnemonic::And, mode: AddressingMode::IMM, cycles: 2 },
            0x2A => Instruction { mnemonic: Mnemonic::Rol, mode: AddressingMode::ACC, cycles: 2 },
            0x2B => Instruction { mnemonic: Mnemonic::IllAnc, mode: AddressingMode::IMM, cycles: 2 },
            0x2C => Instruction { mnemonic: Mnemonic::Bit, mode: AddressingMode::ABS, cycles: 4 },
            0x2D => Instruction { mnemonic: Mnemonic::And, mode: AddressingMode::ABS, cycles: 4 },
            0x2E => Instruction { mnemonic: Mnemonic::Rol, mode: AddressingMode::ABS, cycles: 6 },
            0x2F => Instruction { mnemonic: Mnemonic::IllRla, mode: AddressingMode::ABS, cycles: 6 },
            0x30 => Instruction { mnemonic: Mnemonic::Bmi, mode: AddressingMode::REL, cycles: 2 },
            0x31 => Instruction { mnemonic: Mnemonic::And, mode: AddressingMode::INY, cycles: 5 },
            0x32 => Instruction { mnemonic: Mnemonic::Stp, mode: AddressingMode::ZEX, cycles: 2 },
            0x33 => Instruction { mnemonic: Mnemonic::IllRla, mode: AddressingMode::INY, cycles: 8 },
            0x34 => Instruction { mnemonic: Mnemonic::IllNop, mode: AddressingMode::ZEX, cycles: 4 },
            0x35 => Instruction { mnemonic: Mnemonic::And, mode: AddressingMode::ZEX, cycles: 4 },
            0x36 => Instruction { mnemonic: Mnemonic::Rol, mode: AddressingMode::ZEX, cycles: 6 },
            0x37 => Instruction { mnemonic: Mnemonic::IllRla, mode: AddressingMode::ZEX, cycles: 6 },
            0x38 => Instruction { mnemonic: Mnemonic::Sec, mode: AddressingMode::IMP, cycles: 2 },
            0x39 => Instruction { mnemonic: Mnemonic::And, mode: AddressingMode::ABY, cycles: 4 },
            0x3A => Instruction { mnemonic: Mnemonic::IllNop, mode: AddressingMode::IMP, cycles: 2 },
            0x3B => Instruction { mnemonic: Mnemonic::IllRla, mode: AddressingMode::ABY, cycles: 7 },
            0x3C => Instruction { mnemonic: Mnemonic::IllNop, mode: AddressingMode::ABX, cycles: 4 },
            0x3D => Instruction { mnemonic: Mnemonic::And, mode: AddressingMode::ABX, cycles: 4 },
            0x3E => Instruction { mnemonic: Mnemonic::Rol, mode: AddressingMode::ABX, cycles: 7 },
            0x3F => Instruction { mnemonic: Mnemonic::IllRla, mode: AddressingMode::ABX, cycles: 7 },
            0x40 => Instruction { mnemonic: Mnemonic::Rti, mode: AddressingMode::IMP, cycles: 2 },
            0x41 => Instruction { mnemonic: Mnemonic::Eor, mode: AddressingMode::INX, cycles: 6 },
            0x42 => Instruction { mnemonic: Mnemonic::Stp, mode: AddressingMode::IMM, cycles: 2 },
            0x43 => Instruction { mnemonic: Mnemonic::IllSre, mode: AddressingMode::INX, cycles: 8 },
            0x44 => Instruction { mnemonic: Mnemonic::IllNop, mode: AddressingMode::ZER, cycles: 3 },
            0x45 => Instruction { mnemonic: Mnemonic::Eor, mode: AddressingMode::ZER, cycles: 3 },
            0x46 => Instruction { mnemonic: Mnemonic::Lsr, mode: AddressingMode::ZER, cycles: 5 },
            0x47 => Instruction { mnemonic: Mnemonic::IllSre, mode: AddressingMode::ZER, cycles: 5 },
            0x48 => Instruction { mnemonic: Mnemonic::Pha, mode: AddressingMode::IMP, cycles: 2 },
            0x49 => Instruction { mnemonic: Mnemonic::Eor, mode: AddressingMode::IMM, cycles: 2 },
            0x4A => Instruction { mnemonic: Mnemonic::Lsr, mode: AddressingMode::ACC, cycles: 2 },
            0x4B => Instruction { mnemonic: Mnemonic::IllAlr, mode: AddressingMode::IMM, cycles: 2 },
            0x4C => Instruction { mnemonic: Mnemonic::Jmp, mode: AddressingMode::ABS, cycles: 3 },
            0x4D => Instruction { mnemonic: Mnemonic::Eor, mode: AddressingMode::ABS, cycles: 4 },
            0x4E => Instruction { mnemonic: Mnemonic::Lsr, mode: AddressingMode::ABS, cycles: 6 },
            0x4F => Instruction { mnemonic: Mnemonic::IllSre, mode: AddressingMode::ABS, cycles: 6 },
            0x50 => Instruction { mnemonic: Mnemonic::Bvc, mode: AddressingMode::REL, cycles: 2 },
            0x51 => Instruction { mnemonic: Mnemonic::Eor, mode: AddressingMode::INY, cycles: 5 },
            0x52 => Instruction { mnemonic: Mnemonic::Stp, mode: AddressingMode::ZEX, cycles: 2 },
            0x53 => Instruction { mnemonic: Mnemonic::IllSre, mode: AddressingMode::INY, cycles: 8 },
            0x54 => Instruction { mnemonic: Mnemonic::IllNop, mode: AddressingMode::ZEX, cycles: 4 },
            0x55 => Instruction { mnemonic: Mnemonic::Eor, mode: AddressingMode::ZEX, cycles: 4 },
            0x56 => Instruction { mnemonic: Mnemonic::Lsr, mode: AddressingMode::ZEX, cycles: 6 },
            0x57 => Instruction { mnemonic: Mnemonic::IllSre, mode: AddressingMode::ZEX, cycles: 6 },
            0x58 => Instruction { mnemonic: Mnemonic::Cli, mode: AddressingMode::IMP, cycles: 2 },
            0x59 => Instruction { mnemonic: Mnemonic::Eor, mode: AddressingMode::ABY, cycles: 4 },
            0x5A => Instruction { mnemonic: Mnemonic::IllNop, mode: AddressingMode::IMP, cycles: 2 },
            0x5B => Instruction { mnemonic: Mnemonic::IllSre, mode: AddressingMode::ABY, cycles: 7 },
            0x5C => Instruction { mnemonic: Mnemonic::IllNop, mode: AddressingMode::ABX, cycles: 4 },
            0x5D => Instruction { mnemonic: Mnemonic::Eor, mode: AddressingMode::ABX, cycles: 4 },
            0x5E => Instruction { mnemonic: Mnemonic::Lsr, mode: AddressingMode::ABX, cycles: 7 },
            0x5F => Instruction { mnemonic: Mnemonic::IllSre, mode: AddressingMode::ABX, cycles: 7 },
            0x60 => Instruction { mnemonic: Mnemonic::Rts, mode: AddressingMode::IMP, cycles: 2 },
            0x61 => Instruction { mnemonic: Mnemonic::Adc, mode: AddressingMode::INX, cycles: 6 },
            0x62 => Instruction { mnemonic: Mnemonic::Stp, mode: AddressingMode::IMM, cycles: 2 },
            0x63 => Instruction { mnemonic: Mnemonic::IllRra, mode: AddressingMode::INX, cycles: 8 },
            0x64 => Instruction { mnemonic: Mnemonic::IllNop, mode: AddressingMode::ZER, cycles: 3 },
            0x65 => Instruction { mnemonic: Mnemonic::Adc, mode: AddressingMode::ZER, cycles: 3 },
            0x66 => Instruction { mnemonic: Mnemonic::Ror, mode: AddressingMode::ZER, cycles: 5 },
            0x67 => Instruction { mnemonic: Mnemonic::IllRra, mode: AddressingMode::ZER, cycles: 5 },
            0x68 => Instruction { mnemonic: Mnemonic::Pla, mode: AddressingMode::IMP, cycles: 2 },
            0x69 => Instruction { mnemonic: Mnemonic::Adc, mode: AddressingMode::IMM, cycles: 2 },
            0x6A => Instruction { mnemonic: Mnemonic::Ror, mode: AddressingMode::ACC, cycles: 2 },
            0x6B => Instruction { mnemonic: Mnemonic::IllArr, mode: AddressingMode::IMM, cycles: 2 },
            0x6C => Instruction { mnemonic: Mnemonic::Jmp, mode: AddressingMode::ABI, cycles: 5 },
            0x6D => Instruction { mnemonic: Mnemonic::Adc, mode: AddressingMode::ABS, cycles: 4 },
            0x6E => Instruction { mnemonic: Mnemonic::Ror, mode: AddressingMode::ABS, cycles: 6 },
            0x6F => Instruction { mnemonic: Mnemonic::IllRra, mode: AddressingMode::ABS, cycles: 6 },
            0x70 => Instruction { mnemonic: Mnemonic::Bvs, mode: AddressingMode::REL, cycles: 2 },
            0x71 => Instruction { mnemonic: Mnemonic::Adc, mode: AddressingMode::INY, cycles: 5 },
            0x72 => Instruction { mnemonic: Mnemonic::Stp, mode: AddressingMode::ZEX, cycles: 2 },
            0x73 => Instruction { mnemonic: Mnemonic::IllRra, mode: AddressingMode::INY, cycles: 8 },
            0x74 => Instruction { mnemonic: Mnemonic::IllNop, mode: AddressingMode::ZEX, cycles: 4 },
            0x75 => Instruction { mnemonic: Mnemonic::Adc, mode: AddressingMode::ZEX, cycles: 4 },
            0x76 => Instruction { mnemonic: Mnemonic::Ror, mode: AddressingMode::ZEX, cycles: 6 },
            0x77 => Instruction { mnemonic: Mnemonic::IllRra, mode: AddressingMode::ZEX, cycles: 6 },
            0x78 => Instruction { mnemonic: Mnemonic::Sei, mode: AddressingMode::IMP, cycles: 2 },
            0x79 => Instruction { mnemonic: Mnemonic::Adc, mode: AddressingMode::ABY, cycles: 4 },
            0x7A => Instruction { mnemonic: Mnemonic::IllNop, mode: AddressingMode::IMP, cycles: 2 },
            0x7B => Instruction { mnemonic: Mnemonic::IllRra, mode: AddressingMode::ABY, cycles: 7 },
            0x7C => Instruction { mnemonic: Mnemonic::IllNop, mode: AddressingMode::ABX, cycles: 4 },
            0x7D => Instruction { mnemonic: Mnemonic::Adc, mode: AddressingMode::ABX, cycles: 4 },
            0x7E => Instruction { mnemonic: Mnemonic::Ror, mode: AddressingMode::ABX, cycles: 7 },
            0x7F => Instruction { mnemonic: Mnemonic::IllRra, mode: AddressingMode::ABX, cycles: 7 },
            0x80 => Instruction { mnemonic: Mnemonic::IllNop, mode: AddressingMode::IMM, cycles: 2 },
            0x81 => Instruction { mnemonic: Mnemonic::Sta, mode: AddressingMode::INX, cycles: 6 },
            0x82 => Instruction { mnemonic: Mnemonic::IllNop, mode: AddressingMode::IMM, cycles: 2 },
            0x83 => Instruction { mnemonic: Mnemonic::IllSax, mode: AddressingMode::INX, cycles: 6 },
            0x84 => Instruction { mnemonic: Mnemonic::Sty, mode: AddressingMode::ZER, cycles: 3 },
            0x85 => Instruction { mnemonic: Mnemonic::Sta, mode: AddressingMode::ZER, cycles: 3 },
            0x86 => Instruction { mnemonic: Mnemonic::Stx, mode: AddressingMode::ZER, cycles: 3 },
            0x87 => Instruction { mnemonic: Mnemonic::IllSax, mode: AddressingMode::ZER, cycles: 3 },
            0x88 => Instruction { mnemonic: Mnemonic::Dey, mode: AddressingMode::IMP, cycles: 2 },
            0x89 => Instruction { mnemonic: Mnemonic::IllNop, mode: AddressingMode::IMM, cycles: 2 },
            0x8A => Instruction { mnemonic: Mnemonic::Txa, mode: AddressingMode::IMP, cycles: 2 },
            0x8B => Instruction { mnemonic: Mnemonic::IllNop, mode: AddressingMode::IMM, cycles: 2 },
            0x8C => Instruction { mnemonic: Mnemonic::Sty, mode: AddressingMode::ABS, cycles: 4 },
            0x8D => Instruction { mnemonic: Mnemonic::Sta, mode: AddressingMode::ABS, cycles: 4 },
            0x8E => Instruction { mnemonic: Mnemonic::Stx, mode: AddressingMode::ABS, cycles: 4 },
            0x8F => Instruction { mnemonic: Mnemonic::IllSax, mode: AddressingMode::ABS, cycles: 4 },
            0x90 => Instruction { mnemonic: Mnemonic::Bcc, mode: AddressingMode::REL, cycles: 2 },
            0x91 => Instruction { mnemonic: Mnemonic::Sta, mode: AddressingMode::INY, cycles: 6 },
            0x92 => Instruction { mnemonic: Mnemonic::Stp, mode: AddressingMode::IMP, cycles: 2 },
            0x93 => Instruction { mnemonic: Mnemonic::IllNop, mode: AddressingMode::INY, cycles: 6 },
            0x94 => Instruction { mnemonic: Mnemonic::Sty, mode: AddressingMode::ZEX, cycles: 4 },
            0x95 => Instruction { mnemonic: Mnemonic::Sta, mode: AddressingMode::ZEX, cycles: 4 },
            0x96 => Instruction { mnemonic: Mnemonic::Stx, mode: AddressingMode::ZEY, cycles: 4 },
            0x97 => Instruction { mnemonic: Mnemonic::IllSax, mode: AddressingMode::ZEY, cycles: 4 },
            0x98 => Instruction { mnemonic: Mnemonic::Tya, mode: AddressingMode::IMP, cycles: 2 },
            0x99 => Instruction { mnemonic: Mnemonic::Sta, mode: AddressingMode::ABY, cycles: 5 },
            0x9A => Instruction { mnemonic: Mnemonic::Txs, mode: AddressingMode::IMP, cycles: 2 },
            0x9B => Instruction { mnemonic: Mnemonic::IllNop, mode: AddressingMode::ABY, cycles: 5 },
            0x9C => Instruction { mnemonic: Mnemonic::IllNop, mode: AddressingMode::ABX, cycles: 5 },
            0x9D => Instruction { mnemonic: Mnemonic::Sta, mode: AddressingMode::ABX, cycles: 5 },
            0x9E => Instruction { mnemonic: Mnemonic::IllNop, mode: AddressingMode::ABY, cycles: 5 },
            0x9F => Instruction { mnemonic: Mnemonic::IllNop, mode: AddressingMode::ABY, cycles: 5 },
            0xA0 => Instruction { mnemonic: Mnemonic::Ldy, mode: AddressingMode::IMM, cycles: 2 },
            0xA1 => Instruction { mnemonic: Mnemonic::Lda, mode: AddressingMode::INX, cycles: 6 },
            0xA2 => Instruction { mnemonic: Mnemonic::Ldx, mode: AddressingMode::IMM, cycles: 2 },
            0xA3 => Instruction { mnemonic: Mnemonic::IllLax, mode: AddressingMode::INX, cycles: 6 },
            0xA4 => Instruction { mnemonic: Mnemonic::Ldy, mode: AddressingMode::ZER, cycles: 3 },
            0xA5 => Instruction { mnemonic: Mnemonic::Lda, mode: AddressingMode::ZER, cycles: 3 },
            0xA6 => Instruction { mnemonic: Mnemonic::Ldx, mode: AddressingMode::ZER, cycles: 3 },
            0xA7 => Instruction { mnemonic: Mnemonic::IllLax, mode: AddressingMode::ZER, cycles: 3 },
            0xA8 => Instruction { mnemonic: Mnemonic::Tay, mode: AddressingMode::IMP, cycles: 2 },
            0xA9 => Instruction { mnemonic: Mnemonic::Lda, mode: AddressingMode::IMM, cycles: 2 },
            0xAA => Instruction { mnemonic: Mnemonic::Tax, mode: AddressingMode::IMP, cycles: 2 },
            0xAC => Instruction { mnemonic: Mnemonic::Ldy, mode: AddressingMode::ABS, cycles: 4 },
            0xAD => Instruction { mnemonic: Mnemonic::Lda, mode: AddressingMode::ABS, cycles: 4 },
            0xAE => Instruction { mnemonic: Mnemonic::Ldx, mode: AddressingMode::ABS, cycles: 4 },
            0xAF => Instruction { mnemonic: Mnemonic::IllLax, mode: AddressingMode::ABS, cycles: 4 },
            0xB0 => Instruction { mnemonic: Mnemonic::Bcs, mode: AddressingMode::REL, cycles: 2 },
            0xB1 => Instruction { mnemonic: Mnemonic::Lda, mode: AddressingMode::INY, cycles: 5 },
            0xB2 => Instruction { mnemonic: Mnemonic::Stp, mode: AddressingMode::IMP, cycles: 2 },
            0xB3 => Instruction { mnemonic: Mnemonic::IllLax, mode: AddressingMode::INY, cycles: 5 },
            0xB4 => Instruction { mnemonic: Mnemonic::Ldy, mode: AddressingMode::ZEX, cycles: 4 },
            0xB5 => Instruction { mnemonic: Mnemonic::Lda, mode: AddressingMode::ZEX, cycles: 4 },
            0xB6 => Instruction { mnemonic: Mnemonic::Ldx, mode: AddressingMode::ZEY, cycles: 4 },
            0xB7 => Instruction { mnemonic: Mnemonic::IllLax, mode: AddressingMode::ZEY, cycles: 4 },
            0xB8 => Instruction { mnemonic: Mnemonic::Clv, mode: AddressingMode::IMP, cycles: 2 },
            0xB9 => Instruction { mnemonic: Mnemonic::Lda, mode: AddressingMode::ABY, cycles: 4 },
            0xBA => Instruction { mnemonic: Mnemonic::Tsx, mode: AddressingMode::IMP, cycles: 2 },
            0xBB => Instruction { mnemonic: Mnemonic::IllLas, mode: AddressingMode::ABY, cycles: 4 },
            0xBC => Instruction { mnemonic: Mnemonic::Ldy, mode: AddressingMode::ABX, cycles: 4 },
            0xBD => Instruction { mnemonic: Mnemonic::Lda, mode: AddressingMode::ABX, cycles: 4 },
            0xBE => Instruction { mnemonic: Mnemonic::Ldx, mode: AddressingMode::ABY, cycles: 4 },
            0xBF => Instruction { mnemonic: Mnemonic::IllLax, mode: AddressingMode::ABY, cycles: 4 },
            0xC0 => Instruction { mnemonic: Mnemonic::Cpy, mode: AddressingMode::IMM, cycles: 2 },
            0xC1 => Instruction { mnemonic: Mnemonic::Cmp, mode: AddressingMode::INX, cycles: 6 },
            0xC2 => Instruction { mnemonic: Mnemonic::IllNop, mode: AddressingMode::IMM, cycles: 2 },
            0xC3 => Instruction { mnemonic: Mnemonic::IllDcp, mode: AddressingMode::INX, cycles: 8 },
            0xC4 => Instruction { mnemonic: Mnemonic::Cpy, mode: AddressingMode::ZER, cycles: 3 },
            0xC5 => Instruction { mnemonic: Mnemonic::Cmp, mode: AddressingMode::ZER, cycles: 3 },
            0xC6 => Instruction { mnemonic: Mnemonic::Dec, mode: AddressingMode::ZER, cycles: 5 },
            0xC7 => Instruction { mnemonic: Mnemonic::IllDcp, mode: AddressingMode::ZER, cycles: 5 },
            0xC8 => Instruction { mnemonic: Mnemonic::Iny, mode: AddressingMode::IMP, cycles: 2 },
            0xC9 => Instruction { mnemonic: Mnemonic::Cmp, mode: AddressingMode::IMM, cycles: 2 },
            0xCA => Instruction { mnemonic: Mnemonic::Dex, mode: AddressingMode::IMP, cycles: 2 },
            0xCB => Instruction { mnemonic: Mnemonic::IllAxs, mode: AddressingMode::IMM, cycles: 2 },
            0xCC => Instruction { mnemonic: Mnemonic::Cpy, mode: AddressingMode::ABS, cycles: 4 },
            0xCD => Instruction { mnemonic: Mnemonic::Cmp, mode: AddressingMode::ABS, cycles: 4 },
            0xCE => Instruction { mnemonic: Mnemonic::Dec, mode: AddressingMode::ABS, cycles: 6 },
            0xCF => Instruction { mnemonic: Mnemonic::IllDcp, mode: AddressingMode::ABS, cycles: 6 },
            0xD0 => Instruction { mnemonic: Mnemonic::Bne, mode: AddressingMode::REL, cycles: 2 },
            0xD1 => Instruction { mnemonic: Mnemonic::Cmp, mode: AddressingMode::INY, cycles: 5 },
            0xD2 => Instruction { mnemonic: Mnemonic::Stp, mode: AddressingMode::ZEX, cycles: 2 },
            0xD3 => Instruction { mnemonic: Mnemonic::IllDcp, mode: AddressingMode::INY, cycles: 8 },
            0xD4 => Instruction { mnemonic: Mnemonic::IllNop, mode: AddressingMode::ZEX, cycles: 4 },
            0xD5 => Instruction { mnemonic: Mnemonic::Cmp, mode: AddressingMode::ZEX, cycles: 4 },
            0xD6 => Instruction { mnemonic: Mnemonic::Dec, mode: AddressingMode::ZEX, cycles: 6 },
            0xD7 => Instruction { mnemonic: Mnemonic::IllDcp, mode: AddressingMode::ZEX, cycles: 6 },
            0xD8 => Instruction { mnemonic: Mnemonic::Cld, mode: AddressingMode::IMP, cycles: 2 },
            0xD9 => Instruction { mnemonic: Mnemonic::Cmp, mode: AddressingMode::ABY, cycles: 4 },
            0xDA => Instruction { mnemonic: Mnemonic::IllNop, mode: AddressingMode::IMP, cycles: 2 },
            0xDB => Instruction { mnemonic: Mnemonic::IllDcp, mode: AddressingMode::ABY, cycles: 7 },
            0xDC => Instruction { mnemonic: Mnemonic::IllNop, mode: AddressingMode::ABX, cycles: 4 },
            0xDD => Instruction { mnemonic: Mnemonic::Cmp, mode: AddressingMode::ABX, cycles: 4 },
            0xDE => Instruction { mnemonic: Mnemonic::Dec, mode: AddressingMode::ABX, cycles: 7 },
            0xDF => Instruction { mnemonic: Mnemonic::IllDcp, mode: AddressingMode::ABX, cycles: 7 },
            0xE0 => Instruction { mnemonic: Mnemonic::Cpx, mode: AddressingMode::IMM, cycles: 2 },
            0xE1 => Instruction { mnemonic: Mnemonic::Sbc, mode: AddressingMode::INX, cycles: 6 },
            0xE2 => Instruction { mnemonic: Mnemonic::IllNop, mode: AddressingMode::IMM, cycles: 2 },
            0xE3 => Instruction { mnemonic: Mnemonic::IllIsb, mode: AddressingMode::INX, cycles: 8 },
            0xE4 => Instruction { mnemonic: Mnemonic::Cpx, mode: AddressingMode::ZER, cycles: 3 },
            0xE5 => Instruction { mnemonic: Mnemonic::Sbc, mode: AddressingMode::ZER, cycles: 3 },
            0xE6 => Instruction { mnemonic: Mnemonic::Inc, mode: AddressingMode::ZER, cycles: 5 },
            0xE7 => Instruction { mnemonic: Mnemonic::IllIsb, mode: AddressingMode::ZER, cycles: 5 },
            0xE8 => Instruction { mnemonic: Mnemonic::Inx, mode: AddressingMode::IMP, cycles: 2 },
            0xE9 => Instruction { mnemonic: Mnemonic::Sbc, mode: AddressingMode::IMM, cycles: 2 },
            0xEA => Instruction { mnemonic: Mnemonic::Nop, mode: AddressingMode::IMP, cycles: 2 },
            0xEB => Instruction { mnemonic: Mnemonic::IllSbc, mode: AddressingMode::IMM, cycles: 2 },
            0xEC => Instruction { mnemonic: Mnemonic::Cpx, mode: AddressingMode::ABS, cycles: 4 },
            0xED => Instruction { mnemonic: Mnemonic::Sbc, mode: AddressingMode::ABS, cycles: 4 },
            0xEE => Instruction { mnemonic: Mnemonic::Inc, mode: AddressingMode::ABS, cycles: 6 },
            0xEF => Instruction { mnemonic: Mnemonic::IllIsb, mode: AddressingMode::ABS, cycles: 6 },
            0xF0 => Instruction { mnemonic: Mnemonic::Beq, mode: AddressingMode::REL, cycles: 2 },
            0xF1 => Instruction { mnemonic: Mnemonic::Sbc, mode: AddressingMode::INY, cycles: 5 },
            0xF2 => Instruction { mnemonic: Mnemonic::Stp, mode: AddressingMode::ZEX, cycles: 2 },
            0xF3 => Instruction { mnemonic: Mnemonic::IllIsb, mode: AddressingMode::INY, cycles: 8 },
            0xF4 => Instruction { mnemonic: Mnemonic::IllNop, mode: AddressingMode::ZEX, cycles: 4 },
            0xF5 => Instruction { mnemonic: Mnemonic::Sbc, mode: AddressingMode::ZEX, cycles: 4 },
            0xF6 => Instruction { mnemonic: Mnemonic::Inc, mode: AddressingMode::ZEX, cycles: 6 },
            0xF7 => Instruction { mnemonic: Mnemonic::IllIsb, mode: AddressingMode::ZEX, cycles: 6 },
            0xF8 => Instruction { mnemonic: Mnemonic::Sed, mode: AddressingMode::IMP, cycles: 2 },
            0xF9 => Instruction { mnemonic: Mnemonic::Sbc, mode: AddressingMode::ABY, cycles: 4 },
            0xFA => Instruction { mnemonic: Mnemonic::IllNop, mode: AddressingMode::IMP, cycles: 2 },
            0xFB => Instruction { mnemonic: Mnemonic::IllIsb, mode: AddressingMode::ABY, cycles: 7 },
            0xFC => Instruction { mnemonic: Mnemonic::IllNop, mode: AddressingMode::ABX, cycles: 4 },
            0xFD => Instruction { mnemonic: Mnemonic::Sbc, mode: AddressingMode::ABX, cycles: 4 },
            0xFE => Instruction { mnemonic: Mnemonic::Inc, mode: AddressingMode::ABX, cycles: 7 },
            0xFF => Instruction { mnemonic: Mnemonic::IllIsb, mode: AddressingMode::ABX, cycles: 7 },
            _ => Instruction { mnemonic: Mnemonic::IllNop, mode: AddressingMode::IMM, cycles: 2 },
        }
    }
}

} // verus!
