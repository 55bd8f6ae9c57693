//! Execution-trace formatting: the operand text for each addressing
//! mode and the resolved-data suffix, rendered as ASCII bytes in the
//! fixed column layout that 6502 instruction logs use.

use crate::addressing_mode::AddressingMode;
use crate::instruction::Mnemonic;
use crate::bus::CpuBus;
use vstd::prelude::*;

verus! {

/// The ASCII code of hexadecimal digit `n`, for `n` under 16.
pub open spec fn spec_hex_digit(n: u8) -> u8 {
    if n < 10 {
        (0x30 + n) as u8
    } else if n < 16 {
        (0x41 + (n - 10)) as u8
    } else {
        0x3F
    }
}

/// The ASCII code of hexadecimal digit `n`.
pub fn hex_digit(n: u8) -> (r: u8)
    requires
        n < 16,
    ensures
        r == spec_hex_digit(n),
{
    if n < 10 {
        0x30 + n
    } else {
        0x41 + (n - 10)
    }
}

/// The two hexadecimal digits of a byte.
pub open spec fn spec_hex2(v: u8) -> Seq<u8> {
    seq![spec_hex_digit(v / 16), spec_hex_digit(v % 16)]
}

/// The four hexadecimal digits of a 16-bit word.
pub open spec fn spec_hex4(v: u16) -> Seq<u8> {
    spec_hex2((v >> 8) as u8) + spec_hex2((v & 0xFF) as u8)
}

/// The ` = ` separator of the data suffix.
pub open spec fn spec_eq_sep() -> Seq<u8> {
    seq![0x20u8, 0x3Du8, 0x20u8]
}

/// The ` @ ` separator of the data suffix.
pub open spec fn spec_at_sep() -> Seq<u8> {
    seq![0x20u8, 0x40u8, 0x20u8]
}

/// The decimal digits of `n`, most significant first.
pub open spec fn spec_decimal(n: u64) -> Seq<u8>
    decreases n,
{
    if n < 10 {
        seq![spec_hex_digit((n % 10) as u8)]
    } else {
        spec_decimal(n / 10).push(spec_hex_digit((n % 10) as u8))
    }
}

/// Append `v` as two upper-case hexadecimal digits.
pub fn push_hex2(out: &mut Vec<u8>, v: u8)
    ensures
        final(out)@ == old(out)@ + spec_hex2(v),
{
    out.push(hex_digit(v / 16));
    out.push(hex_digit(v % 16));
    proof {
        assert(final(out)@ =~= old(out)@ + spec_hex2(v));
    }
}

/// Append `v` as four upper-case hexadecimal digits.
pub fn push_hex4(out: &mut Vec<u8>, v: u16)
    ensures
        final(out)@ == old(out)@ + spec_hex4(v),
{
    push_hex2(out, (v >> 8) as u8);
    push_hex2(out, (v & 0xFF) as u8);
    proof {
        assert(final(out)@ =~= old(out)@ + spec_hex4(v));
    }
}

/// Append `n` in decimal.
pub fn push_decimal(out: &mut Vec<u8>, n: u64)
    ensures
        final(out)@ == old(out)@ + spec_decimal(n),
    decreases n,
{
    if n >= 10 {
        push_decimal(out, n / 10);
    }
    out.push(hex_digit((n % 10) as u8));
    proof {
        assert(final(out)@ =~= old(out)@ + spec_decimal(n));
    }
}

/// Append every byte of `text`.
pub fn push_bytes(out: &mut Vec<u8>, text: &Vec<u8>)
    ensures
        final(out)@ == old(out)@ + text@,
{
    let mut i: usize = 0;
    while i < text.len()
        invariant
            i <= text@.len(),
            out@ == old(out)@ + text@.take(i as int),
        decreases text@.len() - i,
    {
        out.push(text[i]);
        i = i + 1;
        proof {
            assert(old(out)@ + text@.take(i as int) == (old(out)@ + text@.take(i - 1)).push(
                text@[i - 1],
            ));
        }
    }
    proof {
        assert(text@.take(text@.len() as int) =~= text@);
    }
}

impl AddressingMode {
    /// The operand text of an instruction at `pc` with the given
    /// operand bytes: `A` for the accumulator, `#$` for immediates,
    /// `$` plus the address for direct modes with the index register
    /// appended, parentheses for the indirect modes, and the resolved
    /// target for branches.
    pub fn format(&self, pc: u16, operands: u16) -> (r: Vec<u8>)
        ensures
            r@.len() <= 7,
            self == AddressingMode::IMP ==> r@ == Seq::<u8>::empty(),
            self == AddressingMode::ACC ==> r@ == seq![0x41u8],
            self == AddressingMode::IMM ==> r@ == seq![0x23u8, 0x24u8] + spec_hex2(
                (operands & 0xFF) as u8,
            ),
            self == AddressingMode::ABS ==> r@ == seq![0x24u8] + spec_hex4(operands),
            self == AddressingMode::ZER ==> r@ == seq![0x24u8] + spec_hex2((operands & 0xFF) as u8),
            self == AddressingMode::ZEX ==> r@ == seq![0x24u8] + spec_hex2((operands & 0xFF) as u8)
                + seq![0x2Cu8, 0x58u8],
            self == AddressingMode::ZEY ==> r@ == seq![0x24u8] + spec_hex2((operands & 0xFF) as u8)
                + seq![0x2Cu8, 0x59u8],
            self == AddressingMode::ABX ==> r@ == seq![0x24u8] + spec_hex4(operands) + seq![
                0x2Cu8,
                0x58u8,
            ],
            self == AddressingMode::ABY ==> r@ == seq![0x24u8] + spec_hex4(operands) + seq![
                0x2Cu8,
                0x59u8,
            ],
            self == AddressingMode::REL ==> ({
                let offset = (operands & 0xFF) as u8;
                let signed: u16 = if offset >= 0x80 {
                    (offset as u16) | 0xFF00
                } else {
                    offset as u16
                };
                let dest = vstd::wrapping::u16_specs::wrapping_add(
                    vstd::wrapping::u16_specs::wrapping_add(pc, 2),
                    signed,
                );
                r@ == seq![0x24u8] + spec_hex4(dest)
            }),
            self == AddressingMode::INX ==> r@ == seq![0x28u8, 0x24u8] + spec_hex2(
                (operands & 0xFF) as u8,
            ) + seq![0x2Cu8, 0x58u8, 0x29u8],
            self == AddressingMode::INY ==> r@ == seq![0x28u8, 0x24u8] + spec_hex2(
                (operands & 0xFF) as u8,
            ) + seq![0x29u8, 0x2Cu8, 0x59u8],
            self == AddressingMode::ABI ==> r@ == seq![0x28u8, 0x24u8] + spec_hex4(operands)
                + seq![0x29u8],
    {
        let mut out: Vec<u8> = Vec::new();
        match self {
            AddressingMode::ACC => {
                out.push(0x41);  // A
            },
            AddressingMode::IMM => {
                out.push(0x23);  // #
                out.push(0x24);  // $
                push_hex2(&mut out, (operands & 0xFF) as u8);
            },
            AddressingMode::ABS => {
                out.push(0x24);
                push_hex4(&mut out, operands);
            },
            AddressingMode::ZER => {
                out.push(0x24);
                push_hex2(&mut out, (operands & 0xFF) as u8);
            },
            AddressingMode::ZEX => {
                out.push(0x24);
                push_hex2(&mut out, (operands & 0xFF) as u8);
                out.push(0x2C);  // ,
                out.push(0x58);  // X
            },
            AddressingMode::ZEY => {
                out.push(0x24);
                push_hex2(&mut out, (operands & 0xFF) as u8);
                out.push(0x2C);
                out.push(0x59);  // Y
            },
            AddressingMode::ABX => {
                out.push(0x24);
                push_hex4(&mut out, operands);
                out.push(0x2C);
                out.push(0x58);
            },
            AddressingMode::ABY => {
                out.push(0x24);
                push_hex4(&mut out, operands);
                out.push(0x2C);
                out.push(0x59);
            },
            AddressingMode::IMP => {},
            AddressingMode::REL => {
                let offset = (operands & 0xFF) as u8;
                let signed: u16 = if offset >= 0x80 {
                    (offset as u16) | 0xFF00
                } else {
                    offset as u16
                };
                let dest = pc.wrapping_add(2).wrapping_add(signed);
                out.push(0x24);
                push_hex4(&mut out, dest);
            },
            AddressingMode::INX => {
                out.push(0x28);  // (
                out.push(0x24);
                push_hex2(&mut out, (operands & 0xFF) as u8);
                out.push(0x2C);
                out.push(0x58);
                out.push(0x29);  // )
            },
            AddressingMode::INY => {
                out.push(0x28);
                out.push(0x24);
                push_hex2(&mut out, (operands & 0xFF) as u8);
                out.push(0x29);
                out.push(0x2C);
                out.push(0x59);
            },
            AddressingMode::ABI => {
                out.push(0x28);
                out.push(0x24);
                push_hex4(&mut out, operands);
                out.push(0x29);
            },
        }
        proof {
            if self == AddressingMode::IMM {
                assert(out@ =~= seq![0x23u8, 0x24u8] + spec_hex2((operands & 0xFF) as u8));
            }
            if self == AddressingMode::ABS {
                assert(out@ =~= seq![0x24u8] + spec_hex4(operands));
            }
            if self == AddressingMode::ZER {
                assert(out@ =~= seq![0x24u8] + spec_hex2((operands & 0xFF) as u8));
            }
            if self == AddressingMode::ZEX {
                assert(out@ =~= seq![0x24u8] + spec_hex2((operands & 0xFF) as u8) + seq![
                    0x2Cu8,
                    0x58u8,
                ]);
            }
            if self == AddressingMode::ZEY {
                assert(out@ =~= seq![0x24u8] + spec_hex2((operands & 0xFF) as u8) + seq![
                    0x2Cu8,
                    0x59u8,
                ]);
            }
            if self == AddressingMode::ABX {
                assert(out@ =~= seq![0x24u8] + spec_hex4(operands) + seq![0x2Cu8, 0x58u8]);
            }
            if self == AddressingMode::ABY {
                assert(out@ =~= seq![0x24u8] + spec_hex4(operands) + seq![0x2Cu8, 0x59u8]);
            }
            if self == AddressingMode::INX {
                assert(out@ =~= seq![0x28u8, 0x24u8] + spec_hex2((operands & 0xFF) as u8) + seq![
                    0x2Cu8,
                    0x58u8,
                    0x29u8,
                ]);
            }
            if self == AddressingMode::INY {
                assert(out@ =~= seq![0x28u8, 0x24u8] + spec_hex2((operands & 0xFF) as u8) + seq![
                    0x29u8,
                    0x2Cu8,
                    0x59u8,
                ]);
            }
            if self == AddressingMode::ABI {
                assert(out@ =~= seq![0x28u8, 0x24u8] + spec_hex4(operands) + seq![0x29u8]);
            }
            if self == AddressingMode::ACC {
                assert(out@ =~= seq![0x41u8]);
            }
        }
        out
    }

    /// The resolved-data suffix for an instruction at `pc`: the
    /// effective address the index registers produce and the byte
    /// found there, in the ` = vv` / ` @ aa = vv` shapes each mode
    /// uses. Jumps print nothing. All memory access is peeking, so
    /// building a trace never disturbs the machine.
    pub fn format_data(&self, pc: u16, x: u8, y: u8, memory: &CpuBus) -> (r: Vec<u8>)
        requires
            memory.wf(),
        ensures
            r@.len() <= 19,
            memory.spec_peek(pc) == 0x20 || memory.spec_peek(pc) == 0x4C ==> r@ == Seq::<
                u8,
            >::empty(),
            memory.spec_peek(pc) != 0x20 && memory.spec_peek(pc) != 0x4C && pc < 0xFFFD ==> ({
                let o1 = memory.spec_peek((pc + 1) as u16);
                let word = crate::util::spec_word(o1, memory.spec_peek((pc + 2) as u16));
                &&& (self == AddressingMode::ZER ==> r@ == spec_eq_sep() + spec_hex2(
                    memory.spec_peek(o1 as u16),
                ))
                &&& (self == AddressingMode::ZEX ==> ({
                    let t = vstd::wrapping::u8_specs::wrapping_add(o1, x);
                    r@ == spec_at_sep() + spec_hex2(t) + spec_eq_sep() + spec_hex2(
                        memory.spec_peek(t as u16),
                    )
                }))
                &&& (self == AddressingMode::ZEY ==> ({
                    let t = vstd::wrapping::u8_specs::wrapping_add(o1, y);
                    r@ == spec_at_sep() + spec_hex2(t) + spec_eq_sep() + spec_hex2(
                        memory.spec_peek(t as u16),
                    )
                }))
                &&& (self == AddressingMode::ABS ==> r@ == spec_eq_sep() + spec_hex2(
                    memory.spec_peek(word),
                ))
                &&& (self == AddressingMode::ABX ==> ({
                    let t = vstd::wrapping::u16_specs::wrapping_add(word, x as u16);
                    r@ == spec_at_sep() + spec_hex4(t) + spec_eq_sep() + spec_hex2(
                        memory.spec_peek(t),
                    )
                }))
                &&& (self == AddressingMode::ABY ==> ({
                    let t = vstd::wrapping::u16_specs::wrapping_add(word, y as u16);
                    r@ == spec_at_sep() + spec_hex4(t) + spec_eq_sep() + spec_hex2(
                        memory.spec_peek(t),
                    )
                }))
                &&& (self == AddressingMode::INX ==> ({
                    let idx = vstd::wrapping::u8_specs::wrapping_add(o1, x);
                    let t = crate::util::spec_word(
                        memory.spec_peek(idx as u16),
                        memory.spec_peek(vstd::wrapping::u8_specs::wrapping_add(idx, 1) as u16),
                    );
                    r@ == spec_at_sep() + spec_hex2(idx) + spec_eq_sep() + spec_hex4(t)
                        + spec_eq_sep() + spec_hex2(memory.spec_peek(t))
                }))
                &&& (self == AddressingMode::INY ==> ({
                    let base = crate::util::spec_word(
                        memory.spec_peek(o1 as u16),
                        memory.spec_peek(vstd::wrapping::u8_specs::wrapping_add(o1, 1) as u16),
                    );
                    let t = vstd::wrapping::u16_specs::wrapping_add(base, y as u16);
                    r@ == spec_eq_sep() + spec_hex4(base) + spec_at_sep() + spec_hex4(t)
                        + spec_eq_sep() + spec_hex2(memory.spec_peek(t))
                }))
                &&& (self == AddressingMode::ABI ==> ({
                    let hi_addr = if word & 0x00FF == 0x00FF {
                        (word & 0xFF00) as u16
                    } else {
                        vstd::wrapping::u16_specs::wrapping_add(word, 1)
                    };
                    r@ == spec_eq_sep() + spec_hex4(
                        crate::util::spec_word(
                            memory.spec_peek(word),
                            memory.spec_peek(hi_addr),
                        ),
                    )
                }))
                &&& (self == AddressingMode::ACC || self == AddressingMode::IMM || self
                    == AddressingMode::IMP || self == AddressingMode::REL ==> r@ == Seq::<
                    u8,
                >::empty())
            }),
    {
        let opcode = memory.peek(pc);
        if opcode == 0x20 || opcode == 0x4C {
            // JSR and the absolute jump print no data
            return Vec::new();
        }
        let mut out: Vec<u8> = Vec::new();
        match self {
            AddressingMode::ABS => {
                let target = memory.peek_u16(pc.wrapping_add(1));
                push_eq(&mut out);
                push_hex2(&mut out, memory.peek(target));
            },
            AddressingMode::ZER => {
                let target = memory.peek(pc.wrapping_add(1)) as u16;
                push_eq(&mut out);
                push_hex2(&mut out, memory.peek(target));
            },
            AddressingMode::ZEX => {
                let target = memory.peek(pc.wrapping_add(1)).wrapping_add(x);
                push_at(&mut out);
                push_hex2(&mut out, target);
                push_eq(&mut out);
                push_hex2(&mut out, memory.peek(target as u16));
            },
            AddressingMode::ZEY => {
                let target = memory.peek(pc.wrapping_add(1)).wrapping_add(y);
                push_at(&mut out);
                push_hex2(&mut out, target);
                push_eq(&mut out);
                push_hex2(&mut out, memory.peek(target as u16));
            },
            AddressingMode::ABX => {
                let target = memory.peek_u16(pc.wrapping_add(1)).wrapping_add(x as u16);
                push_at(&mut out);
                push_hex4(&mut out, target);
                push_eq(&mut out);
                push_hex2(&mut out, memory.peek(target));
            },
            AddressingMode::ABY => {
                let target = memory.peek_u16(pc.wrapping_add(1)).wrapping_add(y as u16);
                push_at(&mut out);
                push_hex4(&mut out, target);
                push_eq(&mut out);
                push_hex2(&mut out, memory.peek(target));
            },
            AddressingMode::INX => {
                let index = memory.peek(pc.wrapping_add(1)).wrapping_add(x);
                let lo = memory.peek(index as u16);
                let hi = memory.peek(index.wrapping_add(1) as u16);
                let target = crate::util::word(lo, hi);
                push_at(&mut out);
                push_hex2(&mut out, index);
                push_eq(&mut out);
                push_hex4(&mut out, target);
                push_eq(&mut out);
                push_hex2(&mut out, memory.peek(target));
            },
            AddressingMode::INY => {
                let index = memory.peek(pc.wrapping_add(1));
                let lo = memory.peek(index as u16);
                let hi = memory.peek(index.wrapping_add(1) as u16);
                let addr_base = crate::util::word(lo, hi);
                let target = addr_base.wrapping_add(y as u16);
                push_eq(&mut out);
                push_hex4(&mut out, addr_base);
                push_at(&mut out);
                push_hex4(&mut out, target);
                push_eq(&mut out);
                push_hex2(&mut out, memory.peek(target));
            },
            AddressingMode::ABI => {
                let addr = memory.peek_u16(pc.wrapping_add(1));
                let hi_addr = if addr & 0x00FF == 0x00FF {
                    addr & 0xFF00
                } else {
                    addr.wrapping_add(1)
                };
                let hi = memory.peek(hi_addr);
                let lo = memory.peek(addr);
                push_eq(&mut out);
                push_hex4(&mut out, crate::util::word(lo, hi));
            },
            _ => {},
        }
        out
    }
}


/// The display name of a mnemonic, with undocumented opcodes starred.
pub fn mnemonic_text(m: Mnemonic) -> (r: Vec<u8>)
    ensures
        3 <= r@.len() <= 4,
{
    let mut out: Vec<u8> = Vec::new();
    match m {
            Mnemonic::Adc => {
                out.push(0x41); out.push(0x44); out.push(0x43);
            },
            Mnemonic::And => {
                out.push(0x41); out.push(0x4E); out.push(0x44);
            },
            Mnemonic::Asl => {
                out.push(0x41); out.push(0x53); out.push(0x4C);
            },
            Mnemonic::Bcc => {
                out.push(0x42); out.push(0x43); out.push(0x43);
            },
            Mnemonic::Bcs => {
                out.push(0x42); out.push(0x43); out.push(0x53);
            },
            Mnemonic::Beq => {
                out.push(0x42); out.push(0x45); out.push(0x51);
            },
            Mnemonic::Bit => {
                out.push(0x42); out.push(0x49); out.push(0x54);
            },
            Mnemonic::Bmi => {
                out.push(0x42); out.push(0x4D); out.push(0x49);
            },
            Mnemonic::Bne => {
                out.push(0x42); out.push(0x4E); out.push(0x45);
            },
            Mnemonic::Bpl => {
                out.push(0x42); out.push(0x50); out.push(0x4C);
            },
            Mnemonic::Brk => {
                out.push(0x42); out.push(0x52); out.push(0x4B);
            },
            Mnemonic::Bvc => {
                out.push(0x42); out.push(0x56); out.push(0x43);
            },
            Mnemonic::Bvs => {
                out.push(0x42); out.push(0x56); out.push(0x53);
            },
            Mnemonic::Clc => {
                out.push(0x43); out.push(0x4C); out.push(0x43);
            },
            Mnemonic::Cld => {
                out.push(0x43); out.push(0x4C); out.push(0x44);
            },
            Mnemonic::Cli => {
                out.push(0x43); out.push(0x4C); out.push(0x49);
            },
            Mnemonic::Clv => {
                out.push(0x43); out.push(0x4C); out.push(0x56);
            },
            Mnemonic::Cmp => {
                out.push(0x43); out.push(0x4D); out.push(0x50);
            },
            Mnemonic::Cpx => {
                out.push(0x43); out.push(0x50); out.push(0x58);
            },
            Mnemonic::Cpy => {
                out.push(0x43); out.push(0x50); out.push(0x59);
            },
            Mnemonic::Dec => {
                out.push(0x44); out.push(0x45); out.push(0x43);
            },
            Mnemonic::Dex => {
                out.push(0x44); out.push(0x45); out.push(0x58);
            },
            Mnemonic::Dey => {
                out.push(0x44); out.push(0x45); out.push(0x59);
            },
            Mnemonic::Eor => {
                out.push(0x45); out.push(0x4F); out.push(0x52);
            },
            Mnemonic::Inc => {
                out.push(0x49); out.push(0x4E); out.push(0x43);
            },
            Mnemonic::Inx => {
                out.push(0x49); out.push(0x4E); out.push(0x58);
            },
            Mnemonic::Iny => {
                out.push(0x49); out.push(0x4E); out.push(0x59);
            },
            Mnemonic::Jmp => {
                out.push(0x4A); out.push(0x4D); out.push(0x50);
            },
            Mnemonic::Jsr => {
                out.push(0x4A); out.push(0x53); out.push(0x52);
            },
            Mnemonic::Lda => {
                out.push(0x4C); out.push(0x44); out.push(0x41);
            },
            Mnemonic::Ldx => {
                out.push(0x4C); out.push(0x44); out.push(0x58);
            },
            Mnemonic::Ldy => {
                out.push(0x4C); out.push(0x44); out.push(0x59);
            },
            Mnemonic::Lsr => {
                out.push(0x4C); out.push(0x53); out.push(0x52);
            },
            Mnemonic::Nop => {
                out.push(0x4E); out.push(0x4F); out.push(0x50);
            },
            Mnemonic::Ora => {
                out.push(0x4F); out.push(0x52); out.push(0x41);
            },
            Mnemonic::Pha => {
                out.push(0x50); out.push(0x48); out.push(0x41);
            },
            Mnemonic::Php => {
                out.push(0x50); out.push(0x48); out.push(0x50);
            },
            Mnemonic::Pla => {
                out.push(0x50); out.push(0x4C); out.push(0x41);
            },
            Mnemonic::Plp => {
                out.push(0x50); out.push(0x4C); out.push(0x50);
            },
            Mnemonic::Rol => {
                out.push(0x52); out.push(0x4F); out.push(0x4C);
            },
            Mnemonic::Ror => {
                out.push(0x52); out.push(0x4F); out.push(0x52);
            },
            Mnemonic::Rti => {
                out.push(0x52); out.push(0x54); out.push(0x49);
            },
            Mnemonic::Rts => {
                out.push(0x52); out.push(0x54); out.push(0x53);
            },
            Mnemonic::Sbc => {
                out.push(0x53); out.push(0x42); out.push(0x43);
            },
            Mnemonic::Sec => {
                out.push(0x53); out.push(0x45); out.push(0x43);
            },
            Mnemonic::Sed => {
                out.push(0x53); out.push(0x45); out.push(0x44);
            },
            Mnemonic::Sei => {
                out.push(0x53); out.push(0x45); out.push(0x49);
            },
            Mnemonic::Sta => {
                out.push(0x53); out.push(0x54); out.push(0x41);
            },
            Mnemonic::Stx => {
                out.push(0x53); out.push(0x54); out.push(0x58);
            },
            Mnemonic::Sty => {
                out.push(0x53); out.push(0x54); out.push(0x59);
            },
            Mnemonic::Tax => {
                out.push(0x54); out.push(0x41); out.push(0x58);
            },
            Mnemonic::Tay => {
                out.push(0x54); out.push(0x41); out.push(0x59);
            },
            Mnemonic::Tsx => {
                out.push(0x54); out.push(0x53); out.push(0x58);
            },
            Mnemonic::Txa => {
                out.push(0x54); out.push(0x58); out.push(0x41);
            },
            Mnemonic::Txs => {
                out.push(0x54); out.push(0x58); out.push(0x53);
            },
            Mnemonic::Tya => {
                out.push(0x54); out.push(0x59); out.push(0x41);
            },
            Mnemonic::Stp => {
                out.push(0x53); out.push(0x54); out.push(0x50);
            },
            Mnemonic::IllNop => {
                out.push(0x2A); out.push(0x4E); out.push(0x4F); out.push(0x50);
            },
            Mnemonic::IllSlo => {
                out.push(0x2A); out.push(0x53); out.push(0x4C); out.push(0x4F);
            },
            Mnemonic::IllRla => {
                out.push(0x2A); out.push(0x52); out.push(0x4C); out.push(0x41);
            },
            Mnemonic::IllSre => {
                out.push(0x2A); out.push(0x53); out.push(0x52); out.push(0x45);
            },
            Mnemonic::IllRra => {
                out.push(0x2A); out.push(0x52); out.push(0x52); out.push(0x41);
            },
            Mnemonic::IllSax => {
                out.push(0x2A); out.push(0x53); out.push(0x41); out.push(0x58);
            },
            Mnemonic::IllSbc => {
                out.push(0x2A); out.push(0x53); out.push(0x42); out.push(0x43);
            },
            Mnemonic::IllLax => {
                out.push(0x2A); out.push(0x4C); out.push(0x41); out.push(0x58);
            },
            Mnemonic::IllLas => {
                out.push(0x2A); out.push(0x4C); out.push(0x41); out.push(0x53);
            },
            Mnemonic::IllDcp => {
                out.push(0x2A); out.push(0x44); out.push(0x43); out.push(0x50);
            },
            Mnemonic::IllIsb => {
                out.push(0x2A); out.push(0x49); out.push(0x53); out.push(0x42);
            },
            Mnemonic::IllAnc => {
                out.push(0x2A); out.push(0x41); out.push(0x4E); out.push(0x43);
            },
            Mnemonic::IllAlr => {
                out.push(0x2A); out.push(0x41); out.push(0x4C); out.push(0x52);
            },
            Mnemonic::IllArr => {
                out.push(0x2A); out.push(0x41); out.push(0x52); out.push(0x52);
            },
            Mnemonic::IllAxs => {
                out.push(0x2A); out.push(0x41); out.push(0x58); out.push(0x53);
            },
    }
    out
}

/// The register-state suffix of a trace line:
/// `A:.. X:.. Y:.. P:.. SP:.. CYC:n`.
pub open spec fn spec_state_suffix(a: u8, x: u8, y: u8, p: u8, s: u8, cycles: u64) -> Seq<u8> {
    seq![0x41u8, 0x3Au8] + spec_hex2(a) + seq![0x20u8, 0x58u8, 0x3Au8] + spec_hex2(x) + seq![
        0x20u8,
        0x59u8,
        0x3Au8,
    ] + spec_hex2(y) + seq![0x20u8, 0x50u8, 0x3Au8] + spec_hex2(p) + seq![
        0x20u8,
        0x53u8,
        0x50u8,
        0x3Au8,
    ] + spec_hex2(s) + seq![0x20u8, 0x43u8, 0x59u8, 0x43u8, 0x3Au8] + spec_decimal(cycles)
}

/// Append the register-state suffix.
pub fn push_state_suffix(out: &mut Vec<u8>, a: u8, x: u8, y: u8, p: u8, s: u8, cycles: u64)
    ensures
        final(out)@ == old(out)@ + spec_state_suffix(a, x, y, p, s, cycles),
{
    out.push(0x41);
    out.push(0x3A);
    push_hex2(out, a);
    out.push(0x20);
    out.push(0x58);
    out.push(0x3A);
    push_hex2(out, x);
    out.push(0x20);
    out.push(0x59);
    out.push(0x3A);
    push_hex2(out, y);
    out.push(0x20);
    out.push(0x50);
    out.push(0x3A);
    push_hex2(out, p);
    out.push(0x20);
    out.push(0x53);
    out.push(0x50);
    out.push(0x3A);
    push_hex2(out, s);
    out.push(0x20);
    out.push(0x43);
    out.push(0x59);
    out.push(0x43);
    out.push(0x3A);
    push_decimal(out, cycles);
    proof {
        assert(final(out)@ =~= old(out)@ + spec_state_suffix(a, x, y, p, s, cycles));
    }
}

/// Append the ` = ` separator.
fn push_eq(out: &mut Vec<u8>)
    ensures
        final(out)@ == old(out)@.push(0x20u8).push(0x3Du8).push(0x20u8),
{
    out.push(0x20);
    out.push(0x3D);
    out.push(0x20);
}

/// Append the ` @ ` separator.
fn push_at(out: &mut Vec<u8>)
    ensures
        final(out)@ == old(out)@.push(0x20u8).push(0x40u8).push(0x20u8),
{
    out.push(0x20);
    out.push(0x40);
    out.push(0x20);
}

} // verus!
