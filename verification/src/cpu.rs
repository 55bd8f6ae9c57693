//! The 2A03 CPU core: a 6502 without decimal mode, executing the
//! official and common undocumented opcodes over the CPU bus, with
//! edge/level interrupt entry points and a stall hook for DMA.

use crate::addressing_mode::AddressingMode;
use crate::bus::CpuBus;
use crate::instruction::Instruction;
use crate::instruction::Mnemonic;
use crate::status_register::BREAK_HI;
use crate::status_register::BREAK_LO;
use crate::status_register::CARRY;
use crate::status_register::DECIMAL;
use crate::status_register::IRQ_DISABLE;
use crate::status_register::NEGATIVE;
use crate::status_register::OVERFLOW;
use crate::status_register::StatusRegister;
use crate::status_register::ZERO;
use vstd::prelude::*;
use vstd::wrapping::u16_specs;
use vstd::wrapping::u8_specs;

verus! {

/// The NMI vector address.
pub const NMI_VEC: u16 = 0xFFFA;
/// The reset vector address.
pub const RST_VEC: u16 = 0xFFFC;
/// The IRQ/BRK vector address.
pub const IRQ_VEC: u16 = 0xFFFE;

/// The stack page base.
pub const STACK_BASE: u16 = 0x0100;
/// The stack pointer's power-on value.
pub const STACK_INIT: u8 = 0xFD;

/// The status byte with the negative and zero flags set from `v`.
pub open spec fn spec_nz(p: u8, v: u8) -> u8 {
    ((p & 0x7D) | (if v == 0 {
        0x02u8
    } else {
        0u8
    }) | (v & 0x80)) as u8
}

/// The 8-bit sum of `a`, `m` and the carry-in.
pub open spec fn spec_adc_sum(a: u8, m: u8, c: bool) -> u8 {
    ((a + m + (if c {
        1int
    } else {
        0int
    })) % 256) as u8
}

/// Whether adding `a`, `m` and the carry-in overflows 8 bits.
pub open spec fn spec_adc_carry(a: u8, m: u8, c: bool) -> bool {
    a + m + (if c {
        1int
    } else {
        0int
    }) > 0xFF
}

/// Whether the signed interpretation of the addition overflows.
pub open spec fn spec_adc_overflow(a: u8, m: u8, c: bool) -> bool {
    ((a ^ spec_adc_sum(a, m, c)) & (m ^ spec_adc_sum(a, m, c)) & 0x80) != 0
}

/// A binary operation ALU instructions combine `A` with memory by.
#[derive(Clone, Copy, PartialEq, Eq, Structural, Debug)]
pub enum BitOpKind {
    And,
    Or,
    Xor,
}

/// The 2A03 CPU, owning the bus it executes over.
pub struct CPU {
    pub a: u8,
    pub x: u8,
    pub y: u8,
    pub p: StatusRegister,
    pub s: u8,
    pub pc: u16,
    pub wait_cycles: u32,
    pub cycles: u64,
    pub halted: bool,
    pub memory: CpuBus,
}

impl CPU {
    /// The bus invariants execution relies on.
    pub open spec fn wf(&self) -> bool {
        self.memory.wf()
    }

    /// A powered-on CPU over `memory`, with the program counter still
    /// unset; `reset` loads it from the reset vector.
    pub fn new(memory: CpuBus) -> (r: CPU)
        requires
            memory.wf(),
        ensures
            r.wf(),
            r.a == 0 && r.x == 0 && r.y == 0,
            r.s == STACK_INIT,
            r.p.bits == 0x24,
            r.pc == 0,
            r.wait_cycles == 0 && r.cycles == 0,
            !r.halted,
            r.memory == memory,
    {
        CPU {
            a: 0,
            x: 0,
            y: 0,
            s: STACK_INIT,
            p: StatusRegister::from_bits(0x24),
            pc: 0,
            wait_cycles: 0,
            cycles: 0,
            halted: false,
            memory,
        }
    }

    /// Reset: registers to their power-on values, the cycle counter to
    /// 7, and the program counter loaded from the reset vector.
    pub fn reset(&mut self)
        requires
            old(self).wf(),
        ensures
            final(self).wf(),
            final(self).a == 0 && final(self).x == 0 && final(self).y == 0,
            final(self).s == STACK_INIT,
            final(self).p.bits == 0x24,
            final(self).wait_cycles == 0,
            final(self).cycles == 7,
            !final(self).halted,
            final(self).pc == crate::util::spec_word(
                old(self).memory.spec_peek(RST_VEC),
                old(self).memory.spec_peek(0xFFFD),
            ),
            final(self).memory == old(self).memory,
    {
        self.a = 0;
        self.x = 0;
        self.y = 0;
        self.s = STACK_INIT;
        self.p = StatusRegister::from_bits(0x24);
        self.wait_cycles = 0;
        self.cycles = 7;
        self.halted = false;
        self.pc = self.memory.read_u16(RST_VEC);
    }

    /// Add `n` cycles of stall, as DMA does.
    pub fn stall(&mut self, n: u32)
        ensures
            final(self).wait_cycles == vstd::wrapping::u32_specs::wrapping_add(
                old(self).wait_cycles,
                n,
            ),
            *final(self) == (CPU { wait_cycles: final(self).wait_cycles, ..*old(self) }),
    {
        self.wait_cycles = self.wait_cycles.wrapping_add(n);
    }

    /// One CPU cycle: drain a wait cycle, or execute the next whole
    /// instruction (the executing tick is the instruction's first
    /// cycle); a halted CPU only counts the cycle. The cycle counter
    /// always advances by exactly one.
    pub fn tick(&mut self) -> (stepped: bool)
        requires
            old(self).wf(),
        ensures
            final(self).wf(),
            final(self).cycles == vstd::wrapping::u64_specs::wrapping_add(old(self).cycles, 1),
            final(self).memory.ppu.scan == old(self).memory.ppu.scan,
            old(self).halted ==> *final(self) == (CPU {
                cycles: final(self).cycles,
                ..*old(self)
            }) && !stepped,
            !old(self).halted && old(self).wait_cycles > 0 ==> *final(self) == (CPU {
                cycles: final(self).cycles,
                wait_cycles: (old(self).wait_cycles - 1) as u32,
                ..*old(self)
            }) && !stepped,
            stepped <==> (!old(self).halted && old(self).wait_cycles == 0),
    {
        let stepped: bool;
        if self.halted {
            stepped = false;
        } else if self.wait_cycles > 0 {
            self.wait_cycles = self.wait_cycles - 1;
            stepped = false;
        } else {
            self.step();
            stepped = true;
        }
        self.cycles = self.cycles.wrapping_add(1);
        stepped
    }

    /// Push a byte: store at the stack page under `S`, then decrement
    /// `S` (mod 256). The stack page lies in internal RAM.
    pub fn stack_push(&mut self, data: u8)
        requires
            old(self).wf(),
        ensures
            final(self).wf(),
            final(self).halted == old(self).halted && final(self).cycles == old(self).cycles,
            final(self).memory.ppu.scan == old(self).memory.ppu.scan,
            final(self).memory.ram@ == old(self).memory.ram@.update(
                0x100 + old(self).s as int,
                data,
            ),
            final(self).s == u8_specs::wrapping_sub(old(self).s, 1),
            *final(self) == (CPU { s: final(self).s, memory: final(self).memory, ..*old(self) }),
            final(self).memory == (CpuBus { ram: final(self).memory.ram, ..old(self).memory }),
    {
        self.memory.write(STACK_BASE + (self.s as u16), data);
        self.s = self.s.wrapping_sub(1);
    }

    /// Push a 16-bit word, high byte first.
    pub fn stack_push_u16(&mut self, data: u16)
        requires
            old(self).wf(),
        ensures
            final(self).wf(),
            final(self).halted == old(self).halted && final(self).cycles == old(self).cycles,
            final(self).memory.ppu.scan == old(self).memory.ppu.scan,
            final(self).memory.ram@ == old(self).memory.ram@.update(
                0x100 + old(self).s as int,
                (data >> 8) as u8,
            ).update(0x100 + u8_specs::wrapping_sub(old(self).s, 1) as int, (data & 0xFF) as u8),
            final(self).s == u8_specs::wrapping_sub(old(self).s, 2),
            *final(self) == (CPU { s: final(self).s, memory: final(self).memory, ..*old(self) }),
            final(self).memory == (CpuBus { ram: final(self).memory.ram, ..old(self).memory }),
    {
        self.stack_push(crate::util::word_hi(data));
        self.stack_push(crate::util::word_lo(data));
        proof {
            let s = old(self).s;
            assert(u8_specs::wrapping_sub(u8_specs::wrapping_sub(s, 1), 1) == u8_specs::wrapping_sub(
                s,
                2,
            ));
        }
    }

    /// Pop a byte: increment `S` (mod 256), then read the stack page.
    pub fn stack_pop(&mut self) -> (r: u8)
        requires
            old(self).wf(),
        ensures
            final(self).wf(),
            final(self).halted == old(self).halted && final(self).cycles == old(self).cycles,
            final(self).memory.ppu.scan == old(self).memory.ppu.scan,
            final(self).s == u8_specs::wrapping_add(old(self).s, 1),
            r == old(self).memory.ram@[0x100 + u8_specs::wrapping_add(old(self).s, 1) as int],
            *final(self) == (CPU { s: final(self).s, ..*old(self) }),
    {
        self.s = self.s.wrapping_add(1);
        self.memory.read(STACK_BASE + (self.s as u16))
    }

    /// Pop a 16-bit word, low byte first.
    pub fn stack_pop_u16(&mut self) -> (r: u16)
        requires
            old(self).wf(),
        ensures
            final(self).wf(),
            final(self).halted == old(self).halted && final(self).cycles == old(self).cycles,
            final(self).memory.ppu.scan == old(self).memory.ppu.scan,
            final(self).s == u8_specs::wrapping_add(old(self).s, 2),
            r == crate::util::spec_word(
                old(self).memory.ram@[0x100 + u8_specs::wrapping_add(old(self).s, 1) as int],
                old(self).memory.ram@[0x100 + u8_specs::wrapping_add(old(self).s, 2) as int],
            ),
            *final(self) == (CPU { s: final(self).s, ..*old(self) }),
    {
        let lo = self.stack_pop();
        let hi = self.stack_pop();
        crate::util::word(lo, hi)
    }

    /// Resolve the operand address for `mode`, reporting whether an
    /// indexed access crossed a page. For the indirect-absolute mode
    /// the 6502's page-wrap bug applies: with a pointer ending in
    /// `$FF`, the high byte comes from the start of the same page.
    #[verifier::rlimit(60)]
    #[verifier::spinoff_prover]
    pub fn get_operand_address(&mut self, mode: AddressingMode) -> (r: (u16, bool))
        requires
            old(self).wf(),
            mode != AddressingMode::ACC && mode != AddressingMode::IMP,
        ensures
            final(self).wf(),
            final(self).halted == old(self).halted && final(self).cycles == old(self).cycles,
            final(self).memory.ppu.scan == old(self).memory.ppu.scan,
            final(self).pc == old(self).pc && final(self).a == old(self).a && final(self).x == old(
                self).x && final(self).y == old(self).y && final(self).s == old(self).s && final(
                self).p == old(self).p,
            final(self).wait_cycles == old(self).wait_cycles,
            final(self).memory.ram@ == old(self).memory.ram@,
            mode == AddressingMode::IMM ==> r == (old(self).pc, false) && *final(self) == *old(
                self,
            ),
            mode == AddressingMode::ZER ==> r.0 == old(self).memory.spec_peek(old(self).pc) as u16
                && !r.1,
            mode == AddressingMode::ZEX ==> r.0 == u8_specs::wrapping_add(
                old(self).memory.spec_peek(old(self).pc),
                old(self).x,
            ) as u16 && !r.1,
            mode == AddressingMode::ZEY ==> r.0 == u8_specs::wrapping_add(
                old(self).memory.spec_peek(old(self).pc),
                old(self).y,
            ) as u16 && !r.1,
            mode == AddressingMode::REL ==> ({
                let offset = old(self).memory.spec_peek(old(self).pc);
                let signed: u16 = if offset >= 0x80 {
                    (offset as u16) | 0xFF00
                } else {
                    offset as u16
                };
                let next = u16_specs::wrapping_add(old(self).pc, 1);
                let dest = u16_specs::wrapping_add(next, signed);
                r.0 == dest && r.1 == ((next & 0xFF00) != (dest & 0xFF00))
            }),
            mode == AddressingMode::INX ==> ({
                let index = u8_specs::wrapping_add(
                    old(self).memory.spec_peek(old(self).pc),
                    old(self).x,
                );
                r.0 == crate::util::spec_word(
                    old(self).memory.ram@[index as int],
                    old(self).memory.ram@[u8_specs::wrapping_add(index, 1) as int],
                ) && !r.1
            }),
            mode == AddressingMode::INY ==> ({
                let index = old(self).memory.spec_peek(old(self).pc);
                let base = crate::util::spec_word(
                    old(self).memory.ram@[index as int],
                    old(self).memory.ram@[u8_specs::wrapping_add(index, 1) as int],
                );
                let dest = u16_specs::wrapping_add(base, old(self).y as u16);
                r.0 == dest && r.1 == ((base & 0xFF00) != (dest & 0xFF00))
            }),
            mode == AddressingMode::ABS && old(self).pc < 0x1FFE ==> r.0
                == crate::util::spec_word(
                old(self).memory.spec_peek(old(self).pc),
                old(self).memory.spec_peek((old(self).pc + 1) as u16),
            ) && !r.1 && *final(self) == *old(self),
            mode == AddressingMode::ABX && old(self).pc < 0x1FFE ==> ({
                let base = crate::util::spec_word(
                    old(self).memory.spec_peek(old(self).pc),
                    old(self).memory.spec_peek((old(self).pc + 1) as u16),
                );
                let dest = u16_specs::wrapping_add(base, old(self).x as u16);
                r.0 == dest && r.1 == ((base & 0xFF00) != (dest & 0xFF00)) && *final(self)
                    == *old(self)
            }),
            mode == AddressingMode::ABY && old(self).pc < 0x1FFE ==> ({
                let base = crate::util::spec_word(
                    old(self).memory.spec_peek(old(self).pc),
                    old(self).memory.spec_peek((old(self).pc + 1) as u16),
                );
                let dest = u16_specs::wrapping_add(base, old(self).y as u16);
                r.0 == dest && r.1 == ((base & 0xFF00) != (dest & 0xFF00)) && *final(self)
                    == *old(self)
            }),
            mode == AddressingMode::ABI && old(self).pc < 0x1FFE && crate::util::spec_word(
                old(self).memory.spec_peek(old(self).pc),
                old(self).memory.spec_peek((old(self).pc + 1) as u16),
            ) < 0x1FFF ==> ({
                let ptr = crate::util::spec_word(
                    old(self).memory.spec_peek(old(self).pc),
                    old(self).memory.spec_peek((old(self).pc + 1) as u16),
                );
                let hi_addr = if ptr & 0x00FF == 0x00FF {
                    (ptr & 0xFF00) as u16
                } else {
                    (ptr + 1) as u16
                };
                r.0 == crate::util::spec_word(
                    old(self).memory.spec_peek(ptr),
                    old(self).memory.spec_peek(hi_addr),
                ) && !r.1 && *final(self) == *old(self)
            }),
    {
        match mode {
            AddressingMode::IMM => (self.pc, false),
            AddressingMode::ABS => (self.memory.read_u16(self.pc), false),
            AddressingMode::ZER => (self.memory.read(self.pc) as u16, false),
            AddressingMode::ZEX => {
                let base = self.memory.read(self.pc);
                (base.wrapping_add(self.x) as u16, false)
            },
            AddressingMode::ZEY => {
                let base = self.memory.read(self.pc);
                (base.wrapping_add(self.y) as u16, false)
            },
            AddressingMode::ABX => {
                let base = self.memory.read_u16(self.pc);
                let addr = base.wrapping_add(self.x as u16);
                (addr, pages_differ(base, addr))
            },
            AddressingMode::ABY => {
                let base = self.memory.read_u16(self.pc);
                let addr = base.wrapping_add(self.y as u16);
                (addr, pages_differ(base, addr))
            },
            AddressingMode::REL => {
                let offset = self.memory.read(self.pc);
                let signed: u16 = if offset >= 0x80 {
                    (offset as u16) | 0xFF00
                } else {
                    offset as u16
                };
                let dest = self.pc.wrapping_add(1).wrapping_add(signed);
                (dest, pages_differ(self.pc.wrapping_add(1), dest))
            },
            AddressingMode::INX => {
                let index = self.memory.read(self.pc).wrapping_add(self.x);
                let lo = self.memory.read(index as u16);
                let hi = self.memory.read(index.wrapping_add(1) as u16);
                (crate::util::word(lo, hi), false)
            },
            AddressingMode::INY => {
                let index = self.memory.read(self.pc);
                let lo = self.memory.read(index as u16);
                let hi = self.memory.read(index.wrapping_add(1) as u16);
                let addr_base = crate::util::word(lo, hi);
                let addr = addr_base.wrapping_add(self.y as u16);
                (addr, pages_differ(addr_base, addr))
            },
            _ => {
                // Absolute indirect, with the page-wrap bug
                let ghost pre = *self;
                let addr = self.memory.read_u16(self.pc);
                let hi_addr = if addr & 0x00FF == 0x00FF {
                    addr & 0xFF00
                } else {
                    addr.wrapping_add(1)
                };
                let hi = self.memory.read(hi_addr);
                let lo = self.memory.read(addr);
                proof {
                    if pre.pc < 0x1FFE && crate::util::spec_word(
                        pre.memory.spec_peek(pre.pc),
                        pre.memory.spec_peek((pre.pc + 1) as u16),
                    ) < 0x1FFF {
                        assert(addr == crate::util::spec_word(
                            pre.memory.spec_peek(pre.pc),
                            pre.memory.spec_peek((pre.pc + 1) as u16),
                        ));
                        assert(addr < 0x1FFF);
                        assert(hi_addr < 0x2000) by {
                            assert(addr < 0x1FFF ==> (addr & 0xFF00) < 0x2000 && addr + 1 < 0x2000)
                                by (bit_vector);
                        }
                        assert(hi == pre.memory.spec_peek(hi_addr));
                        assert(lo == pre.memory.spec_peek(addr));
                        assert(*self == pre);
                    }
                }
                (crate::util::word(lo, hi), false)
            },
        }
    }

    /// Combine `A` with memory by `f`, setting N and Z from the result.
    fn bit_op(&mut self, f: BitOpKind, mode: AddressingMode)
        requires
            old(self).wf(),
            mode != AddressingMode::ACC && mode != AddressingMode::IMP,
        ensures
            final(self).wf(),
            final(self).halted == old(self).halted && final(self).cycles == old(self).cycles,
            final(self).memory.ppu.scan == old(self).memory.ppu.scan,
            final(self).p.bits == spec_nz(old(self).p.bits, final(self).a),
            final(self).x == old(self).x && final(self).y == old(self).y && final(self).s == old(
                self).s && final(self).pc == old(self).pc,
            final(self).memory.ram@ == old(self).memory.ram@,
            mode == AddressingMode::IMM ==> final(self).a == (match f {
                BitOpKind::And => old(self).a & old(self).memory.spec_peek(old(self).pc),
                BitOpKind::Or => old(self).a | old(self).memory.spec_peek(old(self).pc),
                BitOpKind::Xor => old(self).a ^ old(self).memory.spec_peek(old(self).pc),
            }) && final(self).wait_cycles == old(self).wait_cycles,
    {
        let (addr, page_cross) = self.get_operand_address(mode);
        let data = self.memory.read(addr);
        self.a = match f {
            BitOpKind::And => self.a & data,
            BitOpKind::Or => self.a | data,
            BitOpKind::Xor => self.a ^ data,
        };
        self.set_nz(self.a);
        if page_cross {
            self.wait_cycles = self.wait_cycles.wrapping_add(1);
        }
    }

    /// Set the N and Z flags from `val`.
    fn set_nz(&mut self, val: u8)
        ensures
            final(self).p.bits == spec_nz(old(self).p.bits, val),
            *final(self) == (CPU { p: final(self).p, ..*old(self) }),
    {
        let z: u8 = if val == 0 {
            0x02
        } else {
            0
        };
        self.p.bits = (self.p.bits & 0x7D) | z | (val & 0x80);
    }

    /// Branch to the operand target when `flag` matches `value`,
    /// paying one cycle for the branch and one more on a page cross.
    fn branch_op(&mut self, flag: u8, value: bool, mode: AddressingMode)
        requires
            old(self).wf(),
            mode == AddressingMode::REL,
        ensures
            final(self).wf(),
            final(self).halted == old(self).halted && final(self).cycles == old(self).cycles,
            final(self).memory.ppu.scan == old(self).memory.ppu.scan,
            ((old(self).p.bits & flag) == flag) != value ==> *final(self) == *old(self),
            ((old(self).p.bits & flag) == flag) == value ==> ({
                let offset = old(self).memory.spec_peek(old(self).pc);
                let signed: u16 = if offset >= 0x80 {
                    (offset as u16) | 0xFF00
                } else {
                    offset as u16
                };
                let next = u16_specs::wrapping_add(old(self).pc, 1);
                let dest = u16_specs::wrapping_add(next, signed);
                final(self).pc == dest && final(self).wait_cycles
                    == vstd::wrapping::u32_specs::wrapping_add(
                    old(self).wait_cycles,
                    if (next & 0xFF00) != (dest & 0xFF00) {
                        2u32
                    } else {
                        1u32
                    },
                )
            }),
            final(self).a == old(self).a && final(self).x == old(self).x && final(self).p == old(
                self).p,
    {
        if self.p.contains(flag) == value {
            let (dest, page_cross) = self.get_operand_address(mode);
            self.wait_cycles = self.wait_cycles.wrapping_add(
                if page_cross {
                    2
                } else {
                    1
                },
            );
            self.pc = dest;
        }
    }

    /// Compare a register with memory: C when the register is not
    /// below the operand, Z on equality, N from the difference.
    fn compare_op(&mut self, reg: u8, mode: AddressingMode)
        requires
            old(self).wf(),
            mode != AddressingMode::ACC && mode != AddressingMode::IMP,
        ensures
            final(self).wf(),
            final(self).halted == old(self).halted && final(self).cycles == old(self).cycles,
            final(self).memory.ppu.scan == old(self).memory.ppu.scan,
            final(self).a == old(self).a && final(self).x == old(self).x && final(self).y == old(
                self).y && final(self).s == old(self).s && final(self).pc == old(self).pc,
            final(self).wait_cycles == old(self).wait_cycles,
            final(self).memory.ram@ == old(self).memory.ram@,
            mode == AddressingMode::IMM ==> ({
                let m = old(self).memory.spec_peek(old(self).pc);
                final(self).p.bits == ((old(self).p.bits & 0x7C) | (if reg >= m {
                    1u8
                } else {
                    0u8
                }) | (if reg == m {
                    2u8
                } else {
                    0u8
                }) | (u8_specs::wrapping_sub(reg, m) & 0x80))
            }),
    {
        let (addr, _) = self.get_operand_address(mode);
        let data = self.memory.read(addr);
        let diff = reg.wrapping_sub(data);
        let cf: u8 = if reg >= data {
            1
        } else {
            0
        };
        let zf: u8 = if reg == data {
            2
        } else {
            0
        };
        self.p.bits = (self.p.bits & 0x7C) | cf | zf | (diff & 0x80);
    }

    /// Increment or decrement memory in place, setting N and Z.
    fn step_op(&mut self, increment: bool, mode: AddressingMode)
        requires
            old(self).wf(),
            mode != AddressingMode::ACC && mode != AddressingMode::IMP,
        ensures
            final(self).wf(),
            final(self).halted == old(self).halted && final(self).cycles == old(self).cycles,
            final(self).memory.ppu.scan == old(self).memory.ppu.scan,
            final(self).a == old(self).a && final(self).x == old(self).x && final(self).y == old(
                self).y && final(self).s == old(self).s && final(self).pc == old(self).pc,
            final(self).wait_cycles == old(self).wait_cycles,
    {
        let (addr, _) = self.get_operand_address(mode);
        let mut data = self.memory.read(addr);
        data = if increment {
            data.wrapping_add(1)
        } else {
            data.wrapping_sub(1)
        };
        self.memory.write(addr, data);
        self.set_nz(data);
    }

    /// Increment or decrement a register value, setting N and Z, and
    /// returning the new value.
    fn step_reg_op(&mut self, increment: bool, reg: u8) -> (r: u8)
        ensures
            r == if increment {
                u8_specs::wrapping_add(reg, 1)
            } else {
                u8_specs::wrapping_sub(reg, 1)
            },
            final(self).p.bits == spec_nz(old(self).p.bits, r),
            *final(self) == (CPU { p: final(self).p, ..*old(self) }),
    {
        let new_val = if increment {
            reg.wrapping_add(1)
        } else {
            reg.wrapping_sub(1)
        };
        self.set_nz(new_val);
        new_val
    }

    /// Load memory for a register, setting N and Z from the value.
    fn load_op(&mut self, mode: AddressingMode) -> (r: u8)
        requires
            old(self).wf(),
            mode != AddressingMode::ACC && mode != AddressingMode::IMP,
        ensures
            final(self).wf(),
            final(self).halted == old(self).halted && final(self).cycles == old(self).cycles,
            final(self).memory.ppu.scan == old(self).memory.ppu.scan,
            final(self).p.bits == spec_nz(old(self).p.bits, r),
            final(self).a == old(self).a && final(self).x == old(self).x && final(self).y == old(
                self).y && final(self).s == old(self).s && final(self).pc == old(self).pc,
            final(self).memory.ram@ == old(self).memory.ram@,
            mode == AddressingMode::IMM ==> r == old(self).memory.spec_peek(old(self).pc)
                && final(self).wait_cycles == old(self).wait_cycles,
    {
        let (addr, page_cross) = self.get_operand_address(mode);
        let data = self.memory.read(addr);
        self.set_nz(data);
        if page_cross {
            self.wait_cycles = self.wait_cycles.wrapping_add(1);
        }
        data
    }

    /// Store a register into memory.
    fn store_op(&mut self, reg: u8, mode: AddressingMode)
        requires
            old(self).wf(),
            mode != AddressingMode::ACC && mode != AddressingMode::IMP,
        ensures
            final(self).wf(),
            final(self).halted == old(self).halted && final(self).cycles == old(self).cycles,
            final(self).memory.ppu.scan == old(self).memory.ppu.scan,
            final(self).a == old(self).a && final(self).x == old(self).x && final(self).y == old(
                self).y && final(self).s == old(self).s && final(self).pc == old(self).pc && final(
                self).p == old(self).p,
            final(self).wait_cycles == old(self).wait_cycles,
            mode == AddressingMode::ZER ==> final(self).memory.ram@ == old(
                self).memory.ram@.update(old(self).memory.spec_peek(old(self).pc) as int, reg),
    {
        let (addr, _) = self.get_operand_address(mode);
        self.memory.write(addr, reg);
    }

    /// Pass a register value through, setting N and Z unless the
    /// destination is the stack pointer.
    fn transfer_op(&mut self, from: u8, to_stack_pointer: bool) -> (r: u8)
        ensures
            r == from,
            !to_stack_pointer ==> final(self).p.bits == spec_nz(old(self).p.bits, from),
            to_stack_pointer ==> final(self).p == old(self).p,
            *final(self) == (CPU { p: final(self).p, ..*old(self) }),
    {
        if !to_stack_pointer {
            self.set_nz(from);
        }
        from
    }

    /// Add memory (or its complement, for subtraction) and the carry
    /// into `A`, setting C, V, N and Z. Decimal mode is inert on this
    /// CPU.
    fn arithmetic_op(&mut self, subtract: bool, mode: AddressingMode)
        requires
            old(self).wf(),
            mode != AddressingMode::ACC && mode != AddressingMode::IMP,
        ensures
            final(self).wf(),
            final(self).halted == old(self).halted && final(self).cycles == old(self).cycles,
            final(self).memory.ppu.scan == old(self).memory.ppu.scan,
            final(self).x == old(self).x && final(self).y == old(self).y && final(self).s == old(
                self).s && final(self).pc == old(self).pc,
            final(self).memory.ram@ == old(self).memory.ram@,
            final(self).p.bits & 0x82 == spec_nz(0, final(self).a) & 0x82,
            mode == AddressingMode::IMM ==> ({
                let m = if subtract {
                    !old(self).memory.spec_peek(old(self).pc)
                } else {
                    old(self).memory.spec_peek(old(self).pc)
                };
                let c = old(self).p.bits & 1 == 1;
                final(self).a == spec_adc_sum(old(self).a, m, c) && final(self).p.bits == ((old(
                    self).p.bits & 0x3C) | (if spec_adc_carry(old(self).a, m, c) {
                    1u8
                } else {
                    0u8
                }) | (if spec_adc_overflow(old(self).a, m, c) {
                    0x40u8
                } else {
                    0u8
                }) | (if final(self).a == 0 {
                    2u8
                } else {
                    0u8
                }) | (final(self).a & 0x80)) && (final(self).p.bits & 1 == 1) == spec_adc_carry(
                    old(self).a,
                    m,
                    c,
                ) && final(self).wait_cycles == old(self).wait_cycles
            }),
    {
        let (addr, page_cross) = self.get_operand_address(mode);
        let mut data = self.memory.read(addr);
        if subtract {
            data = !data;
        }
        let carry: u32 = if (self.p.bits & 1) == 1 {
            1
        } else {
            0
        };
        let temp: u32 = (self.a as u32) + (data as u32) + carry;
        let sum: u8 = (temp % 0x100) as u8;
        let cf: u8 = if temp > 0xFF {
            1
        } else {
            0
        };
        let vf: u8 = if ((self.a ^ sum) & (data ^ sum) & 0x80) != 0 {
            0x40
        } else {
            0
        };
        let zf: u8 = if sum == 0 {
            2
        } else {
            0
        };
        let ghost pb = self.p.bits;
        self.p.bits = (self.p.bits & 0x3C) | cf | vf | zf | (sum & 0x80);
        self.a = sum;
        proof {
            let a2 = sum;
            assert(((pb & 0x3C) | cf | vf | zf | (a2 & 0x80)) & 0x82 == ((0u8 & 0x7D) | zf | (a2
                & 0x80)) & 0x82) by (bit_vector)
                requires
                    cf <= 1 && (vf == 0 || vf == 0x40) && zf <= 2,
            ;
            assert(((pb & 0x3C) | cf | vf | zf | (a2 & 0x80)) & 1 == cf) by (bit_vector)
                requires
                    cf <= 1 && (vf == 0 || vf == 0x40) && (zf == 0 || zf == 2),
            ;
        }
        if page_cross {
            self.wait_cycles = self.wait_cycles.wrapping_add(1);
        }
    }

    /// Shift memory or `A` one bit left or right, setting C from the
    /// bit shifted out and N and Z from the result.
    fn shift_op(&mut self, left: bool, mode: AddressingMode)
        requires
            old(self).wf(),
            mode != AddressingMode::IMP,
        ensures
            final(self).wf(),
            final(self).halted == old(self).halted && final(self).cycles == old(self).cycles,
            final(self).memory.ppu.scan == old(self).memory.ppu.scan,
            final(self).x == old(self).x && final(self).y == old(self).y && final(self).s == old(
                self).s,
            final(self).pc == old(self).pc,
            final(self).wait_cycles == old(self).wait_cycles,
            mode == AddressingMode::ACC ==> final(self).a == if left {
                (old(self).a << 1) as u8
            } else {
                old(self).a >> 1
            } && final(self).memory == old(self).memory,
    {
        if matches!(mode, AddressingMode::ACC) {
            let mut data = self.a;
            let check_bit: u8 = if left {
                0x80
            } else {
                0x01
            };
            self.p.set(CARRY, (data & check_bit) != 0);
            data = if left {
                data << 1
            } else {
                data >> 1
            };
            self.a = data;
            self.set_nz(data);
        } else {
            let (addr, _) = self.get_operand_address(mode);
            let mut data = self.memory.read(addr);
            let check_bit: u8 = if left {
                0x80
            } else {
                0x01
            };
            self.p.set(CARRY, (data & check_bit) != 0);
            data = if left {
                data << 1
            } else {
                data >> 1
            };
            self.memory.write(addr, data);
            self.set_nz(data);
        }
    }

    /// Rotate memory or `A` one bit through the carry, setting C from
    /// the bit rotated out and N and Z from the result.
    fn rotate_op(&mut self, left: bool, mode: AddressingMode)
        requires
            old(self).wf(),
            mode != AddressingMode::IMP,
        ensures
            final(self).wf(),
            final(self).halted == old(self).halted && final(self).cycles == old(self).cycles,
            final(self).memory.ppu.scan == old(self).memory.ppu.scan,
            final(self).x == old(self).x && final(self).y == old(self).y && final(self).s == old(
                self).s,
            final(self).pc == old(self).pc,
            final(self).wait_cycles == old(self).wait_cycles,
            mode == AddressingMode::ACC ==> final(self).memory == old(self).memory,
    {
        let old_carry = self.p.contains(CARRY);
        if matches!(mode, AddressingMode::ACC) {
            let mut data = self.a;
            let (check_bit, carry_bit): (u8, u8) = if left {
                (0x80, 0x01)
            } else {
                (0x01, 0x80)
            };
            self.p.set(CARRY, (data & check_bit) != 0);
            data = if left {
                data << 1
            } else {
                data >> 1
            };
            data = if old_carry {
                data | carry_bit
            } else {
                data & !carry_bit
            };
            self.a = data;
            self.set_nz(data);
        } else {
            let (addr, _) = self.get_operand_address(mode);
            let mut data = self.memory.read(addr);
            let (check_bit, carry_bit): (u8, u8) = if left {
                (0x80, 0x01)
            } else {
                (0x01, 0x80)
            };
            self.p.set(CARRY, (data & check_bit) != 0);
            data = if left {
                data << 1
            } else {
                data >> 1
            };
            data = if old_carry {
                data | carry_bit
            } else {
                data & !carry_bit
            };
            self.memory.write(addr, data);
            self.set_nz(data);
        }
    }

    /// Jump to the operand address, first saving the return address
    /// (the byte before the following instruction) for JSR.
    fn jump_op(&mut self, save_return: bool, mode: AddressingMode)
        requires
            old(self).wf(),
            mode == AddressingMode::ABS || mode == AddressingMode::ABI,
        ensures
            final(self).wf(),
            final(self).halted == old(self).halted && final(self).cycles == old(self).cycles,
            final(self).memory.ppu.scan == old(self).memory.ppu.scan,
            final(self).a == old(self).a && final(self).x == old(self).x && final(self).y == old(
                self).y && final(self).p == old(self).p,
    {
        if save_return {
            let ret = self.pc.wrapping_add(1);
            self.stack_push_u16(ret);
        }
        let (addr, _) = self.get_operand_address(mode);
        self.pc = addr;
    }

    /// Test memory bits against `A`: N and V from the operand's top
    /// bits, Z from the masked accumulator.
    fn bit(&mut self, mode: AddressingMode)
        requires
            old(self).wf(),
            mode != AddressingMode::ACC && mode != AddressingMode::IMP,
        ensures
            final(self).wf(),
            final(self).halted == old(self).halted && final(self).cycles == old(self).cycles,
            final(self).memory.ppu.scan == old(self).memory.ppu.scan,
            final(self).a == old(self).a && final(self).x == old(self).x && final(self).y == old(
                self).y && final(self).s == old(self).s && final(self).pc == old(self).pc,
            final(self).wait_cycles == old(self).wait_cycles,
            final(self).memory.ram@ == old(self).memory.ram@,
    {
        let (addr, _) = self.get_operand_address(mode);
        let data = self.memory.read(addr);
        self.p.set(NEGATIVE, (data & 0x80) != 0);
        self.p.set(OVERFLOW, (data & 0x40) != 0);
        self.p.set(ZERO, (data & self.a) == 0);
    }

    /// BRK: push the address two past the opcode (the program counter
    /// already sits one past it) and the status with both break bits,
    /// set I, and jump through the IRQ vector.
    fn brk(&mut self)
        requires
            old(self).wf(),
        ensures
            final(self).wf(),
            final(self).halted == old(self).halted && final(self).cycles == old(self).cycles,
            final(self).memory.ppu.scan == old(self).memory.ppu.scan,
            final(self).memory.ram@ == old(self).memory.ram@.update(
                0x100 + old(self).s as int,
                (u16_specs::wrapping_add(old(self).pc, 1) >> 8) as u8,
            ).update(
                0x100 + u8_specs::wrapping_sub(old(self).s, 1) as int,
                (u16_specs::wrapping_add(old(self).pc, 1) & 0xFF) as u8,
            ).update(
                0x100 + u8_specs::wrapping_sub(old(self).s, 2) as int,
                old(self).p.bits | 0x30,
            ),
            final(self).s == u8_specs::wrapping_sub(old(self).s, 3),
            final(self).p.bits == (old(self).p.bits | IRQ_DISABLE),
            final(self).pc == crate::util::spec_word(
                old(self).memory.spec_peek(IRQ_VEC),
                old(self).memory.spec_peek(0xFFFF),
            ),
            final(self).a == old(self).a && final(self).x == old(self).x && final(self).y == old(
                self).y,
    {
        let ret = self.pc.wrapping_add(1);
        self.stack_push_u16(ret);
        let pushed = self.p.bits() | 0x30;
        self.stack_push(pushed);
        self.p.insert(IRQ_DISABLE);
        self.pc = self.memory.read_u16(IRQ_VEC);
    }

    /// Pop the stack into `A`, setting N and Z.
    fn pla(&mut self)
        requires
            old(self).wf(),
        ensures
            final(self).wf(),
            final(self).halted == old(self).halted && final(self).cycles == old(self).cycles,
            final(self).memory.ppu.scan == old(self).memory.ppu.scan,
            final(self).a == old(self).memory.ram@[0x100 + u8_specs::wrapping_add(
                old(self).s,
                1,
            ) as int],
            final(self).s == u8_specs::wrapping_add(old(self).s, 1),
            final(self).p.bits == spec_nz(old(self).p.bits, final(self).a),
            final(self).memory == old(self).memory,
            final(self).pc == old(self).pc,
            final(self).wait_cycles == old(self).wait_cycles,
    {
        self.a = self.stack_pop();
        self.set_nz(self.a);
    }

    /// RTI: pop the status (break bits normalised), then the return
    /// address.
    fn rti(&mut self)
        requires
            old(self).wf(),
        ensures
            final(self).wf(),
            final(self).halted == old(self).halted && final(self).cycles == old(self).cycles,
            final(self).memory.ppu.scan == old(self).memory.ppu.scan,
            final(self).p.bits == ((old(self).memory.ram@[0x100 + u8_specs::wrapping_add(
                old(self).s,
                1,
            ) as int] & !BREAK_LO) | BREAK_HI),
    {
        let val = self.stack_pop();
        self.p.set_from_stack(val);
        self.pc = self.stack_pop_u16();
    }

    /// Undocumented ANC: AND immediate, then copy N into C.
    fn anc(&mut self)
        requires
            old(self).wf(),
        ensures
            final(self).wf(),
            final(self).halted == old(self).halted && final(self).cycles == old(self).cycles,
            final(self).memory.ppu.scan == old(self).memory.ppu.scan,
            final(self).pc == old(self).pc,
            final(self).wait_cycles == old(self).wait_cycles,
    {
        self.bit_op(BitOpKind::And, AddressingMode::IMM);
        let n = self.p.contains(NEGATIVE);
        self.p.set(CARRY, n);
    }

    /// Undocumented ARR: AND the operand into `A`, rotate `A` right,
    /// and set C and V from bits 6 and 5 of the result.
    fn arr(&mut self, mode: AddressingMode)
        requires
            old(self).wf(),
            mode != AddressingMode::ACC && mode != AddressingMode::IMP,
        ensures
            final(self).wf(),
            final(self).halted == old(self).halted && final(self).cycles == old(self).cycles,
            final(self).memory.ppu.scan == old(self).memory.ppu.scan,
            final(self).pc == old(self).pc,
            final(self).wait_cycles == old(self).wait_cycles,
    {
        let (addr, _) = self.get_operand_address(mode);
        let data = self.memory.read(addr);
        self.a = self.a & data;
        self.rotate_op(false, AddressingMode::ACC);
        self.set_nz(self.a);
        let bit_5 = (self.a & 0x10) != 0;
        let bit_6 = (self.a & 0x20) != 0;
        self.p.set(CARRY, bit_6);
        self.p.set(OVERFLOW, bit_5 != bit_6);
    }

    /// Undocumented AXS: X = (A & X) - operand, with C as a borrow
    /// flag and N and Z from `A`.
    fn axs(&mut self, mode: AddressingMode)
        requires
            old(self).wf(),
            mode != AddressingMode::ACC && mode != AddressingMode::IMP,
        ensures
            final(self).wf(),
            final(self).halted == old(self).halted && final(self).cycles == old(self).cycles,
            final(self).memory.ppu.scan == old(self).memory.ppu.scan,
            final(self).pc == old(self).pc,
            final(self).wait_cycles == old(self).wait_cycles,
    {
        let (addr, _) = self.get_operand_address(mode);
        let data = self.memory.read(addr);
        let a_and_x = self.a & self.x;
        self.x = a_and_x.wrapping_sub(data);
        self.p.set(CARRY, data <= a_and_x);
        let a = self.a;
        self.set_nz(a);
    }

    /// Dispatch one decoded instruction. STP halts the CPU for good.
    /// Alongside the dispatch the contract pins the exact effect of
    /// the flag, transfer, increment, stack and halt instructions, and
    /// of the ALU and load instructions in immediate mode; the
    /// addressed modes' effects are carried by the helpers below.
    #[verifier::rlimit(100)]
    #[verifier::spinoff_prover]
    pub fn execute_op(&mut self, mnemonic: Mnemonic, mode: AddressingMode)
        requires
            old(self).wf(),
            spec_mode_fits(mnemonic, mode),
        ensures
            final(self).wf(),
            final(self).cycles == old(self).cycles,
            final(self).memory.ppu.scan == old(self).memory.ppu.scan,
            final(self).halted == (old(self).halted || mnemonic == Mnemonic::Stp),
            spec_stays_put(mnemonic) ==> final(self).pc == old(self).pc,
            spec_simple_op(mnemonic) && (mode == AddressingMode::IMP || mode
                == AddressingMode::IMM) ==> final(self).wait_cycles == old(self).wait_cycles,
            mnemonic == Mnemonic::Nop ==> *final(self) == *old(self),
            mnemonic == Mnemonic::Stp ==> *final(self) == (CPU { halted: true, ..*old(self) }),
            mnemonic == Mnemonic::Clc ==> *final(self) == (CPU { p: final(self).p, ..*old(self) })
                && final(self).p.bits == (old(self).p.bits & !CARRY),
            mnemonic == Mnemonic::Sec ==> *final(self) == (CPU { p: final(self).p, ..*old(self) })
                && final(self).p.bits == (old(self).p.bits | CARRY),
            mnemonic == Mnemonic::Cld ==> *final(self) == (CPU { p: final(self).p, ..*old(self) })
                && final(self).p.bits == (old(self).p.bits & !DECIMAL),
            mnemonic == Mnemonic::Sed ==> *final(self) == (CPU { p: final(self).p, ..*old(self) })
                && final(self).p.bits == (old(self).p.bits | DECIMAL),
            mnemonic == Mnemonic::Cli ==> *final(self) == (CPU { p: final(self).p, ..*old(self) })
                && final(self).p.bits == (old(self).p.bits & !IRQ_DISABLE),
            mnemonic == Mnemonic::Sei ==> *final(self) == (CPU { p: final(self).p, ..*old(self) })
                && final(self).p.bits == (old(self).p.bits | IRQ_DISABLE),
            mnemonic == Mnemonic::Clv ==> *final(self) == (CPU { p: final(self).p, ..*old(self) })
                && final(self).p.bits == (old(self).p.bits & !OVERFLOW),
            mnemonic == Mnemonic::Tax ==> *final(self) == (CPU {
                x: old(self).a,
                p: final(self).p,
                ..*old(self)
            }) && final(self).p.bits == spec_nz(old(self).p.bits, old(self).a),
            mnemonic == Mnemonic::Tay ==> *final(self) == (CPU {
                y: old(self).a,
                p: final(self).p,
                ..*old(self)
            }) && final(self).p.bits == spec_nz(old(self).p.bits, old(self).a),
            mnemonic == Mnemonic::Tsx ==> *final(self) == (CPU {
                x: old(self).s,
                p: final(self).p,
                ..*old(self)
            }) && final(self).p.bits == spec_nz(old(self).p.bits, old(self).s),
            mnemonic == Mnemonic::Txa ==> *final(self) == (CPU {
                a: old(self).x,
                p: final(self).p,
                ..*old(self)
            }) && final(self).p.bits == spec_nz(old(self).p.bits, old(self).x),
            mnemonic == Mnemonic::Tya ==> *final(self) == (CPU {
                a: old(self).y,
                p: final(self).p,
                ..*old(self)
            }) && final(self).p.bits == spec_nz(old(self).p.bits, old(self).y),
            mnemonic == Mnemonic::Txs ==> *final(self) == (CPU { s: old(self).x, ..*old(self) }),
            mnemonic == Mnemonic::Inx ==> *final(self) == (CPU {
                x: u8_specs::wrapping_add(old(self).x, 1),
                p: final(self).p,
                ..*old(self)
            }) && final(self).p.bits == spec_nz(old(self).p.bits, final(self).x),
            mnemonic == Mnemonic::Dex ==> *final(self) == (CPU {
                x: u8_specs::wrapping_sub(old(self).x, 1),
                p: final(self).p,
                ..*old(self)
            }) && final(self).p.bits == spec_nz(old(self).p.bits, final(self).x),
            mnemonic == Mnemonic::Iny ==> *final(self) == (CPU {
                y: u8_specs::wrapping_add(old(self).y, 1),
                p: final(self).p,
                ..*old(self)
            }) && final(self).p.bits == spec_nz(old(self).p.bits, final(self).y),
            mnemonic == Mnemonic::Dey ==> *final(self) == (CPU {
                y: u8_specs::wrapping_sub(old(self).y, 1),
                p: final(self).p,
                ..*old(self)
            }) && final(self).p.bits == spec_nz(old(self).p.bits, final(self).y),
            mnemonic == Mnemonic::Pha ==> final(self).memory.ram@ == old(
                self).memory.ram@.update(0x100 + old(self).s as int, old(self).a) && final(self).s
                == u8_specs::wrapping_sub(old(self).s, 1) && final(self).a == old(self).a
                && final(self).p == old(self).p,
            mnemonic == Mnemonic::Php ==> final(self).memory.ram@ == old(
                self).memory.ram@.update(0x100 + old(self).s as int, old(self).p.bits | 0x30)
                && final(self).s == u8_specs::wrapping_sub(old(self).s, 1) && final(self).p == old(
                self).p,
            mnemonic == Mnemonic::Pla ==> final(self).a == old(self).memory.ram@[0x100
                + u8_specs::wrapping_add(old(self).s, 1) as int] && final(self).s
                == u8_specs::wrapping_add(old(self).s, 1) && final(self).p.bits == spec_nz(
                old(self).p.bits,
                final(self).a,
            ) && final(self).memory == old(self).memory,
            mnemonic == Mnemonic::Plp ==> final(self).p.bits == ((old(self).memory.ram@[0x100
                + u8_specs::wrapping_add(old(self).s, 1) as int] & !BREAK_LO) | BREAK_HI) && final(
                self).s == u8_specs::wrapping_add(old(self).s, 1) && final(self).a == old(self).a,
            (mnemonic == Mnemonic::Lda || mnemonic == Mnemonic::IllLax) && mode
                == AddressingMode::IMM ==> final(self).a == old(self).memory.spec_peek(
                old(self).pc,
            ),
            mnemonic == Mnemonic::Lda && mode == AddressingMode::IMM ==> final(self).p.bits
                == spec_nz(old(self).p.bits, final(self).a),
            mnemonic == Mnemonic::Ldx && mode == AddressingMode::IMM ==> final(self).x == old(
                self).memory.spec_peek(old(self).pc) && final(self).p.bits == spec_nz(
                old(self).p.bits,
                final(self).x,
            ),
            mnemonic == Mnemonic::Ldy && mode == AddressingMode::IMM ==> final(self).y == old(
                self).memory.spec_peek(old(self).pc) && final(self).p.bits == spec_nz(
                old(self).p.bits,
                final(self).y,
            ),
            mnemonic == Mnemonic::And && mode == AddressingMode::IMM ==> final(self).a == (old(
                self).a & old(self).memory.spec_peek(old(self).pc)),
            mnemonic == Mnemonic::Ora && mode == AddressingMode::IMM ==> final(self).a == (old(
                self).a | old(self).memory.spec_peek(old(self).pc)),
            mnemonic == Mnemonic::Eor && mode == AddressingMode::IMM ==> final(self).a == (old(
                self).a ^ old(self).memory.spec_peek(old(self).pc)),
            mnemonic == Mnemonic::Adc && mode == AddressingMode::IMM ==> final(self).a
                == spec_adc_sum(
                old(self).a,
                old(self).memory.spec_peek(old(self).pc),
                old(self).p.bits & 1 == 1,
            ) && (final(self).p.bits & 1 == 1) == spec_adc_carry(
                old(self).a,
                old(self).memory.spec_peek(old(self).pc),
                old(self).p.bits & 1 == 1,
            ),
            (mnemonic == Mnemonic::Sbc || mnemonic == Mnemonic::IllSbc) && mode
                == AddressingMode::IMM ==> final(self).a == spec_adc_sum(
                old(self).a,
                !old(self).memory.spec_peek(old(self).pc),
                old(self).p.bits & 1 == 1,
            ),
            mnemonic == Mnemonic::Cmp && mode == AddressingMode::IMM ==> ({
                let m = old(self).memory.spec_peek(old(self).pc);
                final(self).p.bits == ((old(self).p.bits & 0x7C) | (if old(self).a >= m {
                    1u8
                } else {
                    0u8
                }) | (if old(self).a == m {
                    2u8
                } else {
                    0u8
                }) | (u8_specs::wrapping_sub(old(self).a, m) & 0x80))
            }),
            mnemonic == Mnemonic::Sta && mode == AddressingMode::ZER ==> final(self).memory.ram@
                == old(self).memory.ram@.update(
                old(self).memory.spec_peek(old(self).pc) as int,
                old(self).a,
            ),
            mnemonic == Mnemonic::Rts ==> final(self).pc == u16_specs::wrapping_add(
                crate::util::spec_word(
                    old(self).memory.ram@[0x100 + u8_specs::wrapping_add(old(self).s, 1) as int],
                    old(self).memory.ram@[0x100 + u8_specs::wrapping_add(old(self).s, 2) as int],
                ),
                1,
            ) && final(self).s == u8_specs::wrapping_add(old(self).s, 2),
            mnemonic == Mnemonic::Brk ==> final(self).s == u8_specs::wrapping_sub(old(self).s, 3)
                && final(self).p.bits == (old(self).p.bits | IRQ_DISABLE) && final(self).pc
                == crate::util::spec_word(
                old(self).memory.spec_peek(IRQ_VEC),
                old(self).memory.spec_peek(0xFFFF),
            ) && final(self).memory.ram@ == old(self).memory.ram@.update(
                0x100 + old(self).s as int,
                (u16_specs::wrapping_add(old(self).pc, 1) >> 8) as u8,
            ).update(
                0x100 + u8_specs::wrapping_sub(old(self).s, 1) as int,
                (u16_specs::wrapping_add(old(self).pc, 1) & 0xFF) as u8,
            ).update(0x100 + u8_specs::wrapping_sub(old(self).s, 2) as int, old(self).p.bits
                | 0x30),
            mnemonic == Mnemonic::Bcc && (old(self).p.bits & CARRY == CARRY) ==> *final(self)
                == *old(self),
            mnemonic == Mnemonic::Bcs && (old(self).p.bits & CARRY != CARRY) ==> *final(self)
                == *old(self),
            mnemonic == Mnemonic::Beq && (old(self).p.bits & ZERO != ZERO) ==> *final(self)
                == *old(self),
            mnemonic == Mnemonic::Bne && (old(self).p.bits & ZERO == ZERO) ==> *final(self)
                == *old(self),
            mnemonic == Mnemonic::Bmi && (old(self).p.bits & NEGATIVE != NEGATIVE)
                ==> *final(self) == *old(self),
            mnemonic == Mnemonic::Bpl && (old(self).p.bits & NEGATIVE == NEGATIVE)
                ==> *final(self) == *old(self),
            mnemonic == Mnemonic::Bcc && (old(self).p.bits & CARRY != CARRY) ==> spec_branch_taken(
                *old(self),
                *final(self),
            ),
            mnemonic == Mnemonic::Beq && (old(self).p.bits & ZERO == ZERO) ==> spec_branch_taken(
                *old(self),
                *final(self),
            ),
            mnemonic == Mnemonic::Bne && (old(self).p.bits & ZERO != ZERO) ==> spec_branch_taken(
                *old(self),
                *final(self),
            ),
    {
        match mnemonic {
            Mnemonic::Adc => self.arithmetic_op(false, mode),
            Mnemonic::And => self.bit_op(BitOpKind::And, mode),
            Mnemonic::Asl => self.shift_op(true, mode),
            Mnemonic::Bcc => self.branch_op(CARRY, false, mode),
            Mnemonic::Bcs => self.branch_op(CARRY, true, mode),
            Mnemonic::Beq => self.branch_op(ZERO, true, mode),
            Mnemonic::Bit => self.bit(mode),
            Mnemonic::Bmi => self.branch_op(NEGATIVE, true, mode),
            Mnemonic::Bne => self.branch_op(ZERO, false, mode),
            Mnemonic::Bpl => self.branch_op(NEGATIVE, false, mode),
            Mnemonic::Brk => self.brk(),
            Mnemonic::Bvc => self.branch_op(OVERFLOW, false, mode),
            Mnemonic::Bvs => self.branch_op(OVERFLOW, true, mode),
            Mnemonic::Clc => self.p.remove(CARRY),
            Mnemonic::Cld => self.p.remove(DECIMAL),
            Mnemonic::Cli => self.p.remove(IRQ_DISABLE),
            Mnemonic::Clv => self.p.remove(OVERFLOW),
            Mnemonic::Cmp => {
                let a = self.a;
                self.compare_op(a, mode)
            },
            Mnemonic::Cpx => {
                let x = self.x;
                self.compare_op(x, mode)
            },
            Mnemonic::Cpy => {
                let y = self.y;
                self.compare_op(y, mode)
            },
            Mnemonic::Dec => self.step_op(false, mode),
            Mnemonic::Dex => {
                let x = self.x;
                self.x = self.step_reg_op(false, x)
            },
            Mnemonic::Dey => {
                let y = self.y;
                self.y = self.step_reg_op(false, y)
            },
            Mnemonic::Eor => self.bit_op(BitOpKind::Xor, mode),
            Mnemonic::Inc => self.step_op(true, mode),
            Mnemonic::Inx => {
                let x = self.x;
                self.x = self.step_reg_op(true, x)
            },
            Mnemonic::Iny => {
                let y = self.y;
                self.y = self.step_reg_op(true, y)
            },
            Mnemonic::Jmp => self.jump_op(false, mode),
            Mnemonic::Jsr => self.jump_op(true, mode),
            Mnemonic::Lda => self.a = self.load_op(mode),
            Mnemonic::Ldx => self.x = self.load_op(mode),
            Mnemonic::Ldy => self.y = self.load_op(mode),
            Mnemonic::Lsr => self.shift_op(false, mode),
            Mnemonic::Nop => {},
            Mnemonic::Ora => self.bit_op(BitOpKind::Or, mode),
            Mnemonic::Pha => {
                let a = self.a;
                self.stack_push(a)
            },
            Mnemonic::Php => {
                let pushed = self.p.bits() | 0x30;
                self.stack_push(pushed)
            },
            Mnemonic::Pla => self.pla(),
            Mnemonic::Plp => {
                let val = self.stack_pop();
                self.p.set_from_stack(val)
            },
            Mnemonic::Rol => self.rotate_op(true, mode),
            Mnemonic::Ror => self.rotate_op(false, mode),
            Mnemonic::Rti => self.rti(),
            Mnemonic::Rts => {
                let ret = self.stack_pop_u16();
                self.pc = ret.wrapping_add(1)
            },
            Mnemonic::Sbc => self.arithmetic_op(true, mode),
            Mnemonic::IllSbc => self.arithmetic_op(true, mode),
            Mnemonic::Sec => self.p.insert(CARRY),
            Mnemonic::Sed => self.p.insert(DECIMAL),
            Mnemonic::Sei => self.p.insert(IRQ_DISABLE),
            Mnemonic::Sta => {
                let a = self.a;
                self.store_op(a, mode)
            },
            Mnemonic::Stx => {
                let x = self.x;
                self.store_op(x, mode)
            },
            Mnemonic::Sty => {
                let y = self.y;
                self.store_op(y, mode)
            },
            Mnemonic::Tax => {
                let a = self.a;
                self.x = self.transfer_op(a, false)
            },
            Mnemonic::Tay => {
                let a = self.a;
                self.y = self.transfer_op(a, false)
            },
            Mnemonic::Tsx => {
                let s = self.s;
                self.x = self.transfer_op(s, false)
            },
            Mnemonic::Txa => {
                let x = self.x;
                self.a = self.transfer_op(x, false)
            },
            Mnemonic::Txs => {
                let x = self.x;
                self.s = self.transfer_op(x, true)
            },
            Mnemonic::Tya => {
                let y = self.y;
                self.a = self.transfer_op(y, false)
            },
            Mnemonic::Stp => self.halted = true,
            Mnemonic::IllNop => {
                if !matches!(mode, AddressingMode::IMP) && !matches!(mode, AddressingMode::ACC) {
                    let opcode_addr = self.pc.wrapping_sub(1);
                    let opcode = self.memory.peek(opcode_addr);
                    let (_, page_cross) = self.get_operand_address(mode);
                    if opcode & 0x0F == 0x0C && page_cross {
                        self.wait_cycles = self.wait_cycles.wrapping_add(1);
                    }
                }
            },
            Mnemonic::IllAlr => {
                self.bit_op(BitOpKind::And, AddressingMode::IMM);
                self.shift_op(false, AddressingMode::ACC);
            },
            Mnemonic::IllAnc => self.anc(),
            Mnemonic::IllArr => self.arr(mode),
            Mnemonic::IllAxs => self.axs(mode),
            Mnemonic::IllLax => {
                let v = self.load_op(mode);
                self.a = v;
                self.x = self.transfer_op(v, false);
            },
            Mnemonic::IllSax => {
                let (addr, _) = self.get_operand_address(mode);
                let v = self.a & self.x;
                self.memory.write(addr, v);
            },
            Mnemonic::IllLas => {},
            Mnemonic::IllDcp => {
                self.step_op(false, mode);
                let a = self.a;
                self.compare_op(a, mode);
                self.wait_cycles = 0;
            },
            Mnemonic::IllIsb => {
                self.step_op(true, mode);
                self.arithmetic_op(true, mode);
                self.wait_cycles = 0;
            },
            Mnemonic::IllRla => {
                self.rotate_op(true, mode);
                self.bit_op(BitOpKind::And, mode);
                self.wait_cycles = 0;
            },
            Mnemonic::IllRra => {
                self.rotate_op(false, mode);
                self.arithmetic_op(false, mode);
                self.wait_cycles = 0;
            },
            Mnemonic::IllSlo => {
                self.shift_op(true, mode);
                self.bit_op(BitOpKind::Or, mode);
                self.wait_cycles = 0;
            },
            Mnemonic::IllSre => {
                self.shift_op(false, mode);
                self.bit_op(BitOpKind::Xor, mode);
                self.wait_cycles = 0;
            },
        }
    }

    /// Execute one whole instruction: fetch, decode, dispatch, and
    /// charge the base cycle cost (as pending wait cycles), advancing
    /// the program counter past the operands unless the instruction
    /// moved it. For instructions that leave the program counter to
    /// the stepper, the advance is the opcode byte plus the mode's
    /// operand length, and in the implied and immediate modes the
    /// pending wait is exactly the base cost less the executing cycle,
    /// so each instruction costs its table entry in whole cycles.
    #[verifier::rlimit(100)]
    #[verifier::spinoff_prover]
    pub fn step(&mut self)
        requires
            old(self).wf(),
        ensures
            final(self).wf(),
            final(self).cycles == old(self).cycles,
            final(self).memory.ppu.scan == old(self).memory.ppu.scan,
            old(self).halted ==> *final(self) == *old(self),
            !old(self).halted ==> ({
                let op = crate::instruction::spec_decode(
                    old(self).memory.spec_peek(old(self).pc),
                );
                &&& final(self).halted == (op.mnemonic == Mnemonic::Stp)
                &&& (spec_stays_put(op.mnemonic) ==> final(self).pc == u16_specs::wrapping_add(
                    u16_specs::wrapping_add(old(self).pc, 1),
                    crate::addressing_mode::spec_operand_length(op.mode),
                ))
                &&& (spec_simple_op(op.mnemonic) && (op.mode == AddressingMode::IMP || op.mode
                    == AddressingMode::IMM) ==> final(self).wait_cycles as int == op.cycles - 1)
            }),
            !old(self).halted && spec_quiet_pc(old(self).pc) ==> ({
                let op = crate::instruction::spec_decode(
                    old(self).memory.spec_peek(old(self).pc),
                );
                let m1 = old(self).memory.spec_peek(u16_specs::wrapping_add(old(self).pc, 1));
                &&& (op.mnemonic == Mnemonic::Nop ==> final(self).a == old(self).a && final(
                    self).x == old(self).x && final(self).y == old(self).y && final(self).s == old(
                    self).s && final(self).p == old(self).p && final(self).memory.ram@ == old(
                    self).memory.ram@)
                &&& (op.mnemonic == Mnemonic::Clc ==> final(self).p.bits == (old(self).p.bits
                    & !CARRY) && final(self).a == old(self).a)
                &&& (op.mnemonic == Mnemonic::Sec ==> final(self).p.bits == (old(self).p.bits
                    | CARRY))
                &&& (op.mnemonic == Mnemonic::Cli ==> final(self).p.bits == (old(self).p.bits
                    & !IRQ_DISABLE))
                &&& (op.mnemonic == Mnemonic::Sei ==> final(self).p.bits == (old(self).p.bits
                    | IRQ_DISABLE))
                &&& (op.mnemonic == Mnemonic::Clv ==> final(self).p.bits == (old(self).p.bits
                    & !OVERFLOW))
                &&& (op.mnemonic == Mnemonic::Tax ==> final(self).x == old(self).a && final(
                    self).p.bits == spec_nz(old(self).p.bits, old(self).a))
                &&& (op.mnemonic == Mnemonic::Txa ==> final(self).a == old(self).x && final(
                    self).p.bits == spec_nz(old(self).p.bits, old(self).x))
                &&& (op.mnemonic == Mnemonic::Inx ==> final(self).x == u8_specs::wrapping_add(
                    old(self).x,
                    1,
                ) && final(self).p.bits == spec_nz(old(self).p.bits, final(self).x))
                &&& (op.mnemonic == Mnemonic::Dex ==> final(self).x == u8_specs::wrapping_sub(
                    old(self).x,
                    1,
                ) && final(self).p.bits == spec_nz(old(self).p.bits, final(self).x))
                &&& (op.mnemonic == Mnemonic::Lda && op.mode == AddressingMode::IMM ==> final(
                    self).a == m1 && final(self).p.bits == spec_nz(old(self).p.bits, m1))
                &&& (op.mnemonic == Mnemonic::Ldx && op.mode == AddressingMode::IMM ==> final(
                    self).x == m1 && final(self).p.bits == spec_nz(old(self).p.bits, m1))
                &&& (op.mnemonic == Mnemonic::Ldy && op.mode == AddressingMode::IMM ==> final(
                    self).y == m1 && final(self).p.bits == spec_nz(old(self).p.bits, m1))
                &&& (op.mnemonic == Mnemonic::And && op.mode == AddressingMode::IMM ==> final(
                    self).a == (old(self).a & m1))
                &&& (op.mnemonic == Mnemonic::Ora && op.mode == AddressingMode::IMM ==> final(
                    self).a == (old(self).a | m1))
                &&& (op.mnemonic == Mnemonic::Eor && op.mode == AddressingMode::IMM ==> final(
                    self).a == (old(self).a ^ m1))
                &&& (op.mnemonic == Mnemonic::Adc && op.mode == AddressingMode::IMM ==> final(
                    self).a == spec_adc_sum(old(self).a, m1, old(self).p.bits & 1 == 1) && (final(
                    self).p.bits & 1 == 1) == spec_adc_carry(
                    old(self).a,
                    m1,
                    old(self).p.bits & 1 == 1,
                ))
                &&& (op.mnemonic == Mnemonic::Sbc && op.mode == AddressingMode::IMM ==> final(
                    self).a == spec_adc_sum(old(self).a, !m1, old(self).p.bits & 1 == 1))
                &&& (op.mnemonic == Mnemonic::Cmp && op.mode == AddressingMode::IMM ==> final(
                    self).p.bits == ((old(self).p.bits & 0x7C) | (if old(self).a >= m1 {
                    1u8
                } else {
                    0u8
                }) | (if old(self).a == m1 {
                    2u8
                } else {
                    0u8
                }) | (u8_specs::wrapping_sub(old(self).a, m1) & 0x80)))
                &&& (op.mnemonic == Mnemonic::Pha ==> final(self).memory.ram@ == old(
                    self).memory.ram@.update(0x100 + old(self).s as int, old(self).a) && final(
                    self).s == u8_specs::wrapping_sub(old(self).s, 1))
                &&& (op.mnemonic == Mnemonic::Php ==> final(self).memory.ram@ == old(
                    self).memory.ram@.update(0x100 + old(self).s as int, old(self).p.bits | 0x30)
                    && final(self).s == u8_specs::wrapping_sub(old(self).s, 1))
                &&& (op.mnemonic == Mnemonic::Pla ==> final(self).a == old(self).memory.ram@[0x100
                    + u8_specs::wrapping_add(old(self).s, 1) as int] && final(self).s
                    == u8_specs::wrapping_add(old(self).s, 1))
            }),
    {
        if self.halted {
            return ;
        }
        let opcode = self.memory.read(self.pc);
        let op = Instruction::decode(opcode);
        self.pc = self.pc.wrapping_add(1);
        self.wait_cycles = 0;
        let old_pc = self.pc;
        proof {
            lemma_decode_mode_fits(opcode);
        }
        self.execute_op(op.mnemonic, op.mode);
        if self.pc == old_pc {
            self.pc = self.pc.wrapping_add(op.mode.operand_length());
        }
        let charge: u32 = if op.cycles > 0 {
            op.cycles - 1
        } else {
            0
        };
        self.wait_cycles = self.wait_cycles.wrapping_add(charge);
    }

    /// Enter the NMI handler: push the return address and the status
    /// with B clear and the unused bit set, set I, and jump through
    /// the NMI vector.
    pub fn nmi(&mut self)
        requires
            old(self).wf(),
        ensures
            final(self).wf(),
            final(self).memory.ram@ == old(self).memory.ram@.update(
                0x100 + old(self).s as int,
                (old(self).pc >> 8) as u8,
            ).update(
                0x100 + u8_specs::wrapping_sub(old(self).s, 1) as int,
                (old(self).pc & 0xFF) as u8,
            ).update(
                0x100 + u8_specs::wrapping_sub(old(self).s, 2) as int,
                (old(self).p.bits & !BREAK_LO) | BREAK_HI,
            ),
            final(self).s == u8_specs::wrapping_sub(old(self).s, 3),
            final(self).p.bits == (old(self).p.bits | IRQ_DISABLE),
            final(self).wait_cycles == vstd::wrapping::u32_specs::wrapping_add(
                old(self).wait_cycles,
                7,
            ),
            final(self).cycles == old(self).cycles,
            final(self).halted == old(self).halted,
            final(self).memory == (CpuBus { ram: final(self).memory.ram, ..old(self).memory }),
            final(self).pc == crate::util::spec_word(
                old(self).memory.spec_peek(NMI_VEC),
                old(self).memory.spec_peek(0xFFFB),
            ),
    {
        let pc = self.pc;
        self.stack_push_u16(pc);
        let pushed = (self.p.bits() & !BREAK_LO) | BREAK_HI;
        self.stack_push(pushed);
        self.p.insert(IRQ_DISABLE);
        self.pc = self.memory.read_u16(NMI_VEC);
        self.wait_cycles = self.wait_cycles.wrapping_add(7);
    }

    /// Enter the IRQ handler unless interrupts are disabled; IRQ is
    /// level-sensitive and pushes the same status shape as NMI.
    pub fn irq(&mut self)
        requires
            old(self).wf(),
        ensures
            final(self).wf(),
            (old(self).p.bits & IRQ_DISABLE) == IRQ_DISABLE ==> *final(self) == *old(self),
            (old(self).p.bits & IRQ_DISABLE) != IRQ_DISABLE ==> final(self).p.bits == (old(
                self).p.bits | IRQ_DISABLE) && final(self).s == u8_specs::wrapping_sub(
                old(self).s,
                3,
            ),
            final(self).cycles == old(self).cycles,
            final(self).halted == old(self).halted,
            final(self).memory == (CpuBus { ram: final(self).memory.ram, ..old(self).memory }),
    {
        if !self.p.contains(IRQ_DISABLE) {
            let pc = self.pc;
            self.stack_push_u16(pc);
            let pushed = (self.p.bits() & !BREAK_LO) | BREAK_HI;
            self.stack_push(pushed);
            self.p.insert(IRQ_DISABLE);
            self.pc = self.memory.read_u16(IRQ_VEC);
            self.wait_cycles = self.wait_cycles.wrapping_add(7);
        }
    }
}

/// The N and Z bits of `spec_nz` depend only on the value, not on the
/// previous status byte.
pub proof fn lemma_nz_low_bits_only(p: u8, v: u8)
    ensures
        spec_nz(p, v) & 0x82 == spec_nz(0, v) & 0x82,
{
    assert(((p & 0x7D) | (if v == 0 {
        0x02u8
    } else {
        0u8
    }) | (v & 0x80)) & 0x82 == ((0u8 & 0x7D) | (if v == 0 {
        0x02u8
    } else {
        0u8
    }) | (v & 0x80)) & 0x82) by (bit_vector);
}

impl CPU {
    /// One log line for the instruction at the current program
    /// counter, in the fixed trace layout: the address, the opcode and
    /// operand bytes, the mnemonic and operand text padded to column
    /// 48, then the register-state suffix. Built entirely from peeks,
    /// so tracing never disturbs the machine.
    pub fn trace_line(&self) -> (r: Vec<u8>)
        requires
            self.wf(),
        ensures
            r@.len() >= 48,
            r@.subrange(0, 4) == crate::trace::spec_hex4(self.pc),
            r@.subrange(48, r@.len() as int) == crate::trace::spec_state_suffix(
                self.a,
                self.x,
                self.y,
                self.p.bits,
                self.s,
                self.cycles,
            ),
    {
        let opcode = self.memory.peek(self.pc);
        let op = Instruction::decode(opcode);
        let len = op.mode.operand_length();
        let operands: u16 = if len == 1 {
            self.memory.peek(self.pc.wrapping_add(1)) as u16
        } else if len == 2 {
            self.memory.peek_u16(self.pc.wrapping_add(1))
        } else {
            0
        };

        let mut out: Vec<u8> = Vec::new();
        crate::trace::push_hex4(&mut out, self.pc);
        out.push(0x20);
        out.push(0x20);
        crate::trace::push_hex2(&mut out, opcode);
        out.push(0x20);
        if len >= 1 {
            crate::trace::push_hex2(&mut out, crate::util::word_lo(operands));
        } else {
            out.push(0x20);
            out.push(0x20);
        }
        out.push(0x20);
        if len >= 2 {
            crate::trace::push_hex2(&mut out, crate::util::word_hi(operands));
        } else {
            out.push(0x20);
            out.push(0x20);
        }
        out.push(0x20);
        let name = crate::trace::mnemonic_text(op.mnemonic);
        if name.len() == 3 {
            out.push(0x20);
        }
        crate::trace::push_bytes(&mut out, &name);
        out.push(0x20);
        let operand_text = op.mode.format(self.pc, operands);
        crate::trace::push_bytes(&mut out, &operand_text);
        let data_text = op.mode.format_data(self.pc, self.x, self.y, &self.memory);
        crate::trace::push_bytes(&mut out, &data_text);
        proof {
            assert(out@.len() <= 48);
            assert(out@.subrange(0, 4) =~= crate::trace::spec_hex4(self.pc));
        }
        while out.len() < 48
            invariant
                4 <= out@.len() <= 48,
                out@.subrange(0, 4) == crate::trace::spec_hex4(self.pc),
            decreases 48 - out@.len(),
        {
            let ghost prev = out@;
            out.push(0x20);
            proof {
                assert(out@.subrange(0, 4) =~= prev.subrange(0, 4));
            }
        }
        let ghost padded = out@;
        crate::trace::push_state_suffix(
            &mut out,
            self.a,
            self.x,
            self.y,
            self.p.bits,
            self.s,
            self.cycles,
        );
        proof {
            assert(out@.subrange(0, 4) =~= padded.subrange(0, 4));
            assert(out@.subrange(48, out@.len() as int) =~= crate::trace::spec_state_suffix(
                self.a,
                self.x,
                self.y,
                self.p.bits,
                self.s,
                self.cycles,
            ));
        }
        out
    }
}

/// Whether two addresses fall on different 256-byte pages.
pub fn pages_differ(addr1: u16, addr2: u16) -> (r: bool)
    ensures
        r == ((addr1 & 0xFF00) != (addr2 & 0xFF00)),
{
    (addr1 & 0xFF00) != (addr2 & 0xFF00)
}

/// Whether `mode` is one the handler for `mnemonic` accepts: the modes
/// the opcode table pairs them with.
pub open spec fn spec_mode_fits(mnemonic: Mnemonic, mode: AddressingMode) -> bool {
    match mnemonic {
        Mnemonic::Clc | Mnemonic::Cld | Mnemonic::Cli | Mnemonic::Clv | Mnemonic::Sec
            | Mnemonic::Sed | Mnemonic::Sei | Mnemonic::Dex | Mnemonic::Dey | Mnemonic::Inx
            | Mnemonic::Iny | Mnemonic::Tax | Mnemonic::Tay | Mnemonic::Tsx | Mnemonic::Txa
            | Mnemonic::Txs | Mnemonic::Tya | Mnemonic::Nop | Mnemonic::Brk | Mnemonic::Pha
            | Mnemonic::Php | Mnemonic::Pla | Mnemonic::Plp | Mnemonic::Rti | Mnemonic::Rts
            | Mnemonic::Stp | Mnemonic::IllLas | Mnemonic::IllNop => true,
        Mnemonic::Bcc | Mnemonic::Bcs | Mnemonic::Beq | Mnemonic::Bmi | Mnemonic::Bne
            | Mnemonic::Bpl | Mnemonic::Bvc | Mnemonic::Bvs => mode == AddressingMode::REL,
        Mnemonic::Jmp | Mnemonic::Jsr => mode == AddressingMode::ABS || mode
            == AddressingMode::ABI,
        Mnemonic::Asl | Mnemonic::Lsr | Mnemonic::Rol | Mnemonic::Ror => mode
            != AddressingMode::IMP,
        _ => mode != AddressingMode::ACC && mode != AddressingMode::IMP,
    }
}

/// Whether `mnemonic` never moves the program counter itself, so the
/// instruction stepper's operand-length advance applies.
pub open spec fn spec_stays_put(m: Mnemonic) -> bool {
    !(m == Mnemonic::Jmp || m == Mnemonic::Jsr || m == Mnemonic::Brk || m == Mnemonic::Rti || m
        == Mnemonic::Rts || m == Mnemonic::Bcc || m == Mnemonic::Bcs || m == Mnemonic::Beq || m
        == Mnemonic::Bmi || m == Mnemonic::Bne || m == Mnemonic::Bpl || m == Mnemonic::Bvc || m
        == Mnemonic::Bvs)
}

/// Whether `mnemonic` stays put and never charges extra cycles in the
/// implied or immediate modes, so its cost is the table's base cost.
pub open spec fn spec_simple_op(m: Mnemonic) -> bool {
    spec_stays_put(m) && !(m == Mnemonic::IllDcp || m == Mnemonic::IllIsb || m == Mnemonic::IllRla
        || m == Mnemonic::IllRra || m == Mnemonic::IllSlo || m == Mnemonic::IllSre)
}

/// Whether a program counter sits where fetching the opcode and its
/// operand reads plain memory (RAM or the cartridge), so the fetches
/// neither disturb the machine nor depend on read order.
pub open spec fn spec_quiet_pc(pc: u16) -> bool {
    pc < 0x1FFE || (0x4020 <= pc && pc < 0xFFFF)
}

/// The state change of a taken branch: the program counter moves to
/// the relative target, and one cycle is charged, or two when the
/// target sits on another page; nothing else changes.
pub open spec fn spec_branch_taken(pre: CPU, post: CPU) -> bool {
    let offset = pre.memory.spec_peek(pre.pc);
    let signed: u16 = if offset >= 0x80 {
        (offset as u16) | 0xFF00
    } else {
        offset as u16
    };
    let next = u16_specs::wrapping_add(pre.pc, 1);
    let dest = u16_specs::wrapping_add(next, signed);
    &&& post.pc == dest
    &&& post.wait_cycles == vstd::wrapping::u32_specs::wrapping_add(
        pre.wait_cycles,
        if (next & 0xFF00) != (dest & 0xFF00) {
            2u32
        } else {
            1u32
        },
    )
    &&& post.a == pre.a
    &&& post.x == pre.x
    &&& post.p == pre.p
}

/// Every opcode decodes to a mnemonic/mode pair its handler accepts.
pub proof fn lemma_decode_mode_fits(opcode: u8)
    ensures
        spec_mode_fits(
            crate::instruction::spec_decode(opcode).mnemonic,
            crate::instruction::spec_decode(opcode).mode,
        ),
{
}

} // verus!
