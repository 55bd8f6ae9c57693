//! The CPU's memory map: 2 KiB of internal RAM mirrored to `$2000`,
//! the PPU registers mirrored every 8 bytes to `$4000`, the APU and
//! controller registers, and the cartridge above `$4020`.

use crate::apu::APU;
use crate::cartridge::Cartridge;
use crate::controllers::NoController;
use crate::controllers::StandardController;
use crate::ppu::PPU;
use crate::util::spec_word;
use crate::util::word;
use vstd::prelude::*;

verus! {

/// Everything the CPU can reach through its address space.
pub struct CpuBus {
    pub ram: Vec<u8>,
    pub ppu: PPU,
    pub apu: APU,
    pub cart: Cartridge,
    pub joy1: StandardController,
    pub joy2: NoController,
}

impl CpuBus {
    /// The component invariants the bus relies on.
    pub open spec fn wf(&self) -> bool {
        &&& self.ram@.len() == 0x800
        &&& self.ppu.wf()
        &&& self.apu.wf()
        &&& self.cart.wf()
        &&& self.joy1.is_controller_1
    }

    /// The byte a side-effect-free read of `addr` returns.
    pub open spec fn spec_peek(&self, addr: u16) -> u8 {
        if addr < 0x2000 {
            self.ram@[addr as int % 0x800]
        } else if addr < 0x4000 {
            self.ppu.spec_reg_peek(self.cart, (0x2000 + (addr % 8)) as u16)
        } else if addr == 0x4014 {
            0
        } else if addr == 0x4016 {
            self.joy1.state_shift & 1
        } else if addr == 0x4017 {
            0
        } else if addr <= 0x4015 {
            self.apu.peek_spec(addr)
        } else if addr >= 0x4020 {
            self.cart.spec_peek(addr)
        } else {
            0
        }
    }

    /// A bus over fresh components and the given cartridge.
    pub fn new(cart: Cartridge) -> (r: CpuBus)
        requires
            cart.wf(),
        ensures
            r.wf(),
            r.cart == cart,
            forall|i: int| 0 <= i < 0x800 ==> r.ram@[i] == 0u8,
            !r.ppu.nmi && !r.ppu.frame_ready,
            r.ppu.dma_request is None,
            !r.apu.dmc.stall_cpu,
    {
        CpuBus {
            ram: crate::util::zero_vec(0x800),
            ppu: PPU::new(),
            apu: APU::new(),
            cart,
            joy1: StandardController::new(true),
            joy2: NoController::new(),
        }
    }

    /// Read the byte at `addr`. The value is always what a peek would
    /// see; reads of PPU, APU and controller registers additionally
    /// take their documented side effects. RAM and open-bus reads
    /// change nothing.
    pub fn read(&mut self, addr: u16) -> (r: u8)
        requires
            old(self).wf(),
        ensures
            final(self).wf(),
            r == old(self).spec_peek(addr),
            final(self).ram@ == old(self).ram@,
            final(self).ppu.scan == old(self).ppu.scan,
            addr < 0x2000 || (0x4018 <= addr < 0x4020) ==> *final(self) == *old(self),
            0x2000 <= addr < 0x4000 ==> final(self).apu == old(self).apu && final(self).joy1
                == old(self).joy1,
            addr >= 0x4020 ==> *final(self) == *old(self),
            addr == 0x4016 ==> *final(self) == (CpuBus { joy1: final(self).joy1, ..*old(self) })
                && final(self).joy1 == (StandardController {
                state_shift: if old(self).joy1.shift_strobe {
                    old(self).joy1.state_shift
                } else {
                    old(self).joy1.state_shift >> 1
                },
                ..old(self).joy1
            }),
            0x4000 <= addr <= 0x4015 ==> final(self).ppu == old(self).ppu && final(self).cart
                == old(self).cart && final(self).joy1 == old(self).joy1,
            0x2000 <= addr < 0x4000 && addr % 8 == 2 ==> final(self).ppu.registers.ppustatus.bits
                == (old(self).ppu.registers.ppustatus.bits & !0x80)
                && !final(self).ppu.registers.write_latch,
            0x2000 <= addr < 0x4000 && addr % 8 == 7 ==> final(
                self).ppu.registers.curr_addr.raw as int == (old(self).ppu.registers.curr_addr.raw
                + (if old(self).ppu.registers.ppuctrl.bits & 0x04 == 0x04 {
                32int
            } else {
                1int
            })) % 0x4000 && final(self).ppu.registers.ppudata == old(self).ppu.spec_mem_peek(
                old(self).cart,
                old(self).ppu.registers.curr_addr.raw,
            ),
            addr == 0x4015 ==> !final(self).apu.frame_irq,
    {
        if addr < 0x2000 {
            self.ram[(addr % 0x800) as usize]
        } else if addr < 0x4000 {
            let reg = 0x2000 + (addr % 8);
            self.ppu.reg_read(&mut self.cart, reg)
        } else if addr == 0x4014 {
            0
        } else if addr == 0x4016 {
            self.joy1.read(addr)
        } else if addr == 0x4017 {
            self.joy2.read(addr)
        } else if addr <= 0x4015 {
            self.apu.read(addr)
        } else if addr >= 0x4020 {
            self.cart.read(addr)
        } else {
            0
        }
    }

    /// Read the byte at `addr` without side effects.
    pub fn peek(&self, addr: u16) -> (r: u8)
        requires
            self.wf(),
        ensures
            r == self.spec_peek(addr),
    {
        if addr < 0x2000 {
            self.ram[(addr % 0x800) as usize]
        } else if addr < 0x4000 {
            let reg = 0x2000 + (addr % 8);
            self.ppu.reg_peek(&self.cart, reg)
        } else if addr == 0x4014 {
            0
        } else if addr == 0x4016 {
            self.joy1.peek(addr)
        } else if addr == 0x4017 {
            0
        } else if addr <= 0x4015 {
            self.apu.peek(addr)
        } else if addr >= 0x4020 {
            self.cart.peek(addr)
        } else {
            0
        }
    }

    /// Write `data` at `addr`: into RAM below `$2000`, the PPU
    /// registers to `$4000` (with `$4014` scheduling OAM DMA), the
    /// controller strobe at `$4016`, the APU elsewhere in the I/O
    /// block, and the cartridge above `$4020`. Writes into the
    /// unmapped hole are dropped.
    pub fn write(&mut self, addr: u16, data: u8)
        requires
            old(self).wf(),
        ensures
            final(self).wf(),
            final(self).ppu.scan == old(self).ppu.scan,
            addr < 0x2000 ==> *final(self) == (CpuBus { ram: final(self).ram, ..*old(self) })
                && final(self).ram@ == old(self).ram@.update(addr as int % 0x800, data),
            0x2000 <= addr < 0x4000 || addr == 0x4014 ==> final(self).ram@ == old(self).ram@
                && final(self).apu == old(self).apu && final(self).joy1 == old(self).joy1,
            addr == 0x4014 ==> final(self).ppu.dma_request == Some(data) && final(self).cart
                == old(self).cart && final(self).ppu.registers == old(self).ppu.registers,
            addr == 0x4016 ==> *final(self) == (CpuBus { joy1: final(self).joy1, ..*old(self) })
                && final(self).joy1 == (StandardController {
                shift_strobe: (data & 1) == 1,
                ..old(self).joy1
            }),
            (0x4000 <= addr <= 0x4013 || addr == 0x4015 || addr == 0x4017) ==> *final(self) == (
            CpuBus { apu: final(self).apu, ..*old(self) }),
            0x4018 <= addr < 0x4020 ==> *final(self) == *old(self),
            addr >= 0x4020 ==> *final(self) == (CpuBus { cart: final(self).cart, ..*old(self) })
                && final(self).cart.meta == old(self).cart.meta,
            0x2000 <= addr < 0x4000 && addr % 8 == 0 ==> final(self).ppu.registers.ppuctrl.bits
                == data,
            0x2000 <= addr < 0x4000 && addr % 8 == 1 ==> final(self).ppu.registers.ppumask.bits
                == data,
            0x2000 <= addr < 0x4000 && addr % 8 == 6 && old(self).ppu.registers.write_latch
                ==> final(self).ppu.registers.curr_addr.raw == ((old(
                self).ppu.registers.temp_addr.raw & 0xFF00) | (data as u16)) && !final(
                self).ppu.registers.write_latch,
            0x2000 <= addr < 0x4000 && addr % 8 == 7 ==> final(
                self).ppu.registers.curr_addr.raw as int == (old(self).ppu.registers.curr_addr.raw
                + (if old(self).ppu.registers.ppuctrl.bits & 0x04 == 0x04 {
                32int
            } else {
                1int
            })) % 0x4000,
            addr == 0x4015 ==> final(self).apu.pulse1.length_counter.enabled == ((data & 0x01)
                == 1) && final(self).apu.dmc.enabled == (((data >> 4) & 1) == 1),
            addr == 0x4017 ==> final(self).apu.frame_sequence_len == if data >> 7 == 1 {
                5u8
            } else {
                4u8
            },
    {
        if addr < 0x2000 {
            let i = (addr % 0x800) as usize;
            self.ram.set(i, data);
        } else if addr < 0x4000 {
            let reg = 0x2000 + (addr % 8);
            self.ppu.reg_write(&mut self.cart, reg, data);
        } else if addr == 0x4014 {
            self.ppu.reg_write(&mut self.cart, addr, data);
        } else if addr == 0x4016 {
            self.joy1.write(addr, data);
        } else if addr <= 0x4013 || addr == 0x4015 || addr == 0x4017 {
            self.apu.write(addr, data);
        } else if addr >= 0x4020 {
            self.cart.write(addr, data);
        }
    }

    /// Read the little-endian word at `addr` and `addr + 1` (wrapping
    /// at the top of the address space).
    pub fn read_u16(&mut self, addr: u16) -> (r: u16)
        requires
            old(self).wf(),
        ensures
            final(self).wf(),
            final(self).ram@ == old(self).ram@,
            final(self).ppu.scan == old(self).ppu.scan,
            r & 0xFF == old(self).spec_peek(addr) as u16,
            addr < 0x1FFF ==> r == spec_word(
                old(self).ram@[addr as int % 0x800],
                old(self).ram@[(addr + 1) as int % 0x800],
            ) && *final(self) == *old(self),
            0x4020 <= addr < 0xFFFF ==> r == spec_word(
                old(self).spec_peek(addr),
                old(self).spec_peek((addr + 1) as u16),
            ) && *final(self) == *old(self),
    {
        let lo = self.read(addr);
        let hi = self.read(addr.wrapping_add(1));
        word(lo, hi)
    }

    /// Peek the little-endian word at `addr` and `addr + 1` (wrapping
    /// at the top of the address space).
    pub fn peek_u16(&self, addr: u16) -> (r: u16)
        requires
            self.wf(),
        ensures
            addr < 0xFFFF ==> r == spec_word(self.spec_peek(addr), self.spec_peek((addr + 1) as u16)),
    {
        let lo = self.peek(addr);
        let hi = self.peek(addr.wrapping_add(1));
        word(lo, hi)
    }

    /// Write the little-endian word at `addr` and `addr + 1`.
    pub fn write_u16(&mut self, addr: u16, data: u16)
        requires
            old(self).wf(),
            addr < 0xFFFF,
        ensures
            final(self).wf(),
            addr + 1 < 0x2000 ==> final(self).ram@ == old(self).ram@.update(
                addr as int % 0x800,
                (data & 0xFF) as u8,
            ).update((addr + 1) as int % 0x800, (data >> 8) as u8),
    {
        let hi = crate::util::word_hi(data);
        let lo = crate::util::word_lo(data);
        self.write(addr, lo);
        self.write(addr + 1, hi);
    }
}

} // verus!
