//! The system container: one CPU (owning the whole bus) driven one
//! cycle per tick, with the PPU advancing three dots per tick, the APU
//! one cycle, OAM DMA stalls, and interrupt latching between steps.

use crate::bus::CpuBus;
use crate::cartridge::Cartridge;
use crate::cpu::CPU;
use vstd::prelude::*;
use vstd::wrapping::u32_specs;
use vstd::wrapping::u64_specs;

verus! {

/// A whole NES.
pub struct NES {
    pub cpu: CPU,
    pub paused: bool,
}

impl NES {
    /// The component invariants the system keeps.
    pub open spec fn wf(&self) -> bool {
        self.cpu.wf()
    }

    /// A powered-on system with an empty cartridge slot.
    pub fn new() -> (r: NES)
        ensures
            r.wf(),
            !r.paused,
            r.cpu.memory.cart.mapper is None,
            !r.cpu.memory.ppu.nmi,
            r.cpu.memory.ppu.dma_request is None,
    {
        let cart = Cartridge::new();
        let mut cpu = CPU::new(CpuBus::new(cart));
        cpu.reset();
        NES { cpu, paused: false }
    }

    /// Reset every component, keeping the cartridge.
    pub fn reset(&mut self)
        requires
            old(self).wf(),
        ensures
            final(self).wf(),
            final(self).cpu.cycles == 7,
            !final(self).cpu.halted,
    {
        self.cpu.memory.ppu.reset();
        self.cpu.memory.apu.reset();
        self.cpu.memory.cart.reset();
        self.cpu.reset();
    }

    /// Load a parsed iNES image and reset the system; on a parse error
    /// nothing changes. Succeeds exactly on the images
    /// `crate::cartridge::spec_loadable` admits.
    pub fn load_rom(&mut self, data: Vec<u8>) -> (r: Result<(), &'static str>)
        requires
            old(self).wf(),
        ensures
            final(self).wf(),
            r is Ok <==> crate::cartridge::spec_loadable(data@),
            r is Err ==> *final(self) == *old(self),
            r is Ok ==> final(self).cpu.memory.cart.mapper is Some,
    {
        match Cartridge::from_bytes(data) {
            Ok(new_cart) => {
                self.cpu.memory.cart = new_cart;
                self.cpu.memory.ppu.reset();
                self.cpu.memory.apu.reset();
                self.cpu.reset();
                Ok(())
            },
            Err(e) => Err(e),
        }
    }

    /// Empty the cartridge slot.
    pub fn unload_rom(&mut self)
        requires
            old(self).wf(),
        ensures
            final(self).wf(),
            final(self).cpu.memory.cart.mapper is None,
    {
        self.cpu.memory.cart = Cartridge::new();
    }

    /// Whether a cartridge is loaded.
    pub fn has_cartridge(&self) -> (r: bool)
        ensures
            r == (self.cpu.memory.cart.mapper is Some),
    {
        !self.cpu.memory.cart.is_empty()
    }

    /// Run a pending OAM DMA: copy the 256 bytes of CPU page `page`
    /// into OAM starting at OAMADDR (wrapping in OAM), and charge the
    /// CPU 513 stall cycles, or 514 when it sits on an odd cycle. The
    /// PPU and APU keep running through the stall via the charged wait
    /// cycles, so the dots-per-cycle pacing is unchanged.
    fn run_oam_dma(&mut self, page: u8)
        requires
            old(self).wf(),
        ensures
            final(self).wf(),
            final(self).cpu.wait_cycles == u32_specs::wrapping_add(
                old(self).cpu.wait_cycles,
                if old(self).cpu.cycles % 2 == 1 {
                    514u32
                } else {
                    513u32
                },
            ),
            final(self).cpu.cycles == old(self).cpu.cycles,
            final(self).cpu.memory.ppu.oam@.len() == 256,
            page < 0x20 || page >= 0x40 ==> forall|i: int|
                0 <= i < 256 ==> #[trigger] final(self).cpu.memory.ppu.oam@[(old(
                    self,
                ).cpu.memory.ppu.registers.oamaddr + i) % 256] == old(self).cpu.memory.spec_peek(
                    ((page as int) * 0x100 + i) as u16,
                ),
            0x20 <= page < 0x40 ==> forall|i: int|
                0 <= i < 256 && i % 8 != 4 ==> #[trigger] final(self).cpu.memory.ppu.oam@[(old(
                    self,
                ).cpu.memory.ppu.registers.oamaddr + i) % 256] == old(self).cpu.memory.spec_peek(
                    ((page as int) * 0x100 + i) as u16,
                ),
            final(self).cpu.memory.ram@ == old(self).cpu.memory.ram@,
            final(self).cpu.memory.ppu.scan == old(self).cpu.memory.ppu.scan,
            final(self).cpu.pc == old(self).cpu.pc && final(self).cpu.a == old(self).cpu.a && final(
                self).cpu.s == old(self).cpu.s,
    {
        let oamaddr = self.cpu.memory.ppu.registers.oamaddr;
        let base: u16 = (page as u16) << 8;
        proof {
            assert((page as u16) << 8 == page * 0x100) by (bit_vector);
        }
        let mut i: u16 = 0;
        while i < 256
            invariant
                i <= 256,
                self.wf(),
                self.cpu.memory.ppu.oam@.len() == 256,
                base == page * 0x100,
                base + 255 <= 0xFFFF,
                self.cpu.memory.ppu.registers.oamaddr == oamaddr,
                page < 0x20 || page >= 0x40 ==> forall|j: int|
                    0 <= j < i ==> #[trigger] self.cpu.memory.ppu.oam@[(oamaddr + j) % 256] == old(
                        self,
                    ).cpu.memory.spec_peek(((page as int) * 0x100 + j) as u16),
                0x20 <= page < 0x40 ==> forall|j: int|
                    0 <= j < i && j % 8 != 4 ==> #[trigger] self.cpu.memory.ppu.oam@[(oamaddr + j)
                        % 256] == old(self).cpu.memory.spec_peek(
                        ((page as int) * 0x100 + j) as u16,
                    ),
                0x20 <= page < 0x40 ==> forall|a: u16|
                    a % 8 != 4 ==> #[trigger] self.cpu.memory.spec_peek(a) == old(
                        self,
                    ).cpu.memory.spec_peek(a),
                self.cpu.memory.ram@ == old(self).cpu.memory.ram@,
                self.cpu.wait_cycles == old(self).cpu.wait_cycles,
                self.cpu.cycles == old(self).cpu.cycles,
                self.cpu.pc == old(self).cpu.pc && self.cpu.a == old(self).cpu.a && self.cpu.s
                    == old(self).cpu.s,
                self.cpu.memory == (CpuBus { ppu: self.cpu.memory.ppu, ..old(self).cpu.memory }),
                self.cpu.memory.ppu == (crate::ppu::PPU {
                    oam: self.cpu.memory.ppu.oam,
                    ..old(self).cpu.memory.ppu
                }),
            decreases 256 - i,
        {
            let value = self.dma_read(base + i);
            let dest = ((oamaddr as u16) + i) % 256;
            self.cpu.memory.ppu.oam.set(dest as usize, value);
            i = i + 1;
        }
        let extra: u32 = if self.cpu.cycles % 2 == 1 {
            514
        } else {
            513
        };
        self.cpu.stall(extra);
    }

    /// One side-effect-free DMA source read; DMA never reaches the
    /// PPU or APU registers, so the value is a plain peek.
    fn dma_read(&self, addr: u16) -> (r: u8)
        requires
            self.wf(),
        ensures
            r == self.cpu.memory.spec_peek(addr),
    {
        self.cpu.memory.peek(addr)
    }

    /// One master-clock tick: run any posted OAM DMA, give the CPU one
    /// cycle, the APU one cycle (serving a DMC fetch request), the PPU
    /// three dots (the mapper sees a cycle per dot), and finally latch
    /// the PPU's NMI edge and the mapper/APU IRQ lines into the CPU.
    /// The PPU advances exactly three dots whenever no DMA was
    /// pending; the CPU cycle counter advances exactly one.
    #[verifier::rlimit(100)]
    #[verifier::spinoff_prover]
    pub fn tick(&mut self)
        requires
            old(self).wf(),
        ensures
            final(self).wf(),
            old(self).paused ==> *final(self) == *old(self),
            !old(self).paused ==> final(self).cpu.cycles == u64_specs::wrapping_add(
                old(self).cpu.cycles,
                1,
            ),
            !old(self).paused ==> final(
                self).cpu.memory.ppu.scan.total_cycles == u32_specs::wrapping_add(
                u32_specs::wrapping_add(
                    u32_specs::wrapping_add(old(self).cpu.memory.ppu.scan.total_cycles, 1),
                    1,
                ),
                1,
            ),
            !old(self).paused ==> !final(self).cpu.memory.ppu.nmi,
            !old(self).paused ==> (final(self).cpu.memory.ppu.frame_ready ==> final(
                self).cpu.memory.ppu.scan.line == 241 && 2 <= final(self).cpu.memory.ppu.scan.cycle
                <= 4),
            !old(self).paused && old(self).cpu.memory.ppu.dma_request is Some && (old(
                self).cpu.memory.ppu.dma_request->0 < 0x20 || old(self).cpu.memory.ppu.dma_request->0
                >= 0x40) && old(self).cpu.wait_cycles < 0xFFFF0000 ==> ({
                let page = old(self).cpu.memory.ppu.dma_request->0;
                forall|i: int|
                    0 <= i < 256 && i % 8 != 4 ==> #[trigger] final(self).cpu.memory.ppu.oam@[(old(
                        self,
                    ).cpu.memory.ppu.registers.oamaddr + i) % 256] == old(
                        self,
                    ).cpu.memory.spec_peek(((page as int) * 0x100 + i) as u16)
            }),
            !old(self).paused && old(self).cpu.memory.ppu.dma_request is Some && 0x20 <= old(
                self).cpu.memory.ppu.dma_request->0 < 0x40 && old(self).cpu.wait_cycles
                < 0xFFFF0000 ==> ({
                let page = old(self).cpu.memory.ppu.dma_request->0;
                forall|i: int|
                    0 <= i < 256 && i % 8 != 4 ==> #[trigger] final(self).cpu.memory.ppu.oam@[(old(
                        self,
                    ).cpu.memory.ppu.registers.oamaddr + i) % 256] == old(
                        self,
                    ).cpu.memory.spec_peek(((page as int) * 0x100 + i) as u16)
            }),
    {
        if self.paused {
            return ;
        }

        let dma = self.cpu.memory.ppu.dma_request;
        match dma {
            Some(page) => {
                self.run_oam_dma(page);
            },
            None => {},
        }
        self.cpu.memory.ppu.dma_request = None;

        self.cpu.tick();
        self.cpu.memory.ppu.frame_ready = false;
        self.tick_devices();
        self.latch_interrupts();
    }

    /// Advance the APU one cycle (serving any DMC fetch with a stall)
    /// and the PPU three dots, cycling the mapper once per dot.
    fn tick_devices(&mut self)
        requires
            old(self).wf(),
        ensures
            final(self).wf(),
            final(self).cpu.cycles == old(self).cpu.cycles,
            final(self).paused == old(self).paused,
            final(self).cpu.memory.ppu.scan.total_cycles == u32_specs::wrapping_add(
                u32_specs::wrapping_add(
                    u32_specs::wrapping_add(old(self).cpu.memory.ppu.scan.total_cycles, 1),
                    1,
                ),
                1,
            ),
            !final(self).cpu.memory.apu.dmc.stall_cpu,
            final(self).cpu.wait_cycles == old(self).cpu.wait_cycles || final(self).cpu.wait_cycles
                == vstd::wrapping::u32_specs::wrapping_add(old(self).cpu.wait_cycles, 4),
            final(self).cpu.memory.ppu.oam@ == old(self).cpu.memory.ppu.oam@,
            old(self).cpu.memory.ppu.frame_ready == false ==> (final(self).cpu.memory.ppu.frame_ready
                ==> final(self).cpu.memory.ppu.scan.line == 241 && 2 <= final(
                self).cpu.memory.ppu.scan.cycle <= 4),
    {
        self.cpu.memory.apu.tick();
        if self.cpu.memory.apu.check_stall_cpu() {
            let dmc_addr = self.cpu.memory.apu.dmc.dma_address;
            let sample = self.cpu.memory.peek(dmc_addr);
            self.cpu.memory.apu.dmc.provide_sample(sample);
            self.cpu.stall(4);
        }

        self.ppu_dot();
        self.ppu_dot();
        self.ppu_dot();
    }

    /// One PPU dot with the mapper cycled alongside it.
    fn ppu_dot(&mut self)
        requires
            old(self).wf(),
        ensures
            final(self).wf(),
            final(self).cpu.cycles == old(self).cpu.cycles,
            final(self).paused == old(self).paused,
            final(self).cpu.memory.ppu.scan.total_cycles == u32_specs::wrapping_add(
                old(self).cpu.memory.ppu.scan.total_cycles,
                1,
            ),
            final(self).cpu.memory.apu == old(self).cpu.memory.apu,
            final(self).cpu.wait_cycles == old(self).cpu.wait_cycles,
            final(self).cpu.memory.ram@ == old(self).cpu.memory.ram@,
            final(self).cpu.memory.ppu.oam@ == old(self).cpu.memory.ppu.oam@,
            final(self).cpu.memory.ppu.frame_ready == (old(self).cpu.memory.ppu.frame_ready || (
            old(self).cpu.memory.ppu.scan.line == 241 && old(self).cpu.memory.ppu.scan.cycle == 1)),
            final(self).cpu.memory.ppu.scan == crate::scan::spec_scan_increment(
                old(self).cpu.memory.ppu.scan,
                crate::ppu_registers::spec_is_rendering(
                    old(self).cpu.memory.ppu.registers.ppumask.bits,
                ),
            ),
    {
        self.cpu.memory.ppu.tick(&mut self.cpu.memory.cart);
        self.cpu.memory.cart.cycle();
    }

    /// Latch the PPU's NMI edge, or the level of the mapper and APU
    /// IRQ lines, into the CPU between instructions.
    fn latch_interrupts(&mut self)
        requires
            old(self).wf(),
        ensures
            final(self).wf(),
            final(self).cpu.cycles == old(self).cpu.cycles,
            final(self).paused == old(self).paused,
            final(self).cpu.memory.ppu.scan == old(self).cpu.memory.ppu.scan,
            final(self).cpu.memory.ppu.oam@ == old(self).cpu.memory.ppu.oam@,
            final(self).cpu.memory.ppu.frame_ready == old(self).cpu.memory.ppu.frame_ready,
            !final(self).cpu.memory.ppu.nmi,
            old(self).cpu.memory.ppu.nmi ==> final(self).cpu.s == vstd::wrapping::u8_specs::wrapping_sub(
                old(self).cpu.s,
                3,
            ) && final(self).cpu.pc == crate::util::spec_word(
                old(self).cpu.memory.spec_peek(crate::cpu::NMI_VEC),
                old(self).cpu.memory.spec_peek(0xFFFB),
            ),
            !old(self).cpu.memory.ppu.nmi && !(old(self).cpu.memory.cart.mapper is Some && old(
                self).cpu.memory.cart.mapper->0 is Mmc3 && old(
                self).cpu.memory.cart.mapper->0->Mmc3_0.irq.triggered) && !old(
                self).cpu.memory.apu.dmc.irq && !old(self).cpu.memory.apu.frame_irq ==> final(
                self).cpu.pc == old(self).cpu.pc && final(self).cpu.s == old(self).cpu.s,
    {
        if self.cpu.memory.ppu.nmi {
            self.cpu.memory.ppu.nmi = false;
            self.cpu.nmi();
        } else {
            let mapper_irq = self.cpu.memory.cart.check_irq();
            let apu_irq = self.cpu.memory.apu.check_irq();
            if mapper_irq || apu_irq {
                self.cpu.irq();
            }
        }
    }

    /// The finished frame, when the tick that just ran completed one.
    pub fn get_new_frame(&self) -> (r: Option<Vec<u8>>)
        requires
            self.wf(),
        ensures
            r is Some <==> self.cpu.memory.ppu.frame_ready,
            r matches Some(f) ==> f@ == self.cpu.memory.ppu.framebuffer@,
    {
        if self.cpu.memory.ppu.frame_ready {
            let mut out: Vec<u8> = Vec::new();
            let mut i: usize = 0;
            let n = self.cpu.memory.ppu.framebuffer.len();
            while i < n
                invariant
                    i <= n,
                    n == self.cpu.memory.ppu.framebuffer@.len(),
                    out@ == self.cpu.memory.ppu.framebuffer@.take(i as int),
                decreases n - i,
            {
                out.push(self.cpu.memory.ppu.framebuffer[i]);
                i = i + 1;
            }
            proof {
                assert(self.cpu.memory.ppu.framebuffer@.take(n as int)
                    =~= self.cpu.memory.ppu.framebuffer@);
            }
            Some(out)
        } else {
            None
        }
    }

    /// Whether controller 1's strobe is up, so new button state would
    /// be latched.
    pub fn get_shift_strobe(&self) -> (r: bool)
        ensures
            r == self.cpu.memory.joy1.shift_strobe,
    {
        self.cpu.memory.joy1.get_shift_strobe()
    }

    /// Feed the current button state into controller 1 while its
    /// strobe is up.
    pub fn try_fill_controller_shift(&mut self, val: u8)
        ensures
            old(self).cpu.memory.joy1.shift_strobe ==> final(self).cpu.memory.joy1.state_shift
                == val,
            !old(self).cpu.memory.joy1.shift_strobe ==> *final(self) == *old(self),
            final(self).cpu.memory.joy1.shift_strobe == old(self).cpu.memory.joy1.shift_strobe,
            *final(self) == (NES { cpu: final(self).cpu, ..*old(self) }),
    {
        if self.cpu.memory.joy1.get_shift_strobe() {
            self.cpu.memory.joy1.set_state_shift(val);
        }
    }

    /// Read the byte the CPU would see at `addr`, without side effects.
    pub fn cpu_peek(&self, addr: u16) -> (r: u8)
        requires
            self.wf(),
        ensures
            r == self.cpu.memory.spec_peek(addr),
    {
        self.cpu.memory.peek(addr)
    }

    /// Write a byte over the CPU bus, exactly as an executing store
    /// instruction would.
    pub fn cpu_write(&mut self, addr: u16, data: u8)
        requires
            old(self).wf(),
        ensures
            final(self).wf(),
            addr < 0x2000 ==> final(self).cpu.memory.ram@ == old(self).cpu.memory.ram@.update(
                addr as int % 0x800,
                data,
            ),
    {
        self.cpu.memory.write(addr, data);
    }

    /// Read a byte over the CPU bus, with its documented side effects.
    pub fn cpu_read(&mut self, addr: u16) -> (r: u8)
        requires
            old(self).wf(),
        ensures
            final(self).wf(),
            r == old(self).cpu.memory.spec_peek(addr),
    {
        self.cpu.memory.read(addr)
    }
}

} // verus!
