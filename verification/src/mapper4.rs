//! MMC3: eight bank registers routed by program and character bank
//! modes, plus a scanline counter clocked by rising edges of PPU
//! address line A12 that can assert an IRQ.

use crate::cartridge_metadata::Mirroring;
use crate::util::zero_vec;
use vstd::prelude::*;

verus! {

/// The MMC3 banking and protection registers.
#[derive(Clone, Copy, PartialEq, Eq, Structural, Debug)]
pub struct Mmc3Regs {
    pub select: u8,
    pub bank_r0: u8,
    pub bank_r1: u8,
    pub bank_r2: u8,
    pub bank_r3: u8,
    pub bank_r4: u8,
    pub bank_r5: u8,
    pub bank_r6: u8,
    pub bank_r7: u8,
    pub prg_bank_mode: bool,
    pub chr_bank_mode: bool,
    pub mirroring: Mirroring,
    pub write_protection: bool,
    pub prg_ram_enable: bool,
    pub mmc6_ram_enable: bool,
    pub mmc6_ram_lo_write: bool,
    pub mmc6_ram_lo_read: bool,
    pub mmc6_ram_hi_write: bool,
    pub mmc6_ram_hi_read: bool,
}

impl Mmc3Regs {
    /// The bank register `R0`-`R7` selected by `i`.
    pub open spec fn bank_reg(&self, i: int) -> u8 {
        if i == 0 {
            self.bank_r0
        } else if i == 1 {
            self.bank_r1
        } else if i == 2 {
            self.bank_r2
        } else if i == 3 {
            self.bank_r3
        } else if i == 4 {
            self.bank_r4
        } else if i == 5 {
            self.bank_r5
        } else if i == 6 {
            self.bank_r6
        } else {
            self.bank_r7
        }
    }
}

/// The MMC3 scanline-counter state.
#[derive(Clone, Copy, PartialEq, Eq, Structural, Debug)]
pub struct Mmc3Irq {
    pub counter: u8,
    pub latch: u8,
    pub reload_scheduled: bool,
    pub enabled: bool,
    pub previous_a12: u16,
    pub triggered: bool,
}

/// The scanline counter after one rising edge of A12: it reloads from
/// the latch when a reload is scheduled or when it has reached zero,
/// and decrements otherwise; reaching zero with IRQs enabled asserts
/// the IRQ.
pub open spec fn spec_irq_edge(s: Mmc3Irq) -> Mmc3Irq {
    let counter = if s.reload_scheduled {
        s.latch
    } else if s.counter == 0 {
        s.latch
    } else {
        (s.counter - 1) as u8
    };
    Mmc3Irq {
        counter,
        latch: s.latch,
        reload_scheduled: false,
        enabled: s.enabled,
        previous_a12: 1,
        triggered: s.triggered || (counter == 0 && s.enabled),
    }
}

/// The MMC3 cartridge board (and the MMC6 variant of it).
pub struct Mapper4 {
    pub n_prg_banks: u16,
    pub n_chr_banks: u16,
    pub prg_rom: Vec<u8>,
    pub prg_ram: Vec<u8>,
    pub chr_mem: Vec<u8>,
    pub chr_mem_is_ram: bool,
    pub is_mmc6: bool,
    pub regs: Mmc3Regs,
    pub irq: Mmc3Irq,
}

impl Mapper4 {
    /// The sizes and register bounds the accessors rely on.
    pub open spec fn wf(&self) -> bool {
        &&& 1 <= self.n_prg_banks
        &&& 1 <= self.n_chr_banks
        &&& self.prg_rom@.len() == self.n_prg_banks * 0x4000
        &&& self.chr_mem@.len() == self.n_chr_banks * 0x2000
        &&& self.prg_ram@.len() == 0x2000
        &&& self.regs.select < 8
    }

    /// The character-memory base index the bank registers map `addr` to.
    pub open spec fn spec_map_chr(&self, addr: u16) -> int {
        if (self.regs.chr_bank_mode && addr >= 0x1000) || (!self.regs.chr_bank_mode && addr
            < 0x1000) {
            let bank = self.regs.bank_reg(
                if (addr % 0x1000) >= 0x800 {
                    1int
                } else {
                    0int
                },
            ) as int;
            let high = if (addr % 0x800) >= 0x400 {
                0x400int
            } else {
                0int
            };
            0x800 * ((bank / 2) % (self.n_chr_banks as int * 4)) + high
        } else {
            let bank = self.regs.bank_reg((addr as int % 0x1000) / 0x400 + 2) as int;
            0x400 * (bank % (self.n_chr_banks as int * 8))
        }
    }

    /// The program-ROM base index the bank registers map `addr` to.
    pub open spec fn spec_map_prg(&self, addr: u16) -> int {
        let banks = self.n_prg_banks as int * 2;
        let r6 = (self.regs.bank_r6 & 0x3F) as int % banks;
        let r7 = (self.regs.bank_r7 & 0x3F) as int % banks;
        let last = banks - 1;
        let second_last = if banks >= 2 {
            banks - 2
        } else {
            0int
        };
        let slot = (addr as int - 0x8000) / 0x2000;
        let bank = if self.regs.prg_bank_mode {
            if slot == 0 {
                second_last
            } else if slot == 1 {
                r7
            } else if slot == 2 {
                r6
            } else {
                last
            }
        } else {
            if slot == 0 {
                r6
            } else if slot == 1 {
                r7
            } else if slot == 2 {
                second_last
            } else {
                last
            }
        };
        0x2000 * bank
    }

    /// The byte visible at `addr` under the current bank configuration.
    pub open spec fn spec_peek(&self, addr: u16) -> u8 {
        if addr <= 0x1FFF {
            self.chr_mem@[self.spec_map_chr(addr) + (addr as int % 0x400)]
        } else if 0x6000 <= addr && addr <= 0x7FFF {
            if self.is_mmc6 {
                if self.regs.mmc6_ram_enable && addr >= 0x7000 {
                    let mirrored = (addr - 0x7000) % 0x400;
                    if (mirrored < 0x200 && self.regs.mmc6_ram_lo_read) || (mirrored >= 0x200
                        && self.regs.mmc6_ram_hi_read) {
                        self.prg_ram@[mirrored as int]
                    } else {
                        0
                    }
                } else {
                    0
                }
            } else {
                if self.regs.prg_ram_enable {
                    self.prg_ram@[addr - 0x6000]
                } else {
                    0
                }
            }
        } else if addr >= 0x8000 {
            self.prg_rom@[self.spec_map_prg(addr) + (addr as int % 0x2000)]
        } else {
            0
        }
    }

    /// Build an MMC3 board from the header bank counts and ROM data.
    /// Zero character banks means 8 KiB of character RAM.
    pub fn new(
        n_prg_banks: u16,
        n_chr_banks: u16,
        prg_data: Vec<u8>,
        chr_data: Vec<u8>,
        is_mmc6: bool,
    ) -> (r: Mapper4)
        requires
            1 <= n_prg_banks,
            prg_data@.len() == n_prg_banks * 0x4000,
            n_chr_banks >= 1 ==> chr_data@.len() == n_chr_banks * 0x2000,
        ensures
            r.wf(),
            r.n_prg_banks == n_prg_banks,
            r.n_chr_banks == if n_chr_banks >= 1 {
                n_chr_banks
            } else {
                1u16
            },
            r.prg_rom@ == prg_data@,
            r.chr_mem_is_ram == (n_chr_banks == 0),
            n_chr_banks >= 1 ==> r.chr_mem@ == chr_data@,
            r.is_mmc6 == is_mmc6,
            r.irq == (Mmc3Irq {
                counter: 0,
                latch: 0,
                reload_scheduled: false,
                enabled: false,
                previous_a12: 0,
                triggered: false,
            }),
            r.regs.mirroring == Mirroring::Vertical,
            forall|i: int| 0 <= i < 8 ==> r.regs.bank_reg(i) == 0u8,
    {
        Mapper4 {
            n_prg_banks,
            n_chr_banks: if n_chr_banks >= 1 {
                n_chr_banks
            } else {
                1
            },
            prg_rom: prg_data,
            prg_ram: zero_vec(0x2000),
            chr_mem: if n_chr_banks == 0 {
                zero_vec(0x2000)
            } else {
                chr_data
            },
            chr_mem_is_ram: n_chr_banks == 0,
            is_mmc6,
            regs: Mmc3Regs {
                select: 0,
                bank_r0: 0,
                bank_r1: 0,
                bank_r2: 0,
                bank_r3: 0,
                bank_r4: 0,
                bank_r5: 0,
                bank_r6: 0,
                bank_r7: 0,
                prg_bank_mode: false,
                chr_bank_mode: false,
                mirroring: Mirroring::Vertical,
                write_protection: false,
                prg_ram_enable: false,
                mmc6_ram_enable: false,
                mmc6_ram_lo_write: false,
                mmc6_ram_lo_read: false,
                mmc6_ram_hi_write: false,
                mmc6_ram_hi_read: false,
            },
            irq: Mmc3Irq {
                counter: 0,
                latch: 0,
                reload_scheduled: false,
                enabled: false,
                previous_a12: 0,
                triggered: false,
            },
        }
    }

    /// The mirroring this board currently selects.
    pub fn get_nametable_mirroring(&self) -> (r: Option<Mirroring>)
        ensures
            r == Some(self.regs.mirroring),
    {
        Some(self.regs.mirroring)
    }

    /// Take the edge-triggered IRQ flag, clearing it.
    pub fn check_irq(&mut self) -> (r: bool)
        ensures
            r == old(self).irq.triggered,
            *final(self) == (Mapper4 { irq: final(self).irq, ..*old(self) }),
            final(self).irq == (Mmc3Irq { triggered: false, ..old(self).irq }),
    {
        let ret = self.irq.triggered;
        self.irq.triggered = false;
        ret
    }

    /// The character-memory index `addr` maps to.
    fn map_chr(&self, addr: u16) -> (r: usize)
        requires
            self.wf(),
            addr <= 0x1FFF,
        ensures
            r == self.spec_map_chr(addr),
            r + (addr as int % 0x400) < self.chr_mem@.len(),
    {
        if (self.regs.chr_bank_mode && addr >= 0x1000) || (!self.regs.chr_bank_mode && addr
            < 0x1000) {
            let bank: usize = if (addr % 0x1000) >= 0x800 {
                self.regs.bank_r1 as usize
            } else {
                self.regs.bank_r0 as usize
            };
            let high: usize = if (addr % 0x800) >= 0x400 {
                0x400
            } else {
                0
            };
            0x800 * ((bank / 2) % ((self.n_chr_banks as usize) * 4)) + high
        } else {
            let slot: usize = ((addr as usize) % 0x1000) / 0x400;
            let bank: usize = if slot == 0 {
                self.regs.bank_r2 as usize
            } else if slot == 1 {
                self.regs.bank_r3 as usize
            } else if slot == 2 {
                self.regs.bank_r4 as usize
            } else {
                self.regs.bank_r5 as usize
            };
            0x400 * (bank % ((self.n_chr_banks as usize) * 8))
        }
    }

    /// The program-ROM index `addr` maps to.
    fn map_prg(&self, addr: u16) -> (r: usize)
        requires
            self.wf(),
            addr >= 0x8000,
        ensures
            r == self.spec_map_prg(addr),
            r + (addr as int % 0x2000) < self.prg_rom@.len(),
    {
        let banks: usize = (self.n_prg_banks as usize) * 2;
        let r6: usize = ((self.regs.bank_r6 & 0x3F) as usize) % banks;
        let r7: usize = ((self.regs.bank_r7 & 0x3F) as usize) % banks;
        let last: usize = banks - 1;
        let second_last: usize = if banks >= 2 {
            banks - 2
        } else {
            0
        };
        let slot: usize = ((addr as usize) - 0x8000) / 0x2000;
        let bank: usize = if self.regs.prg_bank_mode {
            if slot == 0 {
                second_last
            } else if slot == 1 {
                r7
            } else if slot == 2 {
                r6
            } else {
                last
            }
        } else {
            if slot == 0 {
                r6
            } else if slot == 1 {
                r7
            } else if slot == 2 {
                second_last
            } else {
                last
            }
        };
        0x2000 * bank
    }

    /// Read the byte at `addr`. A fetch in the pattern-table range
    /// drives the A12 line: on a rising edge the scanline counter
    /// steps as `spec_irq_edge` describes.
    pub fn read(&mut self, addr: u16) -> (r: u8)
        requires
            old(self).wf(),
        ensures
            final(self).wf(),
            r == old(self).spec_peek(addr),
            addr > 0x1FFF ==> *final(self) == *old(self),
            addr <= 0x1FFF ==> *final(self) == (Mapper4 { irq: final(self).irq, ..*old(self) }),
            addr <= 0x1FFF && old(self).irq.previous_a12 == 0 && (addr >> 12) & 1 == 1 ==> final(
                self).irq == spec_irq_edge(old(self).irq),
            addr <= 0x1FFF && !(old(self).irq.previous_a12 == 0 && (addr >> 12) & 1 == 1)
                ==> final(self).irq == (Mmc3Irq { previous_a12: (addr >> 12) & 1, ..old(
                self).irq }),
    {
        if addr <= 0x1FFF {
            let a12 = (addr >> 12) & 1;
            if self.irq.previous_a12 == 0 && a12 == 1 {
                if self.irq.reload_scheduled {
                    self.irq.counter = self.irq.latch;
                    self.irq.reload_scheduled = false;
                } else if self.irq.counter == 0 {
                    self.irq.counter = self.irq.latch;
                } else {
                    self.irq.counter = self.irq.counter - 1;
                }
                if self.irq.counter == 0 && self.irq.enabled {
                    self.irq.triggered = true;
                }
            }
            self.irq.previous_a12 = a12;
        }
        self.peek(addr)
    }

    /// Read the byte at `addr` without side effects.
    pub fn peek(&self, addr: u16) -> (r: u8)
        requires
            self.wf(),
        ensures
            r == self.spec_peek(addr),
    {
        if addr <= 0x1FFF {
            let base = self.map_chr(addr);
            self.chr_mem[base + ((addr as usize) % 0x400)]
        } else if 0x6000 <= addr && addr <= 0x7FFF {
            if self.is_mmc6 {
                if self.regs.mmc6_ram_enable && addr >= 0x7000 {
                    let mirrored = (addr - 0x7000) % 0x400;
                    if (mirrored < 0x200 && self.regs.mmc6_ram_lo_read) || (mirrored >= 0x200
                        && self.regs.mmc6_ram_hi_read) {
                        self.prg_ram[mirrored as usize]
                    } else {
                        0
                    }
                } else {
                    0
                }
            } else {
                if self.regs.prg_ram_enable {
                    self.prg_ram[(addr - 0x6000) as usize]
                } else {
                    0
                }
            }
        } else if addr >= 0x8000 {
            let base = self.map_prg(addr);
            self.prg_rom[base + ((addr as usize) % 0x2000)]
        } else {
            0
        }
    }

    /// Write one of the control registers at `$8000` and up.
    fn write_control(&mut self, addr: u16, data: u8)
        requires
            old(self).wf(),
            0x8000 <= addr,
        ensures
            final(self).wf(),
            addr <= 0xBFFF ==> *final(self) == (Mapper4 {
                regs: spec_write_regs(old(self).regs, old(self).is_mmc6, addr, data),
                ..*old(self)
            }),
            addr > 0xBFFF ==> *final(self) == (Mapper4 {
                irq: spec_write_irq(old(self).irq, addr, data),
                ..*old(self)
            }),
    {
        if addr <= 0xBFFF {
            self.regs = regs_after_write(self.regs, self.is_mmc6, addr, data);
        } else {
            self.irq = irq_after_write(self.irq, addr, data);
        }
    }

    /// Write `data` at `addr`: into character RAM or the program RAM
    /// window below `$8000`; above, even and odd addresses in each
    /// `$2000` block select the registers that `spec_write_regs` and
    /// `spec_write_irq` describe.
    #[verifier::rlimit(60)]
    pub fn write(&mut self, addr: u16, data: u8)
        requires
            old(self).wf(),
        ensures
            final(self).wf(),
            addr <= 0x1FFF && old(self).chr_mem_is_ram ==> *final(self) == (Mapper4 {
                chr_mem: final(self).chr_mem,
                ..*old(self)
            }) && final(self).chr_mem@ == old(self).chr_mem@.update(
                old(self).spec_map_chr(addr) + (addr as int % 0x400),
                data,
            ),
            addr <= 0x1FFF && !old(self).chr_mem_is_ram ==> *final(self) == *old(self),
            0x1FFF < addr < 0x6000 ==> *final(self) == *old(self),
            0x6000 <= addr <= 0x7FFF ==> *final(self) == (Mapper4 {
                prg_ram: final(self).prg_ram,
                ..*old(self)
            }) && final(self).prg_ram@.len() == old(self).prg_ram@.len(),
            0x8000 <= addr <= 0xBFFF ==> *final(self) == (Mapper4 {
                regs: spec_write_regs(old(self).regs, old(self).is_mmc6, addr, data),
                ..*old(self)
            }),
            0xC000 <= addr ==> *final(self) == (Mapper4 {
                irq: spec_write_irq(old(self).irq, addr, data),
                ..*old(self)
            }),
    {
        if addr <= 0x1FFF {
            if self.chr_mem_is_ram {
                let base = self.map_chr(addr);
                self.chr_mem.set(base + ((addr as usize) % 0x400), data);
            }
        } else if addr < 0x6000 {
        } else if addr <= 0x7FFF {
            if self.is_mmc6 {
                if self.regs.mmc6_ram_enable && addr >= 0x7000 {
                    let mirrored = (addr - 0x7000) % 0x400;
                    if (mirrored < 0x200 && self.regs.mmc6_ram_lo_write) || (mirrored >= 0x200
                        && self.regs.mmc6_ram_hi_write) {
                        self.prg_ram.set(mirrored as usize, data);
                    }
                }
            } else {
                if self.regs.prg_ram_enable && !self.regs.write_protection {
                    self.prg_ram.set((addr - 0x6000) as usize, data);
                }
            }
        } else {
            self.write_control(addr, data);
        }
    }
}

/// What a write at `addr` in `$8000-$BFFF` makes of the banking
/// registers.
pub open spec fn spec_write_regs(regs: Mmc3Regs, is_mmc6: bool, addr: u16, data: u8) -> Mmc3Regs {
    if addr <= 0x9FFF {
        if addr % 2 == 0 {
            Mmc3Regs {
                select: (data & 0x07),
                prg_bank_mode: (data >> 6) & 1 == 1,
                chr_bank_mode: (data >> 7) & 1 == 1,
                mmc6_ram_enable: if is_mmc6 {
                    (data >> 5) & 1 == 1
                } else {
                    regs.mmc6_ram_enable
                },
                ..regs
            }
        } else {
            if regs.select == 0 {
                Mmc3Regs { bank_r0: data, ..regs }
            } else if regs.select == 1 {
                Mmc3Regs { bank_r1: data, ..regs }
            } else if regs.select == 2 {
                Mmc3Regs { bank_r2: data, ..regs }
            } else if regs.select == 3 {
                Mmc3Regs { bank_r3: data, ..regs }
            } else if regs.select == 4 {
                Mmc3Regs { bank_r4: data, ..regs }
            } else if regs.select == 5 {
                Mmc3Regs { bank_r5: data, ..regs }
            } else if regs.select == 6 {
                Mmc3Regs { bank_r6: data, ..regs }
            } else {
                Mmc3Regs { bank_r7: data, ..regs }
            }
        }
    } else if addr % 2 == 0 {
        Mmc3Regs {
            mirroring: if data & 1 == 0 {
                Mirroring::Vertical
            } else {
                Mirroring::Horizontal
            },
            ..regs
        }
    } else if is_mmc6 {
        if regs.mmc6_ram_enable {
            Mmc3Regs {
                mmc6_ram_lo_write: (data >> 4) & 1 == 1,
                mmc6_ram_lo_read: (data >> 5) & 1 == 1,
                mmc6_ram_hi_write: (data >> 6) & 1 == 1,
                mmc6_ram_hi_read: (data >> 7) & 1 == 1,
                ..regs
            }
        } else {
            regs
        }
    } else {
        Mmc3Regs {
            write_protection: (data >> 6) & 1 == 1,
            prg_ram_enable: (data >> 7) & 1 == 1,
            ..regs
        }
    }
}

/// What a write at `addr` in `$C000-$FFFF` makes of the IRQ state.
pub open spec fn spec_write_irq(irq: Mmc3Irq, addr: u16, data: u8) -> Mmc3Irq {
    if addr <= 0xDFFF {
        if addr % 2 == 0 {
            Mmc3Irq { latch: data, ..irq }
        } else {
            Mmc3Irq { reload_scheduled: true, ..irq }
        }
    } else {
        Mmc3Irq { enabled: addr % 2 == 1, ..irq }
    }
}

/// The banking registers after a write at `addr` in `$8000-$BFFF`.
fn regs_after_write(regs: Mmc3Regs, is_mmc6: bool, addr: u16, data: u8) -> (r: Mmc3Regs)
    requires
        0x8000 <= addr <= 0xBFFF,
        regs.select < 8,
    ensures
        r == spec_write_regs(regs, is_mmc6, addr, data),
        r.select < 8,
    {
        let even = (addr % 2) == 0;
        let mut out = regs;
        if addr <= 0x9FFF {
            if even {
                out.select = data & 0x07;
                if is_mmc6 {
                    out.mmc6_ram_enable = (data >> 5) & 1 == 1;
                }
                out.prg_bank_mode = (data >> 6) & 1 == 1;
                out.chr_bank_mode = (data >> 7) & 1 == 1;
                proof {
                    assert((data & 0x07) < 8) by (bit_vector);
                }
            } else {
                if regs.select == 0 {
                    out.bank_r0 = data;
                } else if regs.select == 1 {
                    out.bank_r1 = data;
                } else if regs.select == 2 {
                    out.bank_r2 = data;
                } else if regs.select == 3 {
                    out.bank_r3 = data;
                } else if regs.select == 4 {
                    out.bank_r4 = data;
                } else if regs.select == 5 {
                    out.bank_r5 = data;
                } else if regs.select == 6 {
                    out.bank_r6 = data;
                } else {
                    out.bank_r7 = data;
                }
            }
        } else {
            if even {
                out.mirroring = if data & 1 == 0 {
                    Mirroring::Vertical
                } else {
                    Mirroring::Horizontal
                };
            } else {
                if is_mmc6 {
                    if regs.mmc6_ram_enable {
                        out.mmc6_ram_lo_write = (data >> 4) & 1 == 1;
                        out.mmc6_ram_lo_read = (data >> 5) & 1 == 1;
                        out.mmc6_ram_hi_write = (data >> 6) & 1 == 1;
                        out.mmc6_ram_hi_read = (data >> 7) & 1 == 1;
                    }
                } else {
                    out.write_protection = (data >> 6) & 1 == 1;
                    out.prg_ram_enable = (data >> 7) & 1 == 1;
                }
            }
        }
        out
    }

/// The IRQ state after a write at `addr` in `$C000-$FFFF`.
fn irq_after_write(irq: Mmc3Irq, addr: u16, data: u8) -> (r: Mmc3Irq)
    requires
        0xC000 <= addr,
    ensures
        r == spec_write_irq(irq, addr, data),
    {
        let even = (addr % 2) == 0;
        let mut out = irq;
        if addr <= 0xDFFF {
            if even {
                out.latch = data;
            } else {
                out.reload_scheduled = true;
            }
        } else {
            out.enabled = !even;
        }
        out
    }

} // verus!
