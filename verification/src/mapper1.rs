//! MMC1: banks are programmed through a five-bit serial shift register
//! fed one bit per write to `$8000-$FFFF`; consecutive-cycle writes
//! after the first are ignored for a short window.

use crate::cartridge_metadata::Mirroring;
use crate::util::zero_vec;
use vstd::prelude::*;

verus! {

/// The MMC1 cartridge board.
pub struct Mapper1 {
    pub n_prg_banks: u16,
    pub prg_rom: Vec<u8>,
    pub prg_ram: Vec<u8>,
    pub chr_mem: Vec<u8>,
    pub chr_mem_is_ram: bool,
    pub last_write_timer: u8,
    pub shift_register: u8,
    pub shift_write_count: u8,
    pub control_register: u8,
    pub chr_bank_0: u8,
    pub chr_bank_1: u8,
    pub prg_bank: u8,
}

/// The serial register after one more bit of `data` is shifted in.
pub open spec fn spec_shift(sr: u8, data: u8) -> u8 {
    ((sr >> 1) | ((data & 1) << 4)) & 0x1F
}

impl Mapper1 {
    /// The sizes the accessors rely on; all bank arithmetic is reduced
    /// modulo the backing length, so no bound on the bank registers is
    /// needed.
    pub open spec fn wf(&self) -> bool {
        &&& 1 <= self.n_prg_banks
        &&& self.prg_rom@.len() == self.n_prg_banks * 0x4000
        &&& self.prg_ram@.len() == 0x2000
        &&& self.chr_mem@.len() >= 1
    }

    /// The character-memory index `addr` maps to in the low pattern
    /// table half, given the current banking mode.
    pub open spec fn spec_chr_index_lo(&self, addr: u16) -> int {
        let base = if self.control_register >> 4 == 0 {
            0x2000 * ((self.chr_bank_0 as int) / 2)
        } else {
            0x1000 * (self.chr_bank_0 as int)
        };
        (base + addr) % self.chr_mem@.len() as int
    }

    /// The character-memory index `addr` maps to in the high pattern
    /// table half, given the current banking mode.
    pub open spec fn spec_chr_index_hi(&self, addr: u16) -> int {
        let base = if self.control_register >> 4 == 0 {
            0x1000 + 0x2000 * ((self.chr_bank_0 as int) / 2)
        } else {
            0x1000 * (self.chr_bank_1 as int)
        };
        (base + (addr - 0x1000)) % self.chr_mem@.len() as int
    }

    /// The program-ROM index `addr` maps to in `$8000-$BFFF`.
    pub open spec fn spec_prg_index_lo(&self, addr: u16) -> int {
        let mode = (self.control_register & 0x0C) >> 2;
        let base = if mode == 0 || mode == 1 {
            0x8000 * (((self.prg_bank as int) / 2) % 8)
        } else if mode == 2 {
            0x0000
        } else {
            0x4000 * ((self.prg_bank as int) % 16)
        };
        (base + (addr - 0x8000)) % self.prg_rom@.len() as int
    }

    /// The program-ROM index `addr` maps to in `$C000-$FFFF`.
    pub open spec fn spec_prg_index_hi(&self, addr: u16) -> int {
        let mode = (self.control_register & 0x0C) >> 2;
        let base = if mode == 0 || mode == 1 {
            0x4000 + 0x8000 * (((self.prg_bank as int) / 2) % 8)
        } else if mode == 2 {
            0x4000 * ((self.prg_bank as int) % 16)
        } else {
            0x4000 * ((self.n_prg_banks as int) - 1)
        };
        (base + (addr - 0xC000)) % self.prg_rom@.len() as int
    }

    /// The byte visible at `addr` under the current bank configuration.
    /// Program RAM at `$6000-$7FFF` reads as 0 when disabled by bit 4
    /// of the program bank register.
    pub open spec fn spec_peek(&self, addr: u16) -> u8 {
        if 0x6000 <= addr && addr <= 0x7FFF {
            if self.prg_bank >> 4 == 0 {
                self.prg_ram@[addr - 0x6000]
            } else {
                0
            }
        } else if addr <= 0x0FFF {
            self.chr_mem@[self.spec_chr_index_lo(addr)]
        } else if addr <= 0x1FFF {
            self.chr_mem@[self.spec_chr_index_hi(addr)]
        } else if 0x8000 <= addr && addr <= 0xBFFF {
            self.prg_rom@[self.spec_prg_index_lo(addr)]
        } else if 0xC000 <= addr {
            self.prg_rom@[self.spec_prg_index_hi(addr)]
        } else {
            0
        }
    }

    /// Build an MMC1 board. The control register powers on with the
    /// last program bank fixed at `$C000`.
    pub fn new(n_prg_banks: u16, n_chr_banks: u16, prg_data: Vec<u8>, chr_data: Vec<u8>) -> (r:
        Mapper1)
        requires
            1 <= n_prg_banks,
            prg_data@.len() == n_prg_banks * 0x4000,
            n_chr_banks >= 1 ==> chr_data@.len() == n_chr_banks * 0x2000,
        ensures
            r.wf(),
            r.n_prg_banks == n_prg_banks,
            r.prg_rom@ == prg_data@,
            r.chr_mem_is_ram == (n_chr_banks == 0),
            n_chr_banks >= 1 ==> r.chr_mem@ == chr_data@,
            r.control_register == 0x0C,
            r.shift_register == 0x10,
            r.shift_write_count == 0,
            r.chr_bank_0 == 0,
            r.chr_bank_1 == 0,
            r.prg_bank == 0,
    {
        Mapper1 {
            n_prg_banks,
            prg_rom: prg_data,
            prg_ram: zero_vec(0x2000),
            chr_mem: if n_chr_banks == 0 {
                zero_vec(0x2000)
            } else {
                chr_data
            },
            chr_mem_is_ram: n_chr_banks == 0,
            last_write_timer: 0,
            shift_register: 0x10,
            shift_write_count: 0,
            control_register: 0x0C,
            chr_bank_0: 0,
            chr_bank_1: 0,
            prg_bank: 0,
        }
    }

    /// The mirroring selected by the low two control-register bits.
    pub fn get_nametable_mirroring(&self) -> (r: Option<Mirroring>)
        ensures
            r == Some(
                match self.control_register & 0x03 {
                    0u8 => Mirroring::SingleScreenLower,
                    1u8 => Mirroring::SingleScreenUpper,
                    2u8 => Mirroring::Vertical,
                    _ => Mirroring::Horizontal,
                },
            ),
    {
        Some(
            match self.control_register & 0x03 {
                0 => Mirroring::SingleScreenLower,
                1 => Mirroring::SingleScreenUpper,
                2 => Mirroring::Vertical,
                _ => Mirroring::Horizontal,
            },
        )
    }

    /// One elapsed cycle: the ignore window after a serial write closes
    /// by one step.
    pub fn cycle(&mut self)
        ensures
            final(self).last_write_timer == if old(self).last_write_timer > 0 {
                (old(self).last_write_timer - 1) as u8
            } else {
                0u8
            },
            *final(self) == (Mapper1 {
                last_write_timer: final(self).last_write_timer,
                ..*old(self)
            }),
    {
        if self.last_write_timer > 0 {
            self.last_write_timer = self.last_write_timer - 1;
        }
    }

    /// Restore the power-on register state, clearing any RAM-backed
    /// memories.
    pub fn reset(&mut self)
        requires
            old(self).wf(),
        ensures
            final(self).wf(),
            final(self).n_prg_banks == old(self).n_prg_banks,
            final(self).prg_rom@ == old(self).prg_rom@,
            final(self).control_register == 0x0C,
            final(self).shift_register == 0x10,
            final(self).shift_write_count == 0,
            final(self).chr_bank_0 == 0,
            final(self).chr_bank_1 == 0,
            final(self).prg_bank == 0,
            final(self).last_write_timer == 0,
    {
        self.last_write_timer = 0;
        self.shift_register = 0x10;
        self.shift_write_count = 0;
        self.control_register = 0x0C;
        self.chr_bank_0 = 0;
        self.chr_bank_1 = 0;
        self.prg_bank = 0;
        if self.chr_mem_is_ram {
            self.chr_mem = zero_vec(0x2000);
            self.prg_ram = zero_vec(0x2000);
        }
    }

    /// Read the byte at `addr`; MMC1 reads have no side effects.
    pub fn read(&self, addr: u16) -> (r: u8)
        requires
            self.wf(),
        ensures
            r == self.spec_peek(addr),
    {
        self.peek(addr)
    }

    /// Read the byte at `addr` without side effects.
    pub fn peek(&self, addr: u16) -> (r: u8)
        requires
            self.wf(),
        ensures
            r == self.spec_peek(addr),
    {
        if 0x6000 <= addr && addr <= 0x7FFF {
            if self.prg_bank >> 4 == 0 {
                self.prg_ram[(addr - 0x6000) as usize]
            } else {
                0
            }
        } else if addr <= 0x0FFF {
            let base: usize = if self.control_register >> 4 == 0 {
                0x2000 * ((self.chr_bank_0 as usize) / 2)
            } else {
                0x1000 * (self.chr_bank_0 as usize)
            };
            self.chr_mem[(base + (addr as usize)) % self.chr_mem.len()]
        } else if addr <= 0x1FFF {
            let base: usize = if self.control_register >> 4 == 0 {
                0x1000 + 0x2000 * ((self.chr_bank_0 as usize) / 2)
            } else {
                0x1000 * (self.chr_bank_1 as usize)
            };
            self.chr_mem[(base + ((addr - 0x1000) as usize)) % self.chr_mem.len()]
        } else if 0x8000 <= addr && addr <= 0xBFFF {
            let mode = (self.control_register & 0x0C) >> 2;
            let base: usize = if mode == 0 || mode == 1 {
                0x8000 * (((self.prg_bank as usize) / 2) % 8)
            } else if mode == 2 {
                0x0000
            } else {
                0x4000 * ((self.prg_bank as usize) % 16)
            };
            self.prg_rom[(base + ((addr - 0x8000) as usize)) % self.prg_rom.len()]
        } else if 0xC000 <= addr {
            let mode = (self.control_register & 0x0C) >> 2;
            let base: usize = if mode == 0 || mode == 1 {
                0x4000 + 0x8000 * (((self.prg_bank as usize) / 2) % 8)
            } else if mode == 2 {
                0x4000 * ((self.prg_bank as usize) % 16)
            } else {
                0x4000 * ((self.n_prg_banks as usize) - 1)
            };
            self.prg_rom[(base + ((addr - 0xC000) as usize)) % self.prg_rom.len()]
        } else {
            0
        }
    }

    /// Write `data` at `addr`. Character RAM and program RAM writes go
    /// straight through; writes at `$8000-$FFFF` feed the serial shift
    /// register, and are ignored inside the two-cycle window after a
    /// previous one. Bit 7 resets the shift and locks the control
    /// register's program mode; the fifth shifted bit commits the
    /// five-bit value to the register the address range selects.
    pub fn write(&mut self, addr: u16, data: u8)
        requires
            old(self).wf(),
        ensures
            final(self).wf(),
            final(self).n_prg_banks == old(self).n_prg_banks,
            final(self).chr_mem_is_ram == old(self).chr_mem_is_ram,
            addr <= 0x0FFF && old(self).chr_mem_is_ram ==> final(self).chr_mem@ == old(
                self).chr_mem@.update(old(self).spec_chr_index_lo(addr), data) && unchanged_regs(
                *old(self), *final(self)) && final(self).prg_ram@ == old(self).prg_ram@,
            0x1000 <= addr <= 0x1FFF && old(self).chr_mem_is_ram ==> final(self).chr_mem@ == old(
                self).chr_mem@.update(old(self).spec_chr_index_hi(addr), data) && unchanged_regs(
                *old(self), *final(self)) && final(self).prg_ram@ == old(self).prg_ram@,
            addr <= 0x1FFF && !old(self).chr_mem_is_ram ==> *final(self) == *old(self),
            0x4020 <= addr <= 0x5FFF ==> *final(self) == *old(self),
            0x6000 <= addr <= 0x7FFF && old(self).prg_bank >> 4 == 0 ==> final(self).prg_ram@
                == old(self).prg_ram@.update(addr - 0x6000, data) && unchanged_regs(
                *old(self), *final(self)) && final(self).chr_mem@ == old(self).chr_mem@,
            0x6000 <= addr <= 0x7FFF && old(self).prg_bank >> 4 != 0 ==> *final(self) == *old(
                self,
            ),
            addr >= 0x8000 ==> final(self).chr_mem@ == old(self).chr_mem@ && final(self).prg_ram@
                == old(self).prg_ram@ && final(self).prg_rom@ == old(self).prg_rom@,
            addr >= 0x8000 && old(self).last_write_timer > 0 ==> *final(self) == *old(self),
            addr >= 0x8000 && old(self).last_write_timer == 0 ==> final(self).last_write_timer == 2
                && (if data >> 7 == 1 {
                final(self).shift_register == 0x10 && final(self).shift_write_count == 0 && final(
                    self).control_register == (old(self).control_register | 0x0C) && final(
                    self).chr_bank_0 == old(self).chr_bank_0 && final(self).chr_bank_1 == old(
                    self).chr_bank_1 && final(self).prg_bank == old(self).prg_bank
            } else if old(self).shift_write_count < 4 {
                final(self).shift_register == spec_shift(old(self).shift_register, data) && final(
                    self).shift_write_count == old(self).shift_write_count + 1 && final(
                    self).control_register == old(self).control_register && final(self).chr_bank_0
                    == old(self).chr_bank_0 && final(self).chr_bank_1 == old(self).chr_bank_1
                    && final(self).prg_bank == old(self).prg_bank
            } else {
                final(self).shift_register == 0x10 && final(self).shift_write_count == 0 && (
                if addr <= 0x9FFF {
                    final(self).control_register == spec_shift(old(self).shift_register, data)
                        && final(self).chr_bank_0 == old(self).chr_bank_0 && final(
                        self).chr_bank_1 == old(self).chr_bank_1 && final(self).prg_bank == old(
                        self).prg_bank
                } else if addr <= 0xBFFF {
                    final(self).chr_bank_0 == spec_shift(old(self).shift_register, data) && final(
                        self).control_register == old(self).control_register && final(
                        self).chr_bank_1 == old(self).chr_bank_1 && final(self).prg_bank == old(
                        self).prg_bank
                } else if addr <= 0xDFFF {
                    final(self).chr_bank_1 == spec_shift(old(self).shift_register, data) && final(
                        self).control_register == old(self).control_register && final(
                        self).chr_bank_0 == old(self).chr_bank_0 && final(self).prg_bank == old(
                        self).prg_bank
                } else {
                    final(self).prg_bank == spec_shift(old(self).shift_register, data) && final(
                        self).control_register == old(self).control_register && final(
                        self).chr_bank_0 == old(self).chr_bank_0 && final(self).chr_bank_1 == old(
                        self).chr_bank_1
                })
            }),
    {
        if addr <= 0x0FFF {
            if self.chr_mem_is_ram {
                let base: usize = if self.control_register >> 4 == 0 {
                    0x2000 * ((self.chr_bank_0 as usize) / 2)
                } else {
                    0x1000 * (self.chr_bank_0 as usize)
                };
                let len = self.chr_mem.len();
                self.chr_mem.set((base + (addr as usize)) % len, data);
            }
            return ;
        } else if addr <= 0x1FFF {
            if self.chr_mem_is_ram {
                let base: usize = if self.control_register >> 4 == 0 {
                    0x1000 + 0x2000 * ((self.chr_bank_0 as usize) / 2)
                } else {
                    0x1000 * (self.chr_bank_1 as usize)
                };
                let len = self.chr_mem.len();
                self.chr_mem.set((base + ((addr - 0x1000) as usize)) % len, data);
            }
            return ;
        } else if addr < 0x6000 {
            return ;
        } else if addr <= 0x7FFF {
            if self.prg_bank >> 4 == 0 {
                self.prg_ram.set((addr - 0x6000) as usize, data);
            }
            return ;
        } else if self.last_write_timer > 0 {
            return ;
        }
        self.last_write_timer = 2;

        if data >> 7 == 1 {
            self.shift_register = 0x10;
            self.shift_write_count = 0;
            self.control_register = self.control_register | 0x0C;
            return ;
        }
        let shifted = ((self.shift_register >> 1) | ((data & 1) << 4)) & 0x1F;
        if self.shift_write_count < 4 {
            self.shift_register = shifted;
            self.shift_write_count = self.shift_write_count + 1;
        } else {
            if addr <= 0x9FFF {
                self.control_register = shifted;
            } else if addr <= 0xBFFF {
                self.chr_bank_0 = shifted;
            } else if addr <= 0xDFFF {
                self.chr_bank_1 = shifted;
            } else {
                self.prg_bank = shifted;
            }
            self.shift_register = 0x10;
            self.shift_write_count = 0;
        }
    }
}

/// Whether the serial protocol state and bank registers are the same in
/// both states.
pub open spec fn unchanged_regs(a: Mapper1, b: Mapper1) -> bool {
    &&& a.last_write_timer == b.last_write_timer
    &&& a.shift_register == b.shift_register
    &&& a.shift_write_count == b.shift_write_count
    &&& a.control_register == b.control_register
    &&& a.chr_bank_0 == b.chr_bank_0
    &&& a.chr_bank_1 == b.chr_bank_1
    &&& a.prg_bank == b.prg_bank
    &&& a.prg_rom@ == b.prg_rom@
}

} // verus!
