//! MMC2/MMC4: character banks switched by two latches that specific
//! pattern-table fetches flip, taking effect on the following read.

use crate::cartridge_metadata::Mirroring;
use vstd::prelude::*;

verus! {

/// The MMC2/MMC4 cartridge board.
pub struct Mapper9 {
    pub n_prg_banks: u16,
    pub prg_rom: Vec<u8>,
    pub chr_rom: Vec<u8>,
    pub prg_bank: u8,
    pub chr_fd_bank_lo: u8,
    pub chr_fe_bank_lo: u8,
    pub chr_fd_bank_hi: u8,
    pub chr_fe_bank_hi: u8,
    pub chr_latch_0: bool,
    pub chr_latch_1: bool,
    pub mirroring: Mirroring,
}

impl Mapper9 {
    /// The sizes the accessors rely on; bank arithmetic is reduced
    /// modulo the backing length.
    pub open spec fn wf(&self) -> bool {
        &&& 2 <= self.n_prg_banks
        &&& self.prg_rom@.len() == self.n_prg_banks * 0x4000
        &&& self.chr_rom@.len() >= 1
    }

    /// The byte visible at `addr`: latched character banks below
    /// `$2000`, one switchable 8 KiB program bank at `$8000-$9FFF`, and
    /// the last three fixed 8 KiB banks above `$A000`.
    pub open spec fn spec_peek(&self, addr: u16) -> u8 {
        if addr <= 0x0FFF {
            let bank = if self.chr_latch_0 {
                self.chr_fe_bank_lo as int
            } else {
                self.chr_fd_bank_lo as int
            };
            self.chr_rom@[(bank * 0x1000 + addr) % self.chr_rom@.len() as int]
        } else if addr <= 0x1FFF {
            let bank = if self.chr_latch_1 {
                self.chr_fe_bank_hi as int
            } else {
                self.chr_fd_bank_hi as int
            };
            self.chr_rom@[(bank * 0x1000 + (addr - 0x1000)) % self.chr_rom@.len() as int]
        } else if 0x8000 <= addr && addr <= 0x9FFF {
            self.prg_rom@[(self.prg_bank * 0x2000 + (addr - 0x8000)) % self.prg_rom@.len() as int]
        } else if 0xA000 <= addr {
            self.prg_rom@[((self.n_prg_banks * 2 - 3) * 0x2000 + (addr - 0xA000))
                % self.prg_rom@.len() as int]
        } else {
            0
        }
    }

    /// Build an MMC2/MMC4 board from the bank count and ROM data.
    pub fn new(n_prg_banks: u16, prg_data: Vec<u8>, chr_data: Vec<u8>) -> (r: Mapper9)
        requires
            2 <= n_prg_banks,
            prg_data@.len() == n_prg_banks * 0x4000,
            chr_data@.len() >= 1,
        ensures
            r.wf(),
            r.n_prg_banks == n_prg_banks,
            r.prg_rom@ == prg_data@,
            r.chr_rom@ == chr_data@,
            r.prg_bank == 0,
            !r.chr_latch_0,
            !r.chr_latch_1,
            r.mirroring == Mirroring::Vertical,
    {
        Mapper9 {
            n_prg_banks,
            prg_rom: prg_data,
            chr_rom: chr_data,
            prg_bank: 0,
            chr_fd_bank_lo: 0,
            chr_fe_bank_lo: 0,
            chr_fd_bank_hi: 0,
            chr_fe_bank_hi: 0,
            chr_latch_0: false,
            chr_latch_1: false,
            mirroring: Mirroring::Vertical,
        }
    }

    /// The mirroring this board currently selects.
    pub fn get_nametable_mirroring(&self) -> (r: Option<Mirroring>)
        ensures
            r == Some(self.mirroring),
    {
        Some(self.mirroring)
    }

    /// Read the byte at `addr`. The value is taken before the latches
    /// move: a fetch of `$0FD8`/`$0FE8` clears or sets latch 0, and a
    /// fetch of `$1FD8-$1FDF`/`$1FE8-$1FEF` clears or sets latch 1.
    pub fn read(&mut self, addr: u16) -> (r: u8)
        requires
            old(self).wf(),
        ensures
            final(self).wf(),
            r == old(self).spec_peek(addr),
            final(self).chr_latch_0 == if addr == 0x0FD8 {
                false
            } else if addr == 0x0FE8 {
                true
            } else {
                old(self).chr_latch_0
            },
            final(self).chr_latch_1 == if 0x1FD8 <= addr && addr <= 0x1FDF {
                false
            } else if 0x1FE8 <= addr && addr <= 0x1FEF {
                true
            } else {
                old(self).chr_latch_1
            },
            *final(self) == (Mapper9 {
                chr_latch_0: final(self).chr_latch_0,
                chr_latch_1: final(self).chr_latch_1,
                ..*old(self)
            }),
    {
        let data = self.peek(addr);
        if addr == 0x0FD8 {
            self.chr_latch_0 = false;
        } else if addr == 0x0FE8 {
            self.chr_latch_0 = true;
        } else if 0x1FD8 <= addr && addr <= 0x1FDF {
            self.chr_latch_1 = false;
        } else if 0x1FE8 <= addr && addr <= 0x1FEF {
            self.chr_latch_1 = true;
        }
        data
    }

    /// Read the byte at `addr` without moving the latches.
    pub fn peek(&self, addr: u16) -> (r: u8)
        requires
            self.wf(),
        ensures
            r == self.spec_peek(addr),
    {
        if addr <= 0x0FFF {
            let bank: usize = if self.chr_latch_0 {
                self.chr_fe_bank_lo as usize
            } else {
                self.chr_fd_bank_lo as usize
            };
            self.chr_rom[(bank * 0x1000 + (addr as usize)) % self.chr_rom.len()]
        } else if addr <= 0x1FFF {
            let bank: usize = if self.chr_latch_1 {
                self.chr_fe_bank_hi as usize
            } else {
                self.chr_fd_bank_hi as usize
            };
            self.chr_rom[(bank * 0x1000 + ((addr - 0x1000) as usize)) % self.chr_rom.len()]
        } else if 0x8000 <= addr && addr <= 0x9FFF {
            self.prg_rom[((self.prg_bank as usize) * 0x2000 + ((addr - 0x8000) as usize))
                % self.prg_rom.len()]
        } else if 0xA000 <= addr {
            self.prg_rom[(((self.n_prg_banks as usize) * 2 - 3) * 0x2000 + ((addr - 0xA000)
                as usize)) % self.prg_rom.len()]
        } else {
            0
        }
    }

    /// Write `data` at `addr`: the program bank at `$A000-$AFFF`, the
    /// four latch banks at `$B000-$EFFF`, and mirroring at `$F000` up.
    pub fn write(&mut self, addr: u16, data: u8)
        requires
            old(self).wf(),
        ensures
            final(self).wf(),
            final(self).prg_rom@ == old(self).prg_rom@,
            final(self).chr_rom@ == old(self).chr_rom@,
            final(self).n_prg_banks == old(self).n_prg_banks,
            final(self).chr_latch_0 == old(self).chr_latch_0,
            final(self).chr_latch_1 == old(self).chr_latch_1,
            0xA000 <= addr <= 0xAFFF ==> final(self).prg_bank == (data & 0x0F) as int % (old(
                self).n_prg_banks as int * 2),
            0xB000 <= addr <= 0xBFFF ==> final(self).chr_fd_bank_lo == (data & 0x1F),
            0xC000 <= addr <= 0xCFFF ==> final(self).chr_fe_bank_lo == (data & 0x1F),
            0xD000 <= addr <= 0xDFFF ==> final(self).chr_fd_bank_hi == (data & 0x1F),
            0xE000 <= addr <= 0xEFFF ==> final(self).chr_fe_bank_hi == (data & 0x1F),
            0xF000 <= addr ==> final(self).mirroring == if data & 1 == 1 {
                Mirroring::Horizontal
            } else {
                Mirroring::Vertical
            },
            addr < 0xA000 ==> *final(self) == *old(self),
    {
        if 0xA000 <= addr && addr <= 0xAFFF {
            proof {
                assert((data & 0x0F) < 16) by (bit_vector);
            }
            if (self.n_prg_banks as usize) * 2 > 15 {
                self.prg_bank = data & 0x0F;
                proof {
                    let m = old(self).n_prg_banks as int * 2;
                    assert((data & 0x0F) as int % m == (data & 0x0F) as int) by {
                        vstd::arithmetic::div_mod::lemma_small_mod((data & 0x0F) as nat, m as nat);
                    }
                }
            } else {
                let m: u8 = (self.n_prg_banks * 2) as u8;
                self.prg_bank = (data & 0x0F) % m;
            }
        } else if 0xB000 <= addr && addr <= 0xBFFF {
            self.chr_fd_bank_lo = data & 0x1F;
        } else if 0xC000 <= addr && addr <= 0xCFFF {
            self.chr_fe_bank_lo = data & 0x1F;
        } else if 0xD000 <= addr && addr <= 0xDFFF {
            self.chr_fd_bank_hi = data & 0x1F;
        } else if 0xE000 <= addr && addr <= 0xEFFF {
            self.chr_fe_bank_hi = data & 0x1F;
        } else if 0xF000 <= addr {
            self.mirroring = if data & 1 == 1 {
                Mirroring::Horizontal
            } else {
                Mirroring::Vertical
            };
        }
    }
}

} // verus!
