//! AxROM: a 32 KiB switchable program bank and single-screen mirroring
//! selected by bit 4 of the bank-select write.

use crate::cartridge_metadata::Mirroring;
use crate::util::zero_vec;
use vstd::prelude::*;

verus! {

/// The AxROM cartridge board.
pub struct Mapper7 {
    pub n_prg_banks: u16,
    pub prg_rom: Vec<u8>,
    pub chr_ram: Vec<u8>,
    pub prg_bank: u8,
    pub mirroring: Mirroring,
}

impl Mapper7 {
    /// The sizes and bank bounds the accessors rely on. Banks are
    /// 32 KiB here, so the 16 KiB header count must be even.
    pub open spec fn wf(&self) -> bool {
        &&& 2 <= self.n_prg_banks <= 0xFF
        &&& self.prg_rom@.len() == self.n_prg_banks * 0x4000
        &&& self.chr_ram@.len() == 0x2000
        &&& self.prg_bank < self.n_prg_banks / 2
    }

    /// The byte visible at `addr`: character RAM below `$2000`, the
    /// selected 32 KiB program bank above `$8000`.
    pub open spec fn spec_peek(&self, addr: u16) -> u8 {
        if addr <= 0x1FFF {
            self.chr_ram@[addr as int]
        } else if 0x8000 <= addr {
            self.prg_rom@[self.prg_bank * 0x8000 + (addr - 0x8000)]
        } else {
            0
        }
    }

    /// Build an AxROM board from the bank count and the program ROM.
    pub fn new(n_prg_banks: u16, prg_data: Vec<u8>) -> (r: Mapper7)
        requires
            2 <= n_prg_banks <= 0xFF,
            prg_data@.len() == n_prg_banks * 0x4000,
        ensures
            r.wf(),
            r.n_prg_banks == n_prg_banks,
            r.prg_rom@ == prg_data@,
            r.prg_bank == 0,
            r.mirroring == Mirroring::SingleScreenLower,
    {
        Mapper7 {
            n_prg_banks,
            prg_rom: prg_data,
            chr_ram: zero_vec(0x2000),
            prg_bank: 0,
            mirroring: Mirroring::SingleScreenLower,
        }
    }

    /// The mirroring this board currently selects.
    pub fn get_nametable_mirroring(&self) -> (r: Option<Mirroring>)
        ensures
            r == Some(self.mirroring),
    {
        Some(self.mirroring)
    }

    /// Read the byte at `addr`; AxROM reads have no side effects.
    pub fn read(&self, addr: u16) -> (r: u8)
        requires
            self.wf(),
        ensures
            r == self.spec_peek(addr),
    {
        self.peek(addr)
    }

    /// Read the byte at `addr` without side effects.
    pub fn peek(&self, addr: u16) -> (r: u8)
        requires
            self.wf(),
        ensures
            r == self.spec_peek(addr),
    {
        if addr <= 0x1FFF {
            self.chr_ram[addr as usize]
        } else if 0x8000 <= addr {
            self.prg_rom[(self.prg_bank as usize) * 0x8000 + ((addr - 0x8000) as usize)]
        } else {
            0
        }
    }

    /// Write `data` at `addr`: into character RAM below `$2000`; above
    /// `$8000` the low three bits pick the 32 KiB bank (reduced modulo
    /// the bank count) and bit 4 picks the single screen.
    pub fn write(&mut self, addr: u16, data: u8)
        requires
            old(self).wf(),
        ensures
            final(self).wf(),
            final(self).n_prg_banks == old(self).n_prg_banks,
            final(self).prg_rom@ == old(self).prg_rom@,
            addr <= 0x1FFF ==> final(self).chr_ram@ == old(self).chr_ram@.update(addr as int, data)
                && final(self).prg_bank == old(self).prg_bank && final(self).mirroring == old(
                self).mirroring,
            0x1FFF < addr < 0x8000 ==> *final(self) == *old(self),
            addr >= 0x8000 ==> final(self).chr_ram@ == old(self).chr_ram@ && final(self).prg_bank
                == (data & 0x07) as int % (old(self).n_prg_banks as int / 2) && final(
                self).mirroring == if (data >> 4) & 1 == 1 {
                Mirroring::SingleScreenUpper
            } else {
                Mirroring::SingleScreenLower
            },
    {
        if addr <= 0x1FFF {
            self.chr_ram.set(addr as usize, data);
        } else if addr >= 0x8000 {
            self.mirroring = if (data >> 4) & 1 == 1 {
                Mirroring::SingleScreenUpper
            } else {
                Mirroring::SingleScreenLower
            };
            self.prg_bank = (data & 0x07) % ((self.n_prg_banks as u8) / 2);
        }
    }
}

} // verus!
