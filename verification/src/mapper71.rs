//! Camerica boards: UxROM-like program banking, with single-screen
//! mirroring selected by writes to `$9000-$9FFF`.

use crate::cartridge_metadata::Mirroring;
use crate::util::zero_vec;
use vstd::prelude::*;

verus! {

/// The Camerica cartridge board.
pub struct Mapper71 {
    pub n_prg_banks: u16,
    pub prg_rom: Vec<u8>,
    pub chr_mem: Vec<u8>,
    pub prg_bank: u8,
    pub mirroring_option: Option<Mirroring>,
}

impl Mapper71 {
    /// The sizes and bank bounds the accessors rely on.
    pub open spec fn wf(&self) -> bool {
        &&& 1 <= self.n_prg_banks <= 0xFF
        &&& self.prg_rom@.len() == self.n_prg_banks * 0x4000
        &&& self.chr_mem@.len() == 0x2000
        &&& self.prg_bank < self.n_prg_banks
    }

    /// The byte visible at `addr`: character RAM below `$2000`, the
    /// selected bank at `$8000-$BFFF`, the last bank above `$C000`.
    pub open spec fn spec_peek(&self, addr: u16) -> u8 {
        if addr <= 0x1FFF {
            self.chr_mem@[addr as int]
        } else if 0x8000 <= addr && addr <= 0xBFFF {
            self.prg_rom@[self.prg_bank * 0x4000 + (addr - 0x8000)]
        } else if 0xC000 <= addr {
            self.prg_rom@[(self.n_prg_banks - 1) * 0x4000 + (addr - 0xC000)]
        } else {
            0
        }
    }

    /// Build a Camerica board from the bank count and the program ROM.
    pub fn new(n_prg_banks: u16, prg_data: Vec<u8>) -> (r: Mapper71)
        requires
            1 <= n_prg_banks <= 0xFF,
            prg_data@.len() == n_prg_banks * 0x4000,
        ensures
            r.wf(),
            r.n_prg_banks == n_prg_banks,
            r.prg_rom@ == prg_data@,
            r.prg_bank == 0,
            r.mirroring_option is None,
    {
        Mapper71 {
            n_prg_banks,
            chr_mem: zero_vec(0x2000),
            prg_rom: prg_data,
            prg_bank: 0,
            mirroring_option: None,
        }
    }

    /// The mirroring override, once one has been written.
    pub fn get_nametable_mirroring(&self) -> (r: Option<Mirroring>)
        ensures
            r == self.mirroring_option,
    {
        self.mirroring_option
    }

    /// Read the byte at `addr`; these reads have no side effects.
    pub fn read(&self, addr: u16) -> (r: u8)
        requires
            self.wf(),
        ensures
            r == self.spec_peek(addr),
    {
        self.peek(addr)
    }

    /// Read the byte at `addr` without side effects.
    pub fn peek(&self, addr: u16) -> (r: u8)
        requires
            self.wf(),
        ensures
            r == self.spec_peek(addr),
    {
        if addr <= 0x1FFF {
            self.chr_mem[addr as usize]
        } else if 0x8000 <= addr && addr <= 0xBFFF {
            self.prg_rom[(self.prg_bank as usize) * 0x4000 + ((addr - 0x8000) as usize)]
        } else if 0xC000 <= addr {
            self.prg_rom[((self.n_prg_banks - 1) as usize) * 0x4000 + ((addr - 0xC000) as usize)]
        } else {
            0
        }
    }

    /// Write `data` at `addr`: character RAM below `$2000`; a
    /// single-screen select at `$9000-$9FFF` (writes to `$8000-$8FFF`
    /// are ignored for compatibility); the program bank above `$C000`.
    pub fn write(&mut self, addr: u16, data: u8)
        requires
            old(self).wf(),
        ensures
            final(self).wf(),
            final(self).n_prg_banks == old(self).n_prg_banks,
            final(self).prg_rom@ == old(self).prg_rom@,
            addr <= 0x1FFF ==> final(self).chr_mem@ == old(self).chr_mem@.update(addr as int, data)
                && final(self).prg_bank == old(self).prg_bank && final(self).mirroring_option
                == old(self).mirroring_option,
            0x9000 <= addr <= 0x9FFF ==> final(self).chr_mem@ == old(self).chr_mem@ && final(
                self).prg_bank == old(self).prg_bank && final(self).mirroring_option == Some(
                if (data >> 4) & 1 == 1 {
                    Mirroring::SingleScreenUpper
                } else {
                    Mirroring::SingleScreenLower
                },
            ),
            addr >= 0xC000 ==> final(self).chr_mem@ == old(self).chr_mem@ && final(self).prg_bank
                == data as int % old(self).n_prg_banks as int && final(self).mirroring_option
                == old(self).mirroring_option,
            (0x1FFF < addr < 0x9000 || 0x9FFF < addr < 0xC000) ==> *final(self) == *old(self),
    {
        if addr <= 0x1FFF {
            self.chr_mem.set(addr as usize, data);
        } else if 0x9000 <= addr && addr <= 0x9FFF {
            self.mirroring_option = Some(
                if (data >> 4) & 1 == 1 {
                    Mirroring::SingleScreenUpper
                } else {
                    Mirroring::SingleScreenLower
                },
            );
        } else if addr >= 0xC000 {
            self.prg_bank = data % (self.n_prg_banks as u8);
        }
    }
}

} // verus!
