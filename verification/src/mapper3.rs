//! CNROM: fixed program ROM with an 8 KiB character bank selected by
//! writes to `$8000-$FFFF`.

use vstd::prelude::*;

verus! {

/// The CNROM cartridge board.
pub struct Mapper3 {
    pub n_chr_banks: u16,
    pub prg_rom: Vec<u8>,
    pub chr_rom: Vec<u8>,
    pub chr_bank: u8,
}

impl Mapper3 {
    /// The sizes and bank bounds the accessors rely on.
    pub open spec fn wf(&self) -> bool {
        &&& 1 <= self.n_chr_banks <= 0xFF
        &&& self.chr_rom@.len() == self.n_chr_banks * 0x2000
        &&& self.prg_rom@.len() >= 1
        &&& self.chr_bank < self.n_chr_banks
    }

    /// The byte visible at `addr`: the selected character bank below
    /// `$2000`, program ROM (mirrored over its own length) above `$8000`.
    pub open spec fn spec_peek(&self, addr: u16) -> u8 {
        if addr <= 0x1FFF {
            self.chr_rom@[self.chr_bank * 0x2000 + addr]
        } else if 0x8000 <= addr {
            self.prg_rom@[(addr - 0x8000) % self.prg_rom@.len() as int]
        } else {
            0
        }
    }

    /// Build a CNROM board from the character bank count and ROM data.
    pub fn new(n_chr_banks: u16, prg_data: Vec<u8>, chr_data: Vec<u8>) -> (r: Mapper3)
        requires
            1 <= n_chr_banks <= 0xFF,
            chr_data@.len() == n_chr_banks * 0x2000,
            prg_data@.len() >= 1,
        ensures
            r.wf(),
            r.n_chr_banks == n_chr_banks,
            r.prg_rom@ == prg_data@,
            r.chr_rom@ == chr_data@,
            r.chr_bank == 0,
    {
        Mapper3 { n_chr_banks, prg_rom: prg_data, chr_rom: chr_data, chr_bank: 0 }
    }

    /// Read the byte at `addr`; CNROM reads have no side effects.
    pub fn read(&self, addr: u16) -> (r: u8)
        requires
            self.wf(),
        ensures
            r == self.spec_peek(addr),
    {
        self.peek(addr)
    }

    /// Read the byte at `addr` without side effects.
    pub fn peek(&self, addr: u16) -> (r: u8)
        requires
            self.wf(),
        ensures
            r == self.spec_peek(addr),
    {
        if addr <= 0x1FFF {
            self.chr_rom[(self.chr_bank as usize) * 0x2000 + (addr as usize)]
        } else if 0x8000 <= addr {
            self.prg_rom[((addr - 0x8000) as usize) % self.prg_rom.len()]
        } else {
            0
        }
    }

    /// Write `data` at `addr`: above `$8000` it selects the character
    /// bank, reduced modulo the bank count; dropped elsewhere.
    pub fn write(&mut self, addr: u16, data: u8)
        requires
            old(self).wf(),
        ensures
            final(self).wf(),
            final(self).n_chr_banks == old(self).n_chr_banks,
            final(self).prg_rom@ == old(self).prg_rom@,
            final(self).chr_rom@ == old(self).chr_rom@,
            addr >= 0x8000 ==> final(self).chr_bank == data as int % old(self).n_chr_banks as int,
            addr < 0x8000 ==> *final(self) == *old(self),
    {
        if addr >= 0x8000 {
            self.chr_bank = data % (self.n_chr_banks as u8);
        }
    }
}

} // verus!
