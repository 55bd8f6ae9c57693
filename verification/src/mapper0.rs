//! NROM: no bank switching at all. 16 or 32 KiB of program ROM mirrored
//! across `$8000-$FFFF`, and 8 KiB of character memory, which is RAM
//! when the header declares zero character banks.

use crate::util::zero_vec;
use vstd::prelude::*;

verus! {

/// The NROM cartridge board.
pub struct Mapper0 {
    pub n_prg_banks: u16,
    pub prg_rom: Vec<u8>,
    pub chr_mem: Vec<u8>,
    pub chr_mem_is_ram: bool,
}

impl Mapper0 {
    /// The sizes the accessors rely on: at least one 16 KiB program
    /// bank, fully backed, and a non-empty character memory.
    pub open spec fn wf(&self) -> bool {
        &&& 1 <= self.n_prg_banks
        &&& self.prg_rom@.len() == self.n_prg_banks * 0x4000
        &&& self.chr_mem@.len() >= 1
    }

    /// The byte visible at `addr`: character memory below `$2000`,
    /// program ROM mirrored above `$8000`, open bus in between.
    pub open spec fn spec_peek(&self, addr: u16) -> u8 {
        if addr <= 0x1FFF {
            self.chr_mem@[addr as int % self.chr_mem@.len() as int]
        } else if addr >= 0x8000 {
            self.prg_rom@[(addr - 0x8000) % (self.n_prg_banks * 0x4000)]
        } else {
            0
        }
    }

    /// Build an NROM board from the header bank counts and the ROM data.
    /// Zero character banks means 8 KiB of character RAM instead.
    pub fn new(n_prg_banks: u16, n_chr_banks: u16, prg_data: Vec<u8>, chr_data: Vec<u8>) -> (r:
        Mapper0)
        requires
            1 <= n_prg_banks,
            prg_data@.len() == n_prg_banks * 0x4000,
            n_chr_banks >= 1 ==> chr_data@.len() == n_chr_banks * 0x2000,
        ensures
            r.wf(),
            r.n_prg_banks == n_prg_banks,
            r.prg_rom@ == prg_data@,
            r.chr_mem_is_ram == (n_chr_banks == 0),
            n_chr_banks == 0 ==> r.chr_mem@.len() == 0x2000,
            n_chr_banks >= 1 ==> r.chr_mem@ == chr_data@,
    {
        Mapper0 {
            n_prg_banks,
            chr_mem: if n_chr_banks == 0 {
                zero_vec(0x2000)
            } else {
                chr_data
            },
            chr_mem_is_ram: n_chr_banks == 0,
            prg_rom: prg_data,
        }
    }

    /// Read the byte at `addr`; NROM reads have no side effects.
    pub fn read(&self, addr: u16) -> (r: u8)
        requires
            self.wf(),
        ensures
            r == self.spec_peek(addr),
    {
        self.peek(addr)
    }

    /// Read the byte at `addr` without side effects.
    pub fn peek(&self, addr: u16) -> (r: u8)
        requires
            self.wf(),
        ensures
            r == self.spec_peek(addr),
    {
        if addr <= 0x1FFF {
            let i = (addr as usize) % self.chr_mem.len();
            self.chr_mem[i]
        } else if addr >= 0x8000 {
            let i = ((addr - 0x8000) as usize) % ((self.n_prg_banks as usize) * 0x4000);
            self.prg_rom[i]
        } else {
            0
        }
    }

    /// Write `data` at `addr`: into character memory when it is RAM,
    /// into the program area above `$8000` (NROM boards used in test
    /// harnesses back that region with RAM), and dropped elsewhere.
    pub fn write(&mut self, addr: u16, data: u8)
        requires
            old(self).wf(),
        ensures
            final(self).wf(),
            final(self).n_prg_banks == old(self).n_prg_banks,
            final(self).chr_mem_is_ram == old(self).chr_mem_is_ram,
            addr <= 0x1FFF && old(self).chr_mem_is_ram ==> final(self).chr_mem@ == old(self).chr_mem@.update(addr as int % old(self).chr_mem@.len() as int, data)
                && final(self).prg_rom@ == old(self).prg_rom@,
            addr <= 0x1FFF && !old(self).chr_mem_is_ram ==> final(self).chr_mem@ == old(self).chr_mem@
                && final(self).prg_rom@ == old(self).prg_rom@,
            0x1FFF < addr < 0x8000 ==> final(self).chr_mem@ == old(self).chr_mem@
                && final(self).prg_rom@ == old(self).prg_rom@,
            addr >= 0x8000 ==> final(self).prg_rom@ == old(self).prg_rom@.update((addr - 0x8000) % (old(self).n_prg_banks * 0x4000), data)
                && final(self).chr_mem@ == old(self).chr_mem@,
    {
        if addr <= 0x1FFF {
            if self.chr_mem_is_ram {
                let i = (addr as usize) % self.chr_mem.len();
                self.chr_mem.set(i, data);
            }
        } else if addr >= 0x8000 {
            let i = ((addr - 0x8000) as usize) % ((self.n_prg_banks as usize) * 0x4000);
            self.prg_rom.set(i, data);
        }
    }
}

} // verus!
