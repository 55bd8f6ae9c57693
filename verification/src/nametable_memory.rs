//! The nametable space at `$2000-$3EFF`: four 1 KiB slots folded onto
//! the physical tables according to the cartridge's mirroring mode.

use crate::cartridge_metadata::Mirroring;
use crate::ram::RAM;
use vstd::prelude::*;

verus! {

/// The physical table index (0-3) a slot maps to under `mode`.
pub open spec fn spec_nametable_slot(mode: Mirroring, slot: int) -> int {
    match mode {
        Mirroring::Vertical => slot % 2,
        Mirroring::Horizontal => slot / 2,
        Mirroring::FourScreen => slot,
        Mirroring::SingleScreenLower => 0,
        Mirroring::SingleScreenUpper => 1,
    }
}

/// The index into the 4 KiB backing RAM that a bus address in
/// `$2000-$3EFF` reaches under `mode`. Addresses from `$3000` up mirror
/// the range a page below.
pub open spec fn spec_nametable_index(mode: Mirroring, addr: u16) -> int {
    let a = if addr >= 0x3000 {
        addr - 0x1000
    } else {
        addr as int
    };
    spec_nametable_slot(mode, (a - 0x2000) / 0x400) * 0x400 + a % 0x400
}

/// The PPU-side nametable memory: 4 KiB of backing RAM, enough for
/// four-screen cartridges; other modes use its first half.
pub struct NametableMemory {
    pub memory: RAM,
}

impl NametableMemory {
    /// The backing RAM holds exactly 4 KiB at offset 0.
    pub open spec fn wf(&self) -> bool {
        &&& self.memory.start == 0
        &&& self.memory.memory@.len() == 0x1000
    }

    /// The byte a read of `addr` returns under `mode`.
    pub open spec fn spec_peek(&self, mode: Mirroring, addr: u16) -> u8 {
        self.memory.memory@[spec_nametable_index(mode, addr)]
    }

    /// A zero-filled nametable memory.
    pub fn new() -> (r: NametableMemory)
        ensures
            r.wf(),
            forall|i: int| 0 <= i < 0x1000 ==> r.memory.memory@[i] == 0u8,
    {
        NametableMemory { memory: RAM::new(0x1000, 0x0000) }
    }

    /// The backing index `addr` reaches under `mode`.
    fn mirror(&self, mode: Mirroring, addr: u16) -> (r: u16)
        requires
            0x2000 <= addr <= 0x3EFF,
        ensures
            r == spec_nametable_index(mode, addr),
            r < 0x1000,
    {
        let a: u16 = if addr >= 0x3000 {
            addr - 0x1000
        } else {
            addr
        };
        let slot: u16 = (a - 0x2000) / 0x400;
        let table: u16 = match mode {
            Mirroring::Vertical => slot % 2,
            Mirroring::Horizontal => slot / 2,
            Mirroring::FourScreen => slot,
            Mirroring::SingleScreenLower => 0,
            Mirroring::SingleScreenUpper => 1,
        };
        table * 0x400 + a % 0x400
    }

    /// Read the byte at `addr` under `mode`; no side effects.
    pub fn read(&self, mode: Mirroring, addr: u16) -> (r: u8)
        requires
            self.wf(),
            0x2000 <= addr <= 0x3EFF,
        ensures
            r == self.spec_peek(mode, addr),
    {
        self.memory.read(self.mirror(mode, addr))
    }

    /// Read the byte at `addr` under `mode`; identical to `read`.
    pub fn peek(&self, mode: Mirroring, addr: u16) -> (r: u8)
        requires
            self.wf(),
            0x2000 <= addr <= 0x3EFF,
        ensures
            r == self.spec_peek(mode, addr),
    {
        self.memory.peek(self.mirror(mode, addr))
    }

    /// Write `data` at `addr` under `mode`.
    pub fn write(&mut self, mode: Mirroring, addr: u16, data: u8)
        requires
            old(self).wf(),
            0x2000 <= addr <= 0x3EFF,
        ensures
            final(self).wf(),
            final(self).memory.memory@ == old(self).memory.memory@.update(
                spec_nametable_index(mode, addr),
                data,
            ),
    {
        let m = self.mirror(mode, addr);
        self.memory.write(m, data);
    }
}

} // verus!
