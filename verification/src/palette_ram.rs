//! The 32-byte palette RAM at `$3F00-$3FFF`: mirrored every 32 bytes,
//! with `$3F10/$3F14/$3F18/$3F1C` aliasing `$3F00/$3F04/$3F08/$3F0C`.

use crate::ram::RAM;
use vstd::prelude::*;

verus! {

/// The palette index a bus address lands on: the address modulo 32,
/// with the four sprite-palette backdrop slots folded onto the
/// background ones.
pub open spec fn spec_palette_mirror(addr: u16) -> int {
    let m = addr as int % 0x20;
    if m % 4 == 0 && m >= 0x10 {
        m - 0x10
    } else {
        m
    }
}

/// The PPU's palette memory.
pub struct PaletteRAM {
    pub memory: RAM,
}

impl PaletteRAM {
    /// The backing RAM holds exactly 32 bytes at offset 0.
    pub open spec fn wf(&self) -> bool {
        &&& self.memory.start == 0
        &&& self.memory.memory@.len() == 0x20
    }

    /// The byte a read of `addr` returns.
    pub open spec fn spec_peek(&self, addr: u16) -> u8 {
        self.memory.memory@[spec_palette_mirror(addr)]
    }

    /// A zero-filled palette memory.
    pub fn new() -> (r: PaletteRAM)
        ensures
            r.wf(),
            forall|i: int| 0 <= i < 0x20 ==> r.memory.memory@[i] == 0u8,
    {
        PaletteRAM { memory: RAM::new(0x20, 0x00) }
    }

    /// The palette index `addr` lands on.
    fn mirror(&self, addr: u16) -> (r: u16)
        ensures
            r == spec_palette_mirror(addr),
            r < 0x20,
    {
        let mut mirrored = addr % 0x20;
        if (mirrored % 4 == 0) && mirrored >= 0x10 {
            mirrored = mirrored - 0x10;
        }
        mirrored
    }

    /// Read the byte at `addr` through the mirroring; no side effects.
    pub fn read(&self, addr: u16) -> (r: u8)
        requires
            self.wf(),
        ensures
            r == self.spec_peek(addr),
    {
        self.memory.read(self.mirror(addr))
    }

    /// Read the byte at `addr` through the mirroring; identical to
    /// `read`.
    pub fn peek(&self, addr: u16) -> (r: u8)
        requires
            self.wf(),
        ensures
            r == self.spec_peek(addr),
    {
        self.memory.peek(self.mirror(addr))
    }

    /// Write `data` at `addr` through the mirroring.
    pub fn write(&mut self, addr: u16, data: u8)
        requires
            old(self).wf(),
        ensures
            final(self).wf(),
            final(self).memory.memory@ == old(self).memory.memory@.update(
                spec_palette_mirror(addr),
                data,
            ),
    {
        let m = self.mirror(addr);
        self.memory.write(m, data);
    }
}

/// Writing through one alias and reading through the other returns the
/// written byte: the aliased addresses land on the same palette index.
pub proof fn lemma_palette_alias_roundtrip(
    p_before: PaletteRAM,
    write_addr: u16,
    read_addr: u16,
    v: u8,
)
    requires
        p_before.wf(),
        spec_palette_mirror(write_addr) == spec_palette_mirror(read_addr),
    ensures
        p_before.memory.memory@.update(spec_palette_mirror(write_addr), v)[spec_palette_mirror(
            read_addr,
        )] == v,
{
}

/// The specific aliases the hardware defines: `$3F10` lands on the
/// same slot as `$3F00`, and likewise for `$3F14/$3F04`, `$3F18/$3F08`
/// and `$3F1C/$3F0C`.
pub proof fn lemma_palette_backdrop_aliases()
    ensures
        spec_palette_mirror(0x3F10) == spec_palette_mirror(0x3F00),
        spec_palette_mirror(0x3F14) == spec_palette_mirror(0x3F04),
        spec_palette_mirror(0x3F18) == spec_palette_mirror(0x3F08),
        spec_palette_mirror(0x3F1C) == spec_palette_mirror(0x3F0C),
{
}

} // verus!
