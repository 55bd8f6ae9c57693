//! Plain byte memories: a read-write RAM, a read-only ROM, and a flat
//! 64 KiB scratch memory, each addressed relative to a start address.

use crate::util::zero_vec;
use vstd::prelude::*;

verus! {

/// A read-write byte memory covering `[start, start + len)`.
pub struct RAM {
    pub memory: Vec<u8>,
    pub start: u16,
}

impl RAM {
    /// Whether `addr` falls inside this memory's range.
    pub open spec fn in_range(&self, addr: u16) -> bool {
        self.start <= addr && addr - self.start < self.memory@.len()
    }

    /// A zero-filled RAM of `size` bytes starting at `start`.
    pub fn new(size: u16, start: u16) -> (r: RAM)
        ensures
            r.start == start,
            r.memory@.len() == size,
            forall|i: int| 0 <= i < size ==> r.memory@[i] == 0u8,
    {
        RAM { memory: zero_vec(size as usize), start }
    }

    /// The byte stored at `addr`.
    pub fn read(&self, addr: u16) -> (r: u8)
        requires
            self.in_range(addr),
        ensures
            r == self.memory@[addr - self.start],
    {
        self.memory[(addr - self.start) as usize]
    }

    /// The byte stored at `addr`; identical to `read`, which has no
    /// side effects on a plain RAM.
    pub fn peek(&self, addr: u16) -> (r: u8)
        requires
            self.in_range(addr),
        ensures
            r == self.memory@[addr - self.start],
    {
        self.memory[(addr - self.start) as usize]
    }

    /// Store `data` at `addr`, leaving every other byte unchanged.
    pub fn write(&mut self, addr: u16, data: u8)
        requires
            old(self).in_range(addr),
        ensures
            final(self).start == old(self).start,
            final(self).memory@ == old(self).memory@.update(addr - old(self).start, data),
    {
        let i = (addr - self.start) as usize;
        self.memory.set(i, data);
    }
}

/// A read-only byte memory covering `[start, start + len)`.
pub struct ROM {
    pub memory: Vec<u8>,
    pub start: u16,
}

impl ROM {
    /// Whether `addr` falls inside this memory's range.
    pub open spec fn in_range(&self, addr: u16) -> bool {
        self.start <= addr && addr - self.start < self.memory@.len()
    }

    /// A zero-filled ROM of `size` bytes starting at `start`.
    pub fn new(size: u16, start: u16) -> (r: ROM)
        ensures
            r.start == start,
            r.memory@.len() == size,
            forall|i: int| 0 <= i < size ==> r.memory@[i] == 0u8,
    {
        ROM { memory: zero_vec(size as usize), start }
    }

    /// The byte stored at `addr`.
    pub fn read(&self, addr: u16) -> (r: u8)
        requires
            self.in_range(addr),
        ensures
            r == self.memory@[addr - self.start],
    {
        self.memory[(addr - self.start) as usize]
    }

    /// The byte stored at `addr`.
    pub fn peek(&self, addr: u16) -> (r: u8)
        requires
            self.in_range(addr),
        ensures
            r == self.memory@[addr - self.start],
    {
        self.memory[(addr - self.start) as usize]
    }
}

/// A flat memory covering the whole 16-bit address space but its last
/// byte, as a simple stand-in bus for exercising the CPU.
pub struct SimpleRAM {
    pub memory: Vec<u8>,
}

impl SimpleRAM {
    /// A zero-filled flat memory.
    pub fn new() -> (r: SimpleRAM)
        ensures
            r.memory@.len() == 0xFFFF,
            forall|i: int| 0 <= i < 0xFFFF ==> r.memory@[i] == 0u8,
    {
        SimpleRAM { memory: zero_vec(0xFFFF) }
    }

    /// The byte stored at `addr`.
    pub fn read(&self, addr: u16) -> (r: u8)
        requires
            self.memory@.len() == 0xFFFF,
            addr < 0xFFFF,
        ensures
            r == self.memory@[addr as int],
    {
        self.memory[addr as usize]
    }

    /// Store `data` at `addr`.
    pub fn write(&mut self, addr: u16, data: u8)
        requires
            old(self).memory@.len() == 0xFFFF,
            addr < 0xFFFF,
        ensures
            final(self).memory@ == old(self).memory@.update(addr as int, data),
    {
        self.memory.set(addr as usize, data);
    }
}

} // verus!
