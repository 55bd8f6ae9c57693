//! The cartridge: an iNES image parsed into metadata plus one of the
//! supported mapper boards, serving both the CPU bus above `$4020` and
//! the PPU pattern-table space below `$2000`.

use crate::cartridge_metadata::CartridgeMetadata;
use crate::cartridge_metadata::Mirroring;
use crate::cartridge_metadata::spec_mapper_num;
use crate::cartridge_metadata::spec_n_chr_banks;
use crate::cartridge_metadata::spec_n_prg_banks;
use crate::mapper0::Mapper0;
use crate::mapper1::Mapper1;
use crate::mapper2::Mapper2;
use crate::mapper3::Mapper3;
use crate::mapper4::Mapper4;
use crate::mapper7::Mapper7;
use crate::mapper71::Mapper71;
use crate::mapper9::Mapper9;
use vstd::prelude::*;

verus! {

/// One of the supported mapper boards.
pub enum Mapper {
    Nrom(Mapper0),
    Mmc1(Mapper1),
    Uxrom(Mapper2),
    Cnrom(Mapper3),
    Mmc3(Mapper4),
    Axrom(Mapper7),
    Mmc2(Mapper9),
    Camerica(Mapper71),
}

impl Mapper {
    /// The board's internal size invariants.
    pub open spec fn wf(&self) -> bool {
        match self {
            Mapper::Nrom(m) => m.wf(),
            Mapper::Mmc1(m) => m.wf(),
            Mapper::Uxrom(m) => m.wf(),
            Mapper::Cnrom(m) => m.wf(),
            Mapper::Mmc3(m) => m.wf(),
            Mapper::Axrom(m) => m.wf(),
            Mapper::Mmc2(m) => m.wf(),
            Mapper::Camerica(m) => m.wf(),
        }
    }

    /// The byte the board shows at `addr`, without side effects.
    pub open spec fn spec_peek(&self, addr: u16) -> u8 {
        match self {
            Mapper::Nrom(m) => m.spec_peek(addr),
            Mapper::Mmc1(m) => m.spec_peek(addr),
            Mapper::Uxrom(m) => m.spec_peek(addr),
            Mapper::Cnrom(m) => m.spec_peek(addr),
            Mapper::Mmc3(m) => m.spec_peek(addr),
            Mapper::Axrom(m) => m.spec_peek(addr),
            Mapper::Mmc2(m) => m.spec_peek(addr),
            Mapper::Camerica(m) => m.spec_peek(addr),
        }
    }
}

/// A cartridge slot: empty, or holding a parsed image and its board.
pub struct Cartridge {
    pub meta: Option<CartridgeMetadata>,
    pub mapper: Option<Mapper>,
}

/// The byte offset where program ROM starts in an image whose header
/// is `h`: after the 16-byte header and the optional 512-byte trainer.
pub open spec fn spec_prg_start(h: Seq<u8>) -> int {
    16 + if ((h[6] >> 2) & 1) == 1 {
        512int
    } else {
        0int
    }
}

/// Whether an image can be loaded: a complete magic-tagged header, a
/// supported mapper, the bank counts the board needs, and enough data
/// for every declared bank.
pub open spec fn spec_loadable(d: Seq<u8>) -> bool {
    &&& d.len() >= 16
    &&& d[0] == 0x4E && d[1] == 0x45 && d[2] == 0x53 && d[3] == 0x1A
    &&& {
        let n_prg = spec_n_prg_banks(d.take(16)) as int;
        let n_chr = spec_n_chr_banks(d.take(16)) as int;
        let mapper_num = spec_mapper_num(d.take(16)) as int;
        &&& spec_prg_start(d.take(16)) + n_prg * 0x4000 + n_chr * 0x2000 <= d.len()
        &&& 1 <= n_prg
        &&& (mapper_num == 0 || mapper_num == 1 || mapper_num == 2 || mapper_num == 3
            || mapper_num == 4 || mapper_num == 7 || mapper_num == 9 || mapper_num == 71)
        &&& (mapper_num == 2 ==> n_prg <= 0xFF)
        &&& (mapper_num == 3 ==> 1 <= n_chr <= 0xFF)
        &&& (mapper_num == 7 ==> 2 <= n_prg <= 0xFF)
        &&& (mapper_num == 9 ==> 2 <= n_prg && 1 <= n_chr)
        &&& (mapper_num == 71 ==> n_prg <= 0xFF)
    }
}

/// The program-ROM bytes of an image: the banks that follow the
/// header and optional trainer.
pub open spec fn spec_prg_of(d: Seq<u8>) -> Seq<u8> {
    let start = spec_prg_start(d.take(16));
    d.subrange(start, start + spec_n_prg_banks(d.take(16)) * 0x4000)
}

/// The character-ROM bytes of an image: the banks after the program
/// banks.
pub open spec fn spec_chr_of(d: Seq<u8>) -> Seq<u8> {
    let start = spec_prg_start(d.take(16)) + spec_n_prg_banks(d.take(16)) * 0x4000;
    d.subrange(start, start + spec_n_chr_banks(d.take(16)) * 0x2000)
}

impl Mapper {
    /// The program bytes a board was built over.
    pub open spec fn spec_prg(&self) -> Seq<u8> {
        match self {
            Mapper::Nrom(m) => m.prg_rom@,
            Mapper::Mmc1(m) => m.prg_rom@,
            Mapper::Uxrom(m) => m.prg_rom@,
            Mapper::Cnrom(m) => m.prg_rom@,
            Mapper::Mmc3(m) => m.prg_rom@,
            Mapper::Axrom(m) => m.prg_rom@,
            Mapper::Mmc2(m) => m.prg_rom@,
            Mapper::Camerica(m) => m.prg_rom@,
        }
    }

    /// The character bytes a board was built over, for the boards
    /// whose character memory comes from the image rather than RAM.
    pub open spec fn spec_chr(&self) -> Seq<u8> {
        match self {
            Mapper::Nrom(m) => m.chr_mem@,
            Mapper::Mmc1(m) => m.chr_mem@,
            Mapper::Uxrom(m) => m.chr_mem@,
            Mapper::Cnrom(m) => m.chr_rom@,
            Mapper::Mmc3(m) => m.chr_mem@,
            Mapper::Axrom(m) => m.chr_ram@,
            Mapper::Mmc2(m) => m.chr_rom@,
            Mapper::Camerica(m) => m.chr_mem@,
        }
    }

    /// The board number a variant implements.
    pub open spec fn spec_number(&self) -> int {
        match self {
            Mapper::Nrom(_) => 0,
            Mapper::Mmc1(_) => 1,
            Mapper::Uxrom(_) => 2,
            Mapper::Cnrom(_) => 3,
            Mapper::Mmc3(_) => 4,
            Mapper::Axrom(_) => 7,
            Mapper::Mmc2(_) => 9,
            Mapper::Camerica(_) => 71,
        }
    }
}

impl Cartridge {
    /// Whether the slot's board, if any, meets its size invariants.
    pub open spec fn wf(&self) -> bool {
        &&& (self.meta is Some <==> self.mapper is Some)
        &&& match self.mapper {
            Some(m) => m.wf(),
            None => true,
        }
    }

    /// The byte visible at `addr`: what the board shows, or 0 from an
    /// empty slot.
    pub open spec fn spec_peek(&self, addr: u16) -> u8 {
        match self.mapper {
            Some(m) => m.spec_peek(addr),
            None => 0,
        }
    }

    /// The nametable mirroring in effect, as a spec-level value: the
    /// board's override where it has one, else the header's hardwired
    /// mode; four-screen wins outright.
    pub open spec fn spec_mirroring(&self) -> Mirroring {
        let default = match self.meta {
            Some(m) => m.hardwired_mirroring,
            None => Mirroring::Horizontal,
        };
        if default == Mirroring::FourScreen {
            default
        } else {
            match self.mapper {
                Some(Mapper::Mmc1(m)) => match m.control_register & 0x03 {
                    0u8 => Mirroring::SingleScreenLower,
                    1u8 => Mirroring::SingleScreenUpper,
                    2u8 => Mirroring::Vertical,
                    _ => Mirroring::Horizontal,
                },
                Some(Mapper::Mmc3(m)) => m.regs.mirroring,
                Some(Mapper::Axrom(m)) => m.mirroring,
                Some(Mapper::Mmc2(m)) => m.mirroring,
                Some(Mapper::Camerica(m)) => match m.mirroring_option {
                    Some(mode) => mode,
                    None => default,
                },
                _ => default,
            }
        }
    }

    /// An empty cartridge slot.
    pub fn new() -> (r: Cartridge)
        ensures
            r.wf(),
            r.meta is None,
            r.mapper is None,
    {
        Cartridge { meta: None, mapper: None }
    }

    /// Parse a whole iNES image. Succeeds exactly on the images
    /// `spec_loadable` admits; the slot then holds the mapper the
    /// header names, fed with the program and character data that
    /// follow the header and optional trainer.
    pub fn from_bytes(data: Vec<u8>) -> (r: Result<Cartridge, &'static str>)
        ensures
            r is Ok <==> spec_loadable(data@),
            r matches Ok(c) ==> c.wf() && c.mapper is Some && c.meta is Some,
            r matches Ok(c) ==> (c.meta matches Some(m) && m.n_prg_banks == spec_n_prg_banks(
                data@.take(16),
            ) && m.n_chr_banks == spec_n_chr_banks(data@.take(16)) && m.mapper_num
                == spec_mapper_num(data@.take(16)) && m.hardwired_mirroring
                == crate::cartridge_metadata::spec_hardwired_mirroring(data@.take(16))),
            r matches Ok(c) ==> (c.mapper matches Some(mp) && mp.spec_number()
                == spec_mapper_num(data@.take(16)) && mp.spec_prg() == spec_prg_of(data@)),
            r matches Ok(c) ==> (c.mapper matches Some(mp) && ({
                let n = mp.spec_number();
                spec_n_chr_banks(data@.take(16)) >= 1 && (n == 0 || n == 1 || n == 3 || n == 4 || n
                    == 9) ==> mp.spec_chr() == spec_chr_of(data@)
            })),
    {
        if data.len() < 16 {
            return Err("hit end of data while reading file header");
        }
        let mut header: Vec<u8> = Vec::new();
        let mut i: usize = 0;
        while i < 16
            invariant
                i <= 16,
                data@.len() >= 16,
                header@ == data@.take(i as int),
            decreases 16 - i,
        {
            header.push(data[i]);
            i = i + 1;
        }
        let meta = match CartridgeMetadata::from_header(header) {
            Ok(m) => m,
            Err(e) => {
                return Err(e);
            },
        };

        let prg_start: usize = if meta.has_trainer {
            16 + 512
        } else {
            16
        };
        let n_prg = meta.n_prg_banks as usize;
        let n_chr = meta.n_chr_banks as usize;
        let prg_size = n_prg * 0x4000;
        let chr_size = n_chr * 0x2000;
        if data.len() < prg_start || data.len() - prg_start < prg_size || (data.len() - prg_start)
            - prg_size < chr_size {
            return Err("hit end of data while reading bank data");
        }
        if n_prg < 1 {
            return Err("image declares no program banks");
        }

        let prg_end: usize = prg_start + prg_size;
        let mut prg_data: Vec<u8> = Vec::new();
        let mut i: usize = prg_start;
        while i < prg_end
            invariant
                prg_end == prg_start + prg_size,
                prg_start <= i <= prg_end,
                prg_end <= data@.len(),
                prg_data@ == data@.subrange(prg_start as int, i as int),
            decreases prg_start + prg_size - i,
        {
            prg_data.push(data[i]);
            i = i + 1;
        }
        let chr_start = prg_end;
        let chr_end: usize = chr_start + chr_size;
        let mut chr_data: Vec<u8> = Vec::new();
        let mut i: usize = chr_start;
        while i < chr_end
            invariant
                chr_end == chr_start + chr_size,
                chr_start <= i <= chr_end,
                chr_end <= data@.len(),
                chr_data@ == data@.subrange(chr_start as int, i as int),
            decreases chr_start + chr_size - i,
        {
            chr_data.push(data[i]);
            i = i + 1;
        }

        let mapper: Mapper = match meta.mapper_num {
            0 => Mapper::Nrom(
                Mapper0::new(meta.n_prg_banks, meta.n_chr_banks, prg_data, chr_data),
            ),
            1 => Mapper::Mmc1(
                Mapper1::new(meta.n_prg_banks, meta.n_chr_banks, prg_data, chr_data),
            ),
            2 => {
                if meta.n_prg_banks > 0xFF {
                    return Err("too many program banks for this mapper");
                }
                Mapper::Uxrom(Mapper2::new(meta.n_prg_banks, prg_data))
            },
            3 => {
                if meta.n_chr_banks < 1 || meta.n_chr_banks > 0xFF {
                    return Err("character bank count unsupported for this mapper");
                }
                Mapper::Cnrom(Mapper3::new(meta.n_chr_banks, prg_data, chr_data))
            },
            4 => Mapper::Mmc3(
                Mapper4::new(
                    meta.n_prg_banks,
                    meta.n_chr_banks,
                    prg_data,
                    chr_data,
                    match meta.submapper_num {
                        Some(s) => s == 1,
                        None => false,
                    },
                ),
            ),
            7 => {
                if meta.n_prg_banks < 2 || meta.n_prg_banks > 0xFF {
                    return Err("program bank count unsupported for this mapper");
                }
                Mapper::Axrom(Mapper7::new(meta.n_prg_banks, prg_data))
            },
            9 => {
                if meta.n_prg_banks < 2 || meta.n_chr_banks < 1 {
                    return Err("bank counts unsupported for this mapper");
                }
                Mapper::Mmc2(Mapper9::new(meta.n_prg_banks, prg_data, chr_data))
            },
            71 => {
                if meta.n_prg_banks > 0xFF {
                    return Err("too many program banks for this mapper");
                }
                Mapper::Camerica(Mapper71::new(meta.n_prg_banks, prg_data))
            },
            _ => {
                return Err("unsupported mapper");
            },
        };

        Ok(Cartridge { meta: Some(meta), mapper: Some(mapper) })
    }

    /// Whether the slot is empty.
    pub fn is_empty(&self) -> (r: bool)
        ensures
            r == (self.mapper is None),
    {
        self.mapper.is_none()
    }

    /// The nametable mirroring in effect: the board's override where
    /// it has one, else the header's hardwired mode; four-screen wins
    /// outright. An empty slot mirrors horizontally.
    pub fn get_nametable_mirroring(&self) -> (r: Mirroring)
        requires
            self.wf(),
        ensures
            r == self.spec_mirroring(),
            self.meta is None ==> r == Mirroring::Horizontal,
    {
        let default: Mirroring = match &self.meta {
            Some(m) => m.hardwired_mirroring,
            None => Mirroring::Horizontal,
        };
        if matches!(default, Mirroring::FourScreen) {
            return default;
        }
        let over: Option<Mirroring> = match &self.mapper {
            Some(Mapper::Mmc1(m)) => m.get_nametable_mirroring(),
            Some(Mapper::Mmc3(m)) => m.get_nametable_mirroring(),
            Some(Mapper::Axrom(m)) => m.get_nametable_mirroring(),
            Some(Mapper::Mmc2(m)) => m.get_nametable_mirroring(),
            Some(Mapper::Camerica(m)) => m.get_nametable_mirroring(),
            _ => None,
        };
        match over {
            Some(m) => m,
            None => default,
        }
    }

    /// Take the board's edge-triggered IRQ flag; empty slots and
    /// boards without a counter report none.
    pub fn check_irq(&mut self) -> (r: bool)
        requires
            old(self).wf(),
        ensures
            final(self).wf(),
            final(self).meta == old(self).meta,
            r == match old(self).mapper {
                Some(Mapper::Mmc3(m)) => m.irq.triggered,
                _ => false,
            },
            old(self).mapper matches Some(Mapper::Mmc3(m)) ==> final(self).mapper == Some(
                Mapper::Mmc3(
                    crate::mapper4::Mapper4 {
                        irq: (crate::mapper4::Mmc3Irq { triggered: false, ..m.irq }),
                        ..m
                    },
                ),
            ),
            !(old(self).mapper matches Some(Mapper::Mmc3(_))) ==> *final(self) == *old(self),
    {
        match &mut self.mapper {
            Some(Mapper::Mmc3(m)) => m.check_irq(),
            _ => false,
        }
    }

    /// One elapsed cycle for boards with time-sensitive behaviour.
    pub fn cycle(&mut self)
        requires
            old(self).wf(),
        ensures
            final(self).wf(),
            final(self).meta == old(self).meta,
            !(old(self).mapper matches Some(Mapper::Mmc1(_))) ==> *final(self) == *old(self),
            old(self).mapper is Some && old(self).mapper->0 is Mmc1 ==> ({
                let m = old(self).mapper->0->Mmc1_0;
                &&& final(self).mapper is Some
                &&& final(self).mapper->0 is Mmc1
                &&& final(self).mapper->0->Mmc1_0 == (crate::mapper1::Mapper1 {
                    last_write_timer: if m.last_write_timer > 0 {
                        (m.last_write_timer - 1) as u8
                    } else {
                        0u8
                    },
                    ..m
                })
            }),
    {
        match &mut self.mapper {
            Some(Mapper::Mmc1(m)) => m.cycle(),
            _ => (),
        }
    }

    /// Reset boards whose power-on state matters.
    pub fn reset(&mut self)
        requires
            old(self).wf(),
        ensures
            final(self).wf(),
            final(self).meta == old(self).meta,
            !(old(self).mapper matches Some(Mapper::Mmc1(_))) ==> *final(self) == *old(self),
            old(self).mapper is Some && old(self).mapper->0 is Mmc1 ==> (final(self).mapper
                is Some && final(self).mapper->0 is Mmc1 && final(
                self).mapper->0->Mmc1_0.control_register == 0x0C && final(
                self).mapper->0->Mmc1_0.shift_register == 0x10 && final(
                self).mapper->0->Mmc1_0.shift_write_count == 0 && final(
                self).mapper->0->Mmc1_0.chr_bank_0 == 0 && final(
                self).mapper->0->Mmc1_0.chr_bank_1 == 0 && final(self).mapper->0->Mmc1_0.prg_bank
                == 0 && final(self).mapper->0->Mmc1_0.last_write_timer == 0),
    {
        match &mut self.mapper {
            Some(Mapper::Mmc1(m)) => m.reset(),
            _ => (),
        }
    }

    /// Read the byte at `addr`; boards whose reads have side effects
    /// (latches, scanline counters) take them here.
    pub fn read(&mut self, addr: u16) -> (r: u8)
        requires
            old(self).wf(),
        ensures
            final(self).wf(),
            final(self).meta == old(self).meta,
            r == old(self).spec_peek(addr),
            !(old(self).mapper matches Some(Mapper::Mmc3(_)) || old(self).mapper matches Some(
                Mapper::Mmc2(_),
            )) ==> *final(self) == *old(self),
            addr > 0x1FFF ==> *final(self) == *old(self),
            old(self).mapper is Some && old(self).mapper->0 is Mmc3 && addr <= 0x1FFF ==> ({
                let m = old(self).mapper->0->Mmc3_0;
                &&& final(self).mapper is Some
                &&& final(self).mapper->0 is Mmc3
                &&& final(self).mapper->0->Mmc3_0 == (crate::mapper4::Mapper4 {
                    irq: final(self).mapper->0->Mmc3_0.irq,
                    ..m
                })
                &&& (m.irq.previous_a12 == 0 && (addr >> 12) & 1 == 1
                    ==> final(self).mapper->0->Mmc3_0.irq == crate::mapper4::spec_irq_edge(m.irq))
                &&& (!(m.irq.previous_a12 == 0 && (addr >> 12) & 1 == 1)
                    ==> final(self).mapper->0->Mmc3_0.irq == (crate::mapper4::Mmc3Irq {
                    previous_a12: (addr >> 12) & 1,
                    ..m.irq
                }))
            }),
    {
        match &mut self.mapper {
            Some(Mapper::Nrom(m)) => m.read(addr),
            Some(Mapper::Mmc1(m)) => m.read(addr),
            Some(Mapper::Uxrom(m)) => m.read(addr),
            Some(Mapper::Cnrom(m)) => m.read(addr),
            Some(Mapper::Mmc3(m)) => m.read(addr),
            Some(Mapper::Axrom(m)) => m.read(addr),
            Some(Mapper::Mmc2(m)) => m.read(addr),
            Some(Mapper::Camerica(m)) => m.read(addr),
            None => 0,
        }
    }

    /// Read the byte at `addr` without side effects.
    pub fn peek(&self, addr: u16) -> (r: u8)
        requires
            self.wf(),
        ensures
            r == self.spec_peek(addr),
    {
        match &self.mapper {
            Some(Mapper::Nrom(m)) => m.peek(addr),
            Some(Mapper::Mmc1(m)) => m.peek(addr),
            Some(Mapper::Uxrom(m)) => m.peek(addr),
            Some(Mapper::Cnrom(m)) => m.peek(addr),
            Some(Mapper::Mmc3(m)) => m.peek(addr),
            Some(Mapper::Axrom(m)) => m.peek(addr),
            Some(Mapper::Mmc2(m)) => m.peek(addr),
            Some(Mapper::Camerica(m)) => m.peek(addr),
            None => 0,
        }
    }

    /// Write `data` at `addr` into the board; dropped by empty slots.
    pub fn write(&mut self, addr: u16, data: u8)
        requires
            old(self).wf(),
        ensures
            final(self).wf(),
            final(self).meta == old(self).meta,
            old(self).mapper is None ==> *final(self) == *old(self),
            old(self).mapper is Some && old(self).mapper->0 is Uxrom && addr >= 0x8000 ==> ({
                let m = old(self).mapper->0->Uxrom_0;
                &&& final(self).mapper is Some
                &&& final(self).mapper->0 is Uxrom
                &&& final(self).mapper->0->Uxrom_0.prg_bank == data as int % m.n_prg_banks as int
                &&& final(self).mapper->0->Uxrom_0.prg_rom@ == m.prg_rom@
                &&& final(self).mapper->0->Uxrom_0.chr_mem@ == m.chr_mem@
                &&& final(self).mapper->0->Uxrom_0.n_prg_banks == m.n_prg_banks
            }),
            old(self).mapper is Some && old(self).mapper->0 is Cnrom && addr >= 0x8000 ==> ({
                let m = old(self).mapper->0->Cnrom_0;
                &&& final(self).mapper is Some
                &&& final(self).mapper->0 is Cnrom
                &&& final(self).mapper->0->Cnrom_0.chr_bank == data as int % m.n_chr_banks as int
                &&& final(self).mapper->0->Cnrom_0.prg_rom@ == m.prg_rom@
                &&& final(self).mapper->0->Cnrom_0.chr_rom@ == m.chr_rom@
                &&& final(self).mapper->0->Cnrom_0.n_chr_banks == m.n_chr_banks
            }),
            old(self).mapper is Some && old(self).mapper->0 is Mmc3 && 0x8000 <= addr <= 0xBFFF
                ==> ({
                let m = old(self).mapper->0->Mmc3_0;
                final(self).mapper == Some(
                    Mapper::Mmc3(
                        crate::mapper4::Mapper4 {
                            regs: crate::mapper4::spec_write_regs(m.regs, m.is_mmc6, addr, data),
                            ..m
                        },
                    ),
                )
            }),
            old(self).mapper is Some && old(self).mapper->0 is Mmc3 && 0xC000 <= addr ==> ({
                let m = old(self).mapper->0->Mmc3_0;
                final(self).mapper == Some(
                    Mapper::Mmc3(
                        crate::mapper4::Mapper4 {
                            irq: crate::mapper4::spec_write_irq(m.irq, addr, data),
                            ..m
                        },
                    ),
                )
            }),
            old(self).mapper is Some ==> (final(self).mapper is Some && final(
                self).mapper->0.spec_number() == old(self).mapper->0.spec_number()),
    {
        match &mut self.mapper {
            Some(Mapper::Nrom(m)) => m.write(addr, data),
            Some(Mapper::Mmc1(m)) => m.write(addr, data),
            Some(Mapper::Uxrom(m)) => m.write(addr, data),
            Some(Mapper::Cnrom(m)) => m.write(addr, data),
            Some(Mapper::Mmc3(m)) => m.write(addr, data),
            Some(Mapper::Axrom(m)) => m.write(addr, data),
            Some(Mapper::Mmc2(m)) => m.write(addr, data),
            Some(Mapper::Camerica(m)) => m.write(addr, data),
            None => (),
        }
    }
}

} // verus!
