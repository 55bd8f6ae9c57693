//! The picture processing unit: a 262-line by 341-dot scan, background
//! fetches into shift registers, a simplified sprite pipeline, the
//! CPU-visible register file, and NMI generation at VBlank start.

use crate::background_data::BackgroundData;
use crate::cartridge::Cartridge;
use crate::nametable_memory::NametableMemory;
use crate::palette_ram::PaletteRAM;
use crate::ppu_registers::CTRL_NMI_ENABLE;
use crate::ppu_registers::OAMDATA;
use crate::ppu_registers::OAMDMA;
use crate::ppu_registers::PPUADDR;
use crate::ppu_registers::PPUCTRL;
use crate::ppu_registers::PPUDATA;
use crate::ppu_registers::PPUMASK;
use crate::ppu_registers::PPUSCROLL;
use crate::ppu_registers::PPUSTATUS;
use crate::ppu_registers::MASK_BACK_ENABLE;
use crate::ppu_registers::MASK_BACK_LEFT_COL;
use crate::ppu_registers::PPURegisters;
use crate::ppu_registers::STATUS_VBLANK_STARTED;
use crate::ppu_registers::spec_is_rendering;
use crate::scan::Scan;
use crate::scan::spec_scan_increment;
use crate::sprite_data::SpriteData;
use crate::util::zero_vec;
use vstd::prelude::*;

verus! {

/// The picture processing unit, owning its side of the memory map:
/// the nametables and the palette. Pattern data lives on the
/// cartridge, which every memory access takes as a parameter.
pub struct PPU {
    pub registers: PPURegisters,
    pub scan: Scan,
    pub bg_data: BackgroundData,
    pub spr_data: SpriteData,
    pub nametables: NametableMemory,
    pub palette: PaletteRAM,
    pub oam: Vec<u8>,
    pub oam2: Vec<u8>,
    pub dma_request: Option<u8>,
    pub framebuffer: Vec<u8>,
    pub nmi: bool,
    pub nmi_suppress: bool,
    pub frame_ready: bool,
}

impl PPU {
    /// The buffer sizes and scan bounds everything relies on.
    pub open spec fn wf(&self) -> bool {
        &&& self.scan.wf()
        &&& self.spr_data.wf()
        &&& self.nametables.wf()
        &&& self.palette.wf()
        &&& self.oam@.len() == 256
        &&& self.oam2@.len() == 32
        &&& self.framebuffer@.len() == 240 * 256
    }

    /// The byte the PPU bus shows at `addr` (mirrored into 14 bits):
    /// pattern data from the cartridge, then nametables, then palette.
    pub open spec fn spec_mem_peek(&self, cart: Cartridge, addr: u16) -> u8 {
        let a = (addr % 0x4000) as u16;
        if a < 0x2000 {
            cart.spec_peek(a)
        } else if a < 0x3F00 {
            self.nametables.spec_peek(cart.spec_mirroring(), a)
        } else {
            self.palette.spec_peek(a)
        }
    }

    /// A powered-up PPU with cleared memories.
    pub fn new() -> (r: PPU)
        ensures
            r.wf(),
            !r.nmi && !r.frame_ready && !r.nmi_suppress,
            r.dma_request is None,
            r.scan == (Scan {
                line: 0,
                cycle: 0,
                total_cycles: 0,
                total_frames: 0,
                odd_frame: false,
            }),
            r.registers.ppuctrl.bits == 0 && r.registers.ppumask.bits == 0,
            r.registers.curr_addr.raw == 0 && r.registers.temp_addr.raw == 0,
            !r.registers.write_latch,
            r.registers.oamaddr == 0,
            forall|i: int| 0 <= i < 0x20 ==> r.palette.memory.memory@[i] == 0u8,
    {
        PPU {
            registers: PPURegisters::new(),
            scan: Scan::new(),
            bg_data: BackgroundData::new(),
            spr_data: SpriteData::new(),
            nametables: NametableMemory::new(),
            palette: PaletteRAM::new(),
            oam: zero_vec(256),
            oam2: zero_vec(32),
            dma_request: None,
            framebuffer: zero_vec(240 * 256),
            nmi: false,
            nmi_suppress: false,
            frame_ready: false,
        }
    }

    /// Reset the pipeline state and registers; memories keep their
    /// contents, as on the real machine.
    pub fn reset(&mut self)
        requires
            old(self).wf(),
        ensures
            final(self).wf(),
            !final(self).nmi && !final(self).frame_ready,
            final(self).dma_request is None,
            final(self).scan.line == 0 && final(self).scan.cycle == 0,
            final(self).registers.ppuctrl.bits == 0 && final(self).registers.ppumask.bits == 0,
    {
        self.registers.reset();
        self.scan = Scan::new();
        self.bg_data = BackgroundData::new();
        self.spr_data = SpriteData::new();
        self.dma_request = None;
        self.framebuffer = zero_vec(240 * 256);
        self.nmi = false;
        self.nmi_suppress = false;
        self.frame_ready = false;
    }

    /// Read the PPU bus at `addr`: pattern fetches go to the cartridge
    /// (whose latches and counters may move), the rest is local.
    fn mem_read(&self, cart: &mut Cartridge, addr: u16) -> (r: u8)
        requires
            self.wf(),
            old(cart).wf(),
        ensures
            final(cart).wf(),
            r == self.spec_mem_peek(*old(cart), addr),
            final(cart).meta == old(cart).meta,
            addr % 0x4000 >= 0x2000 ==> *final(cart) == *old(cart),
    {
        let a = addr % 0x4000;
        if a < 0x2000 {
            cart.read(a)
        } else if a < 0x3F00 {
            let mode = cart.get_nametable_mirroring();
            self.nametables.read(mode, a)
        } else {
            self.palette.read(a)
        }
    }

    /// Write the PPU bus at `addr`.
    fn mem_write(&mut self, cart: &mut Cartridge, addr: u16, data: u8)
        requires
            old(self).wf(),
            old(cart).wf(),
        ensures
            final(self).wf(),
            final(cart).wf(),
            final(cart).meta == old(cart).meta,
            *final(self) == (PPU {
                nametables: final(self).nametables,
                palette: final(self).palette,
                ..*old(self)
            }),
            addr % 0x4000 < 0x2000 ==> final(self).nametables == old(self).nametables && final(
                self).palette == old(self).palette,
            0x2000 <= addr % 0x4000 < 0x3F00 ==> *final(cart) == *old(cart) && final(
                self).palette == old(self).palette && final(self).nametables.memory.memory@ == old(
                self).nametables.memory.memory@.update(
                crate::nametable_memory::spec_nametable_index(
                    old(cart).spec_mirroring(),
                    (addr % 0x4000) as u16,
                ),
                data,
            ),
            addr % 0x4000 >= 0x3F00 ==> *final(cart) == *old(cart) && final(self).nametables
                == old(self).nametables && final(self).palette.memory.memory@ == old(
                self).palette.memory.memory@.update(
                crate::palette_ram::spec_palette_mirror((addr % 0x4000) as u16),
                data,
            ),
    {
        let a = addr % 0x4000;
        if a < 0x2000 {
            cart.write(a, data);
        } else if a < 0x3F00 {
            let mode = cart.get_nametable_mirroring();
            self.nametables.write(mode, a, data);
        } else {
            self.palette.write(a, data);
        }
    }

    /// One background fetch dot: the 8-dot group latches the nametable
    /// byte, the attribute bits, and the two pattern planes, and on
    /// its last dot steps the scroll counters when rendering is on.
    fn bg_fetch(&mut self, cart: &mut Cartridge, cycles_into_tile: u16)
        requires
            old(self).wf(),
            old(cart).wf(),
            cycles_into_tile < 8,
        ensures
            final(self).wf(),
            final(cart).wf(),
            final(cart).meta == old(cart).meta,
            final(self).scan == old(self).scan,
            final(self).registers.ppuctrl == old(self).registers.ppuctrl,
            final(self).registers.ppumask == old(self).registers.ppumask,
            final(self).registers.ppustatus == old(self).registers.ppustatus,
            final(self).nmi == old(self).nmi,
            final(self).frame_ready == old(self).frame_ready,
            final(self).framebuffer@ == old(self).framebuffer@,
            final(self).dma_request == old(self).dma_request,
            final(self).bg_data.shift.patt_shift_0 & 0xFF00 == old(
                self).bg_data.shift.patt_shift_0 & 0xFF00,
            final(self).bg_data.shift.patt_shift_1 & 0xFF00 == old(
                self).bg_data.shift.patt_shift_1 & 0xFF00,
            final(self).bg_data.shift.attr_shift_0 == old(self).bg_data.shift.attr_shift_0,
            final(self).bg_data.shift.attr_shift_1 == old(self).bg_data.shift.attr_shift_1,
            final(self).registers.fine_x == old(self).registers.fine_x,
            final(self).palette == old(self).palette,
            final(self).spr_data == old(self).spr_data,
            final(self).oam@ == old(self).oam@,
            cycles_into_tile != 7 ==> final(self).registers.curr_addr == old(
                self).registers.curr_addr,
            cycles_into_tile == 7 && !spec_is_rendering(old(self).registers.ppumask.bits)
                ==> final(self).registers.curr_addr == old(self).registers.curr_addr,
            cycles_into_tile == 7 && spec_is_rendering(old(self).registers.ppumask.bits) && old(
                self).scan.cycle != 256 ==> final(self).registers.curr_addr.raw
                == crate::ppu_registers::spec_inc_horizontal(old(self).registers.curr_addr.raw),
            cycles_into_tile == 7 && spec_is_rendering(old(self).registers.ppumask.bits) && old(
                self).scan.cycle == 256 ==> final(self).registers.curr_addr.raw
                == crate::ppu_registers::spec_inc_vertical(
                crate::ppu_registers::spec_inc_horizontal(old(self).registers.curr_addr.raw),
            ),
    {
        if cycles_into_tile == 0 {
            proof {
                let p0 = old(self).bg_data.shift.patt_shift_0;
                let p1 = old(self).bg_data.shift.patt_shift_1;
                let lo = old(self).bg_data.latch.patt_lo;
                let hi = old(self).bg_data.latch.patt_hi;
                assert(((p0 & 0xFF00) | (lo as u16)) & 0xFF00 == p0 & 0xFF00 && ((p1 & 0xFF00) | (
                hi as u16)) & 0xFF00 == p1 & 0xFF00) by (bit_vector);
            }
            self.bg_data.shift.patt_shift_0 = (self.bg_data.shift.patt_shift_0 & 0xFF00) | (
            self.bg_data.latch.patt_lo as u16);
            self.bg_data.shift.patt_shift_1 = (self.bg_data.shift.patt_shift_1 & 0xFF00) | (
            self.bg_data.latch.patt_hi as u16);
            self.bg_data.shift.attr_latch_0 = (self.bg_data.latch.attr_byte & 0x01) == 0x01;
            self.bg_data.shift.attr_latch_1 = (self.bg_data.latch.attr_byte & 0x02) == 0x02;

            let nt_addr = 0x2000 | (self.registers.curr_addr.raw & 0x0FFF);
            self.bg_data.latch.nt_byte = self.mem_read(cart, nt_addr);
        } else if cycles_into_tile == 2 {
            let attr_addr = 0x23C0 | (self.registers.curr_addr.raw & 0x0C00) | ((
            self.registers.curr_addr.raw >> 4) & 0x38) | ((self.registers.curr_addr.raw >> 2)
                & 0x07);
            let mut attr = self.mem_read(cart, attr_addr);
            if self.registers.curr_addr.get(5, 5) & 0x02 == 0x02 {
                attr = attr >> 4;
            }
            if self.registers.curr_addr.get(0, 5) & 0x02 == 0x02 {
                attr = attr >> 2;
            }
            self.bg_data.latch.attr_byte = attr;
        } else if cycles_into_tile == 4 {
            let patt_addr = self.registers.ppuctrl.get_patt_base() | ((
            self.bg_data.latch.nt_byte as u16) << 4) | self.registers.curr_addr.get(12, 3);
            self.bg_data.latch.patt_lo = self.mem_read(cart, patt_addr);
        } else if cycles_into_tile == 6 {
            let base = self.registers.ppuctrl.get_patt_base();
            let nt = self.bg_data.latch.nt_byte;
            let fy = self.registers.curr_addr.get(12, 3);
            let raw = self.registers.curr_addr.raw;
            proof {
                assert(crate::ppu_registers::spec_bitmask(12, 3) == 0x7000u16) by (bit_vector);
                assert((raw & 0x7000) >> 12 <= 7) by (bit_vector);
                assert(fy <= 7 && (base == 0 || base == 0x1000) ==> (base | ((nt as u16) << 4)
                    | fy) <= 0x1FF7) by (bit_vector);
            }
            let patt_addr = base | ((nt as u16) << 4) | fy;
            self.bg_data.latch.patt_hi = self.mem_read(cart, patt_addr + 8);
        } else if cycles_into_tile == 7 {
            if self.registers.ppumask.is_rendering() {
                self.registers.curr_addr.increment_horizontal();
                if self.scan.cycle == 256 {
                    self.registers.curr_addr.increment_vertical();
                }
            }
        }
    }

    /// One sprite fetch dot: load the slot's attribute byte and X
    /// counter from secondary OAM.
    fn spr_fetch(&mut self, spr_num: u16, cycles_into_tile: u16)
        requires
            old(self).wf(),
            spr_num < 8,
            cycles_into_tile < 8,
        ensures
            final(self).wf(),
            *final(self) == (PPU { spr_data: final(self).spr_data, ..*old(self) }),
            final(self).spr_data.wf(),
    {
        if cycles_into_tile == 2 {
            let v = self.oam2[(4 * spr_num + 2) as usize];
            let mut regs = self.spr_data.registers[spr_num as usize];
            regs.attr_latch = v;
            self.spr_data.registers.set(spr_num as usize, regs);
        } else if cycles_into_tile == 3 {
            let v = self.oam2[(4 * spr_num + 3) as usize];
            let mut regs = self.spr_data.registers[spr_num as usize];
            regs.x_counter = v;
            self.spr_data.registers.set(spr_num as usize, regs);
        }
    }

    /// Select the sprites overlapping the next line into secondary
    /// OAM: the first eight whose Y range covers it, in OAM order.
    fn spr_eval(&mut self)
        requires
            old(self).wf(),
        ensures
            final(self).wf(),
            *final(self) == (PPU { oam2: final(self).oam2, ..*old(self) }),
            final(self).oam2@.len() == 32,
    {
        let height = self.registers.ppuctrl.get_sprite_height();
        let mut n_found: usize = 0;
        let mut oam_spr: usize = 0;
        while oam_spr < 64
            invariant
                n_found <= 8,
                oam_spr <= 64,
                height <= 16,
                self.oam@.len() == 256,
                self.oam2@.len() == 32,
                self.scan == old(self).scan,
                *self == (PPU { oam2: self.oam2, ..*old(self) }),
            decreases 64 - oam_spr,
        {
            if n_found == 8 {
                break ;
            }
            let y = self.oam[4 * oam_spr] as u16;
            if y <= self.scan.line && self.scan.line < y + height {
                let mut j: usize = 0;
                while j < 4
                    invariant
                        j <= 4,
                        n_found < 8,
                        oam_spr < 64,
                        self.oam@.len() == 256,
                        self.oam2@.len() == 32,
                        *self == (PPU { oam2: self.oam2, ..*old(self) }),
                    decreases 4 - j,
                {
                    let v = self.oam[oam_spr * 4 + j];
                    self.oam2.set(n_found * 4 + j, v);
                    j = j + 1;
                }
                n_found = n_found + 1;
            }
            oam_spr = oam_spr + 1;
        }
    }

    /// The two-bit pattern value the background shifters select at the
    /// current fine-X offset.
    pub open spec fn spec_bg_pattern_pair(&self) -> u16 {
        let offset = ((self.registers.fine_x % 8) as u32);
        let p1 = (self.bg_data.shift.patt_shift_1 >> ((15 - offset) as u32)) & 1;
        let p0 = (self.bg_data.shift.patt_shift_0 >> ((15 - offset) as u32)) & 1;
        ((p1 << 1) | p0) as u16
    }

    /// The two-bit attribute value the background shifters select at
    /// the current fine-X offset.
    pub open spec fn spec_bg_attr_pair(&self) -> u16 {
        let offset = ((self.registers.fine_x % 8) as u32);
        let a1 = ((self.bg_data.shift.attr_shift_1 as u16) >> ((7 - offset) as u32)) & 1;
        let a0 = ((self.bg_data.shift.attr_shift_0 as u16) >> ((7 - offset) as u32)) & 1;
        ((a1 << 1) | a0) as u16
    }

    /// Whether the background pixel at the current dot is masked off:
    /// the background disabled, or the left column hidden in the first
    /// eight dots.
    pub open spec fn spec_bg_masked(&self) -> bool {
        self.registers.ppumask.bits & MASK_BACK_ENABLE != MASK_BACK_ENABLE || (
        self.registers.ppumask.bits & MASK_BACK_LEFT_COL != MASK_BACK_LEFT_COL && self.scan.cycle
            - 1 < 8)
    }

    /// The background pixel at the current dot: opaque when its
    /// pattern pair is non-zero and it is not masked, colored from
    /// palette entry `attr * 4 + pattern`.
    pub open spec fn spec_bg_pixel(&self) -> (bool, u8) {
        if self.spec_bg_masked() {
            (false, 0u8)
        } else {
            (
                self.spec_bg_pattern_pair() != 0,
                self.palette.spec_peek(
                    (0x3F00 | (self.spec_bg_attr_pair() << 2) | self.spec_bg_pattern_pair()) as u16,
                ),
            )
        }
    }

    /// Whether a sprite pixel shows at the current column: sprites
    /// enabled, and some loaded slot's X counter covers it (the dots
    /// run two ahead of the column).
    pub open spec fn spec_spr_pixel_on(&self) -> bool {
        self.registers.ppumask.bits & crate::ppu_registers::MASK_SPRITE_ENABLE
            == crate::ppu_registers::MASK_SPRITE_ENABLE && self.scan.cycle != 1 && exists|i: int|
            0 <= i < 8 && (#[trigger] self.spr_data.registers@[i].x_counter as int)
                <= self.scan.cycle - 2 <= self.spr_data.registers@[i].x_counter + 7
    }

    /// The background pixel at the current dot: whether it is opaque,
    /// and its palette color. Advances the shift registers.
    fn get_bg_pixel(&mut self, cart: &Cartridge) -> (r: (bool, u8))
        requires
            old(self).wf(),
            cart.wf(),
            1 <= old(self).scan.cycle,
        ensures
            final(self).wf(),
            *final(self) == (PPU { bg_data: final(self).bg_data, ..*old(self) }),
            r == old(self).spec_bg_pixel(),
    {
        let offset = self.registers.fine_x % 8;
        let p1 = (self.bg_data.shift.patt_shift_1 >> ((15 - offset) as u32)) & 1;
        let p0 = (self.bg_data.shift.patt_shift_0 >> ((15 - offset) as u32)) & 1;
        let patt_pair = (p1 << 1) | p0;
        let a1 = ((self.bg_data.shift.attr_shift_1 as u16) >> ((7 - offset) as u32)) & 1;
        let a0 = ((self.bg_data.shift.attr_shift_0 as u16) >> ((7 - offset) as u32)) & 1;
        let attr_pair = (a1 << 1) | a0;

        self.bg_data.shift.patt_shift_0 = self.bg_data.shift.patt_shift_0 << 1;
        self.bg_data.shift.patt_shift_1 = self.bg_data.shift.patt_shift_1 << 1;
        self.bg_data.shift.attr_shift_0 = (self.bg_data.shift.attr_shift_0 << 1) | (
        if self.bg_data.shift.attr_latch_0 {
            1
        } else {
            0
        });
        self.bg_data.shift.attr_shift_1 = (self.bg_data.shift.attr_shift_1 << 1) | (
        if self.bg_data.shift.attr_latch_1 {
            1
        } else {
            0
        });

        if !self.registers.ppumask.contains(MASK_BACK_ENABLE) || (!self.registers.ppumask.contains(
            MASK_BACK_LEFT_COL,
        ) && self.scan.cycle - 1 < 8) {
            return (false, 0x00);
        }
        let color_index = 0x3F00 | (attr_pair << 2) | patt_pair;
        let color = self.palette.read(color_index);
        (patt_pair != 0, color)
    }

    /// The simplified sprite pixel at the current dot: opaque wherever
    /// any loaded slot's X counter covers the column, with a fixed
    /// placeholder color.
    fn get_spr_pixel(&self) -> (r: (bool, u8))
        requires
            self.wf(),
            1 <= self.scan.cycle,
        ensures
            r.0 == self.spec_spr_pixel_on(),
            r.1 == if self.spec_spr_pixel_on() {
                0x55u8
            } else {
                0u8
            },
    {
        if self.scan.cycle == 1 || (self.registers.ppumask.bits
            & crate::ppu_registers::MASK_SPRITE_ENABLE)
            != crate::ppu_registers::MASK_SPRITE_ENABLE {
            return (false, 0x00);
        }
        let mut i: usize = 0;
        while i < 8
            invariant
                i <= 8,
                self.spr_data.wf(),
                self.scan.cycle >= 2,
                self.registers.ppumask.bits & crate::ppu_registers::MASK_SPRITE_ENABLE
                    == crate::ppu_registers::MASK_SPRITE_ENABLE,
                forall|j: int|
                    0 <= j < i ==> !((#[trigger] self.spr_data.registers@[j].x_counter as int)
                        <= self.scan.cycle - 2 <= self.spr_data.registers@[j].x_counter + 7),
            decreases 8 - i,
        {
            let x = self.spr_data.registers[i].x_counter as u16;
            if x <= self.scan.cycle - 2 && self.scan.cycle - 2 <= x + 7 {
                return (true, 0x55);
            }
            i = i + 1;
        }
        (false, 0x00)
    }

    /// Two shifter words with the same high byte select the same bit
    /// at every fine-X offset, since sampling reads bits 8 to 15.
    pub proof fn lemma_high_bits_sample(a: u16, b: u16, off: u32)
        requires
            a & 0xFF00 == b & 0xFF00,
            off <= 7,
        ensures
            (a >> ((15 - off) as u32)) & 1 == (b >> ((15 - off) as u32)) & 1,
    {
        assert(a & 0xFF00 == b & 0xFF00 && off <= 7 ==> (a >> ((15 - off) as u32)) & 1 == (b >> ((
        15 - off) as u32)) & 1) by (bit_vector);
    }

    /// The color index the current dot writes to the framebuffer: the
    /// placeholder sprite color wherever a sprite slot covers the
    /// column, else the background color when its pattern is opaque,
    /// else the backdrop entry.
    pub open spec fn spec_dot_pixel(&self) -> u8 {
        if self.spec_spr_pixel_on() {
            0x55
        } else if self.spec_bg_pixel().0 {
            self.spec_bg_pixel().1
        } else {
            self.palette.spec_peek(0x3F00)
        }
    }

    /// One PPU dot: background and sprite work by line category, the
    /// VBlank edge at line 241 dot 1 (raising the NMI unless a status
    /// read just suppressed it), the flag clears at line 261 dot 1,
    /// and the scan advance. The scan always moves exactly one step.
    pub fn tick(&mut self, cart: &mut Cartridge)
        requires
            old(self).wf(),
            old(cart).wf(),
        ensures
            final(self).wf(),
            final(cart).wf(),
            final(cart).meta == old(cart).meta,
            final(self).scan == spec_scan_increment(
                old(self).scan,
                spec_is_rendering(old(self).registers.ppumask.bits),
            ),
            final(self).registers.ppuctrl == old(self).registers.ppuctrl,
            final(self).registers.ppumask == old(self).registers.ppumask,
            final(self).frame_ready == (old(self).frame_ready || (old(self).scan.line == 241
                && old(self).scan.cycle == 1)),
            final(self).nmi == (old(self).nmi || (old(self).scan.line == 241 && old(
                self).scan.cycle == 1 && old(self).registers.ppuctrl.bits & CTRL_NMI_ENABLE
                == CTRL_NMI_ENABLE && !old(self).nmi_suppress)),
            old(self).scan.line == 241 && old(self).scan.cycle == 1 ==> final(
                self).registers.ppustatus.bits & STATUS_VBLANK_STARTED == STATUS_VBLANK_STARTED,
            old(self).scan.line == 261 && old(self).scan.cycle == 1 ==> final(
                self).registers.ppustatus.bits == 0,
            final(self).dma_request == old(self).dma_request,
            final(self).oam@ == old(self).oam@,
            !(old(self).scan.line <= 239 && 1 <= old(self).scan.cycle <= 256) ==> final(
                self).framebuffer@ == old(self).framebuffer@,
            old(self).scan.line <= 239 && 1 <= old(self).scan.cycle <= 256 ==> final(
                self).framebuffer@.len() == old(self).framebuffer@.len() && (forall|j: int|
                0 <= j < old(self).framebuffer@.len() && j != old(self).scan.line * 256 + (old(
                    self,
                ).scan.cycle - 1) ==> final(self).framebuffer@[j] == old(self).framebuffer@[j]),
            old(self).scan.line <= 239 && 1 <= old(self).scan.cycle <= 256 ==> final(
                self).framebuffer@[old(self).scan.line * 256 + (old(self).scan.cycle - 1)] == old(
                self).spec_dot_pixel(),
            !spec_is_rendering(old(self).registers.ppumask.bits) ==> final(
                self).registers.curr_addr == old(self).registers.curr_addr,
            (old(self).scan.line <= 239 || old(self).scan.line == 261) && spec_is_rendering(
                old(self).registers.ppumask.bits,
            ) && (1 <= old(self).scan.cycle <= 255 || 321 <= old(self).scan.cycle <= 336) && (old(
                self).scan.cycle - 1) % 8 == 7 ==> final(self).registers.curr_addr.raw
                == crate::ppu_registers::spec_inc_horizontal(old(self).registers.curr_addr.raw),
            (old(self).scan.line <= 239 || old(self).scan.line == 261) && spec_is_rendering(
                old(self).registers.ppumask.bits,
            ) && old(self).scan.cycle == 256 ==> final(self).registers.curr_addr.raw
                == crate::ppu_registers::spec_inc_vertical(
                crate::ppu_registers::spec_inc_horizontal(old(self).registers.curr_addr.raw),
            ),
            (old(self).scan.line <= 239 || old(self).scan.line == 261) && spec_is_rendering(
                old(self).registers.ppumask.bits,
            ) && old(self).scan.cycle == 257 ==> final(self).registers.curr_addr.raw == ((old(
                self).registers.curr_addr.raw & !0x041F) | (old(self).registers.temp_addr.raw
                & 0x041F)),
            old(self).scan.line == 261 && spec_is_rendering(old(self).registers.ppumask.bits)
                && 280 <= old(self).scan.cycle <= 304 ==> final(self).registers.curr_addr.raw == ((
            old(self).registers.curr_addr.raw & !0x7BE0) | (old(self).registers.temp_addr.raw
                & 0x7BE0)),
    {
        if self.scan.on_visible_line() || self.scan.on_prerender_line() {
            if self.scan.on_bg_fetch_cycle() {
                self.bg_fetch(cart, (self.scan.cycle - 1) % 8);
            } else if 321 <= self.scan.cycle && self.scan.cycle <= 336 {
                // Pre-fetch of the next line's first two tiles
                self.bg_fetch(cart, (self.scan.cycle - 1) % 8);
            } else if self.scan.cycle == 257 && self.registers.ppumask.is_rendering() {
                let temp = self.registers.temp_addr;
                self.registers.curr_addr.copy_horizontal(&temp);
            }
            if self.scan.on_spr_fetch_cycle() {
                self.spr_fetch((self.scan.cycle - 257) / 8, (self.scan.cycle - 1) % 8);
            }
        }

        if self.scan.on_visible_line() {
            if self.scan.on_oam2_clear_cycle() {
                if (self.scan.cycle - 1) % 2 == 0 {
                    let idx = ((self.scan.cycle - 1) / 2) as usize;
                    self.oam2.set(idx, 0xFF);
                }
            } else if self.scan.on_spr_eval_cycle() {
                if self.scan.cycle == 65 {
                    self.spr_data.reset();
                }
                if self.scan.cycle % 2 == 1 {
                    self.spr_eval();
                }
            }

            if 1 <= self.scan.cycle && self.scan.cycle <= 256 {
                proof {
                    let off = ((self.registers.fine_x % 8) as u32);
                    Self::lemma_high_bits_sample(
                        self.bg_data.shift.patt_shift_0,
                        old(self).bg_data.shift.patt_shift_0,
                        off,
                    );
                    Self::lemma_high_bits_sample(
                        self.bg_data.shift.patt_shift_1,
                        old(self).bg_data.shift.patt_shift_1,
                        off,
                    );
                    assert(self.spec_bg_pixel() == old(self).spec_bg_pixel());
                    assert(self.spr_data.registers@ == old(self).spr_data.registers@);
                    assert(self.registers.ppumask == old(self).registers.ppumask);
                    assert(self.scan == old(self).scan);
                    assert forall|i: int| 0 <= i < 8 implies #[trigger] self.spr_data.registers@[i]
                        == old(self).spr_data.registers@[i] by {}
                    assert(self.spec_spr_pixel_on() == old(self).spec_spr_pixel_on());
                }
                let (bg_on, bg_color) = self.get_bg_pixel(cart);
                let (spr_on, spr_color) = self.get_spr_pixel();
                let mut pixel_on = bg_on;
                let mut color = bg_color;
                if spr_on {
                    pixel_on = true;
                    color = spr_color;
                }
                let x = (self.scan.cycle - 1) as usize;
                let y = self.scan.line as usize;
                let final_color = if pixel_on {
                    color
                } else {
                    self.palette.read(0x3F00)
                };
                self.framebuffer.set(y * 256 + x, final_color);
            }
        }

        if self.scan.on_prerender_line() && self.registers.ppumask.is_rendering() && 280
            <= self.scan.cycle && self.scan.cycle <= 304 {
            let temp = self.registers.temp_addr;
            self.registers.curr_addr.copy_vertical(&temp);
        }

        if self.scan.cycle == 1 {
            if self.scan.line == 241 {
                self.registers.ppustatus.insert(STATUS_VBLANK_STARTED);
                proof {
                    let b = self.registers.ppustatus.bits;
                    let ob = old(self).registers.ppustatus.bits;
                    assert(b == (ob | 0x80) ==> b & 0x80 == 0x80) by (bit_vector);
                }
                if self.registers.ppuctrl.contains(CTRL_NMI_ENABLE) && !self.nmi_suppress {
                    self.nmi = true;
                }
                self.nmi_suppress = false;
                self.frame_ready = true;
            } else if self.scan.line == 261 {
                self.spr_data.spr_num = 0;
                self.spr_data.oam2_index = 0;
                self.registers.ppustatus.clear();
            }
        }

        let rendering = self.registers.ppumask.is_rendering();
        self.scan.increment(rendering);
    }

    /// Read a CPU-visible register (`$2000`-`$2007`, or `$4014`).
    /// PPUSTATUS hands back its three flags over the open-bus bits,
    /// clears the write toggle and the VBlank flag, and, read in the
    /// first two dots of VBlank, suppresses that frame's NMI. PPUDATA
    /// returns the read buffer for non-palette addresses, refills it,
    /// and moves `v` by the configured increment, wrapping as a 15-bit
    /// register. Other registers read as the open bus.
    pub fn reg_read(&mut self, cart: &mut Cartridge, addr: u16) -> (r: u8)
        requires
            old(self).wf(),
            old(cart).wf(),
        ensures
            final(self).wf(),
            final(cart).wf(),
            final(cart).meta == old(cart).meta,
            final(self).scan == old(self).scan,
            *final(self) == (PPU {
                registers: final(self).registers,
                nmi_suppress: final(self).nmi_suppress,
                ..*old(self)
            }),
            final(self).registers.ppumask == old(self).registers.ppumask,
            final(self).registers.temp_addr == old(self).registers.temp_addr,
            final(self).registers.oamaddr == old(self).registers.oamaddr,
            final(self).registers.fine_x == old(self).registers.fine_x,
            final(self).registers.bus_latch == old(self).registers.bus_latch,
            addr != PPUDATA ==> final(self).registers.curr_addr == old(self).registers.curr_addr
                && final(self).registers.ppudata == old(self).registers.ppudata && *final(cart)
                == *old(cart),
            addr != PPUSTATUS ==> final(self).registers.ppustatus == old(self).registers.ppustatus
                && final(self).registers.write_latch == old(self).registers.write_latch && final(
                self).nmi_suppress == old(self).nmi_suppress,
            final(self).registers.ppuctrl == old(self).registers.ppuctrl,
            addr != OAMDMA ==> r == old(self).spec_reg_peek(*old(cart), addr),
            addr == PPUSTATUS ==> r == ((if old(self).scan.line == 241 && old(self).scan.cycle
                <= 1 {
                old(self).registers.ppustatus.bits & 0xE0 & 0x7F
            } else {
                old(self).registers.ppustatus.bits & 0xE0
            }) | (old(self).registers.bus_latch & 0x1F)) && !final(self).registers.write_latch
                && final(self).registers.ppustatus.bits == (old(self).registers.ppustatus.bits
                & !STATUS_VBLANK_STARTED) && final(self).nmi_suppress == (old(self).nmi_suppress
                || (old(self).scan.line == 241 && old(self).scan.cycle <= 1)) && *final(cart)
                == *old(cart),
            addr == OAMDATA ==> r == (if old(self).scan.line <= 239 && 1 <= old(self).scan.cycle
                <= 64 {
                0xFFu8
            } else {
                old(self).oam@[old(self).registers.oamaddr as int]
            }) && *final(self) == *old(self) && *final(cart) == *old(cart),
            addr == PPUDATA ==> r == (if old(self).registers.curr_addr.raw % 0x4000 <= 0x3EFF {
                old(self).registers.ppudata
            } else {
                old(self).spec_mem_peek(*old(cart), old(self).registers.curr_addr.raw)
            }) && final(self).registers.ppudata == old(self).spec_mem_peek(
                *old(cart),
                old(self).registers.curr_addr.raw,
            ) && final(self).registers.curr_addr.raw as int == (old(self).registers.curr_addr.raw
                + (if old(self).registers.ppuctrl.bits & crate::ppu_registers::CTRL_VRAM_INCR
                == crate::ppu_registers::CTRL_VRAM_INCR {
                32int
            } else {
                1int
            })) % 0x4000 && final(self).registers.ppuctrl == old(self).registers.ppuctrl && final(
                self).registers.write_latch == old(self).registers.write_latch,
            !(addr == PPUSTATUS || addr == OAMDATA || addr == PPUDATA) ==> r == old(
                self).registers.bus_latch && *final(self) == *old(self) && *final(cart) == *old(
                cart,
            ),
    {
        if addr == PPUSTATUS {
            let mut high_three = self.registers.ppustatus.high_three();
            if self.scan.line == 241 && self.scan.cycle <= 1 {
                high_three = high_three & 0x7F;
                self.nmi_suppress = true;
            }
            self.registers.write_latch = false;
            self.registers.ppustatus.remove(STATUS_VBLANK_STARTED);
            high_three | (self.registers.bus_latch & 0x1F)
        } else if addr == OAMDATA {
            if self.scan.on_visible_line() && self.scan.on_oam2_clear_cycle() {
                0xFF
            } else {
                self.oam[self.registers.oamaddr as usize]
            }
        } else if addr == PPUDATA {
            let old_ppudata = self.registers.ppudata;
            let v = self.registers.curr_addr.raw;
            self.registers.ppudata = self.mem_read(cart, v);
            let incr = self.registers.ppuctrl.get_vram_increment();
            self.registers.curr_addr.raw = (((v as u32) + (incr as u32)) % 0x4000) as u16;
            if v % 0x4000 <= 0x3EFF {
                old_ppudata
            } else {
                self.registers.ppudata
            }
        } else {
            self.registers.bus_latch
        }
    }

    /// What a side-effect-free read of a CPU-visible register returns.
    pub open spec fn spec_reg_peek(&self, cart: Cartridge, addr: u16) -> u8 {
        if addr == PPUSTATUS {
            (if self.scan.line == 241 && self.scan.cycle <= 1 {
                self.registers.ppustatus.bits & 0xE0 & 0x7F
            } else {
                self.registers.ppustatus.bits & 0xE0
            }) | (self.registers.bus_latch & 0x1F)
        } else if addr == OAMDATA {
            if self.scan.line <= 239 && 1 <= self.scan.cycle <= 64 {
                0xFF
            } else {
                self.oam@[self.registers.oamaddr as int]
            }
        } else if addr == PPUDATA {
            if self.registers.curr_addr.raw % 0x4000 <= 0x3EFF {
                self.registers.ppudata
            } else {
                self.spec_mem_peek(cart, self.registers.curr_addr.raw)
            }
        } else if addr == OAMDMA {
            0
        } else {
            self.registers.bus_latch
        }
    }

    /// Read a CPU-visible register without side effects.
    pub fn reg_peek(&self, cart: &Cartridge, addr: u16) -> (r: u8)
        requires
            self.wf(),
            cart.wf(),
        ensures
            r == self.spec_reg_peek(*cart, addr),
    {
        if addr == PPUSTATUS {
            let mut high_three = self.registers.ppustatus.high_three();
            if self.scan.line == 241 && self.scan.cycle <= 1 {
                high_three = high_three & 0x7F;
            }
            high_three | (self.registers.bus_latch & 0x1F)
        } else if addr == OAMDATA {
            if self.scan.on_visible_line() && self.scan.on_oam2_clear_cycle() {
                0xFF
            } else {
                self.oam[self.registers.oamaddr as usize]
            }
        } else if addr == PPUDATA {
            let v = self.registers.curr_addr.raw;
            if v % 0x4000 <= 0x3EFF {
                self.registers.ppudata
            } else {
                let a = v % 0x4000;
                self.palette.peek(a)
            }
        } else if addr == OAMDMA {
            0
        } else {
            self.registers.bus_latch
        }
    }

    /// Write a CPU-visible register. PPUCTRL's NMI-enable bit rising
    /// while VBlank is set raises an immediate NMI. PPUSCROLL and
    /// PPUADDR share the write toggle; the second PPUADDR write copies
    /// `t` into `v`. PPUDATA writes through the PPU bus and moves `v`.
    /// A write to `$4014` schedules an OAM DMA for the written page.
    pub fn reg_write(&mut self, cart: &mut Cartridge, addr: u16, data: u8)
        requires
            old(self).wf(),
            old(cart).wf(),
        ensures
            final(self).wf(),
            final(cart).wf(),
            final(cart).meta == old(cart).meta,
            final(self).scan == old(self).scan,
            *final(self) == (PPU {
                registers: final(self).registers,
                nametables: final(self).nametables,
                palette: final(self).palette,
                oam: final(self).oam,
                dma_request: final(self).dma_request,
                nmi: final(self).nmi,
                ..*old(self)
            }),
            addr != PPUDATA ==> final(self).palette == old(self).palette && final(
                self).nametables == old(self).nametables && *final(cart) == *old(cart),
            addr != PPUCTRL ==> final(self).registers.ppuctrl == old(self).registers.ppuctrl
                && final(self).nmi == old(self).nmi,
            addr != PPUMASK ==> final(self).registers.ppumask == old(self).registers.ppumask,
            addr != PPUSCROLL && addr != PPUADDR ==> final(self).registers.write_latch == old(
                self).registers.write_latch,
            addr != PPUADDR && addr != PPUDATA ==> final(self).registers.curr_addr == old(
                self).registers.curr_addr,
            addr != PPUCTRL && addr != PPUSCROLL && addr != PPUADDR ==> final(
                self).registers.temp_addr == old(self).registers.temp_addr,
            addr != OAMDATA ==> final(self).oam@ == old(self).oam@,
            addr != OAMDATA && addr != crate::ppu_registers::OAMADDR ==> final(
                self).registers.oamaddr == old(self).registers.oamaddr,
            final(self).registers.ppustatus == old(self).registers.ppustatus,
            final(self).registers.bus_latch == old(self).registers.bus_latch,
            final(self).registers.fine_x == if addr == PPUSCROLL && !old(
                self).registers.write_latch {
                data & 0x07
            } else {
                old(self).registers.fine_x
            },
            addr == PPUCTRL ==> final(self).registers.ppuctrl.bits == data && final(self).nmi == (
            old(self).nmi || (old(self).registers.ppuctrl.bits & CTRL_NMI_ENABLE != CTRL_NMI_ENABLE
                && data & CTRL_NMI_ENABLE == CTRL_NMI_ENABLE && old(self).registers.ppustatus.bits
                & STATUS_VBLANK_STARTED == STATUS_VBLANK_STARTED)) && final(
                self).registers.temp_addr.raw == ((old(self).registers.temp_addr.raw & !0x0C00) | (
            ((data & 0x03) as u16) << 10)) && *final(cart) == *old(cart),
            addr == PPUMASK ==> final(self).registers.ppumask.bits == data && *final(cart) == *old(
                cart,
            ),
            addr == crate::ppu_registers::OAMADDR ==> final(self).registers.oamaddr == data
                && *final(cart) == *old(cart),
            addr == OAMDATA ==> final(self).oam@ == old(self).oam@.update(
                old(self).registers.oamaddr as int,
                data,
            ) && final(self).registers.oamaddr == crate::ppu_registers::spec_wrap_inc(
                old(self).registers.oamaddr,
            ) && *final(cart) == *old(cart),
            addr == PPUSCROLL && !old(self).registers.write_latch ==> final(
                self).registers.temp_addr.raw == ((old(self).registers.temp_addr.raw & !0x1F) | ((
            data >> 3) as u16)) && final(self).registers.fine_x == (data & 0x07) && final(
                self).registers.write_latch && *final(cart) == *old(cart),
            addr == PPUSCROLL && old(self).registers.write_latch ==> final(
                self).registers.temp_addr.raw == ((old(self).registers.temp_addr.raw & !0x73E0) | (
            ((data >> 3) as u16) << 5) | (((data & 0x07) as u16) << 12)) && !final(
                self).registers.write_latch && *final(cart) == *old(cart),
            addr == PPUADDR && !old(self).registers.write_latch ==> final(
                self).registers.temp_addr.raw == ((old(self).registers.temp_addr.raw & 0x00FF) | ((
            (data & 0x3F) as u16) << 8)) && final(self).registers.curr_addr == old(
                self).registers.curr_addr && final(self).registers.write_latch && *final(cart)
                == *old(cart),
            addr == PPUADDR && old(self).registers.write_latch ==> final(
                self).registers.temp_addr.raw == ((old(self).registers.temp_addr.raw & 0xFF00) | (
            data as u16)) && final(self).registers.curr_addr.raw == final(
                self).registers.temp_addr.raw && !final(self).registers.write_latch && *final(cart)
                == *old(cart),
            addr == PPUDATA ==> final(self).registers.curr_addr.raw as int == (old(
                self).registers.curr_addr.raw + (if old(self).registers.ppuctrl.bits
                & crate::ppu_registers::CTRL_VRAM_INCR == crate::ppu_registers::CTRL_VRAM_INCR {
                32int
            } else {
                1int
            })) % 0x4000,
            addr == PPUDATA && old(self).registers.curr_addr.raw % 0x4000 >= 0x3F00 ==> final(
                self).palette.memory.memory@ == old(self).palette.memory.memory@.update(
                crate::palette_ram::spec_palette_mirror(
                    (old(self).registers.curr_addr.raw % 0x4000) as u16,
                ),
                data,
            ) && *final(cart) == *old(cart),
            addr == OAMDMA ==> final(self).dma_request == Some(data) && *final(cart) == *old(
                cart,
            ) && final(self).registers == old(self).registers,
            addr != OAMDMA ==> final(self).dma_request == old(self).dma_request,
    {
        if addr == PPUCTRL {
            let old_nmi = self.registers.ppuctrl.contains(CTRL_NMI_ENABLE);
            self.registers.ppuctrl.write(data);
            let nmi_rising_edge = !old_nmi && self.registers.ppuctrl.contains(CTRL_NMI_ENABLE);
            let vblank_set = self.registers.ppustatus.contains(STATUS_VBLANK_STARTED);
            if vblank_set && nmi_rising_edge {
                self.nmi = true;
            }
            self.registers.temp_addr.raw = (self.registers.temp_addr.raw & !0x0C00) | (((data
                & 0x03) as u16) << 10);
        } else if addr == PPUMASK {
            self.registers.ppumask.write(data);
        } else if addr == crate::ppu_registers::OAMADDR {
            self.registers.oamaddr = data;
        } else if addr == OAMDATA {
            let idx = self.registers.oamaddr as usize;
            self.oam.set(idx, data);
            self.registers.oamaddr = self.registers.oamaddr.wrapping_add(1);
        } else if addr == PPUSCROLL {
            if !self.registers.write_latch {
                self.registers.temp_addr.raw = (self.registers.temp_addr.raw & !0x1F) | ((data
                    >> 3) as u16);
                self.registers.fine_x = data & 0x07;
            } else {
                self.registers.temp_addr.raw = (self.registers.temp_addr.raw & !0x73E0) | (((data
                    >> 3) as u16) << 5) | (((data & 0x07) as u16) << 12);
            }
            self.registers.write_latch = !self.registers.write_latch;
        } else if addr == PPUADDR {
            if !self.registers.write_latch {
                self.registers.temp_addr.raw = (self.registers.temp_addr.raw & 0x00FF) | (((data
                    & 0x3F) as u16) << 8);
            } else {
                self.registers.temp_addr.raw = (self.registers.temp_addr.raw & 0xFF00) | (
                data as u16);
                self.registers.curr_addr.raw = self.registers.temp_addr.raw;
            }
            self.registers.write_latch = !self.registers.write_latch;
        } else if addr == PPUDATA {
            let v = self.registers.curr_addr.raw;
            self.mem_write(cart, v, data);
            let incr = self.registers.ppuctrl.get_vram_increment();
            self.registers.curr_addr.raw = (((v as u32) + (incr as u32)) % 0x4000) as u16;
        } else if addr == OAMDMA {
            self.dma_request = Some(data);
        }
    }
}

} // verus!
