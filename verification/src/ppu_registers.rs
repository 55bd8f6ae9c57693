//! The PPU's CPU-visible registers and the internal scroll machinery:
//! the 15-bit current and temporary VRAM addresses, the fine-X scroll,
//! and the shared write toggle.

use vstd::prelude::*;

verus! {

/// Bus address of PPUCTRL.
pub const PPUCTRL: u16 = 0x2000;
/// Bus address of PPUMASK.
pub const PPUMASK: u16 = 0x2001;
/// Bus address of PPUSTATUS.
pub const PPUSTATUS: u16 = 0x2002;
/// Bus address of OAMADDR.
pub const OAMADDR: u16 = 0x2003;
/// Bus address of OAMDATA.
pub const OAMDATA: u16 = 0x2004;
/// Bus address of PPUSCROLL.
pub const PPUSCROLL: u16 = 0x2005;
/// Bus address of PPUADDR.
pub const PPUADDR: u16 = 0x2006;
/// Bus address of PPUDATA.
pub const PPUDATA: u16 = 0x2007;
/// Bus address of OAMDMA.
pub const OAMDMA: u16 = 0x4014;

/// PPUCTRL bit: NMI on VBlank start.
pub const CTRL_NMI_ENABLE: u8 = 0x80;
/// PPUCTRL bit: 8x16 sprites.
pub const CTRL_SPRITE_HEIGHT: u8 = 0x20;
/// PPUCTRL bit: background pattern table select.
pub const CTRL_BACK_PATT_ADDR: u8 = 0x10;
/// PPUCTRL bit: sprite pattern table select.
pub const CTRL_SPRITE_PATT_ADDR: u8 = 0x08;
/// PPUCTRL bit: VRAM address increment of 32 instead of 1.
pub const CTRL_VRAM_INCR: u8 = 0x04;

/// PPUMASK bit: show the background.
pub const MASK_BACK_ENABLE: u8 = 0x08;
/// PPUMASK bit: show sprites.
pub const MASK_SPRITE_ENABLE: u8 = 0x10;
/// PPUMASK bit: show the background in the left column.
pub const MASK_BACK_LEFT_COL: u8 = 0x02;

/// PPUSTATUS bit: VBlank has started.
pub const STATUS_VBLANK_STARTED: u8 = 0x80;
/// PPUSTATUS bit: sprite 0 hit.
pub const STATUS_SPRITE_ZERO_HIT: u8 = 0x40;
/// PPUSTATUS bit: sprite overflow.
pub const STATUS_SPRITE_OVERFLOW: u8 = 0x20;

/// The PPUCTRL register image.
#[derive(Clone, Copy, PartialEq, Eq, Structural, Debug)]
pub struct ControlRegister {
    pub bits: u8,
}

impl ControlRegister {
    /// Replace the register image.
    pub fn write(&mut self, val: u8)
        ensures
            final(self).bits == val,
    {
        self.bits = val;
    }

    /// Whether every flag in `flag` is set.
    pub fn contains(&self, flag: u8) -> (r: bool)
        ensures
            r == ((self.bits & flag) == flag),
    {
        (self.bits & flag) == flag
    }

    /// How far PPUDATA accesses move the VRAM address: 32 rows down,
    /// or 1 across.
    pub fn get_vram_increment(&self) -> (r: u16)
        ensures
            r == if self.bits & CTRL_VRAM_INCR == CTRL_VRAM_INCR {
                32u16
            } else {
                1u16
            },
    {
        if (self.bits & CTRL_VRAM_INCR) == CTRL_VRAM_INCR {
            32
        } else {
            1
        }
    }

    /// The background pattern table base.
    pub fn get_patt_base(&self) -> (r: u16)
        ensures
            r == if self.bits & CTRL_BACK_PATT_ADDR == CTRL_BACK_PATT_ADDR {
                0x1000u16
            } else {
                0u16
            },
    {
        if (self.bits & CTRL_BACK_PATT_ADDR) == CTRL_BACK_PATT_ADDR {
            0x1000
        } else {
            0x0000
        }
    }

    /// The sprite pattern table base.
    pub fn get_sprite_patt_base(&self) -> (r: u16)
        ensures
            r == if self.bits & CTRL_SPRITE_PATT_ADDR == CTRL_SPRITE_PATT_ADDR {
                0x1000u16
            } else {
                0u16
            },
    {
        if (self.bits & CTRL_SPRITE_PATT_ADDR) == CTRL_SPRITE_PATT_ADDR {
            0x1000
        } else {
            0x0000
        }
    }

    /// The sprite height in rows: 16 or 8.
    pub fn get_sprite_height(&self) -> (r: u16)
        ensures
            r == if self.bits & CTRL_SPRITE_HEIGHT == CTRL_SPRITE_HEIGHT {
                16u16
            } else {
                8u16
            },
    {
        if (self.bits & CTRL_SPRITE_HEIGHT) == CTRL_SPRITE_HEIGHT {
            16
        } else {
            8
        }
    }
}

/// The PPUMASK register image.
#[derive(Clone, Copy, PartialEq, Eq, Structural, Debug)]
pub struct MaskRegister {
    pub bits: u8,
}

/// Whether rendering is enabled: the background or sprite enable bit.
pub open spec fn spec_is_rendering(bits: u8) -> bool {
    bits & MASK_BACK_ENABLE == MASK_BACK_ENABLE || bits & MASK_SPRITE_ENABLE == MASK_SPRITE_ENABLE
}

impl MaskRegister {
    /// Replace the register image.
    pub fn write(&mut self, val: u8)
        ensures
            final(self).bits == val,
    {
        self.bits = val;
    }

    /// Whether every flag in `flag` is set.
    pub fn contains(&self, flag: u8) -> (r: bool)
        ensures
            r == ((self.bits & flag) == flag),
    {
        (self.bits & flag) == flag
    }

    /// Whether rendering is enabled.
    pub fn is_rendering(&self) -> (r: bool)
        ensures
            r == spec_is_rendering(self.bits),
    {
        (self.bits & MASK_BACK_ENABLE) == MASK_BACK_ENABLE || (self.bits & MASK_SPRITE_ENABLE)
            == MASK_SPRITE_ENABLE
    }
}

/// The PPUSTATUS register image; only its high three bits exist.
#[derive(Clone, Copy, PartialEq, Eq, Structural, Debug)]
pub struct PpuStatusRegister {
    pub bits: u8,
}

impl PpuStatusRegister {
    /// The three real status bits, with the open-bus bits cleared.
    pub fn high_three(&self) -> (r: u8)
        ensures
            r == (self.bits & 0xE0),
    {
        self.bits & 0xE0
    }

    /// Whether every flag in `flag` is set.
    pub fn contains(&self, flag: u8) -> (r: bool)
        ensures
            r == ((self.bits & flag) == flag),
    {
        (self.bits & flag) == flag
    }

    /// Set every flag in `flag`.
    pub fn insert(&mut self, flag: u8)
        ensures
            final(self).bits == (old(self).bits | flag),
    {
        self.bits = self.bits | flag;
    }

    /// Clear every flag in `flag`.
    pub fn remove(&mut self, flag: u8)
        ensures
            final(self).bits == (old(self).bits & !flag),
    {
        self.bits = self.bits & !flag;
    }

    /// Clear the whole register.
    pub fn clear(&mut self)
        ensures
            final(self).bits == 0,
    {
        self.bits = 0;
    }
}

/// A byte incremented with wraparound.
pub open spec fn spec_wrap_inc(x: u8) -> u8 {
    if x == 255 {
        0
    } else {
        (x + 1) as u8
    }
}

/// The bitmask covering `len` bits starting at `offset`.
pub open spec fn spec_bitmask(offset: u16, len: u16) -> u16 {
    ((((1u32 << ((len % 32) as u32)) - 1) as u32) << ((offset % 32) as u32)) as u16
}

/// The address after a coarse-X step: the low five bits advance, and
/// wrapping past 31 toggles the horizontal nametable bit.
pub open spec fn spec_inc_horizontal(raw: u16) -> u16 {
    if raw & 0x1F == 0x1F {
        ((raw & !0x1F) ^ 0x0400) as u16
    } else {
        ((raw & !0x1F) | (((raw & 0x1F) + 1) as u16)) as u16
    }
}

/// The address after a fine-Y step: fine Y advances, carrying into
/// coarse Y, which wraps at row 29 into the vertical nametable toggle
/// and silently at row 31.
pub open spec fn spec_inc_vertical(raw: u16) -> u16 {
    if (raw >> 12) & 0x7 < 7 {
        (raw + 0x1000) as u16
    } else if (raw >> 5) & 0x1F == 29 {
        (((raw & 0x0FFF) & !0x03E0) ^ 0x0800) as u16
    } else if (raw >> 5) & 0x1F == 31 {
        ((raw & 0x0FFF) & !0x03E0) as u16
    } else {
        (((raw & 0x0FFF) & !0x03E0) | (((((raw >> 5) & 0x1F) + 1) as u16) << 5)) as u16
    }
}

/// A 15-bit internal VRAM address (`v` or `t`), with the scroll fields
/// packed as coarse X (bits 0-4), coarse Y (5-9), nametable select
/// (10-11) and fine Y (12-14).
#[derive(Clone, Copy, PartialEq, Eq, Structural, Debug)]
pub struct AddressRegister {
    pub raw: u16,
}

impl AddressRegister {
    /// An address register at zero.
    pub fn new() -> (r: AddressRegister)
        ensures
            r.raw == 0,
    {
        AddressRegister { raw: 0 }
    }

    /// Replace the `len`-bit field at `offset` with the low bits of
    /// `val`.
    pub fn set(&mut self, offset: u16, len: u16, val: u8)
        requires
            offset < 16,
            1 <= len <= 8,
        ensures
            final(self).raw == (old(self).raw & !spec_bitmask(offset, len)) | (((val as u16) << ((
            offset % 32) as u32)) & spec_bitmask(offset, len)),
    {
        proof {
            let l = len;
            assert((1u32 << ((l % 32) as u32)) >= 1) by (bit_vector);
        }
        let bitmask: u16 = (((1u32 << ((len % 32) as u32)) - 1) << ((offset % 32) as u32)) as u16;
        self.raw = (self.raw & !bitmask) | (((val as u16) << ((offset % 32) as u32)) & bitmask);
    }

    /// The `len`-bit field at `offset`.
    pub fn get(&self, offset: u16, len: u16) -> (r: u16)
        requires
            offset < 16,
            1 <= len <= 8,
        ensures
            r == (self.raw & spec_bitmask(offset, len)) >> ((offset % 32) as u32),
    {
        proof {
            let l = len;
            assert((1u32 << ((l % 32) as u32)) >= 1) by (bit_vector);
        }
        let bitmask: u16 = (((1u32 << ((len % 32) as u32)) - 1) << ((offset % 32) as u32)) as u16;
        (self.raw & bitmask) >> ((offset % 32) as u32)
    }

    /// Copy the horizontal scroll components (coarse X and the low
    /// nametable bit) from `other`.
    pub fn copy_horizontal(&mut self, other: &AddressRegister)
        ensures
            final(self).raw == (old(self).raw & !0x041F) | (other.raw & 0x041F),
    {
        self.raw = (self.raw & !0x041F) | (other.raw & 0x041F);
    }

    /// Copy the vertical scroll components (coarse Y, fine Y and the
    /// high nametable bit) from `other`.
    pub fn copy_vertical(&mut self, other: &AddressRegister)
        ensures
            final(self).raw == (old(self).raw & !0x7BE0) | (other.raw & 0x7BE0),
    {
        self.raw = (self.raw & !0x7BE0) | (other.raw & 0x7BE0);
    }

    /// Step coarse X, toggling the horizontal nametable when it wraps
    /// past 31.
    pub fn increment_horizontal(&mut self)
        ensures
            final(self).raw == spec_inc_horizontal(old(self).raw),
            old(self).raw & 0x1F == 0x1F ==> final(self).raw == ((old(self).raw & !0x1F) ^ 0x0400),
            old(self).raw & 0x1F != 0x1F ==> final(self).raw == (old(self).raw & !0x1F) | (((old(
                self).raw & 0x1F) + 1) as u16),
    {
        let coarse_x = self.raw & 0x1F;
        if coarse_x == 0x1F {
            self.raw = (self.raw & !0x1F) ^ 0x0400;
        } else {
            proof {
                let r = old(self).raw;
                assert(r & 0x1F != 0x1F ==> (r & 0x1F) + 1 < 0x20) by (bit_vector);
                assert(r & 0x1F != 0x1F ==> ((r & !0x1F) | (((r & 0x1F) + 1) as u16)) == (r & !0x1F)
                    + (((r & 0x1F) + 1) as u16)) by (bit_vector);
            }
            self.raw = (self.raw & !0x1F) | (coarse_x + 1);
        }
    }

    /// Step fine Y, carrying into coarse Y when it wraps past 7;
    /// coarse Y wraps at row 29 into the vertical nametable toggle,
    /// and silently at row 31.
    pub fn increment_vertical(&mut self)
        ensures
            final(self).raw == spec_inc_vertical(old(self).raw),
            (old(self).raw >> 12) & 0x7 < 7 ==> final(self).raw as int == old(self).raw + 0x1000,
            (old(self).raw >> 12) & 0x7 == 7 && (old(self).raw >> 5) & 0x1F == 29 ==> final(
                self).raw == (((old(self).raw & 0x0FFF) & !0x03E0) ^ 0x0800),
            (old(self).raw >> 12) & 0x7 == 7 && (old(self).raw >> 5) & 0x1F == 31 ==> final(
                self).raw == ((old(self).raw & 0x0FFF) & !0x03E0),
            (old(self).raw >> 12) & 0x7 == 7 && (old(self).raw >> 5) & 0x1F != 29 && (old(
                self).raw >> 5) & 0x1F != 31 ==> final(self).raw == ((old(self).raw & 0x0FFF)
                & !0x03E0) | (((((old(self).raw >> 5) & 0x1F) + 1) as u16) << 5),
    {
        let fine_y = (self.raw >> 12) & 0x7;
        if fine_y < 7 {
            proof {
                let r = old(self).raw;
                assert((r >> 12) & 0x7 < 7 ==> ((r & !0x7000) | (((((r >> 12) & 0x7) + 1) as u16)
                    << 12)) as int == r + 0x1000) by (bit_vector);
            }
            self.raw = (self.raw & !0x7000) | ((fine_y + 1) << 12);
        } else {
            let without_fine = self.raw & 0x0FFF;
            let coarse_y = (self.raw >> 5) & 0x1F;
            if coarse_y == 29 {
                self.raw = (without_fine & !0x03E0) ^ 0x0800;
            } else if coarse_y == 31 {
                self.raw = without_fine & !0x03E0;
            } else {
                proof {
                    let r = old(self).raw;
                    assert(((r >> 5) & 0x1F) + 1 <= 0x20 && (((((r >> 5) & 0x1F) + 1) as u16) << 5)
                        <= 0x400) by (bit_vector);
                }
                self.raw = (without_fine & !0x03E0) | ((coarse_y + 1) << 5);
            }
        }
    }
}

/// All the PPU registers together.
pub struct PPURegisters {
    pub ppuctrl: ControlRegister,
    pub ppumask: MaskRegister,
    pub ppustatus: PpuStatusRegister,
    pub oamaddr: u8,
    pub ppudata: u8,
    pub curr_addr: AddressRegister,
    pub temp_addr: AddressRegister,
    pub write_latch: bool,
    pub fine_x: u8,
    pub bus_latch: u8,
}

impl PPURegisters {
    /// The power-up register state: VBlank and sprite-overflow flags
    /// start set, everything else cleared.
    pub fn new() -> (r: PPURegisters)
        ensures
            r.ppuctrl.bits == 0,
            r.ppumask.bits == 0,
            r.ppustatus.bits == 0xA0,
            r.oamaddr == 0 && r.ppudata == 0,
            r.curr_addr.raw == 0 && r.temp_addr.raw == 0,
            !r.write_latch,
            r.fine_x == 0,
            r.bus_latch == 0,
    {
        PPURegisters {
            ppuctrl: ControlRegister { bits: 0 },
            ppumask: MaskRegister { bits: 0 },
            ppustatus: PpuStatusRegister { bits: 0xA0 },
            oamaddr: 0,
            ppudata: 0,
            curr_addr: AddressRegister::new(),
            temp_addr: AddressRegister::new(),
            write_latch: false,
            fine_x: 0,
            bus_latch: 0,
        }
    }

    /// The reset state: control and mask cleared, the VBlank flag
    /// kept, the addresses and fine X untouched.
    pub fn reset(&mut self)
        ensures
            final(self).ppuctrl.bits == 0,
            final(self).ppumask.bits == 0,
            final(self).ppustatus.bits == (old(self).ppustatus.bits & 0x80),
            final(self).oamaddr == old(self).oamaddr,
            final(self).ppudata == 0,
            final(self).curr_addr == old(self).curr_addr,
            final(self).temp_addr == old(self).temp_addr,
            final(self).fine_x == old(self).fine_x,
            !final(self).write_latch,
            final(self).bus_latch == 0,
    {
        self.ppuctrl.bits = 0;
        self.ppumask.bits = 0;
        self.ppustatus.bits = self.ppustatus.bits & 0x80;
        self.ppudata = 0;
        self.write_latch = false;
        self.bus_latch = 0;
    }
}

} // verus!
