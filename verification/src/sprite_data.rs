//! The sprite pipeline's per-sprite output registers and the sprite
//! evaluation state machine's bookkeeping.

use vstd::prelude::*;

verus! {

/// The output registers of one of the eight sprite slots.
#[derive(Clone, Copy, PartialEq, Eq, Structural, Debug)]
pub struct SpriteRegisters {
    pub num: u16,
    pub patt_shift_0: u8,
    pub patt_shift_1: u8,
    pub attr_latch: u8,
    pub x_counter: u8,
}

impl SpriteRegisters {
    /// An empty sprite slot.
    pub fn new() -> (r: SpriteRegisters)
        ensures
            r == (SpriteRegisters {
                num: 0,
                patt_shift_0: 0,
                patt_shift_1: 0,
                attr_latch: 0,
                x_counter: 0,
            }),
    {
        SpriteRegisters { num: 0, patt_shift_0: 0, patt_shift_1: 0, attr_latch: 0, x_counter: 0 }
    }
}

/// The sprite pipeline state: eight output slots plus the evaluation
/// bookkeeping.
pub struct SpriteData {
    pub registers: Vec<SpriteRegisters>,
    /// Sprite index n (0-63).
    pub spr_num: u8,
    /// Byte index m (0-3).
    pub byte_num: u8,
    /// The OAM byte fetched on the odd evaluation cycle.
    pub oam_byte: u8,
    /// How many sprites have been placed into secondary OAM.
    pub oam2_index: u8,
}

impl SpriteData {
    /// There are always exactly eight sprite slots.
    pub open spec fn wf(&self) -> bool {
        self.registers@.len() == 8
    }

    /// Empty slots and a fresh evaluation.
    pub fn new() -> (r: SpriteData)
        ensures
            r.wf(),
            r.spr_num == 0 && r.byte_num == 0 && r.oam_byte == 0 && r.oam2_index == 0,
    {
        let mut registers: Vec<SpriteRegisters> = Vec::new();
        let mut i: usize = 0;
        while i < 8
            invariant
                i <= 8,
                registers@.len() == i,
            decreases 8 - i,
        {
            registers.push(SpriteRegisters::new());
            i = i + 1;
        }
        SpriteData {
            registers,
            spr_num: 0,
            byte_num: 0,
            oam_byte: 0,
            oam2_index: 0,
        }
    }

    /// Restart the evaluation for a new line.
    pub fn reset(&mut self)
        ensures
            final(self).registers@ == old(self).registers@,
            final(self).spr_num == 0 && final(self).byte_num == 0 && final(self).oam_byte == 0
                && final(self).oam2_index == 0,
    {
        self.spr_num = 0;
        self.byte_num = 0;
        self.oam_byte = 0;
        self.oam2_index = 0;
    }
}

} // verus!
