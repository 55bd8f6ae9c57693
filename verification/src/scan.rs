//! The PPU's position in the frame: a dot counter from 0 to 340 on a
//! line counter from 0 to 261, with the odd-frame dot skip.

use vstd::prelude::*;
use vstd::wrapping::u32_specs;

verus! {

/// The PPU's scan position.
#[derive(Clone, Copy, PartialEq, Eq, Structural, Debug)]
pub struct Scan {
    pub line: u16,
    pub cycle: u16,
    pub total_cycles: u32,
    pub total_frames: u32,
    pub odd_frame: bool,
}

/// The scan position after one dot, `is_rendering` taken at the dot:
/// with rendering enabled, odd frames skip the last dot of the
/// pre-render line.
pub open spec fn spec_scan_increment(s: Scan, is_rendering: bool) -> Scan {
    let c1 = (s.cycle + 1) as int;
    let c2 = if s.odd_frame && s.line == 261 && c1 == 340 && is_rendering {
        c1 + 1
    } else {
        c1
    };
    let rolled = Scan { total_cycles: u32_specs::wrapping_add(s.total_cycles, 1), ..s };
    if c2 > 340 {
        if s.line + 1 > 261 {
            Scan {
                cycle: 0,
                line: 0,
                odd_frame: !s.odd_frame,
                total_frames: u32_specs::wrapping_add(s.total_frames, 1),
                ..rolled
            }
        } else {
            Scan { cycle: 0, line: (s.line + 1) as u16, ..rolled }
        }
    } else {
        Scan { cycle: c2 as u16, ..rolled }
    }
}

impl Scan {
    /// Whether the position is still inside a frame.
    pub open spec fn wf(&self) -> bool {
        &&& self.line <= 261
        &&& self.cycle <= 340
    }

    /// The top-left corner of an even frame.
    pub fn new() -> (r: Scan)
        ensures
            r == (Scan { line: 0, cycle: 0, total_cycles: 0, total_frames: 0, odd_frame: false }),
    {
        Scan { line: 0, cycle: 0, total_cycles: 0, total_frames: 0, odd_frame: false }
    }

    /// Advance one dot, as `spec_scan_increment` describes. The dot
    /// counter always advances by exactly one tick; only the frame's
    /// length in dots changes with the odd-frame skip.
    pub fn increment(&mut self, is_rendering: bool)
        requires
            old(self).wf(),
        ensures
            final(self).wf(),
            *final(self) == spec_scan_increment(*old(self), is_rendering),
            final(self).total_cycles == u32_specs::wrapping_add(old(self).total_cycles, 1),
    {
        let mut cycle: u16 = self.cycle + 1;
        self.total_cycles = self.total_cycles.wrapping_add(1);
        if self.odd_frame && self.line == 261 && cycle == 340 && is_rendering {
            cycle = cycle + 1;
        }
        if cycle > 340 {
            self.cycle = 0;
            if self.line + 1 > 261 {
                self.line = 0;
                self.odd_frame = !self.odd_frame;
                self.total_frames = self.total_frames.wrapping_add(1);
            } else {
                self.line = self.line + 1;
            }
        } else {
            self.cycle = cycle;
        }
    }

    /// Whether the line produces pixels.
    pub fn on_visible_line(&self) -> (r: bool)
        ensures
            r == (self.line <= 239),
    {
        self.line <= 239
    }

    /// Whether this is the pre-render line.
    pub fn on_prerender_line(&self) -> (r: bool)
        ensures
            r == (self.line == 261),
    {
        self.line == 261
    }

    /// Whether the secondary OAM clear runs at this dot (on visible
    /// lines).
    pub fn on_oam2_clear_cycle(&self) -> (r: bool)
        ensures
            r == (1 <= self.cycle <= 64),
    {
        1 <= self.cycle && self.cycle <= 64
    }

    /// Whether the dot does no background work.
    pub fn on_idle_cycle(&self) -> (r: bool)
        ensures
            r == (self.cycle == 0 || 258 <= self.cycle <= 320),
    {
        self.cycle == 0 || (258 <= self.cycle && self.cycle <= 320)
    }

    /// Whether a background fetch runs at this dot.
    pub fn on_bg_fetch_cycle(&self) -> (r: bool)
        ensures
            r == (1 <= self.cycle <= 256),
    {
        1 <= self.cycle && self.cycle <= 256
    }

    /// Whether a sprite fetch runs at this dot.
    pub fn on_spr_fetch_cycle(&self) -> (r: bool)
        ensures
            r == (257 <= self.cycle <= 320),
    {
        257 <= self.cycle && self.cycle <= 320
    }

    /// Whether sprite evaluation runs at this dot (on visible lines).
    pub fn on_spr_eval_cycle(&self) -> (r: bool)
        ensures
            r == (65 <= self.cycle <= 256),
    {
        65 <= self.cycle && self.cycle <= 256
    }
}

} // verus!
