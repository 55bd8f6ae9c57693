//! A cycle-stepped emulator core for the NES: a 6502-derived CPU, the
//! picture processing unit, the audio processing unit, and cartridge
//! mappers, wired together over explicit memory buses.

pub mod addressing_mode;
pub mod apu;
pub mod background_data;
pub mod bus;
pub mod cartridge;
pub mod controllers;
pub mod cpu;
pub mod dmc_channel;
pub mod envelope;
pub mod laws;
pub mod length_counter;
pub mod cartridge_metadata;
pub mod instruction;
pub mod mapper0;
pub mod mapper1;
pub mod mapper2;
pub mod mapper3;
pub mod mapper4;
pub mod mapper7;
pub mod mapper9;
pub mod nametable_memory;
pub mod nes;
pub mod noise_channel;
pub mod palette_ram;
pub mod ppu;
pub mod ppu_registers;
pub mod pulse_channel;
pub mod mapper71;
pub mod ram;
pub mod scan;
pub mod sprite_data;
pub mod status_register;
pub mod trace;
pub mod triangle_channel;
pub mod util;

use vstd::prelude::*;

verus! {

} // verus!
