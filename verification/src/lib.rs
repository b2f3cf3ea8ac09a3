use vstd::prelude::*;

pub mod apu;
pub mod bus;
pub mod cartridge;
pub mod cpu;
pub mod flags;
pub mod joypad;
pub mod timer;
pub mod memory;
pub mod gameboy;
pub mod ppu;
pub mod conformance;
pub mod comparison;
pub mod debug_view;
pub mod bits;

verus! {

} // verus!
