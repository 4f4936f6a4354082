use vstd::prelude::*;

pub mod cpu;
pub mod text;
pub mod cartridge;
pub mod rng;
pub mod mbcs;
pub mod memory;
pub mod interrupts;
pub mod hdma;
pub mod joypad;
pub mod serial;
pub mod timer;
pub mod debugger;
pub mod persistence;
pub mod debug_views;
pub mod ppu;
pub mod sound;
pub mod gb;
pub mod prelude;
pub mod visual;
pub mod disasm;
pub mod bits;
pub mod palette;
pub mod stepping;
pub mod library;

verus! {

} // verus!
