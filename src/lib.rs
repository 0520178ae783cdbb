//! Cycle-conscious 6502 core with the memory maps and video units of three
//! 6502-family machines.
use vstd::prelude::*;

pub mod cpu;
pub mod flags;
pub mod memory;
pub mod ops;
pub mod interrupts;
pub mod exec;
pub mod mapper;
pub mod nrom;
pub mod mmc1;
pub mod controller;
pub mod sprite;
pub mod ram;
pub mod apu;
pub mod ramrom;
pub mod cia;
pub mod vic;
pub mod c64memmap;
pub mod riot;
pub mod tia;
pub mod ppu2;
pub mod nesmemmap;
pub mod vcsmemmap;
pub mod vcs_vm;
pub mod nes_vm;
pub mod c64_vm;
pub mod audio;

verus! {

} // verus!
