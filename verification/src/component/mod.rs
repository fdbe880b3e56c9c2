//! The parts of the machine: the processor and the cartridge.

pub mod cartridge;
pub mod cpu;
