//! The processing core of an 8-bit handheld game console: its register file
//! and flags, its opcode tables, its instruction handlers and the
//! fetch-decode-execute loop that drives them, with the cartridge header
//! checks that are made before a program starts.

pub mod component;
pub mod cpu;
pub mod emulator;
pub mod lookups;
