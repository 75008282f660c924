//! Instruction-execution core of an 8-bit, 6502-family CPU emulator.
//!
//! The crate has three layers, leaves first: the register file
//! ([`registers`]), the 64 KiB address space with its mirrored regions
//! ([`memory`]) and the execution core that fetches from the instruction
//! stream, resolves addressing modes and runs load and store instructions
//! ([`cpu`]).

pub mod cpu;
pub mod memory;
pub mod registers;
