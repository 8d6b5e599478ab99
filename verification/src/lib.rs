//! An emulation core for an 8-bit 6502-class processor: a register file, a
//! flat 64 KiB memory, the instruction set with its addressing modes, the
//! decoder from machine code to instructions and the encoder back to bytes.

pub mod instructions;
pub mod memory;
pub mod registers;
pub mod state;
