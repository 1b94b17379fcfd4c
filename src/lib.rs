//! An interpreter for an 8-bit accumulator processor of the 6502 family:
//! a flat 64K address space, a register file with status flags, an opcode
//! table, and a fetch-decode-execute engine.

pub mod cpu;
pub mod error;
pub mod memory;
pub mod opcodes;
pub mod registers;
