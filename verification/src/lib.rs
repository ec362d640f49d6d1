//! Instruction-set interpreter core of a Game Boy class CPU.
//!
//! The crate decodes an opcode into a structured instruction, resolves its
//! operands against a register file and a flat 64 KiB memory bus, applies the
//! operation's numeric and flag effects and advances the program counter.
//! Every executable function carries a contract over a mathematical model of
//! the machine state, and the contracts are proved.

pub mod cpu;
pub mod data;
pub mod execute;
pub mod flags;
pub mod instructions;
pub mod memory;
pub mod opcodes;
pub mod operands;
pub mod registers;
