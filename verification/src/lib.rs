//! An interpreter for the instruction set of the MOS 6502, with its registers,
//! status flags, addressing modes and stack, over a flat memory of 64 KiB.
//!
//! `state` and `semantics` say what the processor is and does, as plain
//! mathematics; `cpu`, `instructions` and `dispatch` are the processor that
//! runs, proved to do exactly that; `laws` holds what follows for every state.

pub mod arith;
pub mod cpu;
pub mod dispatch;
pub mod flags;
pub mod instructions;
pub mod laws;
pub mod opcodes;
pub mod semantics;
pub mod state;
