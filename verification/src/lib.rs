//! An instruction-accurate model of the Motorola 6800 microprocessor.
//!
//! The crate is split into a decoder, which turns a short byte window into a
//! structured instruction description, and an executor, which applies one
//! decoded instruction to the architectural state (two accumulators, index
//! register, program counter, stack pointer, condition codes) and to a flat
//! 64 KiB memory.  The intended behaviour of every instruction is written
//! down once, as the specification function `semantics::exec_spec`, and the
//! executor is proved to follow it step by step.

pub mod disassembler;
pub mod laws;
pub mod memory_manager;
pub mod processor;
pub mod semantics;
