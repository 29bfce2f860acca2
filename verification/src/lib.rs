//! A cycle-counting emulator of the NMOS 6502 as found in the NES (the 2A03:
//! decimal mode has no effect), together with the flat 64 KiB bus it executes
//! against.
//!
//! Every executable function carries a contract stated over a mathematical
//! model of the machine: the processor as a [`model::state::CpuState`] and
//! memory as a sequence of 65 536 bytes. [`laws`] holds what follows for
//! every instruction.

pub mod alu;
pub mod bus;
pub mod cpu;
pub mod emulator;
pub mod flags;
pub mod instruction;
pub mod laws;
pub mod model;
pub mod nes;

pub use crate::emulator::Emulator;
pub use crate::nes::Nes;
