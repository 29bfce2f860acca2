//! The mathematical model of the machine that every contract is stated over.
//!
//! But for a few constants nothing here is executable. [`arith`] gives the meaning of the byte and
//! word arithmetic of the data path, [`state`] the processor state and the
//! memory image, [`addressing`] what each addressing mode resolves to,
//! [`operations`] what each operation does to registers, flags and memory, and
//! [`machine`] how these combine into a clock tick, a whole instruction, a
//! reset and an interrupt.

pub mod addressing;
pub mod arith;
pub mod machine;
pub mod operations;
pub mod state;
