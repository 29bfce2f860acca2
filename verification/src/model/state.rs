//! The processor state and the memory image.

use crate::model::arith::word;
use vstd::prelude::*;

verus! {

/// The processor between two clock ticks: the six architectural registers,
/// the four fields that carry an instruction in flight, and the cycles that
/// the instruction still owes.
pub struct CpuState {
    /// Accumulator.
    pub a: u8,
    /// Index register X.
    pub x: u8,
    /// Index register Y.
    pub y: u8,
    /// Stack pointer: the low byte of an address in page 1.
    pub s: u8,
    /// Program counter.
    pub pc: u16,
    /// Status flags.
    pub p: u8,
    /// The operand value last read for the instruction in flight.
    pub fetched: u8,
    /// The effective address of the instruction in flight.
    pub addr_abs: u16,
    /// The sign-extended offset of a branch in flight.
    pub addr_rel: u16,
    /// The opcode of the instruction in flight.
    pub opcode: u8,
    /// Clock ticks that the instruction in flight has still to wait out.
    pub cycles: u8,
}

/// The number of bytes in a memory image.
pub const MEMORY_SIZE: usize = 0x10000;

/// The first address of the stack page.
pub const STACK_PAGE: u16 = 0x0100;

/// Where the start address of the non-maskable interrupt handler is held.
pub const NMI_VECTOR: u16 = 0xFFFA;

/// Where the address at which a reset starts the program is held.
pub const RESET_VECTOR: u16 = 0xFFFC;

/// Where the start address of the handler shared by BRK and the maskable
/// interrupt is held.
pub const IRQ_VECTOR: u16 = 0xFFFE;

/// The byte of a memory image at an address.
pub open spec fn read(mem: Seq<u8>, addr: u16) -> u8 {
    mem[addr as int]
}

/// A memory image with one byte replaced.
pub open spec fn written(mem: Seq<u8>, addr: u16, data: u8) -> Seq<u8> {
    mem.update(addr as int, data)
}

/// The little-endian word at an address; the second byte of a word at
/// 0xFFFF is the byte at 0x0000.
pub open spec fn read_word(mem: Seq<u8>, addr: u16) -> u16 {
    word(read(mem, addr), read(mem, addr.wrapping_add(1)))
}

/// The little-endian word at a page-zero address; the second byte of a word
/// at 0x00FF is the byte at 0x0000.
pub open spec fn read_word_zero_page(mem: Seq<u8>, addr: u8) -> u16 {
    word(read(mem, addr as u16), read(mem, addr.wrapping_add(1) as u16))
}

/// The word that an indirect jump reads through a pointer: as the hardware
/// never carries into the high byte of the pointer, the second byte of a
/// word at 0x..FF is the byte at 0x..00 of the same page.
pub open spec fn read_word_within_page(mem: Seq<u8>, ptr: u16) -> u16 {
    let second: u16 = if ptr % 256 == 255 {
        (ptr - 255) as u16
    } else {
        (ptr + 1) as u16
    };
    word(read(mem, ptr), read(mem, second))
}

/// The address in page 1 that a stack pointer designates.
pub open spec fn stack_address(s: u8) -> u16 {
    (STACK_PAGE + s) as u16
}

/// The memory image after pushing a byte with the stack pointer at `s`. The
/// stack pointer itself then moves down by one, wrapping from 0x00 to 0xFF.
pub open spec fn pushed(mem: Seq<u8>, s: u8, data: u8) -> Seq<u8> {
    written(mem, stack_address(s), data)
}

/// The byte that a pull reads with the stack pointer at `s` before it: the
/// stack pointer first moves up by one, wrapping from 0xFF to 0x00.
pub open spec fn pulled(mem: Seq<u8>, s: u8) -> u8 {
    read(mem, stack_address(s.wrapping_add(1)))
}

} // verus!
