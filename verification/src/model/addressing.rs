//! What each addressing mode resolves to.
//!
//! A mode runs after the opcode has been fetched, with the program counter on
//! the first operand byte. It consumes its operand bytes and leaves the
//! effective address in `addr_abs` (the branch offset in `addr_rel`).

use crate::instruction::AddressMode;
use crate::model::arith::{page_crossed, sign_extend};
use crate::model::state::{read, read_word, read_word_within_page, read_word_zero_page, CpuState};
use vstd::prelude::*;

verus! {

/// The outcome of resolving an addressing mode.
pub struct Resolved {
    /// The processor with the operand bytes consumed and the address latched.
    pub cpu: CpuState,
    /// Whether indexing carried into the next page, so that an operation
    /// that reads its operand pays one more cycle.
    pub crossed: bool,
}

/// Implied: no operand bytes; the accumulator is latched as the operand.
pub open spec fn imp(s: CpuState) -> Resolved {
    Resolved { cpu: CpuState { fetched: s.a, ..s }, crossed: false }
}

/// Immediate: the operand is the next byte of the program.
pub open spec fn imm(s: CpuState) -> Resolved {
    Resolved { cpu: CpuState { addr_abs: s.pc, pc: s.pc.wrapping_add(1), ..s }, crossed: false }
}

/// Zero page: one operand byte, the address in page zero.
pub open spec fn zp0(s: CpuState, mem: Seq<u8>) -> Resolved {
    Resolved {
        cpu: CpuState { addr_abs: read(mem, s.pc) as u16, pc: s.pc.wrapping_add(1), ..s },
        crossed: false,
    }
}

/// Zero page indexed: the operand byte plus an index, wrapping inside page
/// zero.
pub open spec fn zero_page_indexed(s: CpuState, mem: Seq<u8>, index: u8) -> Resolved {
    Resolved {
        cpu: CpuState {
            addr_abs: read(mem, s.pc).wrapping_add(index) as u16,
            pc: s.pc.wrapping_add(1),
            ..s
        },
        crossed: false,
    }
}

/// Zero page indexed by X.
pub open spec fn zpx(s: CpuState, mem: Seq<u8>) -> Resolved {
    zero_page_indexed(s, mem, s.x)
}

/// Zero page indexed by Y.
pub open spec fn zpy(s: CpuState, mem: Seq<u8>) -> Resolved {
    zero_page_indexed(s, mem, s.y)
}

/// Relative: one operand byte, a signed offset from the next instruction.
pub open spec fn rel(s: CpuState, mem: Seq<u8>) -> Resolved {
    Resolved {
        cpu: CpuState { addr_rel: sign_extend(read(mem, s.pc)), pc: s.pc.wrapping_add(1), ..s },
        crossed: false,
    }
}

/// Absolute: two operand bytes, the address low byte first.
pub open spec fn abs(s: CpuState, mem: Seq<u8>) -> Resolved {
    Resolved {
        cpu: CpuState { addr_abs: read_word(mem, s.pc), pc: s.pc.wrapping_add(2), ..s },
        crossed: false,
    }
}

/// Absolute indexed: the operand word plus an index, wrapping at 16 bits.
pub open spec fn absolute_indexed(s: CpuState, mem: Seq<u8>, index: u8) -> Resolved {
    let base = read_word(mem, s.pc);
    let addr = base.wrapping_add(index as u16);
    Resolved {
        cpu: CpuState { addr_abs: addr, pc: s.pc.wrapping_add(2), ..s },
        crossed: page_crossed(base, addr),
    }
}

/// Absolute indexed by X.
pub open spec fn abx(s: CpuState, mem: Seq<u8>) -> Resolved {
    absolute_indexed(s, mem, s.x)
}

/// Absolute indexed by Y.
pub open spec fn aby(s: CpuState, mem: Seq<u8>) -> Resolved {
    absolute_indexed(s, mem, s.y)
}

/// Indirect: the operand word points at the address, which is read without
/// ever leaving the pointer's page.
pub open spec fn ind(s: CpuState, mem: Seq<u8>) -> Resolved {
    Resolved {
        cpu: CpuState {
            addr_abs: read_word_within_page(mem, read_word(mem, s.pc)),
            pc: s.pc.wrapping_add(2),
            ..s
        },
        crossed: false,
    }
}

/// Indexed indirect: the operand byte plus X, wrapping inside page zero,
/// points at the address.
pub open spec fn izx(s: CpuState, mem: Seq<u8>) -> Resolved {
    Resolved {
        cpu: CpuState {
            addr_abs: read_word_zero_page(mem, read(mem, s.pc).wrapping_add(s.x)),
            pc: s.pc.wrapping_add(1),
            ..s
        },
        crossed: false,
    }
}

/// Indirect indexed: the operand byte points, in page zero, at a base
/// address, to which Y is added.
pub open spec fn izy(s: CpuState, mem: Seq<u8>) -> Resolved {
    let base = read_word_zero_page(mem, read(mem, s.pc));
    let addr = base.wrapping_add(s.y as u16);
    Resolved {
        cpu: CpuState { addr_abs: addr, pc: s.pc.wrapping_add(1), ..s },
        crossed: page_crossed(base, addr),
    }
}

/// What resolving `mode` does.
pub open spec fn resolve(mode: AddressMode, s: CpuState, mem: Seq<u8>) -> Resolved {
    match mode {
        AddressMode::IMP => imp(s),
        AddressMode::IMM => imm(s),
        AddressMode::ZP0 => zp0(s, mem),
        AddressMode::ZPX => zpx(s, mem),
        AddressMode::ZPY => zpy(s, mem),
        AddressMode::ABS => abs(s, mem),
        AddressMode::ABX => abx(s, mem),
        AddressMode::ABY => aby(s, mem),
        AddressMode::IND => ind(s, mem),
        AddressMode::IZX => izx(s, mem),
        AddressMode::IZY => izy(s, mem),
        AddressMode::REL => rel(s, mem),
    }
}

} // verus!
