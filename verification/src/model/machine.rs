//! How the parts combine: a clock tick, a whole instruction, a reset and an
//! interrupt.

use crate::flags::{
    flag_is_set, lemma_forcing_u, with_flag, FLAG6502_B, FLAG6502_I, FLAG6502_U,
};
use crate::instruction::{decode, is_branch, operation_of, AddressMode, Operation};
use crate::model::addressing::resolve;
use crate::model::arith::{high_byte, low_byte, sign_extend};
use crate::model::operations::{branch_condition, branch_if, execute};
use crate::model::state::{
    pushed, read, read_word, CpuState, IRQ_VECTOR, NMI_VECTOR, RESET_VECTOR,
};
use vstd::prelude::*;

verus! {

/// The processor as it is created: every field zero.
pub open spec fn power_on() -> CpuState {
    CpuState {
        a: 0,
        x: 0,
        y: 0,
        s: 0,
        pc: 0,
        p: 0,
        fetched: 0,
        addr_abs: 0,
        addr_rel: 0,
        opcode: 0,
        cycles: 0,
    }
}

/// The processor after a reset: registers cleared, the stack pointer at
/// 0xFD, only U set in P, the program counter taken from the reset vector,
/// and eight cycles to wait out. Nothing of the earlier state survives.
pub open spec fn reset(mem: Seq<u8>) -> CpuState {
    CpuState {
        a: 0,
        x: 0,
        y: 0,
        s: 0xFD,
        pc: read_word(mem, RESET_VECTOR),
        p: FLAG6502_U,
        fetched: 0,
        addr_abs: 0,
        addr_rel: 0,
        opcode: 0,
        cycles: 8,
    }
}

/// P as an interrupt leaves it, which is also the copy that it pushes: B
/// clear, U and I set.
pub open spec fn interrupt_status(p: u8) -> u8 {
    with_flag(with_flag(with_flag(p, FLAG6502_B, false), FLAG6502_U, true), FLAG6502_I, true)
}

/// An interrupt leaves B clear and U and I set, and touches no other flag.
pub proof fn lemma_interrupt_status(p: u8)
    ensures
        !flag_is_set(interrupt_status(p), FLAG6502_B),
        flag_is_set(interrupt_status(p), FLAG6502_U),
        flag_is_set(interrupt_status(p), FLAG6502_I),
        interrupt_status(p) & 0xCB == p & 0xCB,
{
    assert((((p & !0x10u8) | 0x20) | 0x04) & 0x10 == 0 && (((p & !0x10u8) | 0x20) | 0x04) & 0x20
        != 0 && (((p & !0x10u8) | 0x20) | 0x04) & 0x04 != 0 && (((p & !0x10u8) | 0x20) | 0x04)
        & 0xCB == p & 0xCB) by (bit_vector);
}

/// The machine after an interrupt through `vector`: the program counter is
/// pushed, high byte first; U and I are set and B is cleared in P, which is
/// then pushed; and the program continues at the address held in the vector,
/// after `cycles` ticks.
pub open spec fn interrupt(s: CpuState, mem: Seq<u8>, vector: u16, cycles: u8) -> (
    CpuState,
    Seq<u8>,
) {
    let p = interrupt_status(s.p);
    let mem = pushed(
        pushed(pushed(mem, s.s, high_byte(s.pc)), s.s.wrapping_sub(1), low_byte(s.pc)),
        s.s.wrapping_sub(2),
        p,
    );
    (
        CpuState {
            s: s.s.wrapping_sub(3),
            p,
            addr_abs: vector,
            pc: read_word(mem, vector),
            cycles,
            ..s
        },
        mem,
    )
}

/// The first tick of an instruction, up to the point where the tick is
/// counted: the opcode is fetched, U is forced to 1, the addressing mode is
/// resolved and the operation executed. `cycles` then holds the whole cost
/// of the instruction: the base count of the table; one more where the mode
/// crossed a page and the operation pays for that; and what a taken branch
/// adds.
pub open spec fn begin_instruction(s: CpuState, mem: Seq<u8>) -> (CpuState, Seq<u8>) {
    let opcode = read(mem, s.pc);
    let inst = decode(opcode);
    let fetched = CpuState {
        opcode,
        p: with_flag(s.p, FLAG6502_U, true),
        pc: s.pc.wrapping_add(1),
        cycles: inst.cycles,
        ..s
    };
    let resolved = resolve(inst.addrmode, fetched, mem);
    let outcome = execute(inst.operation, resolved.cpu, mem);
    let penalty: u8 = if resolved.crossed && outcome.penalty {
        1
    } else {
        0
    };
    (CpuState { cycles: outcome.cpu.cycles.wrapping_add(penalty), ..outcome.cpu }, outcome.mem)
}

/// The number of ticks that the instruction at the program counter takes.
pub open spec fn instruction_cycles(s: CpuState, mem: Seq<u8>) -> u8 {
    begin_instruction(s, mem).0.cycles
}

/// One clock tick: between instructions the next one is begun; in either
/// case one cycle is paid off.
pub open spec fn clock(s: CpuState, mem: Seq<u8>) -> (CpuState, Seq<u8>) {
    let (begun, mem) = if s.cycles == 0 {
        begin_instruction(s, mem)
    } else {
        (s, mem)
    };
    (CpuState { cycles: begun.cycles.wrapping_sub(1), ..begun }, mem)
}

/// Ticking until no cycle is owed, and at least once: between instructions
/// this runs the next instruction to its end, and within one it only waits
/// the current one out.
pub open spec fn step(s: CpuState, mem: Seq<u8>) -> (CpuState, Seq<u8>) {
    let (ticked, mem) = clock(s, mem);
    (CpuState { cycles: 0, ..ticked }, mem)
}

/// A non-maskable interrupt.
pub open spec fn nmi(s: CpuState, mem: Seq<u8>) -> (CpuState, Seq<u8>) {
    interrupt(s, mem, NMI_VECTOR, 8)
}

/// A maskable interrupt request: ignored while I is set.
pub open spec fn irq(s: CpuState, mem: Seq<u8>) -> (CpuState, Seq<u8>) {
    if flag_is_set(s.p, FLAG6502_I) {
        (s, mem)
    } else {
        interrupt(s, mem, IRQ_VECTOR, 7)
    }
}

/// Resolving an addressing mode never touches the cycle counter.
pub proof fn lemma_resolve_keeps_cycles(mode: AddressMode, s: CpuState, mem: Seq<u8>)
    ensures
        resolve(mode, s, mem).cpu.cycles == s.cycles,
{
}

/// Only a taken branch adds cycles while it executes, and then one or two.
pub proof fn lemma_execute_adds_at_most_two_cycles(
    operation: Operation,
    s: CpuState,
    mem: Seq<u8>,
)
    requires
        s.cycles <= 253,
    ensures
        s.cycles <= execute(operation, s, mem).cpu.cycles <= s.cycles + 2,
        !is_branch(operation) ==> execute(operation, s, mem).cpu.cycles
            == s.cycles,
{
}

/// What a branch instruction comes to: two operand-free steps (the opcode
/// fetch and the offset), and then the branch itself, decided by the flags
/// as they were before the instruction.
pub proof fn lemma_branch_instruction(s: CpuState, mem: Seq<u8>)
    requires
        is_branch(operation_of(read(mem, s.pc))),
    ensures
        begin_instruction(s, mem) == (
            branch_if(
                CpuState {
                    opcode: read(mem, s.pc),
                    p: with_flag(s.p, FLAG6502_U, true),
                    pc: s.pc.wrapping_add(2),
                    addr_rel: sign_extend(read(mem, s.pc.wrapping_add(1))),
                    cycles: 2,
                    ..s
                },
                branch_condition(operation_of(read(mem, s.pc)), s.p),
            ),
            mem,
        ),
{
    let opcode = read(mem, s.pc);
    assert(opcode == 0x10 || opcode == 0x30 || opcode == 0x50 || opcode == 0x70 || opcode == 0x90
        || opcode == 0xB0 || opcode == 0xD0 || opcode == 0xF0);
    lemma_forcing_u(s.p);
}

} // verus!
