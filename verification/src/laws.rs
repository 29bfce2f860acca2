//! Laws of the machine: what holds of every instruction, and of pairs of
//! instructions that undo each other.
//!
//! The laws about instructions are stated over
//! [`crate::model::machine::step`], the function that
//! [`crate::cpu::Olc6502::step_instruction`] is proved to compute, for a
//! processor between instructions and a memory image of full size.

use crate::flags::{
    flag_is_set, lemma_forcing_u, with_flag, ARCHITECTURAL_FLAGS, FLAG6502_B, FLAG6502_C,
    FLAG6502_N, FLAG6502_U, FLAG6502_V, FLAG6502_Z,
};
use crate::instruction::{
    decode, is_branch, is_store, lemma_cost_classes, mode_of, operation_of, AddressMode,
    Operation,
};
use crate::model::addressing::resolve;
use crate::model::arith::{
    add_with_carry, lemma_branch_target, lemma_word_of_bytes, signed, subtract_with_borrow,
};
use crate::model::machine::{
    instruction_cycles, interrupt, lemma_branch_instruction,
    lemma_execute_adds_at_most_two_cycles, lemma_interrupt_status, lemma_resolve_keeps_cycles,
    step,
};
use crate::model::operations::{
    adc, branch_condition, lemma_pulled_status, lemma_pushed_status, lemma_status_after_sum,
    operand, pays_for_page_cross, pushed_status,
};
use crate::model::state::{read, read_word, stack_address, written, CpuState, MEMORY_SIZE};
use vstd::prelude::*;

verus! {

/// A processor between instructions and a memory image of full size.
pub open spec fn ready(s: CpuState, mem: Seq<u8>) -> bool {
    s.cycles == 0 && mem.len() == MEMORY_SIZE
}

/// The operation of the instruction at the program counter.
pub open spec fn next_operation(s: CpuState, mem: Seq<u8>) -> Operation {
    operation_of(read(mem, s.pc))
}

/// Whether the instruction with this opcode writes memory: the stores, the
/// read-modify-write operations in their memory forms, and the operations
/// that push.
pub open spec fn writes_memory(opcode: u8) -> bool {
    let operation = operation_of(opcode);
    let shifts = operation == Operation::ASL || operation == Operation::LSR || operation
        == Operation::ROL || operation == Operation::ROR;
    let pushes = operation == Operation::PHA || operation == Operation::PHP || operation
        == Operation::JSR || operation == Operation::BRK;
    is_store(operation) || operation == Operation::INC || operation == Operation::DEC || (shifts
        && mode_of(opcode) != AddressMode::IMP) || pushes
}

/// How many bytes the instruction with this opcode pushes.
pub open spec fn bytes_pushed(opcode: u8) -> int {
    match operation_of(opcode) {
        Operation::BRK => 3,
        Operation::JSR => 2,
        Operation::PHA | Operation::PHP => 1,
        _ => 0,
    }
}

// Of every instruction
/// After a step the processor is between instructions, and the instruction
/// took between two and seven ticks.
pub proof fn law_step_completes(s: CpuState, mem: Seq<u8>)
    requires
        ready(s, mem),
    ensures
        step(s, mem).0.cycles == 0,
        2 <= instruction_cycles(s, mem) <= 7,
{
    let inst = decode(read(mem, s.pc));
    lemma_cost_classes(read(mem, s.pc));
    if is_branch(inst.operation) {
        lemma_branch_instruction(s, mem);
    } else {
        law_page_cross_penalty(s, mem);
    }
}

/// The copy of P that PHP or BRK pushes is seen in memory with U set, and
/// with B set.
pub proof fn law_pushed_status_has_u(s: CpuState, mem: Seq<u8>)
    requires
        ready(s, mem),
        next_operation(s, mem) == Operation::PHP || next_operation(s, mem) == Operation::BRK,
    ensures
        ({
            let under: u8 = if next_operation(s, mem) == Operation::PHP {
                0
            } else {
                2
            };
            let pushed = read(step(s, mem).1, stack_address(s.s.wrapping_sub(under)));
            flag_is_set(pushed, FLAG6502_U) && flag_is_set(pushed, FLAG6502_B)
        }),
{
    lemma_pushed_status(with_flag(s.p, FLAG6502_U, true));
}

/// The copy of P that an interrupt pushes is seen in memory with U set, and
/// with B clear.
pub proof fn law_interrupt_pushes_status_with_u(s: CpuState, mem: Seq<u8>, vector: u16, cycles: u8)
    requires
        mem.len() == MEMORY_SIZE,
    ensures
        ({
            let pushed = read(
                interrupt(s, mem, vector, cycles).1,
                stack_address(s.s.wrapping_sub(2)),
            );
            flag_is_set(pushed, FLAG6502_U) && !flag_is_set(pushed, FLAG6502_B)
        }),
{
    lemma_interrupt_status(s.p);
}

/// An instruction that is neither a store, nor a read-modify-write in its
/// memory form, nor one that pushes, leaves memory as it was.
pub proof fn law_memory_unchanged(s: CpuState, mem: Seq<u8>)
    requires
        ready(s, mem),
        !writes_memory(read(mem, s.pc)),
    ensures
        step(s, mem).1 == mem,
{
}

/// An instruction that writes memory changes at most the bytes that it
/// names: a store, an increment, a decrement, a shift or a rotate the byte
/// at its effective address; a push the byte under the stack pointer; JSR
/// the two and BRK the three bytes from the stack pointer down.
pub proof fn law_memory_written(s: CpuState, mem: Seq<u8>, addr: u16)
    requires
        ready(s, mem),
        writes_memory(read(mem, s.pc)),
    ensures
        ({
            let pushes = bytes_pushed(read(mem, s.pc));
            let named = if pushes == 0 {
                addr == step(s, mem).0.addr_abs
            } else {
                addr == stack_address(s.s) || (pushes >= 2 && addr == stack_address(
                    s.s.wrapping_sub(1),
                )) || (pushes >= 3 && addr == stack_address(s.s.wrapping_sub(2)))
            };
            !named ==> read(step(s, mem).1, addr) == read(mem, addr)
        }),
{
}

/// A branch that is not taken changes nothing but the program counter,
/// which moves past the two bytes of the instruction, and takes two ticks.
/// (U must be set in P, as it is after any instruction: every instruction
/// forces it to 1.)
pub proof fn law_branch_not_taken(s: CpuState, mem: Seq<u8>)
    requires
        ready(s, mem),
        is_branch(next_operation(s, mem)),
        !branch_condition(next_operation(s, mem), s.p),
        flag_is_set(s.p, FLAG6502_U),
    ensures
        ({
            let (after, mem_after) = step(s, mem);
            &&& after.pc == s.pc.wrapping_add(2)
            &&& after.a == s.a
            &&& after.x == s.x
            &&& after.y == s.y
            &&& after.s == s.s
            &&& after.p == s.p
            &&& mem_after == mem
        }),
        instruction_cycles(s, mem) == 2,
{
    lemma_branch_instruction(s, mem);
    lemma_forcing_u(s.p);
}

/// A branch that is taken continues at the next instruction plus the signed
/// offset, modulo 65 536, and takes three ticks, or four if that is in
/// another page than the next instruction.
pub proof fn law_branch_taken(s: CpuState, mem: Seq<u8>)
    requires
        ready(s, mem),
        is_branch(next_operation(s, mem)),
        branch_condition(next_operation(s, mem), s.p),
    ensures
        ({
            let next = s.pc.wrapping_add(2);
            let target = (next + signed(read(mem, s.pc.wrapping_add(1)))) % 0x10000;
            &&& step(s, mem).0.pc == target
            &&& instruction_cycles(s, mem) == if next / 256 == target / 256 {
                3int
            } else {
                4int
            }
        }),
{
    lemma_branch_instruction(s, mem);
    lemma_branch_target(s.pc.wrapping_add(2), read(mem, s.pc.wrapping_add(1)));
}

/// An opcode that is no instruction costs two ticks and changes nothing:
/// the program counter moves past it, and that is all.
pub proof fn law_unassigned_opcode(s: CpuState, mem: Seq<u8>)
    requires
        ready(s, mem),
        next_operation(s, mem) == Operation::XXX,
    ensures
        ({
            let (after, mem_after) = step(s, mem);
            &&& after.pc == s.pc.wrapping_add(1)
            &&& after.a == s.a
            &&& after.x == s.x
            &&& after.y == s.y
            &&& after.s == s.s
            &&& after.p == with_flag(s.p, FLAG6502_U, true)
            &&& mem_after == mem
        }),
        instruction_cycles(s, mem) == 2,
{
}

/// What an instruction costs: a branch two ticks, one more if it is taken,
/// and yet one more if it then leaves the page of the next instruction
/// (see `law_branch_taken`); any other instruction the base count of its
/// table entry, and one more only if both its addressing mode crossed a page
/// and its operation is one that reads its operand and nothing else.
pub proof fn law_page_cross_penalty(s: CpuState, mem: Seq<u8>)
    requires
        ready(s, mem),
        !is_branch(next_operation(s, mem)),
    ensures
        ({
            let inst = decode(read(mem, s.pc));
            let addressed = CpuState { pc: s.pc.wrapping_add(1), ..s };
            let crossed = resolve(inst.addrmode, addressed, mem).crossed;
            instruction_cycles(s, mem) == inst.cycles + if crossed && pays_for_page_cross(
                inst.operation,
            ) {
                1int
            } else {
                0int
            }
        }),
{
    let inst = decode(read(mem, s.pc));
    let fetched = CpuState {
        opcode: read(mem, s.pc),
        p: with_flag(s.p, FLAG6502_U, true),
        pc: s.pc.wrapping_add(1),
        cycles: inst.cycles,
        ..s
    };
    let addressed = CpuState { pc: s.pc.wrapping_add(1), ..s };
    assert(resolve(inst.addrmode, fetched, mem).crossed == resolve(
        inst.addrmode,
        addressed,
        mem,
    ).crossed);
    lemma_resolve_keeps_cycles(inst.addrmode, fetched, mem);
    lemma_execute_adds_at_most_two_cycles(
        inst.operation,
        resolve(inst.addrmode, fetched, mem).cpu,
        mem,
    );
}

/// A compare changes no register and no byte of memory.
pub proof fn law_compare_changes_nothing(s: CpuState, mem: Seq<u8>)
    requires
        ready(s, mem),
        next_operation(s, mem) == Operation::CMP || next_operation(s, mem) == Operation::CPX
            || next_operation(s, mem) == Operation::CPY,
    ensures
        ({
            let (after, mem_after) = step(s, mem);
            &&& after.a == s.a
            &&& after.x == s.x
            &&& after.y == s.y
            &&& after.s == s.s
            &&& mem_after == mem
        }),
{
}

/// The zero-page modes never leave page zero.
pub proof fn law_zero_page_confined(mode: AddressMode, s: CpuState, mem: Seq<u8>)
    requires
        mode == AddressMode::ZP0 || mode == AddressMode::ZPX || mode == AddressMode::ZPY,
    ensures
        resolve(mode, s, mem).cpu.addr_abs <= 0x00FF,
{
}

// Of arithmetic
/// ADC follows two's-complement addition: A takes the low eight bits of
/// A + M + C; C tells whether the unsigned total passed 255 and V whether
/// the signed total left -128..=127; Z and N describe the new A. No other
/// flag changes.
pub proof fn law_adc(s: CpuState, mem: Seq<u8>)
    ensures
        ({
            let sum = add_with_carry(s.a, operand(s, mem), flag_is_set(s.p, FLAG6502_C));
            let after = adc(s, mem);
            &&& after.a == sum.value
            &&& flag_is_set(after.p, FLAG6502_C) == sum.carry
            &&& flag_is_set(after.p, FLAG6502_V) == sum.overflow
            &&& flag_is_set(after.p, FLAG6502_Z) == (sum.value == 0)
            &&& flag_is_set(after.p, FLAG6502_N) == (sum.value >= 0x80)
            &&& after.p & 0x3C == s.p & 0x3C
        }),
{
    let sum = add_with_carry(s.a, operand(s, mem), flag_is_set(s.p, FLAG6502_C));
    lemma_status_after_sum(s.p, sum);
}

/// The overflow of an addition is what the classic bit formula computes:
/// the sign of the result differs from the sign that both operands share.
pub proof fn law_overflow_formula(a: u8, m: u8, carry_in: bool)
    ensures
        ({
            let sum = add_with_carry(a, m, carry_in);
            sum.overflow == ((!(a ^ m) & (a ^ sum.value) & 0x80) != 0)
        }),
{
    let r = add_with_carry(a, m, carry_in).value;
    assert(((!(a ^ m) & (a ^ r) & 0x80) != 0) == ((a >= 128) == (m >= 128) && (r >= 128) != (a
        >= 128))) by (bit_vector);
}

/// SBC is subtraction with borrow: A takes the low eight bits of
/// A - M - (1 - C); C ends set exactly when no borrow was needed, and V
/// tells whether the signed difference left -128..=127.
pub proof fn law_subtraction(a: u8, m: u8, carry_in: bool)
    ensures
        ({
            let borrow: int = if carry_in {
                0
            } else {
                1
            };
            let difference = subtract_with_borrow(a, m, carry_in);
            let signed_total = signed(a) - signed(m) - borrow;
            &&& difference.value == (a - m - borrow) % 256
            &&& difference.carry == (a - m - borrow >= 0)
            &&& difference.overflow == (signed_total < -128 || signed_total > 127)
        }),
{
}

// Of the flags
/// A flag reads back as what it was last set to.
pub proof fn law_flag_reads_back(p: u8, flag: u8, value: bool)
    requires
        flag != 0,
    ensures
        flag_is_set(with_flag(p, flag, value), flag) == value,
{
    assert((p | flag) & flag != 0) by (bit_vector)
        requires
            flag != 0,
    ;
    assert((p & !flag) & flag == 0) by (bit_vector);
}

/// Setting or clearing a flag leaves every bit outside it alone.
pub proof fn law_flag_keeps_others(p: u8, flag: u8, value: bool, others: u8)
    requires
        flag & others == 0,
    ensures
        with_flag(p, flag, value) & others == p & others,
{
    assert((p | flag) & others == p & others && (p & !flag) & others == p & others)
        by (bit_vector)
        requires
            flag & others == 0,
    ;
}

// Of instructions that undo each other
/// PHA followed by PLA restores A and the stack pointer, and leaves memory
/// as it was but for the byte under the stack pointer, which holds A.
pub proof fn law_pha_pla(s: CpuState, mem: Seq<u8>)
    requires
        ready(s, mem),
        next_operation(s, mem) == Operation::PHA,
        next_operation(step(s, mem).0, step(s, mem).1) == Operation::PLA,
    ensures
        ({
            let (pushed, mem_pushed) = step(s, mem);
            let (after, mem_after) = step(pushed, mem_pushed);
            &&& after.a == s.a
            &&& after.s == s.s
            &&& mem_after == written(mem, stack_address(s.s), s.a)
        }),
{
}

/// PHP followed by PLP restores the six architectural flags and the stack
/// pointer; B ends clear and U set, whatever they were.
pub proof fn law_php_plp(s: CpuState, mem: Seq<u8>)
    requires
        ready(s, mem),
        next_operation(s, mem) == Operation::PHP,
        next_operation(step(s, mem).0, step(s, mem).1) == Operation::PLP,
    ensures
        ({
            let (pushed, mem_pushed) = step(s, mem);
            let (after, mem_after) = step(pushed, mem_pushed);
            &&& after.p & ARCHITECTURAL_FLAGS == s.p & ARCHITECTURAL_FLAGS
            &&& !flag_is_set(after.p, FLAG6502_B)
            &&& flag_is_set(after.p, FLAG6502_U)
            &&& after.s == s.s
        }),
{
    let forced = with_flag(s.p, FLAG6502_U, true);
    lemma_forcing_u(s.p);
    lemma_pushed_status(forced);
    lemma_pulled_status(pushed_status(forced));
    lemma_forcing_u(forced);
}

/// JSR followed by RTS at the called address continues at the instruction
/// after the JSR, with the stack pointer where it was.
pub proof fn law_jsr_rts(s: CpuState, mem: Seq<u8>)
    requires
        ready(s, mem),
        next_operation(s, mem) == Operation::JSR,
        next_operation(step(s, mem).0, step(s, mem).1) == Operation::RTS,
    ensures
        ({
            let (called, mem_called) = step(s, mem);
            let (after, mem_after) = step(called, mem_called);
            &&& called.pc == read_word(mem, s.pc.wrapping_add(1))
            &&& after.pc == s.pc.wrapping_add(3)
            &&& after.s == s.s
        }),
{
    lemma_word_of_bytes(s.pc.wrapping_add(2));
}

/// Two EOR instructions in a row with the same operand value leave A as it
/// was.
pub proof fn law_eor_twice(s: CpuState, mem: Seq<u8>)
    requires
        ready(s, mem),
        next_operation(s, mem) == Operation::EOR,
        next_operation(step(s, mem).0, step(s, mem).1) == Operation::EOR,
        step(step(s, mem).0, step(s, mem).1).0.fetched == step(s, mem).0.fetched,
    ensures
        step(step(s, mem).0, step(s, mem).1).0.a == s.a,
{
    let a = s.a;
    let m = step(s, mem).0.fetched;
    assert((a ^ m) ^ m == a) by (bit_vector);
}

} // verus!
