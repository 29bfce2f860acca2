//! What each operation does to registers, flags and memory.
//!
//! An operation runs after its addressing mode, with the effective address in
//! `addr_abs`. Operations that only touch registers take the processor alone;
//! those that read memory also take the memory image; those that write it
//! give the new image back.

use crate::flags::{
    flag_is_set, with_flag, with_zn, ARCHITECTURAL_FLAGS, FLAG6502_B, FLAG6502_C, FLAG6502_D, FLAG6502_I, FLAG6502_N,
    FLAG6502_U, FLAG6502_V, FLAG6502_Z,
};
use crate::instruction::{mode_of, AddressMode, Operation};
use crate::model::arith::{
    add_with_carry, bit6, compare, high_byte, low_byte, page_crossed, rotate_left, rotate_right,
    shift_left, shift_right, subtract_with_borrow, word, Shifted, Sum,
};
use crate::model::state::{pulled, pushed, read, read_word, written, CpuState, IRQ_VECTOR};
use vstd::prelude::*;

verus! {

/// The operand of the instruction in flight: the latched accumulator for an
/// implied instruction, the byte at the effective address for any other.
pub open spec fn operand(s: CpuState, mem: Seq<u8>) -> u8 {
    if mode_of(s.opcode) == AddressMode::IMP {
        s.fetched
    } else {
        read(mem, s.addr_abs)
    }
}

/// The processor with the operand latched in `fetched`.
pub open spec fn fetch(s: CpuState, mem: Seq<u8>) -> CpuState {
    CpuState { fetched: operand(s, mem), ..s }
}

// Loads
/// LDA: the operand goes to A; Z and N describe it.
pub open spec fn lda(s: CpuState, mem: Seq<u8>) -> CpuState {
    let m = operand(s, mem);
    CpuState { a: m, p: with_zn(s.p, m), fetched: m, ..s }
}

/// LDX: the operand goes to X; Z and N describe it.
pub open spec fn ldx(s: CpuState, mem: Seq<u8>) -> CpuState {
    let m = operand(s, mem);
    CpuState { x: m, p: with_zn(s.p, m), fetched: m, ..s }
}

/// LDY: the operand goes to Y; Z and N describe it.
pub open spec fn ldy(s: CpuState, mem: Seq<u8>) -> CpuState {
    let m = operand(s, mem);
    CpuState { y: m, p: with_zn(s.p, m), fetched: m, ..s }
}

// Stores
/// STA: A goes to the effective address.
pub open spec fn sta(s: CpuState, mem: Seq<u8>) -> Seq<u8> {
    written(mem, s.addr_abs, s.a)
}

/// STX: X goes to the effective address.
pub open spec fn stx(s: CpuState, mem: Seq<u8>) -> Seq<u8> {
    written(mem, s.addr_abs, s.x)
}

/// STY: Y goes to the effective address.
pub open spec fn sty(s: CpuState, mem: Seq<u8>) -> Seq<u8> {
    written(mem, s.addr_abs, s.y)
}

// Register transfers
/// TAX: A goes to X; Z and N describe it.
pub open spec fn tax(s: CpuState) -> CpuState {
    CpuState { x: s.a, p: with_zn(s.p, s.a), ..s }
}

/// TAY: A goes to Y; Z and N describe it.
pub open spec fn tay(s: CpuState) -> CpuState {
    CpuState { y: s.a, p: with_zn(s.p, s.a), ..s }
}

/// TXA: X goes to A; Z and N describe it.
pub open spec fn txa(s: CpuState) -> CpuState {
    CpuState { a: s.x, p: with_zn(s.p, s.x), ..s }
}

/// TYA: Y goes to A; Z and N describe it.
pub open spec fn tya(s: CpuState) -> CpuState {
    CpuState { a: s.y, p: with_zn(s.p, s.y), ..s }
}

/// TSX: the stack pointer goes to X; Z and N describe it.
pub open spec fn tsx(s: CpuState) -> CpuState {
    CpuState { x: s.s, p: with_zn(s.p, s.s), ..s }
}

/// TXS: X goes to the stack pointer; no flag changes.
pub open spec fn txs(s: CpuState) -> CpuState {
    CpuState { s: s.x, ..s }
}

// Stack
/// The copy of P that an instruction pushes: B and U are set in it.
pub open spec fn pushed_status(p: u8) -> u8 {
    with_flag(with_flag(p, FLAG6502_B, true), FLAG6502_U, true)
}

/// The value that P takes from a byte pulled off the stack: B is dropped and
/// U is set.
pub open spec fn pulled_status(data: u8) -> u8 {
    with_flag(with_flag(data, FLAG6502_B, false), FLAG6502_U, true)
}

/// The pushed copy of P has B and U set and agrees with P elsewhere.
pub proof fn lemma_pushed_status(p: u8)
    ensures
        flag_is_set(pushed_status(p), FLAG6502_B),
        flag_is_set(pushed_status(p), FLAG6502_U),
        pushed_status(p) & ARCHITECTURAL_FLAGS == p & ARCHITECTURAL_FLAGS,
{
    assert(((p | 0x10) | 0x20) & 0x10 != 0 && ((p | 0x10) | 0x20) & 0x20 != 0 && ((p | 0x10)
        | 0x20) & 0xCF == p & 0xCF) by (bit_vector);
}

/// The pulled P has B clear and U set and agrees with the pulled byte
/// elsewhere.
pub proof fn lemma_pulled_status(data: u8)
    ensures
        !flag_is_set(pulled_status(data), FLAG6502_B),
        flag_is_set(pulled_status(data), FLAG6502_U),
        pulled_status(data) & ARCHITECTURAL_FLAGS == data & ARCHITECTURAL_FLAGS,
{
    assert(((data & !0x10u8) | 0x20) & 0x10 == 0 && ((data & !0x10u8) | 0x20) & 0x20 != 0 && ((
    data & !0x10u8) | 0x20) & 0xCF == data & 0xCF) by (bit_vector);
}

/// PHA: A is pushed.
pub open spec fn pha(s: CpuState, mem: Seq<u8>) -> (CpuState, Seq<u8>) {
    (CpuState { s: s.s.wrapping_sub(1), ..s }, pushed(mem, s.s, s.a))
}

/// PHP: P is pushed with B and U set; P itself does not change.
pub open spec fn php(s: CpuState, mem: Seq<u8>) -> (CpuState, Seq<u8>) {
    (CpuState { s: s.s.wrapping_sub(1), ..s }, pushed(mem, s.s, pushed_status(s.p)))
}

/// PLA: A is pulled; Z and N describe it.
pub open spec fn pla(s: CpuState, mem: Seq<u8>) -> CpuState {
    let data = pulled(mem, s.s);
    CpuState { s: s.s.wrapping_add(1), a: data, p: with_zn(s.p, data), ..s }
}

/// PLP: P is pulled; B ends clear and U set.
pub open spec fn plp(s: CpuState, mem: Seq<u8>) -> CpuState {
    CpuState { s: s.s.wrapping_add(1), p: pulled_status(pulled(mem, s.s)), ..s }
}

// Logical
/// AND: A becomes A and the operand; Z and N describe it.
pub open spec fn and(s: CpuState, mem: Seq<u8>) -> CpuState {
    let m = operand(s, mem);
    CpuState { a: s.a & m, p: with_zn(s.p, s.a & m), fetched: m, ..s }
}

/// EOR: A becomes A exclusive-or the operand; Z and N describe it.
pub open spec fn eor(s: CpuState, mem: Seq<u8>) -> CpuState {
    let m = operand(s, mem);
    CpuState { a: s.a ^ m, p: with_zn(s.p, s.a ^ m), fetched: m, ..s }
}

/// ORA: A becomes A or the operand; Z and N describe it.
pub open spec fn ora(s: CpuState, mem: Seq<u8>) -> CpuState {
    let m = operand(s, mem);
    CpuState { a: s.a | m, p: with_zn(s.p, s.a | m), fetched: m, ..s }
}

/// BIT: Z tells whether A and the operand share no bit; N and V are bits 7
/// and 6 of the operand. No register changes.
pub open spec fn bit(s: CpuState, mem: Seq<u8>) -> CpuState {
    let m = operand(s, mem);
    let p = with_flag(
        with_flag(with_flag(s.p, FLAG6502_Z, s.a & m == 0), FLAG6502_N, m >= 0x80),
        FLAG6502_V,
        bit6(m),
    );
    CpuState { p, fetched: m, ..s }
}

// Arithmetic
/// P after an addition: C and V from the sum, Z and N from its value.
pub open spec fn status_after_sum(p: u8, sum: Sum) -> u8 {
    with_flag(with_zn(with_flag(p, FLAG6502_C, sum.carry), sum.value), FLAG6502_V, sum.overflow)
}

/// After an addition each of C, V, Z and N says what it should, and the
/// other four flags are as they were.
pub proof fn lemma_status_after_sum(p: u8, sum: Sum)
    ensures
        flag_is_set(status_after_sum(p, sum), FLAG6502_C) == sum.carry,
        flag_is_set(status_after_sum(p, sum), FLAG6502_V) == sum.overflow,
        flag_is_set(status_after_sum(p, sum), FLAG6502_Z) == (sum.value == 0),
        flag_is_set(status_after_sum(p, sum), FLAG6502_N) == (sum.value >= 0x80),
        status_after_sum(p, sum) & 0x3C == p & 0x3C,
{
    let c: u8 = if sum.carry {
        0x01
    } else {
        0
    };
    let z: u8 = if sum.value == 0 {
        0x02
    } else {
        0
    };
    let n: u8 = if sum.value >= 0x80 {
        0x80
    } else {
        0
    };
    let v: u8 = if sum.overflow {
        0x40
    } else {
        0
    };
    let q = status_after_sum(p, sum);
    assert(q == (p & 0x3C) | c | z | n | v) by {
        lemma_assemble_status(p, c, z, n, v);
    }
    assert(q & 0x01 == c && q & 0x02 == z && q & 0x80 == n && q & 0x40 == v && q & 0x3C == p
        & 0x3C) by (bit_vector)
        requires
            q == (p & 0x3C) | c | z | n | v,
            c == 0x01 || c == 0,
            z == 0x02 || z == 0,
            n == 0x80 || n == 0,
            v == 0x40 || v == 0,
    ;
}

/// Setting or clearing C, Z, N and V one after the other assembles P from
/// its untouched bits and the four new ones.
proof fn lemma_assemble_status(p: u8, c: u8, z: u8, n: u8, v: u8)
    requires
        c == 0x01 || c == 0,
        z == 0x02 || z == 0,
        n == 0x80 || n == 0,
        v == 0x40 || v == 0,
    ensures
        with_flag(
            with_flag(
                with_flag(with_flag(p, FLAG6502_C, c != 0), FLAG6502_Z, z != 0),
                FLAG6502_N,
                n != 0,
            ),
            FLAG6502_V,
            v != 0,
        ) == (p & 0x3C) | c | z | n | v,
{
    let with_c = with_flag(p, FLAG6502_C, c != 0);
    let with_z = with_flag(with_c, FLAG6502_Z, z != 0);
    let with_n = with_flag(with_z, FLAG6502_N, n != 0);
    let with_v = with_flag(with_n, FLAG6502_V, v != 0);
    assert(with_v == (p & 0x3C) | c | z | n | v) by (bit_vector)
        requires
            c == 0x01 || c == 0,
            z == 0x02 || z == 0,
            n == 0x80 || n == 0,
            v == 0x40 || v == 0,
            with_c == if c != 0 {
                p | 0x01
            } else {
                p & !0x01u8
            },
            with_z == if z != 0 {
                with_c | 0x02
            } else {
                with_c & !0x02u8
            },
            with_n == if n != 0 {
                with_z | 0x80
            } else {
                with_z & !0x80u8
            },
            with_v == if v != 0 {
                with_n | 0x40
            } else {
                with_n & !0x40u8
            },
    ;
}

/// ADC: A becomes A plus the operand plus C. The D flag has no effect.
pub open spec fn adc(s: CpuState, mem: Seq<u8>) -> CpuState {
    let m = operand(s, mem);
    let sum = add_with_carry(s.a, m, flag_is_set(s.p, FLAG6502_C));
    CpuState { a: sum.value, p: status_after_sum(s.p, sum), fetched: m, ..s }
}

/// SBC: A becomes A minus the operand minus the borrow (the inverse of C).
/// The D flag has no effect.
pub open spec fn sbc(s: CpuState, mem: Seq<u8>) -> CpuState {
    let m = operand(s, mem);
    let sum = subtract_with_borrow(s.a, m, flag_is_set(s.p, FLAG6502_C));
    CpuState { a: sum.value, p: status_after_sum(s.p, sum), fetched: m, ..s }
}

/// A compare of `register` with the operand: C, Z and N describe the
/// difference; no register changes.
pub open spec fn compare_register(s: CpuState, mem: Seq<u8>, register: u8) -> CpuState {
    let m = operand(s, mem);
    let c = compare(register, m);
    let p = with_flag(
        with_flag(with_flag(s.p, FLAG6502_C, c.carry), FLAG6502_Z, c.zero),
        FLAG6502_N,
        c.negative,
    );
    CpuState { p, fetched: m, ..s }
}

/// CMP: compares A with the operand.
pub open spec fn cmp(s: CpuState, mem: Seq<u8>) -> CpuState {
    compare_register(s, mem, s.a)
}

/// CPX: compares X with the operand.
pub open spec fn cpx(s: CpuState, mem: Seq<u8>) -> CpuState {
    compare_register(s, mem, s.x)
}

/// CPY: compares Y with the operand.
pub open spec fn cpy(s: CpuState, mem: Seq<u8>) -> CpuState {
    compare_register(s, mem, s.y)
}

// Increment and decrement
/// The operand replaced in memory by `value`; Z and N describe `value`.
pub open spec fn modify_memory(s: CpuState, mem: Seq<u8>, value: u8) -> (CpuState, Seq<u8>) {
    (
        CpuState { p: with_zn(s.p, value), fetched: operand(s, mem), ..s },
        written(mem, s.addr_abs, value),
    )
}

/// INC: the operand in memory goes up by one, wrapping.
pub open spec fn inc(s: CpuState, mem: Seq<u8>) -> (CpuState, Seq<u8>) {
    modify_memory(s, mem, operand(s, mem).wrapping_add(1))
}

/// DEC: the operand in memory goes down by one, wrapping.
pub open spec fn dec(s: CpuState, mem: Seq<u8>) -> (CpuState, Seq<u8>) {
    modify_memory(s, mem, operand(s, mem).wrapping_sub(1))
}

/// INX: X goes up by one, wrapping; Z and N describe it.
pub open spec fn inx(s: CpuState) -> CpuState {
    CpuState { x: s.x.wrapping_add(1), p: with_zn(s.p, s.x.wrapping_add(1)), ..s }
}

/// INY: Y goes up by one, wrapping; Z and N describe it.
pub open spec fn iny(s: CpuState) -> CpuState {
    CpuState { y: s.y.wrapping_add(1), p: with_zn(s.p, s.y.wrapping_add(1)), ..s }
}

/// DEX: X goes down by one, wrapping; Z and N describe it.
pub open spec fn dex(s: CpuState) -> CpuState {
    CpuState { x: s.x.wrapping_sub(1), p: with_zn(s.p, s.x.wrapping_sub(1)), ..s }
}

/// DEY: Y goes down by one, wrapping; Z and N describe it.
pub open spec fn dey(s: CpuState) -> CpuState {
    CpuState { y: s.y.wrapping_sub(1), p: with_zn(s.p, s.y.wrapping_sub(1)), ..s }
}

// Shifts and rotates
/// The outcome of a shift or rotate of the operand: C takes the bit shifted
/// out, Z and N describe the result, and the result goes to A for an implied
/// instruction and to the effective address for any other.
pub open spec fn store_shifted(s: CpuState, mem: Seq<u8>, r: Shifted) -> (CpuState, Seq<u8>) {
    let p = with_zn(with_flag(s.p, FLAG6502_C, r.carry), r.value);
    let fetched = operand(s, mem);
    if mode_of(s.opcode) == AddressMode::IMP {
        (CpuState { a: r.value, p, fetched, ..s }, mem)
    } else {
        (CpuState { p, fetched, ..s }, written(mem, s.addr_abs, r.value))
    }
}

/// ASL: shift left.
pub open spec fn asl(s: CpuState, mem: Seq<u8>) -> (CpuState, Seq<u8>) {
    store_shifted(s, mem, shift_left(operand(s, mem)))
}

/// LSR: shift right; N always ends clear.
pub open spec fn lsr(s: CpuState, mem: Seq<u8>) -> (CpuState, Seq<u8>) {
    store_shifted(s, mem, shift_right(operand(s, mem)))
}

/// ROL: rotate left through C.
pub open spec fn rol(s: CpuState, mem: Seq<u8>) -> (CpuState, Seq<u8>) {
    store_shifted(s, mem, rotate_left(operand(s, mem), flag_is_set(s.p, FLAG6502_C)))
}

/// ROR: rotate right through C.
pub open spec fn ror(s: CpuState, mem: Seq<u8>) -> (CpuState, Seq<u8>) {
    store_shifted(s, mem, rotate_right(operand(s, mem), flag_is_set(s.p, FLAG6502_C)))
}

// Jumps and calls
/// JMP: the program continues at the effective address.
pub open spec fn jmp(s: CpuState) -> CpuState {
    CpuState { pc: s.addr_abs, ..s }
}

/// JSR: the address of the last byte of the instruction is pushed, high byte
/// first, and the program continues at the effective address.
pub open spec fn jsr(s: CpuState, mem: Seq<u8>) -> (CpuState, Seq<u8>) {
    let last = s.pc.wrapping_sub(1);
    (
        CpuState { s: s.s.wrapping_sub(2), pc: s.addr_abs, ..s },
        pushed(pushed(mem, s.s, high_byte(last)), s.s.wrapping_sub(1), low_byte(last)),
    )
}

/// RTS: an address is pulled, low byte first, and the program continues one
/// byte after it.
pub open spec fn rts(s: CpuState, mem: Seq<u8>) -> CpuState {
    let lo = pulled(mem, s.s);
    let hi = pulled(mem, s.s.wrapping_add(1));
    CpuState { s: s.s.wrapping_add(2), pc: word(lo, hi).wrapping_add(1), ..s }
}

/// RTI: P is pulled, with B and U ending clear, then the program counter,
/// low byte first.
pub open spec fn rti(s: CpuState, mem: Seq<u8>) -> CpuState {
    let p = with_flag(with_flag(pulled(mem, s.s), FLAG6502_B, false), FLAG6502_U, false);
    let lo = pulled(mem, s.s.wrapping_add(1));
    let hi = pulled(mem, s.s.wrapping_add(2));
    CpuState { s: s.s.wrapping_add(3), p, pc: word(lo, hi), ..s }
}

// Branches
/// A branch: if taken, the program continues at the next instruction plus
/// the offset, at the price of one cycle, and of one more if that is in
/// another page than the next instruction.
pub open spec fn branch_if(s: CpuState, taken: bool) -> CpuState {
    let target = s.pc.wrapping_add(s.addr_rel);
    let extra: u8 = if page_crossed(s.pc, target) {
        2
    } else {
        1
    };
    if taken {
        CpuState { cycles: s.cycles.wrapping_add(extra), addr_abs: target, pc: target, ..s }
    } else {
        s
    }
}

/// Whether a branch operation takes its branch under the flags `p`; false
/// for every other operation.
pub open spec fn branch_condition(operation: Operation, p: u8) -> bool {
    match operation {
        Operation::BCC => !flag_is_set(p, FLAG6502_C),
        Operation::BCS => flag_is_set(p, FLAG6502_C),
        Operation::BEQ => flag_is_set(p, FLAG6502_Z),
        Operation::BMI => flag_is_set(p, FLAG6502_N),
        Operation::BNE => !flag_is_set(p, FLAG6502_Z),
        Operation::BPL => !flag_is_set(p, FLAG6502_N),
        Operation::BVC => !flag_is_set(p, FLAG6502_V),
        Operation::BVS => flag_is_set(p, FLAG6502_V),
        _ => false,
    }
}

/// BCC: branch if C is clear.
pub open spec fn bcc(s: CpuState) -> CpuState {
    branch_if(s, branch_condition(Operation::BCC, s.p))
}

/// BCS: branch if C is set.
pub open spec fn bcs(s: CpuState) -> CpuState {
    branch_if(s, branch_condition(Operation::BCS, s.p))
}

/// BEQ: branch if Z is set.
pub open spec fn beq(s: CpuState) -> CpuState {
    branch_if(s, branch_condition(Operation::BEQ, s.p))
}

/// BMI: branch if N is set.
pub open spec fn bmi(s: CpuState) -> CpuState {
    branch_if(s, branch_condition(Operation::BMI, s.p))
}

/// BNE: branch if Z is clear.
pub open spec fn bne(s: CpuState) -> CpuState {
    branch_if(s, branch_condition(Operation::BNE, s.p))
}

/// BPL: branch if N is clear.
pub open spec fn bpl(s: CpuState) -> CpuState {
    branch_if(s, branch_condition(Operation::BPL, s.p))
}

/// BVC: branch if V is clear.
pub open spec fn bvc(s: CpuState) -> CpuState {
    branch_if(s, branch_condition(Operation::BVC, s.p))
}

/// BVS: branch if V is set.
pub open spec fn bvs(s: CpuState) -> CpuState {
    branch_if(s, branch_condition(Operation::BVS, s.p))
}

// Flag operations
/// The processor with one flag set or cleared.
pub open spec fn set_flag(s: CpuState, flag: u8, value: bool) -> CpuState {
    CpuState { p: with_flag(s.p, flag, value), ..s }
}

/// CLC: C is cleared.
pub open spec fn clc(s: CpuState) -> CpuState {
    set_flag(s, FLAG6502_C, false)
}

/// CLD: D is cleared.
pub open spec fn cld(s: CpuState) -> CpuState {
    set_flag(s, FLAG6502_D, false)
}

/// CLI: I is cleared.
pub open spec fn cli(s: CpuState) -> CpuState {
    set_flag(s, FLAG6502_I, false)
}

/// CLV: V is cleared.
pub open spec fn clv(s: CpuState) -> CpuState {
    set_flag(s, FLAG6502_V, false)
}

/// SEC: C is set.
pub open spec fn sec(s: CpuState) -> CpuState {
    set_flag(s, FLAG6502_C, true)
}

/// SED: D is set.
pub open spec fn sed(s: CpuState) -> CpuState {
    set_flag(s, FLAG6502_D, true)
}

/// SEI: I is set.
pub open spec fn sei(s: CpuState) -> CpuState {
    set_flag(s, FLAG6502_I, true)
}

// System
/// BRK: the byte after the opcode is skipped; the program counter and then P
/// (with B and U set in the copy) are pushed; I is set; and the program
/// continues at the address held in the interrupt vector.
pub open spec fn brk(s: CpuState, mem: Seq<u8>) -> (CpuState, Seq<u8>) {
    let next = s.pc.wrapping_add(1);
    let mem = pushed(
        pushed(pushed(mem, s.s, high_byte(next)), s.s.wrapping_sub(1), low_byte(next)),
        s.s.wrapping_sub(2),
        pushed_status(s.p),
    );
    (
        CpuState {
            s: s.s.wrapping_sub(3),
            p: with_flag(s.p, FLAG6502_I, true),
            addr_abs: IRQ_VECTOR,
            pc: read_word(mem, IRQ_VECTOR),
            ..s
        },
        mem,
    )
}

/// The operations that pay one more cycle when their addressing mode crossed
/// a page: those that read their operand and write nothing back.
pub open spec fn pays_for_page_cross(operation: Operation) -> bool {
    match operation {
        Operation::LDA | Operation::LDX | Operation::LDY => true,
        Operation::AND | Operation::EOR | Operation::ORA => true,
        Operation::ADC | Operation::SBC | Operation::CMP => true,
        _ => false,
    }
}

/// What executing `operation` does to the processor and to memory.
pub open spec fn effect(operation: Operation, s: CpuState, mem: Seq<u8>) -> (CpuState, Seq<u8>) {
    match operation {
        Operation::BRK => brk(s, mem),
        Operation::NOP => (s, mem),
        Operation::LDA => (lda(s, mem), mem),
        Operation::LDX => (ldx(s, mem), mem),
        Operation::LDY => (ldy(s, mem), mem),
        Operation::STA => (s, sta(s, mem)),
        Operation::STX => (s, stx(s, mem)),
        Operation::STY => (s, sty(s, mem)),
        Operation::TAX => (tax(s), mem),
        Operation::TAY => (tay(s), mem),
        Operation::TXA => (txa(s), mem),
        Operation::TYA => (tya(s), mem),
        Operation::TSX => (tsx(s), mem),
        Operation::TXS => (txs(s), mem),
        Operation::PHA => pha(s, mem),
        Operation::PHP => php(s, mem),
        Operation::PLA => (pla(s, mem), mem),
        Operation::PLP => (plp(s, mem), mem),
        Operation::AND => (and(s, mem), mem),
        Operation::EOR => (eor(s, mem), mem),
        Operation::ORA => (ora(s, mem), mem),
        Operation::BIT => (bit(s, mem), mem),
        Operation::ADC => (adc(s, mem), mem),
        Operation::SBC => (sbc(s, mem), mem),
        Operation::CMP => (cmp(s, mem), mem),
        Operation::CPX => (cpx(s, mem), mem),
        Operation::CPY => (cpy(s, mem), mem),
        Operation::INC => inc(s, mem),
        Operation::INX => (inx(s), mem),
        Operation::INY => (iny(s), mem),
        Operation::DEC => dec(s, mem),
        Operation::DEX => (dex(s), mem),
        Operation::DEY => (dey(s), mem),
        Operation::ASL => asl(s, mem),
        Operation::LSR => lsr(s, mem),
        Operation::ROL => rol(s, mem),
        Operation::ROR => ror(s, mem),
        Operation::JMP => (jmp(s), mem),
        Operation::JSR => jsr(s, mem),
        Operation::RTS => (rts(s, mem), mem),
        Operation::RTI => (rti(s, mem), mem),
        Operation::BCC => (bcc(s), mem),
        Operation::BCS => (bcs(s), mem),
        Operation::BEQ => (beq(s), mem),
        Operation::BMI => (bmi(s), mem),
        Operation::BNE => (bne(s), mem),
        Operation::BPL => (bpl(s), mem),
        Operation::BVC => (bvc(s), mem),
        Operation::BVS => (bvs(s), mem),
        Operation::CLC => (clc(s), mem),
        Operation::CLD => (cld(s), mem),
        Operation::CLI => (cli(s), mem),
        Operation::CLV => (clv(s), mem),
        Operation::SEC => (sec(s), mem),
        Operation::SED => (sed(s), mem),
        Operation::SEI => (sei(s), mem),
        Operation::XXX => (s, mem),
    }
}

/// The outcome of an operation.
pub struct Outcome {
    pub cpu: CpuState,
    pub mem: Seq<u8>,
    /// Whether the operation pays one more cycle when its addressing mode
    /// crossed a page.
    pub penalty: bool,
}

/// What executing `operation` does.
pub open spec fn execute(operation: Operation, s: CpuState, mem: Seq<u8>) -> Outcome {
    let (cpu, mem) = effect(operation, s, mem);
    Outcome { cpu, mem, penalty: pays_for_page_cross(operation) }
}

} // verus!
