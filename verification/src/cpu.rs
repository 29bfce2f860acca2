//! The processor core: registers, addressing modes, operations, and the
//! clock that drives them against a [`Bus`].
//!
//! The processor is viewed as a [`CpuState`]; each function here states what
//! it does as a function of [`crate::model`] on that view and on the memory
//! image of the bus.

use crate::alu;
use crate::bus::Bus;
use crate::flags::{flag_is_set, with_zn};
use crate::instruction::{lemma_cost_classes, lookup};
use crate::model::addressing;
use crate::model::addressing::Resolved;
use crate::model::machine;
use crate::model::operations;
use crate::model::operations::Outcome;
use crate::model::state;
use crate::model::state::{CpuState, IRQ_VECTOR, NMI_VECTOR, RESET_VECTOR, STACK_PAGE};
use vstd::prelude::*;

pub use crate::flags::{
    FLAG6502_B, FLAG6502_C, FLAG6502_D, FLAG6502_I, FLAG6502_N, FLAG6502_U, FLAG6502_V,
    FLAG6502_Z,
};
pub use crate::instruction::{AddressMode, Instruction, Operation};

verus! {

/// A 6502 processor. It holds no reference to memory: every function that
/// touches memory is handed the bus.
pub struct Olc6502 {
    // Registers
    a: u8,
    x: u8,
    y: u8,
    stkp: u8,
    pc: u16,
    status: u8,
    // The instruction in flight
    fetched: u8,
    addr_abs: u16,
    addr_rel: u16,
    opcode: u8,
    cycles: u8,
}

impl View for Olc6502 {
    type V = CpuState;

    closed spec fn view(&self) -> CpuState {
        CpuState {
            a: self.a,
            x: self.x,
            y: self.y,
            s: self.stkp,
            pc: self.pc,
            p: self.status,
            fetched: self.fetched,
            addr_abs: self.addr_abs,
            addr_rel: self.addr_rel,
            opcode: self.opcode,
            cycles: self.cycles,
        }
    }
}

impl Olc6502 {
    /// A processor with every field zero. It has to be reset before it can
    /// run a program.
    pub fn new() -> (cpu: Self)
        ensures
            cpu@ == machine::power_on(),
    {
        Self {
            a: 0,
            x: 0,
            y: 0,
            stkp: 0,
            pc: 0,
            status: 0,
            fetched: 0,
            addr_abs: 0,
            addr_rel: 0,
            opcode: 0,
            cycles: 0,
        }
    }

    /// Reads a byte from the bus.
    pub fn read(&self, bus: &Bus, addr: u16) -> (data: u8)
        ensures
            data == state::read(bus@, addr),
    {
        bus.read(addr, false)
    }

    /// Writes a byte to the bus.
    pub fn write(&self, bus: &mut Bus, addr: u16, data: u8)
        ensures
            final(bus)@ == state::written(old(bus)@, addr, data),
    {
        bus.write(addr, data)
    }

    /// Whether `f` is set in P: 1 if any bit of `f` is, 0 if none.
    pub fn get_flag(&self, f: u8) -> (bit: u8)
        ensures
            bit == if flag_is_set(self@.p, f) {
                1u8
            } else {
                0u8
            },
    {
        if (self.status & f) != 0 {
            1
        } else {
            0
        }
    }

    /// Sets (`v`) or clears (`!v`) the bits of `f` in P.
    pub fn set_flag(&mut self, f: u8, v: bool)
        ensures
            final(self)@ == operations::set_flag(old(self)@, f, v),
    {
        if v {
            self.status |= f;
        } else {
            self.status &= !f;
        }
    }

    /// Lets Z and N describe `value`.
    fn set_zn(&mut self, value: u8)
        ensures
            final(self)@ == (CpuState { p: with_zn(old(self)@.p, value), ..old(self)@ }),
    {
        self.set_flag(FLAG6502_Z, value == 0x00);
        self.set_flag(FLAG6502_N, alu::is_negative(value));
    }

    /// Reads the little-endian word at `addr`.
    fn read_word(&self, bus: &Bus, addr: u16) -> (w: u16)
        ensures
            w == state::read_word(bus@, addr),
    {
        let lo: u8 = self.read(bus, addr);
        let hi: u8 = self.read(bus, addr.wrapping_add(1));
        alu::word(lo, hi)
    }

    /// Reads the little-endian word at `addr` in page zero, without leaving
    /// the page.
    fn read_word_zero_page(&self, bus: &Bus, addr: u8) -> (w: u16)
        ensures
            w == state::read_word_zero_page(bus@, addr),
    {
        let lo: u8 = self.read(bus, addr as u16);
        let hi: u8 = self.read(bus, addr.wrapping_add(1) as u16);
        alu::word(lo, hi)
    }

    /// Pushes a byte: stores it at the stack pointer, which then moves down.
    fn push(&mut self, bus: &mut Bus, data: u8)
        ensures
            final(self)@ == (CpuState { s: old(self)@.s.wrapping_sub(1), ..old(self)@ }),
            final(bus)@ == state::pushed(old(bus)@, old(self)@.s, data),
    {
        self.write(bus, STACK_PAGE + self.stkp as u16, data);
        self.stkp = self.stkp.wrapping_sub(1);
    }

    /// Pulls a byte: moves the stack pointer up and reads what it points at.
    fn pull(&mut self, bus: &Bus) -> (data: u8)
        ensures
            final(self)@ == (CpuState { s: old(self)@.s.wrapping_add(1), ..old(self)@ }),
            data == state::pulled(bus@, old(self)@.s),
    {
        self.stkp = self.stkp.wrapping_add(1);
        self.read(bus, STACK_PAGE + self.stkp as u16)
    }

    // Addressing modes
    /// Implied.
    fn imp(&mut self) -> (crossed: bool)
        ensures
            (Resolved { cpu: final(self)@, crossed }) == addressing::imp(old(self)@),
    {
        self.fetched = self.a;
        false
    }

    /// Immediate.
    fn imm(&mut self) -> (crossed: bool)
        ensures
            (Resolved { cpu: final(self)@, crossed }) == addressing::imm(old(self)@),
    {
        self.addr_abs = self.pc;
        self.pc = self.pc.wrapping_add(1);
        false
    }

    /// Zero page.
    fn zp0(&mut self, bus: &Bus) -> (crossed: bool)
        ensures
            (Resolved { cpu: final(self)@, crossed }) == addressing::zp0(old(self)@, bus@),
    {
        self.addr_abs = self.read(bus, self.pc) as u16;
        self.pc = self.pc.wrapping_add(1);
        false
    }

    /// Zero page indexed by X.
    fn zpx(&mut self, bus: &Bus) -> (crossed: bool)
        ensures
            (Resolved { cpu: final(self)@, crossed }) == addressing::zpx(old(self)@, bus@),
    {
        self.addr_abs = self.read(bus, self.pc).wrapping_add(self.x) as u16;
        self.pc = self.pc.wrapping_add(1);
        false
    }

    /// Zero page indexed by Y.
    fn zpy(&mut self, bus: &Bus) -> (crossed: bool)
        ensures
            (Resolved { cpu: final(self)@, crossed }) == addressing::zpy(old(self)@, bus@),
    {
        self.addr_abs = self.read(bus, self.pc).wrapping_add(self.y) as u16;
        self.pc = self.pc.wrapping_add(1);
        false
    }

    /// Relative.
    fn rel(&mut self, bus: &Bus) -> (crossed: bool)
        ensures
            (Resolved { cpu: final(self)@, crossed }) == addressing::rel(old(self)@, bus@),
    {
        self.addr_rel = alu::sign_extend(self.read(bus, self.pc));
        self.pc = self.pc.wrapping_add(1);
        false
    }

    /// Absolute.
    fn abs(&mut self, bus: &Bus) -> (crossed: bool)
        ensures
            (Resolved { cpu: final(self)@, crossed }) == addressing::abs(old(self)@, bus@),
    {
        self.addr_abs = self.read_word(bus, self.pc);
        self.pc = self.pc.wrapping_add(2);
        false
    }

    /// Absolute indexed by X.
    fn abx(&mut self, bus: &Bus) -> (crossed: bool)
        ensures
            (Resolved { cpu: final(self)@, crossed }) == addressing::abx(old(self)@, bus@),
    {
        let base: u16 = self.read_word(bus, self.pc);
        self.pc = self.pc.wrapping_add(2);
        self.addr_abs = base.wrapping_add(self.x as u16);
        alu::page_crossed(base, self.addr_abs)
    }

    /// Absolute indexed by Y.
    fn aby(&mut self, bus: &Bus) -> (crossed: bool)
        ensures
            (Resolved { cpu: final(self)@, crossed }) == addressing::aby(old(self)@, bus@),
    {
        let base: u16 = self.read_word(bus, self.pc);
        self.pc = self.pc.wrapping_add(2);
        self.addr_abs = base.wrapping_add(self.y as u16);
        alu::page_crossed(base, self.addr_abs)
    }

    /// Indirect, with the page-boundary defect: the high byte of the address
    /// is read from the pointer's own page even when the pointer is its last
    /// byte.
    fn ind(&mut self, bus: &Bus) -> (crossed: bool)
        ensures
            (Resolved { cpu: final(self)@, crossed }) == addressing::ind(old(self)@, bus@),
    {
        let ptr: u16 = self.read_word(bus, self.pc);
        self.pc = self.pc.wrapping_add(2);
        let lo: u8 = self.read(bus, ptr);
        let hi: u8 = if alu::low_byte(ptr) == 0xFF {
            self.read(bus, ptr - 0x00FF)
        } else {
            self.read(bus, ptr + 1)
        };
        self.addr_abs = alu::word(lo, hi);
        false
    }

    /// Indexed indirect.
    fn izx(&mut self, bus: &Bus) -> (crossed: bool)
        ensures
            (Resolved { cpu: final(self)@, crossed }) == addressing::izx(old(self)@, bus@),
    {
        let t: u8 = self.read(bus, self.pc);
        self.pc = self.pc.wrapping_add(1);
        self.addr_abs = self.read_word_zero_page(bus, t.wrapping_add(self.x));
        false
    }

    /// Indirect indexed.
    fn izy(&mut self, bus: &Bus) -> (crossed: bool)
        ensures
            (Resolved { cpu: final(self)@, crossed }) == addressing::izy(old(self)@, bus@),
    {
        let t: u8 = self.read(bus, self.pc);
        self.pc = self.pc.wrapping_add(1);
        let base: u16 = self.read_word_zero_page(bus, t);
        self.addr_abs = base.wrapping_add(self.y as u16);
        alu::page_crossed(base, self.addr_abs)
    }

    /// Resolves an addressing mode.
    fn resolve(&mut self, mode: AddressMode, bus: &Bus) -> (crossed: bool)
        ensures
            (Resolved { cpu: final(self)@, crossed }) == addressing::resolve(
                mode,
                old(self)@,
                bus@,
            ),
    {
        match mode {
            AddressMode::IMP => self.imp(),
            AddressMode::IMM => self.imm(),
            AddressMode::ZP0 => self.zp0(bus),
            AddressMode::ZPX => self.zpx(bus),
            AddressMode::ZPY => self.zpy(bus),
            AddressMode::ABS => self.abs(bus),
            AddressMode::ABX => self.abx(bus),
            AddressMode::ABY => self.aby(bus),
            AddressMode::IND => self.ind(bus),
            AddressMode::IZX => self.izx(bus),
            AddressMode::IZY => self.izy(bus),
            AddressMode::REL => self.rel(bus),
        }
    }

    /// Latches the operand of the instruction in flight and returns it.
    fn operand(&mut self, bus: &Bus) -> (data: u8)
        ensures
            final(self)@ == operations::fetch(old(self)@, bus@),
            data == operations::operand(old(self)@, bus@),
    {
        let inst = lookup(self.opcode);
        if inst.addrmode != AddressMode::IMP {
            self.fetched = self.read(bus, self.addr_abs);
        }
        self.fetched
    }

    /// Latches the operand of the instruction in flight and returns it: the
    /// byte at the effective address, or, for an implied instruction, the
    /// value latched when its mode was resolved. The bus is not written.
    pub fn fetch(&mut self, bus: &mut Bus) -> (data: u8)
        ensures
            final(self)@ == operations::fetch(old(self)@, old(bus)@),
            data == operations::operand(old(self)@, old(bus)@),
            final(bus)@ == old(bus)@,
    {
        self.operand(bus)
    }

    // Loads
    /// LDA.
    fn lda(&mut self, bus: &Bus) -> (penalty: bool)
        ensures
            final(self)@ == operations::lda(old(self)@, bus@),
            penalty,
    {
        self.a = self.operand(bus);
        self.set_zn(self.a);
        true
    }

    /// LDX.
    fn ldx(&mut self, bus: &Bus) -> (penalty: bool)
        ensures
            final(self)@ == operations::ldx(old(self)@, bus@),
            penalty,
    {
        self.x = self.operand(bus);
        self.set_zn(self.x);
        true
    }

    /// LDY.
    fn ldy(&mut self, bus: &Bus) -> (penalty: bool)
        ensures
            final(self)@ == operations::ldy(old(self)@, bus@),
            penalty,
    {
        self.y = self.operand(bus);
        self.set_zn(self.y);
        true
    }

    // Stores
    /// STA.
    fn sta(&self, bus: &mut Bus) -> (penalty: bool)
        ensures
            final(bus)@ == operations::sta(self@, old(bus)@),
            !penalty,
    {
        self.write(bus, self.addr_abs, self.a);
        false
    }

    /// STX.
    fn stx(&self, bus: &mut Bus) -> (penalty: bool)
        ensures
            final(bus)@ == operations::stx(self@, old(bus)@),
            !penalty,
    {
        self.write(bus, self.addr_abs, self.x);
        false
    }

    /// STY.
    fn sty(&self, bus: &mut Bus) -> (penalty: bool)
        ensures
            final(bus)@ == operations::sty(self@, old(bus)@),
            !penalty,
    {
        self.write(bus, self.addr_abs, self.y);
        false
    }

    // Register transfers
    /// TAX.
    fn tax(&mut self) -> (penalty: bool)
        ensures
            final(self)@ == operations::tax(old(self)@),
            !penalty,
    {
        self.x = self.a;
        self.set_zn(self.x);
        false
    }

    /// TAY.
    fn tay(&mut self) -> (penalty: bool)
        ensures
            final(self)@ == operations::tay(old(self)@),
            !penalty,
    {
        self.y = self.a;
        self.set_zn(self.y);
        false
    }

    /// TXA.
    fn txa(&mut self) -> (penalty: bool)
        ensures
            final(self)@ == operations::txa(old(self)@),
            !penalty,
    {
        self.a = self.x;
        self.set_zn(self.a);
        false
    }

    /// TYA.
    fn tya(&mut self) -> (penalty: bool)
        ensures
            final(self)@ == operations::tya(old(self)@),
            !penalty,
    {
        self.a = self.y;
        self.set_zn(self.a);
        false
    }

    /// TSX.
    fn tsx(&mut self) -> (penalty: bool)
        ensures
            final(self)@ == operations::tsx(old(self)@),
            !penalty,
    {
        self.x = self.stkp;
        self.set_zn(self.x);
        false
    }

    /// TXS.
    fn txs(&mut self) -> (penalty: bool)
        ensures
            final(self)@ == operations::txs(old(self)@),
            !penalty,
    {
        self.stkp = self.x;
        false
    }

    // Stack
    /// PHA.
    fn pha(&mut self, bus: &mut Bus) -> (penalty: bool)
        ensures
            (final(self)@, final(bus)@) == operations::pha(old(self)@, old(bus)@),
            !penalty,
    {
        self.push(bus, self.a);
        false
    }

    /// PHP.
    fn php(&mut self, bus: &mut Bus) -> (penalty: bool)
        ensures
            (final(self)@, final(bus)@) == operations::php(old(self)@, old(bus)@),
            !penalty,
    {
        self.push(bus, self.status | FLAG6502_B | FLAG6502_U);
        false
    }

    /// PLA.
    fn pla(&mut self, bus: &Bus) -> (penalty: bool)
        ensures
            final(self)@ == operations::pla(old(self)@, bus@),
            !penalty,
    {
        self.a = self.pull(bus);
        self.set_zn(self.a);
        false
    }

    /// PLP.
    fn plp(&mut self, bus: &Bus) -> (penalty: bool)
        ensures
            final(self)@ == operations::plp(old(self)@, bus@),
            !penalty,
    {
        self.status = self.pull(bus);
        self.set_flag(FLAG6502_B, false);
        self.set_flag(FLAG6502_U, true);
        false
    }

    // Logical
    /// AND.
    fn and(&mut self, bus: &Bus) -> (penalty: bool)
        ensures
            final(self)@ == operations::and(old(self)@, bus@),
            penalty,
    {
        let m: u8 = self.operand(bus);
        self.a = self.a & m;
        self.set_zn(self.a);
        true
    }

    /// EOR.
    fn eor(&mut self, bus: &Bus) -> (penalty: bool)
        ensures
            final(self)@ == operations::eor(old(self)@, bus@),
            penalty,
    {
        let m: u8 = self.operand(bus);
        self.a = self.a ^ m;
        self.set_zn(self.a);
        true
    }

    /// ORA.
    fn ora(&mut self, bus: &Bus) -> (penalty: bool)
        ensures
            final(self)@ == operations::ora(old(self)@, bus@),
            penalty,
    {
        let m: u8 = self.operand(bus);
        self.a = self.a | m;
        self.set_zn(self.a);
        true
    }

    /// BIT.
    fn bit(&mut self, bus: &Bus) -> (penalty: bool)
        ensures
            final(self)@ == operations::bit(old(self)@, bus@),
            !penalty,
    {
        let m: u8 = self.operand(bus);
        self.set_flag(FLAG6502_Z, (self.a & m) == 0x00);
        self.set_flag(FLAG6502_N, alu::is_negative(m));
        self.set_flag(FLAG6502_V, alu::bit6(m));
        false
    }

    // Arithmetic
    /// Takes the result of an addition into A and P.
    fn take_sum(&mut self, sum: alu::Sum)
        ensures
            final(self)@ == (CpuState {
                a: sum.value,
                p: operations::status_after_sum(old(self)@.p, sum),
                ..old(self)@
            }),
    {
        self.set_flag(FLAG6502_C, sum.carry);
        self.set_zn(sum.value);
        self.set_flag(FLAG6502_V, sum.overflow);
        self.a = sum.value;
    }

    /// ADC.
    fn adc(&mut self, bus: &Bus) -> (penalty: bool)
        ensures
            final(self)@ == operations::adc(old(self)@, bus@),
            penalty,
    {
        let m: u8 = self.operand(bus);
        let sum = alu::add_with_carry(self.a, m, self.get_flag(FLAG6502_C) == 1);
        self.take_sum(sum);
        true
    }

    /// SBC.
    fn sbc(&mut self, bus: &Bus) -> (penalty: bool)
        ensures
            final(self)@ == operations::sbc(old(self)@, bus@),
            penalty,
    {
        let m: u8 = self.operand(bus);
        let sum = alu::subtract_with_borrow(self.a, m, self.get_flag(FLAG6502_C) == 1);
        self.take_sum(sum);
        true
    }

    /// Compares a register with the operand.
    fn compare_register(&mut self, bus: &Bus, register: u8)
        ensures
            final(self)@ == operations::compare_register(old(self)@, bus@, register),
    {
        let m: u8 = self.operand(bus);
        let outcome = alu::compare(register, m);
        self.set_flag(FLAG6502_C, outcome.carry);
        self.set_flag(FLAG6502_Z, outcome.zero);
        self.set_flag(FLAG6502_N, outcome.negative);
    }

    /// CMP.
    fn cmp(&mut self, bus: &Bus) -> (penalty: bool)
        ensures
            final(self)@ == operations::cmp(old(self)@, bus@),
            penalty,
    {
        self.compare_register(bus, self.a);
        true
    }

    /// CPX.
    fn cpx(&mut self, bus: &Bus) -> (penalty: bool)
        ensures
            final(self)@ == operations::cpx(old(self)@, bus@),
            !penalty,
    {
        self.compare_register(bus, self.x);
        false
    }

    /// CPY.
    fn cpy(&mut self, bus: &Bus) -> (penalty: bool)
        ensures
            final(self)@ == operations::cpy(old(self)@, bus@),
            !penalty,
    {
        self.compare_register(bus, self.y);
        false
    }

    // Increment and decrement
    /// INC.
    fn inc(&mut self, bus: &mut Bus) -> (penalty: bool)
        ensures
            (final(self)@, final(bus)@) == operations::inc(old(self)@, old(bus)@),
            !penalty,
    {
        let value: u8 = self.operand(bus).wrapping_add(1);
        self.write(bus, self.addr_abs, value);
        self.set_zn(value);
        false
    }

    /// DEC.
    fn dec(&mut self, bus: &mut Bus) -> (penalty: bool)
        ensures
            (final(self)@, final(bus)@) == operations::dec(old(self)@, old(bus)@),
            !penalty,
    {
        let value: u8 = self.operand(bus).wrapping_sub(1);
        self.write(bus, self.addr_abs, value);
        self.set_zn(value);
        false
    }

    /// INX.
    fn inx(&mut self) -> (penalty: bool)
        ensures
            final(self)@ == operations::inx(old(self)@),
            !penalty,
    {
        self.x = self.x.wrapping_add(1);
        self.set_zn(self.x);
        false
    }

    /// INY.
    fn iny(&mut self) -> (penalty: bool)
        ensures
            final(self)@ == operations::iny(old(self)@),
            !penalty,
    {
        self.y = self.y.wrapping_add(1);
        self.set_zn(self.y);
        false
    }

    /// DEX.
    fn dex(&mut self) -> (penalty: bool)
        ensures
            final(self)@ == operations::dex(old(self)@),
            !penalty,
    {
        self.x = self.x.wrapping_sub(1);
        self.set_zn(self.x);
        false
    }

    /// DEY.
    fn dey(&mut self) -> (penalty: bool)
        ensures
            final(self)@ == operations::dey(old(self)@),
            !penalty,
    {
        self.y = self.y.wrapping_sub(1);
        self.set_zn(self.y);
        false
    }

    // Shifts and rotates
    /// Takes the result of a shift or rotate of the latched operand into P
    /// and into A or memory.
    fn store_shifted(&mut self, bus: &mut Bus, r: alu::Shifted)
        requires
            old(self)@.fetched == operations::operand(old(self)@, old(bus)@),
        ensures
            (final(self)@, final(bus)@) == operations::store_shifted(old(self)@, old(bus)@, r),
    {
        self.set_flag(FLAG6502_C, r.carry);
        self.set_zn(r.value);
        let inst = lookup(self.opcode);
        if inst.addrmode == AddressMode::IMP {
            self.a = r.value;
        } else {
            self.write(bus, self.addr_abs, r.value);
        }
    }

    /// ASL.
    fn asl(&mut self, bus: &mut Bus) -> (penalty: bool)
        ensures
            (final(self)@, final(bus)@) == operations::asl(old(self)@, old(bus)@),
            !penalty,
    {
        let m: u8 = self.operand(bus);
        self.store_shifted(bus, alu::shift_left(m));
        false
    }

    /// LSR.
    fn lsr(&mut self, bus: &mut Bus) -> (penalty: bool)
        ensures
            (final(self)@, final(bus)@) == operations::lsr(old(self)@, old(bus)@),
            !penalty,
    {
        let m: u8 = self.operand(bus);
        self.store_shifted(bus, alu::shift_right(m));
        false
    }

    /// ROL.
    fn rol(&mut self, bus: &mut Bus) -> (penalty: bool)
        ensures
            (final(self)@, final(bus)@) == operations::rol(old(self)@, old(bus)@),
            !penalty,
    {
        let m: u8 = self.operand(bus);
        self.store_shifted(bus, alu::rotate_left(m, self.get_flag(FLAG6502_C) == 1));
        false
    }

    /// ROR.
    fn ror(&mut self, bus: &mut Bus) -> (penalty: bool)
        ensures
            (final(self)@, final(bus)@) == operations::ror(old(self)@, old(bus)@),
            !penalty,
    {
        let m: u8 = self.operand(bus);
        self.store_shifted(bus, alu::rotate_right(m, self.get_flag(FLAG6502_C) == 1));
        false
    }

    // Jumps and calls
    /// JMP.
    fn jmp(&mut self) -> (penalty: bool)
        ensures
            final(self)@ == operations::jmp(old(self)@),
            !penalty,
    {
        self.pc = self.addr_abs;
        false
    }

    /// JSR.
    fn jsr(&mut self, bus: &mut Bus) -> (penalty: bool)
        ensures
            (final(self)@, final(bus)@) == operations::jsr(old(self)@, old(bus)@),
            !penalty,
    {
        self.pc = self.pc.wrapping_sub(1);
        self.push(bus, alu::high_byte(self.pc));
        self.push(bus, alu::low_byte(self.pc));
        self.pc = self.addr_abs;
        false
    }

    /// RTS.
    fn rts(&mut self, bus: &Bus) -> (penalty: bool)
        ensures
            final(self)@ == operations::rts(old(self)@, bus@),
            !penalty,
    {
        let lo: u8 = self.pull(bus);
        let hi: u8 = self.pull(bus);
        self.pc = alu::word(lo, hi).wrapping_add(1);
        false
    }

    /// RTI.
    fn rti(&mut self, bus: &Bus) -> (penalty: bool)
        ensures
            final(self)@ == operations::rti(old(self)@, bus@),
            !penalty,
    {
        self.status = self.pull(bus);
        self.set_flag(FLAG6502_B, false);
        self.set_flag(FLAG6502_U, false);
        let lo: u8 = self.pull(bus);
        let hi: u8 = self.pull(bus);
        self.pc = alu::word(lo, hi);
        false
    }

    // Branches
    /// Takes a branch: one cycle, and one more if the target is in another
    /// page than the next instruction.
    fn branch(&mut self)
        ensures
            final(self)@ == operations::branch_if(old(self)@, true),
    {
        self.cycles = self.cycles.wrapping_add(1);
        self.addr_abs = self.pc.wrapping_add(self.addr_rel);
        if alu::page_crossed(self.pc, self.addr_abs) {
            self.cycles = self.cycles.wrapping_add(1);
        }
        self.pc = self.addr_abs;
    }

    /// BCC.
    fn bcc(&mut self) -> (penalty: bool)
        ensures
            final(self)@ == operations::bcc(old(self)@),
            !penalty,
    {
        if self.get_flag(FLAG6502_C) == 0 {
            self.branch();
        }
        false
    }

    /// BCS.
    fn bcs(&mut self) -> (penalty: bool)
        ensures
            final(self)@ == operations::bcs(old(self)@),
            !penalty,
    {
        if self.get_flag(FLAG6502_C) == 1 {
            self.branch();
        }
        false
    }

    /// BEQ.
    fn beq(&mut self) -> (penalty: bool)
        ensures
            final(self)@ == operations::beq(old(self)@),
            !penalty,
    {
        if self.get_flag(FLAG6502_Z) == 1 {
            self.branch();
        }
        false
    }

    /// BMI.
    fn bmi(&mut self) -> (penalty: bool)
        ensures
            final(self)@ == operations::bmi(old(self)@),
            !penalty,
    {
        if self.get_flag(FLAG6502_N) == 1 {
            self.branch();
        }
        false
    }

    /// BNE.
    fn bne(&mut self) -> (penalty: bool)
        ensures
            final(self)@ == operations::bne(old(self)@),
            !penalty,
    {
        if self.get_flag(FLAG6502_Z) == 0 {
            self.branch();
        }
        false
    }

    /// BPL.
    fn bpl(&mut self) -> (penalty: bool)
        ensures
            final(self)@ == operations::bpl(old(self)@),
            !penalty,
    {
        if self.get_flag(FLAG6502_N) == 0 {
            self.branch();
        }
        false
    }

    /// BVC.
    fn bvc(&mut self) -> (penalty: bool)
        ensures
            final(self)@ == operations::bvc(old(self)@),
            !penalty,
    {
        if self.get_flag(FLAG6502_V) == 0 {
            self.branch();
        }
        false
    }

    /// BVS.
    fn bvs(&mut self) -> (penalty: bool)
        ensures
            final(self)@ == operations::bvs(old(self)@),
            !penalty,
    {
        if self.get_flag(FLAG6502_V) == 1 {
            self.branch();
        }
        false
    }

    // Flag operations
    /// CLC.
    fn clc(&mut self) -> (penalty: bool)
        ensures
            final(self)@ == operations::clc(old(self)@),
            !penalty,
    {
        self.set_flag(FLAG6502_C, false);
        false
    }

    /// CLD.
    fn cld(&mut self) -> (penalty: bool)
        ensures
            final(self)@ == operations::cld(old(self)@),
            !penalty,
    {
        self.set_flag(FLAG6502_D, false);
        false
    }

    /// CLI.
    fn cli(&mut self) -> (penalty: bool)
        ensures
            final(self)@ == operations::cli(old(self)@),
            !penalty,
    {
        self.set_flag(FLAG6502_I, false);
        false
    }

    /// CLV.
    fn clv(&mut self) -> (penalty: bool)
        ensures
            final(self)@ == operations::clv(old(self)@),
            !penalty,
    {
        self.set_flag(FLAG6502_V, false);
        false
    }

    /// SEC.
    fn sec(&mut self) -> (penalty: bool)
        ensures
            final(self)@ == operations::sec(old(self)@),
            !penalty,
    {
        self.set_flag(FLAG6502_C, true);
        false
    }

    /// SED.
    fn sed(&mut self) -> (penalty: bool)
        ensures
            final(self)@ == operations::sed(old(self)@),
            !penalty,
    {
        self.set_flag(FLAG6502_D, true);
        false
    }

    /// SEI.
    fn sei(&mut self) -> (penalty: bool)
        ensures
            final(self)@ == operations::sei(old(self)@),
            !penalty,
    {
        self.set_flag(FLAG6502_I, true);
        false
    }

    // System
    /// NOP.
    fn nop(&self) -> (penalty: bool)
        ensures
            !penalty,
    {
        false
    }

    /// The sink for opcodes that are not instructions: nothing happens.
    fn xxx(&self) -> (penalty: bool)
        ensures
            !penalty,
    {
        false
    }

    /// BRK.
    fn brk(&mut self, bus: &mut Bus) -> (penalty: bool)
        ensures
            (final(self)@, final(bus)@) == operations::brk(old(self)@, old(bus)@),
            !penalty,
    {
        self.pc = self.pc.wrapping_add(1);
        self.push(bus, alu::high_byte(self.pc));
        self.push(bus, alu::low_byte(self.pc));
        self.push(bus, self.status | FLAG6502_B | FLAG6502_U);
        self.set_flag(FLAG6502_I, true);
        self.addr_abs = IRQ_VECTOR;
        self.pc = self.read_word(bus, self.addr_abs);
        false
    }

    /// Executes an operation.
    fn execute(&mut self, operation: Operation, bus: &mut Bus) -> (penalty: bool)
        ensures
            (Outcome { cpu: final(self)@, mem: final(bus)@, penalty }) == operations::execute(
                operation,
                old(self)@,
                old(bus)@,
            ),
    {
        match operation {
            Operation::BRK => self.brk(bus),
            Operation::NOP => self.nop(),
            Operation::LDA => self.lda(bus),
            Operation::LDX => self.ldx(bus),
            Operation::LDY => self.ldy(bus),
            Operation::STA => self.sta(bus),
            Operation::STX => self.stx(bus),
            Operation::STY => self.sty(bus),
            Operation::TAX => self.tax(),
            Operation::TAY => self.tay(),
            Operation::TXA => self.txa(),
            Operation::TYA => self.tya(),
            Operation::TSX => self.tsx(),
            Operation::TXS => self.txs(),
            Operation::PHA => self.pha(bus),
            Operation::PHP => self.php(bus),
            Operation::PLA => self.pla(bus),
            Operation::PLP => self.plp(bus),
            Operation::AND => self.and(bus),
            Operation::EOR => self.eor(bus),
            Operation::ORA => self.ora(bus),
            Operation::BIT => self.bit(bus),
            Operation::ADC => self.adc(bus),
            Operation::SBC => self.sbc(bus),
            Operation::CMP => self.cmp(bus),
            Operation::CPX => self.cpx(bus),
            Operation::CPY => self.cpy(bus),
            Operation::INC => self.inc(bus),
            Operation::INX => self.inx(),
            Operation::INY => self.iny(),
            Operation::DEC => self.dec(bus),
            Operation::DEX => self.dex(),
            Operation::DEY => self.dey(),
            Operation::ASL => self.asl(bus),
            Operation::LSR => self.lsr(bus),
            Operation::ROL => self.rol(bus),
            Operation::ROR => self.ror(bus),
            Operation::JMP => self.jmp(),
            Operation::JSR => self.jsr(bus),
            Operation::RTS => self.rts(bus),
            Operation::RTI => self.rti(bus),
            Operation::BCC => self.bcc(),
            Operation::BCS => self.bcs(),
            Operation::BEQ => self.beq(),
            Operation::BMI => self.bmi(),
            Operation::BNE => self.bne(),
            Operation::BPL => self.bpl(),
            Operation::BVC => self.bvc(),
            Operation::BVS => self.bvs(),
            Operation::CLC => self.clc(),
            Operation::CLD => self.cld(),
            Operation::CLI => self.cli(),
            Operation::CLV => self.clv(),
            Operation::SEC => self.sec(),
            Operation::SED => self.sed(),
            Operation::SEI => self.sei(),
            Operation::XXX => self.xxx(),
        }
    }

    /// One clock tick. Between instructions (no cycle owed) the next
    /// instruction is carried out whole: its opcode is fetched, U is forced
    /// to 1, its addressing mode resolved and its operation executed, and
    /// its cost in cycles charged. In either case one cycle is then paid off.
    pub fn clock(&mut self, bus: &mut Bus)
        ensures
            (final(self)@, final(bus)@) == machine::clock(old(self)@, old(bus)@),
    {
        if self.cycles == 0 {
            self.opcode = bus.read(self.pc, true);
            self.set_flag(FLAG6502_U, true);
            self.pc = self.pc.wrapping_add(1);

            let inst = lookup(self.opcode);
            self.cycles = inst.cycles;

            let ghost fetched = self@;
            let crossed: bool = self.resolve(inst.addrmode, bus);
            let ghost resolved = self@;
            let penalty: bool = self.execute(inst.operation, bus);
            proof {
                // The count stands between 2 and 9 here, so that neither the
                // penalty can overflow nor the tick underflow.
                lemma_cost_classes(self.opcode);
                machine::lemma_resolve_keeps_cycles(inst.addrmode, fetched, old(bus)@);
                machine::lemma_execute_adds_at_most_two_cycles(
                    inst.operation,
                    resolved,
                    old(bus)@,
                );
            }
            if crossed && penalty {
                self.cycles += 1;
            }
        }
        self.cycles -= 1;
    }

    /// Ticks the clock until no cycle is owed, and at least once. Between
    /// instructions this runs exactly one instruction; afterwards the
    /// processor is between instructions again.
    pub fn step_instruction(&mut self, bus: &mut Bus)
        ensures
            (final(self)@, final(bus)@) == machine::step(old(self)@, old(bus)@),
            final(self)@.cycles == 0,
    {
        self.clock(bus);
        let ghost ticked = self@;
        while self.cycles > 0
            invariant
                self@ == (CpuState { cycles: self@.cycles, ..ticked }),
                bus@ == machine::clock(old(self)@, old(bus)@).1,
            decreases self.cycles,
        {
            self.clock(bus);
        }
    }

    // What the outside world does to the processor
    /// Resets the processor: registers zero, the stack pointer at 0xFD, P
    /// with only U set, the program counter loaded from the reset vector at
    /// 0xFFFC, nothing in flight, and eight cycles to wait out. Memory is
    /// untouched.
    pub fn reset(&mut self, bus: &mut Bus)
        ensures
            final(self)@ == machine::reset(old(bus)@),
            final(bus)@ == old(bus)@,
    {
        self.a = 0;
        self.x = 0;
        self.y = 0;
        self.stkp = 0xFD;
        self.status = FLAG6502_U;

        self.addr_abs = RESET_VECTOR;
        self.pc = self.read_word(bus, self.addr_abs);

        self.addr_rel = 0x0000;
        self.addr_abs = 0x0000;
        self.fetched = 0x00;
        self.opcode = 0x00;

        self.cycles = 8;
    }

    /// Enters an interrupt handler: pushes the program counter and P (with
    /// B clear, U and I set) and continues at the address held at `vector`.
    fn interrupt(&mut self, bus: &mut Bus, vector: u16, cycles: u8)
        ensures
            (final(self)@, final(bus)@) == machine::interrupt(
                old(self)@,
                old(bus)@,
                vector,
                cycles,
            ),
    {
        self.push(bus, alu::high_byte(self.pc));
        self.push(bus, alu::low_byte(self.pc));

        self.set_flag(FLAG6502_B, false);
        self.set_flag(FLAG6502_U, true);
        self.set_flag(FLAG6502_I, true);
        self.push(bus, self.status);

        self.addr_abs = vector;
        self.pc = self.read_word(bus, self.addr_abs);

        self.cycles = cycles;
    }

    /// A maskable interrupt request. While I is set it is ignored; else
    /// the processor enters the handler whose address is held at 0xFFFE,
    /// which takes seven cycles.
    pub fn irq(&mut self, bus: &mut Bus)
        ensures
            (final(self)@, final(bus)@) == machine::irq(old(self)@, old(bus)@),
    {
        if self.get_flag(FLAG6502_I) == 0 {
            self.interrupt(bus, IRQ_VECTOR, 7);
        }
    }

    /// A non-maskable interrupt: the processor enters the handler whose
    /// address is held at 0xFFFA, which takes eight cycles.
    pub fn nmi(&mut self, bus: &mut Bus)
        ensures
            (final(self)@, final(bus)@) == machine::nmi(old(self)@, old(bus)@),
    {
        self.interrupt(bus, NMI_VECTOR, 8);
    }

    // What a harness needs to look inside
    /// The architectural registers: `(A, X, Y, S, PC, P)`.
    pub fn get_registers(&self) -> (registers: (u8, u8, u8, u8, u16, u8))
        ensures
            registers == (self@.a, self@.x, self@.y, self@.s, self@.pc, self@.p),
    {
        (self.a, self.x, self.y, self.stkp, self.pc, self.status)
    }

    /// Sets the architectural registers and leaves the rest as it is.
    pub fn set_registers(&mut self, a: u8, x: u8, y: u8, s: u8, pc: u16, p: u8)
        ensures
            final(self)@ == (CpuState { a, x, y, s, pc, p, ..old(self)@ }),
    {
        self.a = a;
        self.x = x;
        self.y = y;
        self.stkp = s;
        self.pc = pc;
        self.status = p;
    }

    /// The instruction in flight: `(fetched, addr_abs, addr_rel, opcode,
    /// cycles)`.
    pub fn get_state(&self) -> (state: (u8, u16, u16, u8, u8))
        ensures
            state == (
                self@.fetched,
                self@.addr_abs,
                self@.addr_rel,
                self@.opcode,
                self@.cycles,
            ),
    {
        (self.fetched, self.addr_abs, self.addr_rel, self.opcode, self.cycles)
    }

    /// The cycles that the instruction in flight still owes; 0 between
    /// instructions.
    pub fn get_remaining_cycles(&self) -> (cycles: u8)
        ensures
            cycles == self@.cycles,
    {
        self.cycles
    }

    /// Puts the processor between instructions, whatever was in flight.
    pub fn force_cycles_zero(&mut self)
        ensures
            final(self)@ == (CpuState { cycles: 0, ..old(self)@ }),
    {
        self.cycles = 0;
    }
}

} // verus!
