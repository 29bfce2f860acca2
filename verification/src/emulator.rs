//! The emulator as a host sees it: one value that owns processor and memory,
//! loads programs, runs them, and hands out its state as plain numbers.

use crate::alu;
use crate::bus::Bus;
use crate::cpu::Olc6502;
use crate::model::arith::{high_byte, lemma_word_of_bytes, low_byte};
use crate::model::machine;
use crate::model::state::{read, written, CpuState, MEMORY_SIZE, RESET_VECTOR};
use vstd::prelude::*;

verus! {

/// A processor and its memory behind one handle.
pub struct Emulator {
    cpu: Olc6502,
    bus: Bus,
}

/// The memory image after storing `bytes` one by one from `offset` upwards,
/// wrapping from 0xFFFF to 0x0000: byte `i` goes to `(offset + i) mod 65536`,
/// and where a long program comes round to an address again, the later byte
/// stays.
pub open spec fn loaded(mem: Seq<u8>, bytes: Seq<u8>, offset: u16) -> Seq<u8>
    decreases bytes.len(),
{
    if bytes.len() == 0 {
        mem
    } else {
        written(
            loaded(mem, bytes.drop_last(), offset),
            ((offset + bytes.len() - 1) % 0x10000) as u16,
            bytes.last(),
        )
    }
}

/// The memory image after loading a program at `offset`: its bytes are in
/// place and the reset vector points at `offset`.
pub open spec fn with_program(mem: Seq<u8>, bytes: Seq<u8>, offset: u16) -> Seq<u8> {
    written(
        written(loaded(mem, bytes, offset), RESET_VECTOR, low_byte(offset)),
        RESET_VECTOR.wrapping_add(1),
        high_byte(offset),
    )
}

/// Loading keeps the size of the memory image. A program of at most 65 536
/// bytes is found in memory byte for byte, and every address outside it
/// holds what it held before.
pub proof fn lemma_loaded(mem: Seq<u8>, bytes: Seq<u8>, offset: u16)
    requires
        mem.len() == MEMORY_SIZE,
    ensures
        loaded(mem, bytes, offset).len() == MEMORY_SIZE,
        bytes.len() <= MEMORY_SIZE ==> forall|i: int|
            0 <= i < bytes.len() ==> loaded(mem, bytes, offset)[(offset + i) % 0x10000]
                == #[trigger] bytes[i],
        forall|addr: int|
            0 <= addr < MEMORY_SIZE && (addr - offset) % 0x10000 >= bytes.len()
                ==> #[trigger] loaded(mem, bytes, offset)[addr] == mem[addr],
    decreases bytes.len(),
{
    if bytes.len() > 0 {
        let front = bytes.drop_last();
        lemma_loaded(mem, front, offset);
        let last_addr = (offset + bytes.len() - 1) % 0x10000;
        if bytes.len() <= MEMORY_SIZE {
            assert forall|i: int| 0 <= i < bytes.len() implies loaded(mem, bytes, offset)[(offset
                + i) % 0x10000] == #[trigger] bytes[i] by {
                if i < bytes.len() - 1 {
                    assert(front[i] == bytes[i]);
                    assert((offset + i) % 0x10000 != last_addr);
                }
            }
        }
        assert forall|addr: int|
            0 <= addr < MEMORY_SIZE && (addr - offset) % 0x10000
                >= bytes.len() implies #[trigger] loaded(mem, bytes, offset)[addr] == mem[addr] by {
            assert(addr != last_addr);
        }
    }
}

impl Emulator {
    /// The processor state.
    pub closed spec fn cpu(&self) -> CpuState {
        self.cpu@
    }

    /// The memory image.
    pub closed spec fn memory(&self) -> Seq<u8> {
        self.bus@
    }

    /// An emulator with zeroed memory and a processor that has yet to be
    /// reset.
    pub fn new() -> (emulator: Self)
        ensures
            emulator.cpu() == machine::power_on(),
            emulator.memory() == Seq::new(MEMORY_SIZE as nat, |i: int| 0u8),
    {
        Self { cpu: Olc6502::new(), bus: Bus::new() }
    }

    /// Resets the processor.
    pub fn reset(&mut self)
        ensures
            final(self).cpu() == machine::reset(old(self).memory()),
            final(self).memory() == old(self).memory(),
    {
        self.cpu.reset(&mut self.bus);
    }

    /// One clock tick.
    pub fn clock(&mut self)
        ensures
            (final(self).cpu(), final(self).memory()) == machine::clock(
                old(self).cpu(),
                old(self).memory(),
            ),
    {
        self.cpu.clock(&mut self.bus);
    }

    /// Ticks the clock until no cycle is owed, and at least once.
    pub fn step_instruction(&mut self)
        ensures
            (final(self).cpu(), final(self).memory()) == machine::step(
                old(self).cpu(),
                old(self).memory(),
            ),
    {
        self.cpu.step_instruction(&mut self.bus);
    }

    /// Stores a program at `offset`, points the reset vector at it, and
    /// resets the processor, which will so start at `offset`.
    pub fn load_program(&mut self, bytes: &[u8], offset: u16)
        ensures
            final(self).memory() == with_program(old(self).memory(), bytes@, offset),
            final(self).cpu() == machine::reset(final(self).memory()),
            final(self).cpu().pc == offset,
    {
        let mut i: usize = 0;
        while i < bytes.len()
            invariant
                i <= bytes.len(),
                self.bus@ == loaded(old(self).bus@, bytes@.take(i as int), offset),
            decreases bytes.len() - i,
        {
            let index: u16 = #[verifier::truncate]
            (i as u16);
            assert(index == i % 0x10000) by (bit_vector)
                requires
                    index == i as u16,
            ;
            let addr: u16 = offset.wrapping_add(index);
            self.bus.write(addr, bytes[i]);
            proof {
                let next = bytes@.take(i + 1);
                assert(next.drop_last() == bytes@.take(i as int));
                assert(next.last() == bytes[i as int]);
                assert(addr == (offset + next.len() - 1) % 0x10000);
            }
            i += 1;
        }
        assert(bytes@.take(i as int) == bytes@);
        // Point the reset vector at the program.
        self.bus.write(RESET_VECTOR, alu::low_byte(offset));
        self.bus.write(RESET_VECTOR + 1, alu::high_byte(offset));

        self.reset();
        proof {
            let program = loaded(old(self).bus@, bytes@, offset);
            let low = written(program, RESET_VECTOR, low_byte(offset));
            old(self).bus.lemma_view_len();
            lemma_loaded(old(self).bus@, bytes@, offset);
            assert(read(self.bus@, 0xFFFD) == high_byte(offset));
            assert(read(self.bus@, RESET_VECTOR) == read(low, RESET_VECTOR));
            lemma_word_of_bytes(offset);
        }
    }

    /// The architectural registers, widened: `[A, X, Y, S, PC, P]`.
    pub fn get_registers(&self) -> (registers: Vec<u32>)
        ensures
            registers@ == seq![
                self.cpu().a as u32,
                self.cpu().x as u32,
                self.cpu().y as u32,
                self.cpu().s as u32,
                self.cpu().pc as u32,
                self.cpu().p as u32,
            ],
    {
        let (a, x, y, stkp, pc, status) = self.cpu.get_registers();
        let registers = vec![a as u32, x as u32, y as u32, stkp as u32, pc as u32, status as u32];
        registers
    }

    /// The instruction in flight, widened: `[fetched, addr_abs, addr_rel,
    /// opcode, cycles]`.
    pub fn get_cpu_state(&self) -> (state: Vec<u32>)
        ensures
            state@ == seq![
                self.cpu().fetched as u32,
                self.cpu().addr_abs as u32,
                self.cpu().addr_rel as u32,
                self.cpu().opcode as u32,
                self.cpu().cycles as u32,
            ],
    {
        let (fetched, addr_abs, addr_rel, opcode, cycles) = self.cpu.get_state();
        let state = vec![
            fetched as u32,
            addr_abs as u32,
            addr_rel as u32,
            opcode as u32,
            cycles as u32,
        ];
        state
    }

    /// A copy of the `len` bytes of memory starting at `start`.
    pub fn get_ram(&self, start: u16, len: usize) -> (bytes: Vec<u8>)
        requires
            start as int + len as int <= MEMORY_SIZE,
        ensures
            bytes@ == self.memory().subrange(start as int, start as int + len as int),
    {
        self.bus.get_ram(start, len)
    }
}

} // verus!
