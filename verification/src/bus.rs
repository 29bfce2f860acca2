//! The memory bus: a flat, unmirrored 64 KiB byte array.

use crate::model::state::MEMORY_SIZE;
use vstd::prelude::*;

verus! {

/// A flat 64 KiB memory addressed by a 16-bit index.
pub struct Bus {
    ram: [u8; 65536],
}

impl View for Bus {
    type V = Seq<u8>;

    /// The memory image: byte `i` of the sequence is the byte at address `i`.
    closed spec fn view(&self) -> Seq<u8> {
        self.ram@
    }
}

impl Bus {
    /// Every bus holds exactly 65 536 bytes.
    pub broadcast proof fn lemma_view_len(&self)
        ensures
            #[trigger] self@.len() == MEMORY_SIZE,
    {
    }

    /// A bus with every byte zero.
    pub fn new() -> (bus: Self)
        ensures
            bus@ == Seq::new(MEMORY_SIZE as nat, |i: int| 0u8),
    {
        let bus = Self { ram: [0u8; 65536] };
        assert(bus@ =~= Seq::new(MEMORY_SIZE as nat, |i: int| 0u8));
        bus
    }

    /// The byte at `addr`. Reading has no side effect; `_read_only` is accepted
    /// for callers that distinguish inspecting reads from executing ones, and
    /// does not influence the result.
    pub fn read(&self, addr: u16, _read_only: bool) -> (data: u8)
        ensures
            data == self@[addr as int],
    {
        self.ram[addr as usize]
    }

    /// Stores `data` at `addr` and leaves every other byte as it was.
    pub fn write(&mut self, addr: u16, data: u8)
        ensures
            final(self)@ == old(self)@.update(addr as int, data),
    {
        self.ram[addr as usize] = data;
    }

    /// A copy of the `len` bytes starting at `start`.
    pub fn get_ram(&self, start: u16, len: usize) -> (bytes: Vec<u8>)
        requires
            start as int + len as int <= MEMORY_SIZE,
        ensures
            bytes@ == self@.subrange(start as int, start as int + len as int),
    {
        let first: usize = start as usize;
        let mut bytes: Vec<u8> = Vec::with_capacity(len);
        let mut i: usize = 0;
        while i < len
            invariant
                i <= len,
                first == start,
                first + len <= MEMORY_SIZE,
                bytes@ == self@.subrange(first as int, first as int + i as int),
            decreases len - i,
        {
            bytes.push(self.ram[first + i]);
            i = i + 1;
            assert(bytes@ =~= self@.subrange(first as int, first as int + i as int));
        }
        bytes
    }
}

} // verus!
