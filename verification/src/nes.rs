//! The console: a processor and the bus it runs against, owned together.

use crate::bus::Bus;
use crate::cpu::Olc6502;
use crate::model::machine;
use crate::model::state::MEMORY_SIZE;
use vstd::prelude::*;

verus! {

/// A processor together with its memory.
pub struct Nes {
    pub cpu: Olc6502,
    pub bus: Bus,
}

impl Nes {
    /// A console with zeroed memory and a processor that has yet to be
    /// reset.
    pub fn new() -> (nes: Self)
        ensures
            nes.cpu@ == machine::power_on(),
            nes.bus@ == Seq::new(MEMORY_SIZE as nat, |i: int| 0u8),
    {
        Self { cpu: Olc6502::new(), bus: Bus::new() }
    }

    /// Resets the processor against the console's memory.
    pub fn reset(&mut self)
        ensures
            final(self).cpu@ == machine::reset(old(self).bus@),
            final(self).bus@ == old(self).bus@,
    {
        self.cpu.reset(&mut self.bus);
    }

    /// One clock tick of the processor.
    pub fn clock(&mut self)
        ensures
            (final(self).cpu@, final(self).bus@) == machine::clock(old(self).cpu@, old(self).bus@),
    {
        self.cpu.clock(&mut self.bus);
    }
}

} // verus!
