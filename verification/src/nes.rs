//! The console around the processor: the memory it owns and the
//! collaborators a full system would add. The picture and audio units,
//! the cartridge and the clock are placeholders here; they appear only as
//! the interfaces the memory bus would route to.

use vstd::prelude::*;

use crate::cpu::cpu::{CpuError, CPU};
use crate::memory::Memory;

verus! {

pub struct Cartridge {}

pub struct PPU {}

pub struct APU {}

pub struct Clock {}

/// The console: one processor with exclusive ownership of its memory.
pub struct Console {
    cpu: CPU,
    mem: Memory,
    car: Cartridge,
    ppu: PPU,
    apu: APU,
    clk: Clock,
}

impl Console {
    /// A console is well formed when its memory covers the whole address
    /// space.
    pub closed spec fn wf(&self) -> bool {
        self.mem.wf()
    }

    pub fn new() -> (c: Console)
        ensures
            c.wf(),
    {
        Console {
            cpu: CPU::new(),
            mem: Memory::new(),
            car: Cartridge {  },
            ppu: PPU {  },
            apu: APU {  },
            clk: Clock {  },
        }
    }

    /// Pull the reset line of the processor.
    pub fn reset(&mut self)
        requires
            old(self).wf(),
        ensures
            final(self).wf(),
    {
        self.cpu.reset(&mut self.mem);
    }

    /// Prepare the console for a new cartridge: the processor sees the
    /// reset line. Mapping the cartridge into the address space is the
    /// bus's concern and is not modelled here.
    pub fn load_cartridge(&mut self, filepath: &str)
        requires
            old(self).wf(),
        ensures
            final(self).wf(),
    {
        self.cpu.reset(&mut self.mem);
    }

    /// The game loop: step the processor until it faults on an
    /// undocumented opcode or the cycle counter runs out of headroom.
    pub fn run(&mut self) -> (r: Option<CpuError>)
        requires
            old(self).wf(),
        ensures
            final(self).wf(),
    {
        loop
            invariant
                self.wf(),
            decreases u64::MAX - self.cpu.cycles,
        {
            if self.cpu.cycles() > u64::MAX - 9 {
                return None;
            }
            match self.cpu.step(&mut self.mem) {
                Ok(_) => (),
                Err(e) => {
                    return Some(e);
                },
            }
        }
    }

    pub fn pause(&mut self)
        ensures
            *final(self) == *old(self),
    {
    }

    /// Store the state of the system; snapshotting is not modelled.
    pub fn save(&mut self, path: &str)
        ensures
            *final(self) == *old(self),
    {
    }

    pub fn load(&mut self, path: &str)
        ensures
            *final(self) == *old(self),
    {
    }

    pub fn poweroff(&mut self)
        ensures
            *final(self) == *old(self),
    {
    }
}

} // verus!
